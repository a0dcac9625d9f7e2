use nutune::manifest::{SyncManifest, SyncedAlbum, SyncedPlaylist};

fn rec(id: &str, album: &str, count: u32) -> SyncedAlbum {
    SyncedAlbum {
        id: id.to_string(),
        artist: "A".to_string(),
        album: album.to_string(),
        track_count: count,
        synced_at: 0,
    }
}

#[test]
fn new_manifest_is_empty() {
    let m = SyncManifest::new("http://server", 100);
    assert_eq!(m.version, 1);
    assert_eq!(m.last_sync, 100);
    assert_eq!(m.subsonic_url, "http://server");
    assert!(m.synced_albums.is_empty());
    assert!(m.synced_playlists.is_empty());
}

#[test]
fn upsert_twice_keeps_one_record_equal_to_the_second() {
    let mut m = SyncManifest::new("u", 100);
    m.add_album(rec("a1", "Old", 3), 100);
    m.add_album(rec("b", "Other", 1), 100);
    m.add_album(rec("a1", "New", 5), 100);
    let with_id: Vec<&SyncedAlbum> = m.synced_albums.iter().filter(|a| a.id == "a1").collect();
    assert_eq!(with_id.len(), 1);
    assert_eq!(*with_id[0], rec("a1", "New", 5));
    assert_eq!(m.synced_albums.len(), 2);
    assert_eq!(m.synced_albums[0].id, "b");
}

#[test]
fn synced_lookup_and_removal() {
    let mut m = SyncManifest::new("u", 100);
    m.add_playlist(SyncedPlaylist { id: "p".to_string(), name: "P".to_string(), track_count: 2, synced_at: 0 }, 100);
    m.add_album(rec("a", "X", 1), 100);
    assert!(m.is_album_synced("a"));
    assert!(!m.is_album_synced("p"));
    assert!(m.is_playlist_synced("p"));
    m.remove_album("missing");
    assert_eq!(m.synced_albums.len(), 1);
    m.remove_album("a");
    assert!(!m.is_album_synced("a"));
    m.remove_playlist("p");
    assert!(!m.is_playlist_synced("p"));
}

#[test]
fn removal_drops_every_duplicate() {
    let mut m = SyncManifest::new("u", 100);
    m.synced_albums = vec![rec("a", "1", 1), rec("b", "2", 1), rec("a", "3", 1)];
    m.remove_album("a");
    assert_eq!(m.synced_albums, vec![rec("b", "2", 1)]);
}

#[test]
fn upsert_sets_last_sync() {
    let mut m = SyncManifest::new("u", 100);
    m.add_album(rec("a", "X", 1), 250);
    assert_eq!(m.last_sync, 250);
    m.add_playlist(SyncedPlaylist { id: "p".to_string(), name: "P".to_string(), track_count: 1, synced_at: 300 }, 300);
    assert_eq!(m.last_sync, 300);
    m.remove_album("a");
    assert_eq!(m.last_sync, 300);
}
