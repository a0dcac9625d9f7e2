use nutune::manifest::{SyncManifest, SyncedAlbum, SyncedPlaylist};
use nutune::models::{Album, Playlist, SyncSelection};
use nutune::reconcile::{calculate_deletions, reconcile, DeletionSelection};

fn album(id: &str, name: &str) -> Album {
    Album {
        id: id.to_string(),
        name: name.to_string(),
        artist: None,
        artist_id: None,
        cover_art: None,
        song_count: None,
        duration: None,
        year: None,
        genre: None,
    }
}

fn playlist(id: &str) -> Playlist {
    Playlist {
        id: id.to_string(),
        name: id.to_uppercase(),
        song_count: None,
        duration: None,
        owner: None,
        public: None,
        cover_art: None,
    }
}

fn manifest(albums: &[(&str, &str)], playlists: &[&str]) -> SyncManifest {
    let mut m = SyncManifest::new("u", 100);
    for (id, name) in albums {
        m.add_album(SyncedAlbum {
            id: id.to_string(),
            artist: "Art".to_string(),
            album: name.to_string(),
            track_count: 1,
            synced_at: 0,
        }, 100);
    }
    for id in playlists {
        m.add_playlist(SyncedPlaylist { id: id.to_string(), name: id.to_uppercase(), track_count: 1, synced_at: 0 }, 100);
    }
    m
}

#[test]
fn reconcile_is_set_difference_both_ways() {
    let sel = SyncSelection {
        albums: vec![album("c", "C"), album("a", "A"), album("d", "D")],
        playlists: vec![playlist("p"), playlist("q")],
    };
    let m = manifest(&[("a", "A"), ("b", "B")], &["q", "r"]);
    let plan = reconcile(&sel, &m);
    assert_eq!(plan.albums_to_add, vec!["c".to_string(), "d".to_string()]);
    assert_eq!(plan.playlists_to_add, vec!["p".to_string()]);
    assert_eq!(plan.deletions.albums, vec![("b".to_string(), "Art".to_string(), "B".to_string())]);
    assert_eq!(plan.deletions.playlists, vec![("r".to_string(), "R".to_string())]);
}

#[test]
fn renamed_album_is_neither_added_nor_deleted() {
    let sel = SyncSelection { albums: vec![album("a", "New Name")], playlists: vec![] };
    let m = manifest(&[("a", "Old Name")], &[]);
    let plan = reconcile(&sel, &m);
    assert!(plan.albums_to_add.is_empty());
    assert!(plan.deletions.is_empty());
}

#[test]
fn empty_inputs() {
    let plan = reconcile(&SyncSelection::new(), &SyncManifest::new("u", 100));
    assert!(plan.albums_to_add.is_empty() && plan.playlists_to_add.is_empty());
    assert!(plan.deletions.is_empty());
    let d = calculate_deletions(&SyncSelection::new(), &manifest(&[("a", "A")], &[]));
    assert!(!d.is_empty());
    assert!(DeletionSelection::new().is_empty());
}

#[test]
fn deletions_list_each_manifest_id_once() {
    let m = manifest(&[("a", "A"), ("b", "B"), ("c", "C")], &["p", "q"]);
    let sel = SyncSelection { albums: vec![album("b", "B")], playlists: vec![] };
    let d = calculate_deletions(&sel, &m);
    let ids: Vec<&str> = d.albums.iter().map(|e| e.0.as_str()).collect();
    assert_eq!(ids, vec!["a", "c"]);
    assert_eq!(d.playlists.len(), 2);
    assert_ne!(d.playlists[0].0, d.playlists[1].0);
}

#[test]
fn scoped_deletions_leave_other_kind_alone() {
    let m = manifest(&[("a", "A")], &["p"]);
    let d = calculate_deletions(&SyncSelection::new(), &m);
    let only_albums = d.clone().scoped(true, false);
    assert_eq!(only_albums.albums.len(), 1);
    assert!(only_albums.playlists.is_empty());
    let only_playlists = d.scoped(false, true);
    assert!(only_playlists.albums.is_empty());
    assert_eq!(only_playlists.playlists, vec![("p".to_string(), "P".to_string())]);
}
