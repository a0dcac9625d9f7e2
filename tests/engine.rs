use nutune::engine::{Phase, SyncProgress, SyncSession, UnitAction};
use nutune::manifest::{SyncManifest, SyncedAlbum, SyncedPlaylist};
use nutune::models::{Album, Playlist, Song, SyncSelection};
use nutune::pipeline::{
    album_download_tasks, collect_downloads, process_track, total_bytes, track_extension,
    DownloadResult, ProcessedTrack,
};

fn song(n: u32) -> Song {
    Song {
        id: format!("s{}", n),
        title: format!("Song {}", n),
        album: None,
        album_id: None,
        artist: None,
        artist_id: None,
        track: Some(n),
        disc_number: None,
        duration: None,
        size: None,
        suffix: Some("flac".to_string()),
        content_type: None,
        cover_art: None,
        path: None,
    }
}

fn album(id: &str, name: &str) -> Album {
    Album {
        id: id.to_string(),
        name: name.to_string(),
        artist: Some("Artist".to_string()),
        artist_id: None,
        cover_art: None,
        song_count: Some(3),
        duration: None,
        year: None,
        genre: None,
    }
}

fn playlist(id: &str, name: &str) -> Playlist {
    Playlist {
        id: id.to_string(),
        name: name.to_string(),
        song_count: None,
        duration: None,
        owner: None,
        public: None,
        cover_art: None,
    }
}

/// Runs one album through download (all succeed), processing (no cover)
/// and writing, and returns the paths written.
fn run_album(session: &mut SyncSession, a: &Album, tracks: u32) -> (Vec<String>, SyncProgress) {
    let songs: Vec<Song> = (1..=tracks).map(song).collect();
    let tasks = album_download_tasks(a, songs);
    let results: Vec<Option<DownloadResult>> = tasks
        .into_iter()
        .map(|t| Some(DownloadResult { song: t.song, data: vec![7u8; 4], artist: t.artist, album: t.album }))
        .collect();
    let processed: Vec<ProcessedTrack> =
        collect_downloads(results).into_iter().map(|t| process_track(t, None)).collect();
    let paths = processed
        .iter()
        .map(|t| {
            session.storage.album_track_path(
                &t.artist,
                &t.album,
                t.track_number,
                &t.song.title,
                &track_extension(&t.song),
            )
        })
        .collect();
    let bytes = total_bytes(&processed);
    let ev = session.album_finished(a, processed.len(), bytes, 200);
    (paths, ev)
}

#[test]
fn new_album_on_empty_manifest_is_written_and_recorded() {
    let selection = SyncSelection { albums: vec![album("x", "X")], playlists: vec![] };
    let mut session = SyncSession::new("/media/player".to_string(), None, 4, 100);
    assert_eq!(session.phase, Phase::Idle);
    let plan = session.plan(&selection);
    assert_eq!(session.phase, Phase::Deleting);
    assert!(plan.deletions.is_empty());
    assert_eq!(plan.albums_to_add, vec!["x".to_string()]);
    assert_eq!(session.deletion_started(&plan.deletions), None);
    assert_eq!(
        session.started(&selection),
        SyncProgress::Started { total_albums: 1, total_playlists: 0 }
    );
    let a = &selection.albums[0];
    assert!(!session.album_is_synced(a));
    let (paths, ev) = run_album(&mut session, a, 3);
    assert_eq!(
        paths,
        vec![
            "/media/player/Artists/Artist/X/01 - Song 1.flac".to_string(),
            "/media/player/Artists/Artist/X/02 - Song 2.flac".to_string(),
            "/media/player/Artists/Artist/X/03 - Song 3.flac".to_string(),
        ]
    );
    assert_eq!(ev, SyncProgress::AlbumCompleted { artist: "Artist".to_string(), album: "X".to_string() });
    assert_eq!(session.manifest.synced_albums.len(), 1);
    assert_eq!(session.manifest.synced_albums[0].id, "x");
    assert_eq!(session.manifest.synced_albums[0].track_count, 3);
    session.units_finished();
    assert_eq!(session.phase, Phase::Persisting);
    assert_eq!(
        session.complete(),
        SyncProgress::Complete {
            albums_synced: 1,
            playlists_synced: 0,
            tracks_downloaded: 3,
            bytes_downloaded: 12,
            albums_deleted: 0,
            playlists_deleted: 0,
        }
    );
}

#[test]
fn deselected_playlist_is_deleted() {
    let mut manifest = SyncManifest::new("u", 100);
    manifest.add_playlist(SyncedPlaylist { id: "p".to_string(), name: "P".to_string(), track_count: 4, synced_at: 0 }, 100);
    let selection = SyncSelection { albums: vec![], playlists: vec![] };
    let mut session = SyncSession::new("/mnt/x".to_string(), Some(manifest), 4, 100);
    let plan = session.plan(&selection);
    assert_eq!(plan.deletions.playlists, vec![("p".to_string(), "P".to_string())]);
    assert_eq!(
        session.deletion_started(&plan.deletions),
        Some(SyncProgress::DeletionStarted { albums_to_delete: 0, playlists_to_delete: 1 })
    );
    let entry = plan.deletions.playlists[0].clone();
    assert_eq!(session.storage.playlist_dir(&entry.1), "/mnt/x/Playlists/P");
    let ev = session.playlist_deletion_finished(&entry, Ok(()));
    assert_eq!(ev, SyncProgress::PlaylistDeleted { name: "P".to_string() });
    assert!(!session.manifest.is_playlist_synced("p"));
    session.started(&selection);
    session.units_finished();
    match session.complete() {
        SyncProgress::Complete { playlists_deleted, albums_deleted, .. } => {
            assert_eq!(playlists_deleted, 1);
            assert_eq!(albums_deleted, 0);
        }
        other => panic!("unexpected event {:?}", other),
    }
}

#[test]
fn failed_deletion_keeps_record_and_other_deletion_proceeds() {
    let mut manifest = SyncManifest::new("u", 100);
    for id in ["a", "b"] {
        manifest.add_album(SyncedAlbum {
            id: id.to_string(),
            artist: "Art".to_string(),
            album: id.to_uppercase(),
            track_count: 1,
            synced_at: 0,
        }, 100);
    }
    let mut session = SyncSession::new("/mnt/x".to_string(), Some(manifest), 2, 100);
    let plan = session.plan(&SyncSelection::new());
    assert_eq!(plan.deletions.albums.len(), 2);
    let a = plan.deletions.albums[0].clone();
    let b = plan.deletions.albums[1].clone();
    let ev_a = session.album_deletion_finished(&a, Err("permission denied".to_string()));
    assert_eq!(
        ev_a,
        SyncProgress::AlbumDeleteFailed {
            artist: "Art".to_string(),
            album: "A".to_string(),
            error: "permission denied".to_string(),
        }
    );
    let ev_b = session.album_deletion_finished(&b, Ok(()));
    assert_eq!(ev_b, SyncProgress::AlbumDeleted { artist: "Art".to_string(), album: "B".to_string() });
    assert!(session.manifest.is_album_synced("a"));
    assert!(!session.manifest.is_album_synced("b"));
    assert_eq!(session.albums_deleted, 1);
}

#[test]
fn second_run_with_same_selection_skips_everything() {
    let selection = SyncSelection { albums: vec![album("x", "X"), album("y", "Y")], playlists: vec![playlist("p", "P")] };
    let mut first = SyncSession::new("/mnt/x".to_string(), None, 4, 100);
    first.plan(&selection);
    first.started(&selection);
    for a in &selection.albums {
        run_album(&mut first, a, 2);
    }
    first.playlist_finished(&selection.playlists[0], 2, 10, 200);
    let saved = first.manifest.clone();
    let mut second = SyncSession::new("/mnt/x".to_string(), Some(saved), 4, 100);
    let plan = second.plan(&selection);
    assert!(plan.albums_to_add.is_empty());
    assert!(plan.playlists_to_add.is_empty());
    assert!(plan.deletions.is_empty());
    second.started(&selection);
    for a in &selection.albums {
        assert!(second.album_is_synced(a));
        assert!(matches!(second.album_action(a), UnitAction::Skip(SyncProgress::AlbumSkipped { .. })));
    }
    assert_eq!(
        second.playlist_action(&selection.playlists[0]),
        UnitAction::Skip(SyncProgress::PlaylistSkipped { name: "P".to_string() })
    );
    second.units_finished();
    match second.complete() {
        SyncProgress::Complete { albums_synced, playlists_synced, tracks_downloaded, .. } => {
            assert_eq!((albums_synced, playlists_synced, tracks_downloaded), (0, 0, 0));
        }
        other => panic!("unexpected event {:?}", other),
    }
    assert_eq!(second.phase, Phase::Done);
}

#[test]
fn unit_failure_reports_message_and_leaves_manifest() {
    let session = SyncSession::new("/mnt/x".to_string(), None, 4, 100);
    let ev = session.album_failed(&album("x", "X"), "catalog unreachable");
    assert_eq!(ev, SyncProgress::Error { message: "Album Artist - X: catalog unreachable".to_string() });
    let ev = session.playlist_failed(&playlist("p", "Road"), "boom");
    assert_eq!(ev, SyncProgress::Error { message: "Playlist Road: boom".to_string() });
    assert!(session.manifest.synced_albums.is_empty());
}

#[test]
fn album_with_every_download_failed_still_completes() {
    let mut session = SyncSession::new("/mnt/x".to_string(), None, 4, 100);
    let selection = SyncSelection { albums: vec![album("x", "X")], playlists: vec![] };
    session.plan(&selection);
    session.started(&selection);
    let a = album("x", "X");
    assert_eq!(session.album_action(&a), UnitAction::Sync);
    let downloaded = collect_downloads(vec![None, None, None]);
    assert!(downloaded.is_empty());
    let ev = session.album_finished(&a, downloaded.len(), 0, 200);
    assert_eq!(ev, SyncProgress::AlbumCompleted { artist: "Artist".to_string(), album: "X".to_string() });
    assert!(session.manifest.is_album_synced("x"));
    assert_eq!(session.manifest.synced_albums[0].track_count, 0);
    assert_eq!(session.result.albums_synced, 1);
    assert_eq!(session.result.tracks_downloaded, 0);
    assert_eq!(
        session.album_action(&a),
        UnitAction::Skip(SyncProgress::AlbumSkipped { artist: "Artist".to_string(), album: "X".to_string() })
    );
}

#[test]
fn playlist_events() {
    let mut session = SyncSession::new("/mnt/x".to_string(), None, 4, 100);
    let p = playlist("p", "Road");
    let selection = SyncSelection { albums: vec![], playlists: vec![p.clone()] };
    session.plan(&selection);
    session.started(&selection);
    assert_eq!(
        session.playlist_started(&p, 5),
        SyncProgress::PlaylistStarted { name: "Road".to_string(), track_count: 5 }
    );
    assert_eq!(
        session.downloads_finished(4, 5),
        SyncProgress::TrackCompleted { track_num: 4, total_tracks: 5 }
    );
    assert_eq!(session.playlist_action(&p), UnitAction::Sync);
    let ev = session.playlist_finished(&p, 4, 400, 200);
    assert_eq!(ev, SyncProgress::PlaylistCompleted { name: "Road".to_string() });
    assert_eq!(session.manifest.synced_playlists[0].track_count, 4);
    assert_eq!(session.result.playlists_synced, 1);
    assert_eq!(session.result.bytes_downloaded, 400);
    assert_eq!(session.pipeline_config.processing_parallelism, 2);
}

#[test]
fn album_with_one_failed_download_is_synced_with_the_rest() {
    let mut session = SyncSession::new("/mnt/x".to_string(), None, 4, 100);
    let a = album("ten", "Ten");
    let selection = SyncSelection { albums: vec![a.clone()], playlists: vec![] };
    session.plan(&selection);
    session.started(&selection);
    let songs: Vec<Song> = (1..=10).map(song).collect();
    let tasks = album_download_tasks(&a, songs);
    let results: Vec<Option<DownloadResult>> = tasks
        .into_iter()
        .map(|t| {
            if t.song.id == "s7" {
                None
            } else {
                Some(DownloadResult { song: t.song, data: vec![1u8; 5], artist: t.artist, album: t.album })
            }
        })
        .collect();
    let downloaded = collect_downloads(results);
    assert_eq!(
        session.downloads_finished(downloaded.len(), 10),
        SyncProgress::TrackCompleted { track_num: 9, total_tracks: 10 }
    );
    let processed: Vec<ProcessedTrack> = downloaded.into_iter().map(|t| process_track(t, None)).collect();
    assert_eq!(processed.len(), 9);
    let ev = session.album_finished(&a, processed.len(), total_bytes(&processed), 200);
    assert_eq!(ev, SyncProgress::AlbumCompleted { artist: "Artist".to_string(), album: "Ten".to_string() });
    assert!(session.manifest.is_album_synced("ten"));
    assert_eq!(session.manifest.synced_albums[0].track_count, 9);
    assert_eq!(session.manifest.synced_albums[0].synced_at, 200);
    assert_eq!(session.manifest.last_sync, 200);
    assert_eq!(session.result.tracks_downloaded, 9);
    assert_eq!(session.result.bytes_downloaded, 45);
}

#[test]
fn playlist_with_no_tracks_written_completes() {
    let mut session = SyncSession::new("/mnt/x".to_string(), None, 4, 100);
    let p = playlist("p", "Empty");
    let selection = SyncSelection { albums: vec![], playlists: vec![p.clone()] };
    session.plan(&selection);
    session.started(&selection);
    let ev = session.playlist_finished(&p, 0, 0, 200);
    assert_eq!(ev, SyncProgress::PlaylistCompleted { name: "Empty".to_string() });
    assert_eq!(session.result.playlists_synced, 1);
    assert_eq!(session.manifest.synced_playlists[0].track_count, 0);
}
