use nutune::engine::SyncProgress;
use nutune::progress::{log_line_for, SyncProgressInfo};

#[test]
fn log_records_every_failure_and_completion() {
    let mut info = SyncProgressInfo::new();
    info.apply(SyncProgress::DeletionStarted { albums_to_delete: 2, playlists_to_delete: 0 });
    info.apply(SyncProgress::AlbumDeleteFailed {
        artist: "A".to_string(),
        album: "X".to_string(),
        error: "permission denied".to_string(),
    });
    info.apply(SyncProgress::AlbumDeleted { artist: "B".to_string(), album: "Y".to_string() });
    info.apply(SyncProgress::Started { total_albums: 2, total_playlists: 1 });
    info.apply(SyncProgress::AlbumStarted { artist: "A".to_string(), album: "Z".to_string(), track_count: 3 });
    info.apply(SyncProgress::TrackCompleted { track_num: 3, total_tracks: 3 });
    info.apply(SyncProgress::AlbumCompleted { artist: "A".to_string(), album: "Z".to_string() });
    info.apply(SyncProgress::Error { message: "Playlist P: timeout".to_string() });
    assert_eq!(
        info.log_messages,
        vec![
            "Deleting 2 albums, 0 playlists...",
            "  DELETE FAILED: A - X (permission denied)",
            "  Deleted: B - Y",
            "Starting sync: 2 albums, 1 playlists",
            "Syncing: A - Z (3 tracks)",
            "  Completed: A - Z",
            "ERROR: Playlist P: timeout",
        ]
    );
    assert_eq!(info.albums_total, 2);
    assert_eq!(info.albums_completed, 1);
    assert_eq!(info.tracks_completed, 3);
    assert_eq!(info.current_album, "Z");
    assert_eq!(info.error.as_deref(), Some("Playlist P: timeout"));
    assert!(!info.is_complete);
}

#[test]
fn completion_line_with_sizes_and_deletions() {
    let done = |bytes: u64, albums_deleted: usize| SyncProgress::Complete {
        albums_synced: 1,
        playlists_synced: 0,
        tracks_downloaded: 3,
        bytes_downloaded: bytes,
        albums_deleted,
        playlists_deleted: 0,
    };
    assert_eq!(
        log_line_for(&done(1572864, 0)).unwrap(),
        "Sync complete! 1 albums, 0 playlists, 3 tracks (1.5 MB)"
    );
    assert_eq!(
        log_line_for(&done(0, 1)).unwrap(),
        "Sync complete! 1 albums, 0 playlists, 3 tracks (0.0 MB), deleted 1 albums, 0 playlists"
    );
    assert_eq!(
        log_line_for(&done(1048575, 0)).unwrap(),
        "Sync complete! 1 albums, 0 playlists, 3 tracks (1.0 MB)"
    );
    let mut info = SyncProgressInfo::new();
    info.apply(done(2097152, 0));
    assert!(info.is_complete);
    assert_eq!(info.bytes_downloaded, 2097152);
}

#[test]
fn playlist_lines() {
    let mut info = SyncProgressInfo::new();
    info.apply(SyncProgress::PlaylistStarted { name: "Road".to_string(), track_count: 2 });
    assert_eq!(info.current_artist, "Playlist");
    info.apply(SyncProgress::PlaylistSkipped { name: "Old".to_string() });
    info.apply(SyncProgress::PlaylistDeleteFailed { name: "Gone".to_string(), error: "busy".to_string() });
    assert_eq!(
        info.log_messages,
        vec![
            "Syncing playlist: Road (2 tracks)",
            "  Skipped playlist (already synced): Old",
            "  DELETE FAILED: Gone (busy)",
        ]
    );
    assert_eq!(log_line_for(&SyncProgress::TrackCompleted { track_num: 1, total_tracks: 2 }), None);
}

#[test]
fn events_leave_unrelated_fields_alone() {
    let mut info = SyncProgressInfo::new();
    info.apply(SyncProgress::Started { total_albums: 3, total_playlists: 0 });
    info.apply(SyncProgress::AlbumStarted { artist: "A".to_string(), album: "Z".to_string(), track_count: 4 });
    info.apply(SyncProgress::TrackCompleted { track_num: 2, total_tracks: 4 });
    info.apply(SyncProgress::Error { message: "boom".to_string() });
    info.apply(SyncProgress::AlbumDeleteFailed { artist: "B".to_string(), album: "Y".to_string(), error: "e".to_string() });
    assert_eq!(info.albums_total, 3);
    assert_eq!(info.current_artist, "A");
    assert_eq!(info.current_album, "Z");
    assert_eq!(info.tracks_completed, 2);
    assert_eq!(info.tracks_total, 4);
    assert_eq!(info.error.as_deref(), Some("boom"));
}
