use nutune::models::{Album, Song};
use nutune::pipeline::{
    album_download_tasks, collect_downloads, process_track, total_bytes, track_extension,
    DownloadResult, PipelineConfig,
};

fn song(id: &str, title: &str, track: Option<u32>, suffix: Option<&str>) -> Song {
    Song {
        id: id.to_string(),
        title: title.to_string(),
        album: None,
        album_id: None,
        artist: None,
        artist_id: None,
        track,
        disc_number: None,
        duration: None,
        size: None,
        suffix: suffix.map(|s| s.to_string()),
        content_type: None,
        cover_art: None,
        path: None,
    }
}

fn album(id: &str, name: &str, artist: Option<&str>) -> Album {
    Album {
        id: id.to_string(),
        name: name.to_string(),
        artist: artist.map(|s| s.to_string()),
        artist_id: None,
        cover_art: None,
        song_count: None,
        duration: None,
        year: None,
        genre: None,
    }
}

#[test]
fn test_pipeline_config_default() {
    let config = PipelineConfig::default();
    assert_eq!(config.download_parallelism, 4);
    assert_eq!(config.processing_parallelism, 2);
}

#[test]
fn processing_parallelism_is_half_but_at_least_one() {
    assert_eq!(PipelineConfig::for_parallelism(8).processing_parallelism, 4);
    assert_eq!(PipelineConfig::for_parallelism(5).processing_parallelism, 2);
    assert_eq!(PipelineConfig::for_parallelism(1).processing_parallelism, 1);
    assert_eq!(PipelineConfig::for_parallelism(0).processing_parallelism, 1);
    assert_eq!(PipelineConfig::for_parallelism(8).download_parallelism, 8);
}

#[test]
fn album_tasks_use_album_artist_or_unknown() {
    let songs = vec![song("1", "a", Some(1), None), song("2", "b", Some(2), None)];
    let tasks = album_download_tasks(&album("x", "X", None), songs);
    assert_eq!(tasks.len(), 2);
    assert_eq!(tasks[0].artist, "Unknown Artist");
    assert_eq!(tasks[1].album, "X");
    assert_eq!(tasks[1].song.id, "2");
}

#[test]
fn one_failed_download_of_ten_leaves_nine_tracks() {
    let songs: Vec<Song> = (1..=10).map(|n| song(&n.to_string(), "t", Some(n), Some("flac"))).collect();
    let tasks = album_download_tasks(&album("x", "X", Some("A")), songs);
    let results: Vec<Option<DownloadResult>> = tasks
        .into_iter()
        .map(|t| {
            if t.song.id == "4" {
                None
            } else {
                Some(DownloadResult { song: t.song, data: vec![0u8; 10], artist: t.artist, album: t.album })
            }
        })
        .collect();
    let downloaded = collect_downloads(results);
    assert_eq!(downloaded.len(), 9);
    let numbers: Vec<u32> = downloaded.iter().map(|t| t.track_number).collect();
    assert_eq!(numbers, vec![1, 2, 3, 5, 6, 7, 8, 9, 10]);
}

#[test]
fn track_number_defaults_to_one() {
    let r = DownloadResult {
        song: song("1", "t", None, None),
        data: vec![1],
        artist: "A".to_string(),
        album: "X".to_string(),
    };
    let d = collect_downloads(vec![Some(r)]);
    assert_eq!(d[0].track_number, 1);
}

#[test]
fn failed_embedding_falls_back_to_downloaded_bytes() {
    let r = DownloadResult {
        song: song("1", "t", Some(3), None),
        data: vec![1, 2, 3],
        artist: "A".to_string(),
        album: "X".to_string(),
    };
    let mut d = collect_downloads(vec![Some(r)]);
    let t = d.remove(0);
    let kept = process_track(t.clone(), None);
    assert_eq!(kept.final_audio_data, vec![1, 2, 3]);
    let embedded = process_track(t, Some(vec![9, 9, 9, 9]));
    assert_eq!(embedded.final_audio_data, vec![9, 9, 9, 9]);
    assert_eq!(embedded.track_number, 3);
    assert_eq!(total_bytes(&vec![kept, embedded]), 7);
}

#[test]
fn extension_defaults_to_mp3() {
    assert_eq!(track_extension(&song("1", "t", None, None)), "mp3");
    assert_eq!(track_extension(&song("1", "t", None, Some("flac"))), "flac");
}
