//! The stages a unit of work goes through: download tasks are built from a
//! unit's songs, failed downloads are dropped, each downloaded track is
//! processed (cover embedded, or left as downloaded when embedding is not
//! possible), and the processed tracks are written in order.

use vstd::prelude::*;
use vstd::string::*;
use crate::models::{Album, Playlist, Song};

verus! {

/// Artist name used when the catalog gives none.
pub const UNKNOWN_ARTIST: &'static str = "Unknown Artist";

/// File extension used when a song has no suffix.
pub const DEFAULT_EXTENSION: &'static str = "mp3";

/// Concurrency limits of the download and processing stages.
#[derive(Debug, Clone, Copy, PartialEq, Eq)]
pub struct PipelineConfig {
    /// Number of concurrent downloads (network-bound).
    pub download_parallelism: usize,
    /// Number of concurrent cover-embedding tasks (CPU-bound).
    pub processing_parallelism: usize,
}

impl Default for PipelineConfig {
    fn default() -> (r: Self)
        ensures
            r.download_parallelism == 4,
            r.processing_parallelism == 2,
    {
        PipelineConfig { download_parallelism: 4, processing_parallelism: 2 }
    }
}

/// Downloads at the given parallelism, processing at half of it but at
/// least one.
pub open spec fn config_for(parallel: usize) -> PipelineConfig {
    PipelineConfig {
        download_parallelism: parallel,
        processing_parallelism: if parallel / 2 >= 1 {
            parallel / 2
        } else {
            1
        },
    }
}

impl PipelineConfig {
    /// Downloads at the given parallelism, processing at half of it but at
    /// least one.
    pub fn for_parallelism(parallel: usize) -> (r: Self)
        ensures
            r == config_for(parallel),
    {
        let half = parallel / 2;
        PipelineConfig {
            download_parallelism: parallel,
            processing_parallelism: if half >= 1 {
                half
            } else {
                1
            },
        }
    }
}

/// Download task for a single song.
#[derive(Debug, Clone)]
pub struct DownloadTask {
    /// Song to download.
    pub song: Song,
    /// Artist used for naming the file.
    pub artist: String,
    /// Album (or playlist) used for naming the file.
    pub album: String,
}

/// A finished download.
#[derive(Debug, Clone)]
pub struct DownloadResult {
    pub song: Song,
    pub data: Vec<u8>,
    pub artist: String,
    pub album: String,
}

/// A track that has been downloaded but not yet processed.
#[derive(Debug, Clone)]
pub struct DownloadedTrack {
    pub song: Song,
    pub audio_data: Vec<u8>,
    pub artist: String,
    pub album: String,
    pub track_number: u32,
}

/// A track whose final bytes are ready to write.
#[derive(Debug, Clone)]
pub struct ProcessedTrack {
    pub song: Song,
    pub final_audio_data: Vec<u8>,
    pub artist: String,
    pub album: String,
    pub track_number: u32,
}

/// Progress event from the processing stage.
#[derive(Debug, Clone, Copy, PartialEq, Eq)]
pub enum PipelineEvent {
    /// A track was processed.
    Processed,
}

pub open spec fn name_or(o: Option<String>, fallback: Seq<char>) -> Seq<char> {
    match o {
        Some(s) => s@,
        None => fallback,
    }
}

/// The artist under which an album is filed.
pub open spec fn album_artist_name(album: Album) -> Seq<char> {
    name_or(album.artist, UNKNOWN_ARTIST@)
}

/// The artist under which a playlist track is named.
pub open spec fn song_artist_name(song: Song) -> Seq<char> {
    name_or(song.artist, UNKNOWN_ARTIST@)
}

/// The file extension of a song.
pub open spec fn extension_of(song: Song) -> Seq<char> {
    name_or(song.suffix, DEFAULT_EXTENSION@)
}

/// The track number of a song; songs without one count as track 1.
pub open spec fn track_number_of(song: Song) -> u32 {
    match song.track {
        Some(n) => n,
        None => 1,
    }
}

fn string_or(o: &Option<String>, fallback: &str) -> (r: String)
    ensures
        r@ == name_or(*o, fallback@),
{
    match o {
        Some(s) => s.clone(),
        None => fallback.to_owned(),
    }
}

/// A copy of an optional string.
pub fn copy_opt(o: &Option<String>) -> (r: Option<String>)
    ensures
        r == *o,
{
    match o {
        Some(s) => Some(s.clone()),
        None => None,
    }
}

/// The artist under which an album is filed.
pub fn album_artist(album: &Album) -> (r: String)
    ensures
        r@ == album_artist_name(*album),
{
    string_or(&album.artist, UNKNOWN_ARTIST)
}

/// The file extension of a song.
pub fn track_extension(song: &Song) -> (r: String)
    ensures
        r@ == extension_of(*song),
{
    string_or(&song.suffix, DEFAULT_EXTENSION)
}

/// One download task per song of an album, in order, filed under the
/// album's artist and name.
pub fn album_download_tasks(album: &Album, songs: Vec<Song>) -> (r: Vec<DownloadTask>)
    ensures
        r@.len() == songs@.len(),
        forall|i: int|
            0 <= i < r@.len() ==> {
                &&& (#[trigger] r@[i]).song == songs@[i]
                &&& r@[i].artist@ == album_artist_name(*album)
                &&& r@[i].album == album.name
            },
{
    let ghost all = songs@;
    let artist = album_artist(album);
    let mut rest = songs;
    let mut out: Vec<DownloadTask> = Vec::new();
    while rest.len() > 0
        invariant
            rest.len() <= all.len(),
            rest@ == all.subrange(all.len() - rest.len(), all.len() as int),
            out@.len() == all.len() - rest.len(),
            artist@ == album_artist_name(*album),
            forall|i: int|
                0 <= i < out@.len() ==> {
                    &&& (#[trigger] out@[i]).song == all[i]
                    &&& out@[i].artist@ == album_artist_name(*album)
                    &&& out@[i].album == album.name
                },
        decreases rest.len(),
    {
        let ghost done = out@.len();
        let song = rest.remove(0);
        assert(song == all[done as int]);
        assert(rest@ =~= all.subrange(all.len() - rest.len(), all.len() as int));
        out.push(DownloadTask { song, artist: artist.clone(), album: album.name.clone() });
    }
    out
}

/// One download task per song of a playlist, in order, each with the
/// song's own cover id; tasks are filed under the song's artist and the
/// playlist's name.
pub fn playlist_download_tasks(playlist: &Playlist, songs: Vec<Song>) -> (r: Vec<
    (DownloadTask, Option<String>),
>)
    ensures
        r@.len() == songs@.len(),
        forall|i: int|
            0 <= i < r@.len() ==> {
                &&& (#[trigger] r@[i]).0.song == songs@[i]
                &&& r@[i].0.artist@ == song_artist_name(songs@[i])
                &&& r@[i].0.album == playlist.name
                &&& r@[i].1 == songs@[i].cover_art
            },
{
    let ghost all = songs@;
    let mut rest = songs;
    let mut out: Vec<(DownloadTask, Option<String>)> = Vec::new();
    while rest.len() > 0
        invariant
            rest.len() <= all.len(),
            rest@ == all.subrange(all.len() - rest.len(), all.len() as int),
            out@.len() == all.len() - rest.len(),
            forall|i: int|
                0 <= i < out@.len() ==> {
                    &&& (#[trigger] out@[i]).0.song == all[i]
                    &&& out@[i].0.artist@ == song_artist_name(all[i])
                    &&& out@[i].0.album == playlist.name
                    &&& out@[i].1 == all[i].cover_art
                },
        decreases rest.len(),
    {
        let ghost done = out@.len();
        let song = rest.remove(0);
        assert(song == all[done as int]);
        assert(rest@ =~= all.subrange(all.len() - rest.len(), all.len() as int));
        let artist = string_or(&song.artist, UNKNOWN_ARTIST);
        let cover = copy_opt(&song.cover_art);
        let task = DownloadTask { song, artist, album: playlist.name.clone() };
        out.push((task, cover));
    }
    out
}

/// The downloaded track for a finished download.
pub open spec fn downloaded_of(d: DownloadResult) -> DownloadedTrack {
    DownloadedTrack {
        song: d.song,
        audio_data: d.data,
        artist: d.artist,
        album: d.album,
        track_number: track_number_of(d.song),
    }
}

/// The successful downloads, in order, as downloaded tracks.
pub open spec fn downloaded_tracks(results: Seq<Option<DownloadResult>>) -> Seq<DownloadedTrack>
    decreases results.len(),
{
    if results.len() == 0 {
        Seq::empty()
    } else {
        let rest = downloaded_tracks(results.drop_last());
        match results.last() {
            Some(d) => rest.push(downloaded_of(d)),
            None => rest,
        }
    }
}

/// Number of successful downloads.
pub open spec fn success_count(results: Seq<Option<DownloadResult>>) -> nat
    decreases results.len(),
{
    if results.len() == 0 {
        0
    } else {
        success_count(results.drop_last()) + if results.last() is Some {
            1nat
        } else {
            0nat
        }
    }
}

/// There are as many downloaded tracks as successful downloads.
pub proof fn lemma_downloaded_count(results: Seq<Option<DownloadResult>>)
    ensures
        downloaded_tracks(results).len() == success_count(results),
        success_count(results) <= results.len(),
    decreases results.len(),
{
    if results.len() > 0 {
        lemma_downloaded_count(results.drop_last());
    }
}

/// Keeps the successful downloads, in order; a failed download drops only
/// its own track.
pub fn collect_downloads(results: Vec<Option<DownloadResult>>) -> (r: Vec<DownloadedTrack>)
    ensures
        r@ == downloaded_tracks(results@),
        r@.len() == success_count(results@),
{
    let ghost all = results@;
    let mut rest = results;
    let mut out: Vec<DownloadedTrack> = Vec::new();
    while rest.len() > 0
        invariant
            rest.len() <= all.len(),
            rest@ == all.subrange(all.len() - rest.len(), all.len() as int),
            out@ == downloaded_tracks(all.subrange(0, all.len() - rest.len())),
        decreases rest.len(),
    {
        let ghost done = all.len() - rest.len();
        let item = rest.remove(0);
        proof {
            let pre = all.subrange(0, done + 1);
            assert(pre.drop_last() =~= all.subrange(0, done));
            assert(pre.last() == item);
            assert(rest@ =~= all.subrange(all.len() - rest.len(), all.len() as int));
        }
        match item {
            Some(d) => {
                let track_number = match d.song.track {
                    Some(n) => n,
                    None => 1,
                };
                out.push(
                    DownloadedTrack {
                        song: d.song,
                        audio_data: d.data,
                        artist: d.artist,
                        album: d.album,
                        track_number,
                    },
                );
            },
            None => {},
        }
    }
    assert(all.subrange(0, all.len() as int) =~= all);
    proof {
        lemma_downloaded_count(all);
    }
    out
}

/// The final bytes of a track: the embedding collaborator's output when a
/// cover was embedded, else the bytes as downloaded.
pub fn process_track(track: DownloadedTrack, embedded: Option<Vec<u8>>) -> (r: ProcessedTrack)
    ensures
        r.final_audio_data == match embedded {
            Some(b) => b,
            None => track.audio_data,
        },
        r.song == track.song,
        r.artist == track.artist,
        r.album == track.album,
        r.track_number == track.track_number,
{
    let final_audio_data = match embedded {
        Some(b) => b,
        None => track.audio_data,
    };
    ProcessedTrack {
        song: track.song,
        final_audio_data,
        artist: track.artist,
        album: track.album,
        track_number: track.track_number,
    }
}

/// Sum of the lengths of the tracks' final bytes, saturating at `u64::MAX`.
pub open spec fn total_len(tracks: Seq<ProcessedTrack>) -> u64
    decreases tracks.len(),
{
    if tracks.len() == 0 {
        0
    } else {
        total_len(tracks.drop_last()).saturating_add(
            tracks.last().final_audio_data@.len() as u64,
        )
    }
}

/// Number of bytes that writing the tracks puts on the volume.
pub fn total_bytes(tracks: &Vec<ProcessedTrack>) -> (r: u64)
    ensures
        r == total_len(tracks@),
{
    let mut total: u64 = 0;
    let mut i: usize = 0;
    while i < tracks.len()
        invariant
            i <= tracks@.len(),
            total == total_len(tracks@.subrange(0, i as int)),
        decreases tracks@.len() - i,
    {
        proof {
            let pre = tracks@.subrange(0, i + 1);
            assert(pre.drop_last() =~= tracks@.subrange(0, i as int));
            assert(pre.last() == tracks@[i as int]);
        }
        total = total.saturating_add(tracks[i].final_audio_data.len() as u64);
        i = i + 1;
    }
    assert(tracks@.subrange(0, tracks@.len() as int) =~= tracks@);
    total
}

} // verus!
