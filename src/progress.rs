//! What an observer keeps of a run's progress events: the unit in flight,
//! counters, and a human-readable log with a line for every deletion,
//! completion, skip and failure, so that the whole run can be audited.

use vstd::prelude::*;
use vstd::string::*;
use crate::engine::SyncProgress;
use crate::text::{decimal, push_decimal};

verus! {

/// Progress of a run as an observer sees it.
#[derive(Debug, Clone)]
pub struct SyncProgressInfo {
    pub current_album: String,
    pub current_artist: String,
    pub albums_completed: usize,
    pub albums_total: usize,
    pub tracks_completed: usize,
    pub tracks_total: usize,
    pub bytes_downloaded: u64,
    pub is_complete: bool,
    pub error: Option<String>,
    pub log_messages: Vec<String>,
}

pub open spec fn dec(n: u64) -> Seq<char> {
    decimal(n as nat)
}

/// `bytes` in mebibytes, rounded to one decimal: `<whole>.<tenth>`.
pub open spec fn mebibytes(bytes: u64) -> Seq<char> {
    let whole = bytes / 1048576;
    let tenth = ((bytes % 1048576) * 10 + 524288) / 1048576;
    if tenth == 10 {
        decimal((whole + 1) as nat) + ".0"@
    } else {
        decimal(whole as nat) + "."@ + decimal(tenth as nat)
    }
}

/// The log line for an event, if it has one.
pub open spec fn log_line(e: SyncProgress) -> Option<Seq<char>> {
    match e {
        SyncProgress::Started { total_albums, total_playlists } => Some(
            "Starting sync: "@ + dec(total_albums as u64) + " albums, "@ + dec(
                total_playlists as u64,
            ) + " playlists"@,
        ),
        SyncProgress::AlbumStarted { artist, album, track_count } => Some(
            "Syncing: "@ + artist@ + " - "@ + album@ + " ("@ + dec(track_count as u64)
                + " tracks)"@,
        ),
        SyncProgress::TrackCompleted { .. } => None,
        SyncProgress::AlbumCompleted { artist, album } => Some(
            "  Completed: "@ + artist@ + " - "@ + album@,
        ),
        SyncProgress::AlbumSkipped { artist, album } => Some(
            "  Skipped (already synced): "@ + artist@ + " - "@ + album@,
        ),
        SyncProgress::PlaylistStarted { name, track_count } => Some(
            "Syncing playlist: "@ + name@ + " ("@ + dec(track_count as u64) + " tracks)"@,
        ),
        SyncProgress::PlaylistCompleted { name } => Some("  Completed playlist: "@ + name@),
        SyncProgress::PlaylistSkipped { name } => Some(
            "  Skipped playlist (already synced): "@ + name@,
        ),
        SyncProgress::Error { message } => Some("ERROR: "@ + message@),
        SyncProgress::Complete {
            albums_synced,
            playlists_synced,
            tracks_downloaded,
            bytes_downloaded,
            albums_deleted,
            playlists_deleted,
        } => Some(
            "Sync complete! "@ + dec(albums_synced as u64) + " albums, "@ + dec(
                playlists_synced as u64,
            ) + " playlists, "@ + dec(tracks_downloaded as u64) + " tracks ("@ + mebibytes(
                bytes_downloaded,
            ) + " MB)"@ + if albums_deleted > 0 || playlists_deleted > 0 {
                ", deleted "@ + dec(albums_deleted as u64) + " albums, "@ + dec(
                    playlists_deleted as u64,
                ) + " playlists"@
            } else {
                Seq::empty()
            },
        ),
        SyncProgress::DeletionStarted { albums_to_delete, playlists_to_delete } => Some(
            "Deleting "@ + dec(albums_to_delete as u64) + " albums, "@ + dec(
                playlists_to_delete as u64,
            ) + " playlists..."@,
        ),
        SyncProgress::AlbumDeleted { artist, album } => Some(
            "  Deleted: "@ + artist@ + " - "@ + album@,
        ),
        SyncProgress::AlbumDeleteFailed { artist, album, error } => Some(
            "  DELETE FAILED: "@ + artist@ + " - "@ + album@ + " ("@ + error@ + ")"@,
        ),
        SyncProgress::PlaylistDeleted { name } => Some("  Deleted playlist: "@ + name@),
        SyncProgress::PlaylistDeleteFailed { name, error } => Some(
            "  DELETE FAILED: "@ + name@ + " ("@ + error@ + ")"@,
        ),
    }
}

fn push_mebibytes(s: &mut String, bytes: u64)
    ensures
        final(s)@ == old(s)@ + mebibytes(bytes),
{
    let whole = bytes / 1048576;
    let tenth = ((bytes % 1048576) * 10 + 524288) / 1048576;
    if tenth == 10 {
        push_decimal(s, whole + 1);
        s.append(".0");
    } else {
        push_decimal(s, whole);
        s.append(".");
        push_decimal(s, tenth);
    }
    assert(final(s)@ =~= old(s)@ + mebibytes(bytes));
}

fn line2(a: &str, b: &str) -> (r: String)
    ensures
        r@ == a@ + b@,
{
    let mut r = String::from_str(a);
    r.append(b);
    r
}

fn line4(a: &str, b: &str, c: &str, d: &str) -> (r: String)
    ensures
        r@ == a@ + b@ + c@ + d@,
{
    let mut r = String::from_str(a);
    r.append(b);
    r.append(c);
    r.append(d);
    r
}

/// `a` + `n` in decimal + `b` + `m` in decimal + `c`.
fn counts_line(a: &str, n: u64, b: &str, m: u64, c: &str) -> (r: String)
    ensures
        r@ == a@ + dec(n) + b@ + dec(m) + c@,
{
    let mut r = String::from_str(a);
    push_decimal(&mut r, n);
    r.append(b);
    push_decimal(&mut r, m);
    r.append(c);
    r
}

/// The log line for an event, if it has one.
pub fn log_line_for(e: &SyncProgress) -> (r: Option<String>)
    ensures
        r matches Some(s) ==> log_line(*e) == Some(s@),
        r is None ==> log_line(*e) is None,
{
    match e {
        SyncProgress::Started { total_albums, total_playlists } => Some(
            counts_line(
                "Starting sync: ",
                *total_albums as u64,
                " albums, ",
                *total_playlists as u64,
                " playlists",
            ),
        ),
        SyncProgress::AlbumStarted { artist, album, track_count } => {
            let mut r = line4("Syncing: ", artist.as_str(), " - ", album.as_str());
            r.append(" (");
            push_decimal(&mut r, *track_count as u64);
            r.append(" tracks)");
            Some(r)
        },
        SyncProgress::TrackCompleted { .. } => None,
        SyncProgress::AlbumCompleted { artist, album } => Some(
            line4("  Completed: ", artist.as_str(), " - ", album.as_str()),
        ),
        SyncProgress::AlbumSkipped { artist, album } => Some(
            line4("  Skipped (already synced): ", artist.as_str(), " - ", album.as_str()),
        ),
        SyncProgress::PlaylistStarted { name, track_count } => {
            let mut r = line2("Syncing playlist: ", name.as_str());
            r.append(" (");
            push_decimal(&mut r, *track_count as u64);
            r.append(" tracks)");
            Some(r)
        },
        SyncProgress::PlaylistCompleted { name } => Some(
            line2("  Completed playlist: ", name.as_str()),
        ),
        SyncProgress::PlaylistSkipped { name } => Some(
            line2("  Skipped playlist (already synced): ", name.as_str()),
        ),
        SyncProgress::Error { message } => Some(line2("ERROR: ", message.as_str())),
        SyncProgress::Complete {
            albums_synced,
            playlists_synced,
            tracks_downloaded,
            bytes_downloaded,
            albums_deleted,
            playlists_deleted,
        } => {
            let mut r = counts_line(
                "Sync complete! ",
                *albums_synced as u64,
                " albums, ",
                *playlists_synced as u64,
                " playlists, ",
            );
            push_decimal(&mut r, *tracks_downloaded as u64);
            r.append(" tracks (");
            push_mebibytes(&mut r, *bytes_downloaded);
            r.append(" MB)");
            if *albums_deleted > 0 || *playlists_deleted > 0 {
                let tail = counts_line(
                    ", deleted ",
                    *albums_deleted as u64,
                    " albums, ",
                    *playlists_deleted as u64,
                    " playlists",
                );
                r.append(tail.as_str());
            } else {
                assert(r@ + Seq::<char>::empty() =~= r@);
            }
            Some(r)
        },
        SyncProgress::DeletionStarted { albums_to_delete, playlists_to_delete } => Some(
            counts_line(
                "Deleting ",
                *albums_to_delete as u64,
                " albums, ",
                *playlists_to_delete as u64,
                " playlists...",
            ),
        ),
        SyncProgress::AlbumDeleted { artist, album } => Some(
            line4("  Deleted: ", artist.as_str(), " - ", album.as_str()),
        ),
        SyncProgress::AlbumDeleteFailed { artist, album, error } => {
            let mut r = line4("  DELETE FAILED: ", artist.as_str(), " - ", album.as_str());
            r.append(" (");
            r.append(error.as_str());
            r.append(")");
            Some(r)
        },
        SyncProgress::PlaylistDeleted { name } => Some(
            line2("  Deleted playlist: ", name.as_str()),
        ),
        SyncProgress::PlaylistDeleteFailed { name, error } => {
            let mut r = line4("  DELETE FAILED: ", name.as_str(), " (", error.as_str());
            r.append(")");
            Some(r)
        },
    }
}

impl SyncProgressInfo {
    /// Nothing seen yet.
    pub fn new() -> (r: Self)
        ensures
            r.albums_completed == 0 && r.albums_total == 0 && r.tracks_completed == 0
                && r.tracks_total == 0 && r.bytes_downloaded == 0 && !r.is_complete
                && r.error is None && r.log_messages@.len() == 0,
    {
        SyncProgressInfo {
            current_album: String::new(),
            current_artist: String::new(),
            albums_completed: 0,
            albums_total: 0,
            tracks_completed: 0,
            tracks_total: 0,
            bytes_downloaded: 0,
            is_complete: false,
            error: None,
            log_messages: Vec::new(),
        }
    }

    /// Takes one event: appends its log line, if it has one, and updates the
    /// unit in flight and the counters. A failure is kept as the last error.
    pub fn apply(&mut self, event: SyncProgress)
        ensures
            match log_line(event) {
                Some(line) => final(self).log_messages@.map_values(|s: String| s@)
                    == old(self).log_messages@.map_values(|s: String| s@).push(line),
                None => final(self).log_messages@ == old(self).log_messages@,
            },
            event matches SyncProgress::Error { message } ==> final(self).error == Some(message),
            !(event is Error) ==> final(self).error == old(self).error,
            event matches SyncProgress::Started { total_albums, .. } ==> final(self).albums_total
                == total_albums,
            event matches SyncProgress::AlbumStarted { artist, album, track_count }
                ==> final(self).current_artist == artist && final(self).current_album == album
                && final(self).tracks_completed == 0 && final(self).tracks_total == track_count,
            event matches SyncProgress::PlaylistStarted { name, track_count }
                ==> final(self).current_album == name && final(self).current_artist@
                == "Playlist"@ && final(self).tracks_completed == 0 && final(self).tracks_total
                == track_count,
            event matches SyncProgress::TrackCompleted { track_num, total_tracks }
                ==> final(self).tracks_completed == track_num && final(self).tracks_total
                == total_tracks,
            (event is AlbumCompleted || event is AlbumSkipped) ==> final(self).albums_completed
                == old(self).albums_completed.saturating_add(1),
            !(event is AlbumCompleted || event is AlbumSkipped) ==> final(self).albums_completed
                == old(self).albums_completed,
            event matches SyncProgress::Complete { bytes_downloaded, .. } ==> final(self).is_complete
                && final(self).bytes_downloaded == bytes_downloaded,
            !(event is Complete) ==> final(self).is_complete == old(self).is_complete
                && final(self).bytes_downloaded == old(self).bytes_downloaded,
            !(event is Started) ==> final(self).albums_total == old(self).albums_total,
            !(event is AlbumStarted || event is PlaylistStarted) ==> final(self).current_album
                == old(self).current_album && final(self).current_artist
                == old(self).current_artist,
            !(event is AlbumStarted || event is PlaylistStarted || event is TrackCompleted)
                ==> final(self).tracks_completed == old(self).tracks_completed
                && final(self).tracks_total == old(self).tracks_total,
    {
        let line = log_line_for(&event);
        match event {
            SyncProgress::Started { total_albums, .. } => {
                self.albums_total = total_albums;
            },
            SyncProgress::AlbumStarted { artist, album, track_count } => {
                self.current_artist = artist;
                self.current_album = album;
                self.tracks_completed = 0;
                self.tracks_total = track_count;
            },
            SyncProgress::TrackCompleted { track_num, total_tracks } => {
                self.tracks_completed = track_num;
                self.tracks_total = total_tracks;
            },
            SyncProgress::AlbumCompleted { .. } | SyncProgress::AlbumSkipped { .. } => {
                self.albums_completed = self.albums_completed.saturating_add(1);
            },
            SyncProgress::PlaylistStarted { name, track_count } => {
                self.current_album = name;
                self.current_artist = String::from_str("Playlist");
                self.tracks_completed = 0;
                self.tracks_total = track_count;
            },
            SyncProgress::Error { message } => {
                self.error = Some(message);
            },
            SyncProgress::Complete { bytes_downloaded, .. } => {
                self.is_complete = true;
                self.bytes_downloaded = bytes_downloaded;
            },
            _ => {},
        }
        match line {
            Some(l) => {
                let ghost before = self.log_messages@;
                self.log_messages.push(l);
                assert(self.log_messages@.map_values(|s: String| s@) =~= before.map_values(
                    |s: String| s@,
                ).push(l@));
            },
            None => {},
        }
    }
}

} // verus!
