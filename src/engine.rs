//! The sync orchestrator as a state machine.
//!
//! A run goes: reconcile, delete what is no longer selected, then for each
//! selected album and playlist download, process and write its tracks, and
//! finally persist the manifest. The waiting (network, disk, embedding) is
//! done by the caller; this session takes each outcome as an event, updates
//! the manifest and the counters, and returns the progress event to emit.
//! One unit's or one deletion's failure never stops the run.

use vstd::prelude::*;
use vstd::string::*;
use crate::manifest::{
    has_key, keys, lemma_upsert_unique, lemma_without_key, upserted, without_key,
    Record, SyncManifest, SyncedAlbum, SyncedPlaylist, MANIFEST_VERSION,
};
use crate::models::{album_ids, playlist_ids, Album, Playlist, SyncSelection};
use crate::pipeline::{album_artist, album_artist_name, config_for, PipelineConfig};
use crate::reconcile::{albums_to_add, playlists_to_add, reconcile, DeletionSelection, SyncPlan};
use crate::storage::DeviceStorage;

verus! {

/// Catalog identity recorded in a manifest created before the catalog is
/// known.
pub const UNKNOWN_CATALOG: &'static str = "unknown";

/// Progress updates sent during a sync run.
#[derive(Debug, Clone, PartialEq, Eq)]
pub enum SyncProgress {
    /// Downloads are starting.
    Started { total_albums: usize, total_playlists: usize },
    /// An album's tracks are about to be downloaded.
    AlbumStarted { artist: String, album: String, track_count: usize },
    /// A unit's downloads finished: this many of that many tracks arrived.
    TrackCompleted { track_num: usize, total_tracks: usize },
    /// An album finished.
    AlbumCompleted { artist: String, album: String },
    /// An album was skipped because the manifest already has it.
    AlbumSkipped { artist: String, album: String },
    /// A playlist's tracks are about to be downloaded.
    PlaylistStarted { name: String, track_count: usize },
    /// A playlist finished.
    PlaylistCompleted { name: String },
    /// A playlist was skipped because the manifest already has it.
    PlaylistSkipped { name: String },
    /// A unit failed as a whole.
    Error { message: String },
    /// The run is over.
    Complete {
        albums_synced: usize,
        playlists_synced: usize,
        tracks_downloaded: usize,
        bytes_downloaded: u64,
        albums_deleted: usize,
        playlists_deleted: usize,
    },
    /// The deletion phase is starting.
    DeletionStarted { albums_to_delete: usize, playlists_to_delete: usize },
    /// An album was deleted.
    AlbumDeleted { artist: String, album: String },
    /// An album could not be deleted.
    AlbumDeleteFailed { artist: String, album: String, error: String },
    /// A playlist was deleted.
    PlaylistDeleted { name: String },
    /// A playlist could not be deleted.
    PlaylistDeleteFailed { name: String, error: String },
}

/// Totals of a sync run. Counters saturate at their type's maximum.
#[derive(Debug, Clone, Copy, PartialEq, Eq)]
pub struct SyncResult {
    pub albums_synced: usize,
    pub playlists_synced: usize,
    pub tracks_downloaded: usize,
    pub bytes_downloaded: u64,
}

impl SyncResult {
    /// All totals zero.
    pub fn new() -> (r: Self)
        ensures
            r == (SyncResult {
                albums_synced: 0,
                playlists_synced: 0,
                tracks_downloaded: 0,
                bytes_downloaded: 0,
            }),
    {
        SyncResult { albums_synced: 0, playlists_synced: 0, tracks_downloaded: 0, bytes_downloaded: 0 }
    }
}

/// A track count as stored in the manifest, saturating at `u32::MAX`.
pub open spec fn count_u32(n: usize) -> u32 {
    if n > u32::MAX as usize {
        u32::MAX
    } else {
        n as u32
    }
}

/// The records after a deletion attempt: the id's records go only if the
/// deletion succeeded.
pub open spec fn after_deletion<T: Record>(s: Seq<T>, id: Seq<char>, removed: bool) -> Seq<T> {
    if removed {
        without_key(s, id)
    } else {
        s
    }
}

/// The totals after a unit that wrote `tracks` tracks and `bytes` bytes.
pub open spec fn add_album_totals(r: SyncResult, tracks: usize, bytes: u64) -> SyncResult {
    SyncResult {
        albums_synced: r.albums_synced.saturating_add(1),
        tracks_downloaded: r.tracks_downloaded.saturating_add(tracks),
        bytes_downloaded: r.bytes_downloaded.saturating_add(bytes),
        ..r
    }
}

/// The totals after a playlist that wrote `tracks` tracks and `bytes` bytes.
pub open spec fn add_playlist_totals(r: SyncResult, tracks: usize, bytes: u64) -> SyncResult {
    SyncResult {
        playlists_synced: r.playlists_synced.saturating_add(1),
        tracks_downloaded: r.tracks_downloaded.saturating_add(tracks),
        bytes_downloaded: r.bytes_downloaded.saturating_add(bytes),
        ..r
    }
}

/// The message of a failed album.
pub open spec fn album_error_message(album: Album, error: Seq<char>) -> Seq<char> {
    "Album "@ + album_artist_name(album) + " - "@ + album.name@ + ": "@ + error
}

/// The message of a failed playlist.
pub open spec fn playlist_error_message(playlist: Playlist, error: Seq<char>) -> Seq<char> {
    "Playlist "@ + playlist.name@ + ": "@ + error
}

/// Where a run stands. A run goes through these in order; units (albums and
/// playlists) are handled only after every deletion, and the summary comes
/// only after the manifest has been persisted.
#[derive(Debug, Clone, Copy, PartialEq, Eq)]
pub enum Phase {
    /// Nothing done yet.
    Idle,
    /// Reconciled; deletions are being carried out.
    Deleting,
    /// Albums and playlists are being downloaded, processed and written.
    Units,
    /// Every unit has been handled; the manifest is to be saved.
    Persisting,
    /// The summary has been produced.
    Done,
}

/// What to do with one selected album or playlist.
#[derive(Debug, Clone, PartialEq, Eq)]
pub enum UnitAction {
    /// Already on the volume: emit this event and move on.
    Skip(SyncProgress),
    /// Download, process and write the unit.
    Sync,
}

/// The state of one sync run against one volume.
#[derive(Debug, Clone)]
pub struct SyncSession {
    pub phase: Phase,
    pub manifest: SyncManifest,
    pub storage: DeviceStorage,
    pub pipeline_config: PipelineConfig,
    pub result: SyncResult,
    pub albums_deleted: usize,
    pub playlists_deleted: usize,
}

impl SyncSession {
    /// Everything but the manifest and the totals is as in `old`.
    pub open spec fn same_setup(&self, old: &SyncSession) -> bool {
        &&& self.phase == old.phase
        &&& self.storage == old.storage
        &&& self.pipeline_config == old.pipeline_config
        &&& self.manifest.version == old.manifest.version
        &&& self.manifest.subsonic_url == old.manifest.subsonic_url
    }

    /// A session for the volume mounted at `device_path`, continuing from the
    /// volume's manifest if it has one, else from an empty manifest created
    /// at `now` (seconds since the Unix epoch).
    pub fn new(device_path: String, manifest: Option<SyncManifest>, parallel: usize, now: i64) -> (r:
        Self)
        ensures
            r.phase == Phase::Idle,
            r.storage.root == device_path,
            manifest matches Some(m) ==> r.manifest == m,
            manifest is None ==> r.manifest.synced_albums@.len() == 0
                && r.manifest.synced_playlists@.len() == 0 && r.manifest.subsonic_url@
                == UNKNOWN_CATALOG@ && r.manifest.version == MANIFEST_VERSION && r.manifest.wf()
                && r.manifest.last_sync == now,
            r.pipeline_config == config_for(parallel),
            r.result == (SyncResult {
                albums_synced: 0,
                playlists_synced: 0,
                tracks_downloaded: 0,
                bytes_downloaded: 0,
            }),
            r.albums_deleted == 0,
            r.playlists_deleted == 0,
    {
        let manifest = match manifest {
            Some(m) => m,
            None => SyncManifest::new(UNKNOWN_CATALOG, now),
        };
        SyncSession {
            phase: Phase::Idle,
            manifest,
            storage: DeviceStorage::new(device_path),
            pipeline_config: PipelineConfig::for_parallelism(parallel),
            result: SyncResult::new(),
            albums_deleted: 0,
            playlists_deleted: 0,
        }
    }

    /// Reconciles the selection against the manifest and opens the deletion
    /// phase.
    pub fn plan(&mut self, selection: &SyncSelection) -> (r: SyncPlan)
        requires
            old(self).phase == Phase::Idle,
        ensures
            r.is_plan_for(*selection, old(self).manifest),
            final(self).phase == Phase::Deleting,
            final(self).manifest == old(self).manifest,
            final(self).storage == old(self).storage,
            final(self).pipeline_config == old(self).pipeline_config,
            final(self).result == old(self).result,
            final(self).albums_deleted == old(self).albums_deleted,
            final(self).playlists_deleted == old(self).playlists_deleted,
    {
        let plan = reconcile(selection, &self.manifest);
        self.phase = Phase::Deleting;
        plan
    }

    /// The event that opens the deletion phase, if there is anything to
    /// delete.
    pub fn deletion_started(&self, deletions: &DeletionSelection) -> (r: Option<SyncProgress>)
        requires
            self.phase == Phase::Deleting,
        ensures
            deletions.albums@.len() == 0 && deletions.playlists@.len() == 0 ==> r is None,
            !(deletions.albums@.len() == 0 && deletions.playlists@.len() == 0) ==> r == Some(
                SyncProgress::DeletionStarted {
                    albums_to_delete: deletions.albums@.len() as usize,
                    playlists_to_delete: deletions.playlists@.len() as usize,
                },
            ),
    {
        if deletions.is_empty() {
            None
        } else {
            Some(
                SyncProgress::DeletionStarted {
                    albums_to_delete: deletions.albums.len(),
                    playlists_to_delete: deletions.playlists.len(),
                },
            )
        }
    }

    /// Takes the outcome of removing an album's directory: on success the
    /// album's record goes and the deletion is counted; on failure the
    /// record stays and the error is reported.
    pub fn album_deletion_finished(
        &mut self,
        entry: &(String, String, String),
        outcome: Result<(), String>,
    ) -> (r: SyncProgress)
        requires
            old(self).phase == Phase::Deleting,
        ensures
            final(self).manifest.synced_albums@ == after_deletion(
                old(self).manifest.synced_albums@,
                entry.0@,
                outcome is Ok,
            ),
            final(self).manifest.synced_playlists@ == old(self).manifest.synced_playlists@,
            old(self).manifest.wf() ==> final(self).manifest.wf(),
            final(self).same_setup(old(self)),
            final(self).result == old(self).result,
            final(self).playlists_deleted == old(self).playlists_deleted,
            outcome is Ok ==> final(self).albums_deleted == old(self).albums_deleted.saturating_add(
                1,
            ) && r == (SyncProgress::AlbumDeleted { artist: entry.1, album: entry.2 }),
            outcome matches Err(e) ==> final(self).albums_deleted == old(self).albums_deleted && r
                == (SyncProgress::AlbumDeleteFailed { artist: entry.1, album: entry.2, error: e }),
    {
        match outcome {
            Ok(()) => {
                self.manifest.remove_album(entry.0.as_str());
                self.albums_deleted = self.albums_deleted.saturating_add(1);
                SyncProgress::AlbumDeleted { artist: entry.1.clone(), album: entry.2.clone() }
            },
            Err(e) => SyncProgress::AlbumDeleteFailed {
                artist: entry.1.clone(),
                album: entry.2.clone(),
                error: e,
            },
        }
    }

    /// Takes the outcome of removing a playlist's directory: on success the
    /// playlist's record goes and the deletion is counted; on failure the
    /// record stays and the error is reported.
    pub fn playlist_deletion_finished(
        &mut self,
        entry: &(String, String),
        outcome: Result<(), String>,
    ) -> (r: SyncProgress)
        requires
            old(self).phase == Phase::Deleting,
        ensures
            final(self).manifest.synced_playlists@ == after_deletion(
                old(self).manifest.synced_playlists@,
                entry.0@,
                outcome is Ok,
            ),
            final(self).manifest.synced_albums@ == old(self).manifest.synced_albums@,
            old(self).manifest.wf() ==> final(self).manifest.wf(),
            final(self).same_setup(old(self)),
            final(self).result == old(self).result,
            final(self).albums_deleted == old(self).albums_deleted,
            outcome is Ok ==> final(self).playlists_deleted
                == old(self).playlists_deleted.saturating_add(1) && r == (
            SyncProgress::PlaylistDeleted { name: entry.1 }),
            outcome matches Err(e) ==> final(self).playlists_deleted == old(self).playlists_deleted
                && r == (SyncProgress::PlaylistDeleteFailed { name: entry.1, error: e }),
    {
        match outcome {
            Ok(()) => {
                self.manifest.remove_playlist(entry.0.as_str());
                self.playlists_deleted = self.playlists_deleted.saturating_add(1);
                SyncProgress::PlaylistDeleted { name: entry.1.clone() }
            },
            Err(e) => SyncProgress::PlaylistDeleteFailed { name: entry.1.clone(), error: e },
        }
    }

    /// Closes the deletion phase and opens the unit phase.
    pub fn started(&mut self, selection: &SyncSelection) -> (r: SyncProgress)
        requires
            old(self).phase == Phase::Deleting,
        ensures
            final(self).phase == Phase::Units,
            final(self).manifest == old(self).manifest,
            final(self).storage == old(self).storage,
            final(self).pipeline_config == old(self).pipeline_config,
            final(self).result == old(self).result,
            final(self).albums_deleted == old(self).albums_deleted,
            final(self).playlists_deleted == old(self).playlists_deleted,
            r == (SyncProgress::Started {
                total_albums: selection.albums@.len() as usize,
                total_playlists: selection.playlists@.len() as usize,
            }),
    {
        self.phase = Phase::Units;
        SyncProgress::Started {
            total_albums: selection.albums.len(),
            total_playlists: selection.playlists.len(),
        }
    }

    /// Whether the album is already on the volume; such a unit is skipped.
    pub fn album_is_synced(&self, album: &Album) -> (r: bool)
        ensures
            r == self.manifest.has_album(album.id@),
    {
        self.manifest.is_album_synced(album.id.as_str())
    }

    /// Whether the playlist is already on the volume; such a unit is
    /// skipped.
    pub fn playlist_is_synced(&self, playlist: &Playlist) -> (r: bool)
        ensures
            r == self.manifest.has_playlist(playlist.id@),
    {
        self.manifest.is_playlist_synced(playlist.id.as_str())
    }

    /// The event for an album that is skipped.
    pub fn album_skipped(&self, album: &Album) -> (r: SyncProgress)
        ensures
            r matches SyncProgress::AlbumSkipped { artist, album: name } && artist@
                == album_artist_name(*album) && name == album.name,
    {
        SyncProgress::AlbumSkipped { artist: album_artist(album), album: album.name.clone() }
    }

    /// The event for a playlist that is skipped.
    pub fn playlist_skipped(&self, playlist: &Playlist) -> (r: SyncProgress)
        ensures
            r == (SyncProgress::PlaylistSkipped { name: playlist.name }),
    {
        SyncProgress::PlaylistSkipped { name: playlist.name.clone() }
    }

    /// The decision for a selected album: a manifest hit is skipped (and
    /// reported as such), anything else is synced.
    pub fn album_action(&self, album: &Album) -> (r: UnitAction)
        requires
            self.phase == Phase::Units,
        ensures
            r is Sync <==> !self.manifest.has_album(album.id@),
            r matches UnitAction::Skip(e) ==> e matches SyncProgress::AlbumSkipped {
                artist,
                album: name,
            } && artist@ == album_artist_name(*album) && name == album.name,
    {
        if self.album_is_synced(album) {
            UnitAction::Skip(self.album_skipped(album))
        } else {
            UnitAction::Sync
        }
    }

    /// The decision for a selected playlist: a manifest hit is skipped (and
    /// reported as such), anything else is synced.
    pub fn playlist_action(&self, playlist: &Playlist) -> (r: UnitAction)
        requires
            self.phase == Phase::Units,
        ensures
            r is Sync <==> !self.manifest.has_playlist(playlist.id@),
            r matches UnitAction::Skip(e) ==> e == (SyncProgress::PlaylistSkipped {
                name: playlist.name,
            }),
    {
        if self.playlist_is_synced(playlist) {
            UnitAction::Skip(self.playlist_skipped(playlist))
        } else {
            UnitAction::Sync
        }
    }

    /// The event for an album whose track list is known.
    pub fn album_started(&self, album: &Album, track_count: usize) -> (r: SyncProgress)
        ensures
            r matches SyncProgress::AlbumStarted { artist, album: name, track_count: n } && artist@
                == album_artist_name(*album) && name == album.name && n == track_count,
    {
        SyncProgress::AlbumStarted {
            artist: album_artist(album),
            album: album.name.clone(),
            track_count,
        }
    }

    /// The event for a playlist whose track list is known.
    pub fn playlist_started(&self, playlist: &Playlist, track_count: usize) -> (r: SyncProgress)
        ensures
            r == (SyncProgress::PlaylistStarted { name: playlist.name, track_count }),
    {
        SyncProgress::PlaylistStarted { name: playlist.name.clone(), track_count }
    }

    /// The event for a unit whose downloads are over.
    pub fn downloads_finished(&self, downloaded: usize, total: usize) -> (r: SyncProgress)
        ensures
            r == (SyncProgress::TrackCompleted { track_num: downloaded, total_tracks: total }),
    {
        SyncProgress::TrackCompleted { track_num: downloaded, total_tracks: total }
    }

    /// Takes a finished album: its tracks are written, so it is recorded in
    /// the manifest (replacing any older record) with the number of tracks
    /// written, counted, and reported completed. Tracks whose download
    /// failed only lower that number, down to zero; they never fail the
    /// unit.
    pub fn album_finished(
        &mut self,
        album: &Album,
        tracks_written: usize,
        bytes_written: u64,
        now: i64,
    ) -> (r: SyncProgress)
        requires
            old(self).phase == Phase::Units,
        ensures
            ({
                let rec = final(self).manifest.synced_albums@.last();
                &&& final(self).manifest.synced_albums@ == upserted(
                    old(self).manifest.synced_albums@,
                    rec,
                )
                &&& rec.id == album.id
                &&& rec.artist@ == album_artist_name(*album)
                &&& rec.album == album.name
                &&& rec.track_count == count_u32(tracks_written)
                &&& rec.synced_at == now
                &&& final(self).result == add_album_totals(
                    old(self).result,
                    tracks_written,
                    bytes_written,
                )
                &&& r == (SyncProgress::AlbumCompleted { artist: rec.artist, album: album.name })
            }),
            final(self).manifest.synced_playlists@ == old(self).manifest.synced_playlists@,
            old(self).manifest.wf() ==> final(self).manifest.wf(),
            final(self).manifest.has_album(album.id@),
            final(self).manifest.last_sync == now,
            final(self).same_setup(old(self)),
            final(self).albums_deleted == old(self).albums_deleted,
            final(self).playlists_deleted == old(self).playlists_deleted,
    {
        let artist = album_artist(album);
        let track_count: u32 = if tracks_written > u32::MAX as usize {
            u32::MAX
        } else {
            tracks_written as u32
        };
        let rec = SyncedAlbum {
            id: album.id.clone(),
            artist: artist.clone(),
            album: album.name.clone(),
            track_count,
            synced_at: now,
        };
        proof {
            lemma_upsert_unique(self.manifest.synced_albums@, rec);
        }
        self.manifest.add_album(rec, now);
        self.result.albums_synced = self.result.albums_synced.saturating_add(1);
        self.result.tracks_downloaded = self.result.tracks_downloaded.saturating_add(tracks_written);
        self.result.bytes_downloaded = self.result.bytes_downloaded.saturating_add(bytes_written);
        SyncProgress::AlbumCompleted { artist, album: album.name.clone() }
    }

    /// Takes a finished playlist: its tracks and index are written, so it is
    /// recorded in the manifest (replacing any older record) with the
    /// number of tracks written, counted, and reported completed. Tracks
    /// whose download failed only lower that number, down to zero.
    pub fn playlist_finished(
        &mut self,
        playlist: &Playlist,
        tracks_written: usize,
        bytes_written: u64,
        now: i64,
    ) -> (r: SyncProgress)
        requires
            old(self).phase == Phase::Units,
        ensures
            ({
                let rec = final(self).manifest.synced_playlists@.last();
                &&& final(self).manifest.synced_playlists@ == upserted(
                    old(self).manifest.synced_playlists@,
                    rec,
                )
                &&& rec.id == playlist.id
                &&& rec.name == playlist.name
                &&& rec.track_count == count_u32(tracks_written)
                &&& rec.synced_at == now
            }),
            final(self).result == add_playlist_totals(old(self).result, tracks_written, bytes_written),
            r == (SyncProgress::PlaylistCompleted { name: playlist.name }),
            final(self).manifest.synced_albums@ == old(self).manifest.synced_albums@,
            old(self).manifest.wf() ==> final(self).manifest.wf(),
            final(self).manifest.has_playlist(playlist.id@),
            final(self).manifest.last_sync == now,
            final(self).same_setup(old(self)),
            final(self).albums_deleted == old(self).albums_deleted,
            final(self).playlists_deleted == old(self).playlists_deleted,
    {
        let track_count: u32 = if tracks_written > u32::MAX as usize {
            u32::MAX
        } else {
            tracks_written as u32
        };
        let rec = SyncedPlaylist {
            id: playlist.id.clone(),
            name: playlist.name.clone(),
            track_count,
            synced_at: now,
        };
        proof {
            lemma_upsert_unique(self.manifest.synced_playlists@, rec);
        }
        self.manifest.add_playlist(rec, now);
        self.result.playlists_synced = self.result.playlists_synced.saturating_add(1);
        self.result.tracks_downloaded = self.result.tracks_downloaded.saturating_add(tracks_written);
        self.result.bytes_downloaded = self.result.bytes_downloaded.saturating_add(bytes_written);
        SyncProgress::PlaylistCompleted { name: playlist.name.clone() }
    }

    /// The event for an album that failed as a whole; the manifest and the
    /// totals are left alone.
    pub fn album_failed(&self, album: &Album, error: &str) -> (r: SyncProgress)
        ensures
            r matches SyncProgress::Error { message } && message@ == album_error_message(
                *album,
                error@,
            ),
    {
        let mut message = String::from_str("Album ");
        message.append(album_artist(album).as_str());
        message.append(" - ");
        message.append(album.name.as_str());
        message.append(": ");
        message.append(error);
        assert(message@ =~= album_error_message(*album, error@));
        SyncProgress::Error { message }
    }

    /// The event for a playlist that failed as a whole; the manifest and
    /// the totals are left alone.
    pub fn playlist_failed(&self, playlist: &Playlist, error: &str) -> (r: SyncProgress)
        ensures
            r matches SyncProgress::Error { message } && message@ == playlist_error_message(
                *playlist,
                error@,
            ),
    {
        let mut message = String::from_str("Playlist ");
        message.append(playlist.name.as_str());
        message.append(": ");
        message.append(error);
        assert(message@ =~= playlist_error_message(*playlist, error@));
        SyncProgress::Error { message }
    }

    /// Closes the unit phase: the manifest is now to be persisted.
    pub fn units_finished(&mut self)
        requires
            old(self).phase == Phase::Units,
        ensures
            final(self).phase == Phase::Persisting,
            final(self).manifest == old(self).manifest,
            final(self).storage == old(self).storage,
            final(self).pipeline_config == old(self).pipeline_config,
            final(self).result == old(self).result,
            final(self).albums_deleted == old(self).albums_deleted,
            final(self).playlists_deleted == old(self).playlists_deleted,
    {
        self.phase = Phase::Persisting;
    }

    /// The summary event that closes the run, once the manifest is saved.
    pub fn complete(&mut self) -> (r: SyncProgress)
        requires
            old(self).phase == Phase::Persisting,
        ensures
            final(self).phase == Phase::Done,
            final(self).manifest == old(self).manifest,
            final(self).result == old(self).result,
            final(self).albums_deleted == old(self).albums_deleted,
            final(self).playlists_deleted == old(self).playlists_deleted,
            r == (SyncProgress::Complete {
                albums_synced: old(self).result.albums_synced,
                playlists_synced: old(self).result.playlists_synced,
                tracks_downloaded: old(self).result.tracks_downloaded,
                bytes_downloaded: old(self).result.bytes_downloaded,
                albums_deleted: old(self).albums_deleted,
                playlists_deleted: old(self).playlists_deleted,
            }),
    {
        self.phase = Phase::Done;
        SyncProgress::Complete {
            albums_synced: self.result.albums_synced,
            playlists_synced: self.result.playlists_synced,
            tracks_downloaded: self.result.tracks_downloaded,
            bytes_downloaded: self.result.bytes_downloaded,
            albums_deleted: self.albums_deleted,
            playlists_deleted: self.playlists_deleted,
        }
    }
}

/// A deletion that fails leaves its id's records alone, whatever happens to
/// the other deletions of the run: when deleting `a` fails and deleting `b`
/// succeeds, in either order, `a` is still recorded and `b` is not.
pub proof fn lemma_deletion_isolation<T: Record>(s: Seq<T>, a: Seq<char>, b: Seq<char>)
    requires
        a != b,
        has_key(s, a),
    ensures
        has_key(after_deletion(after_deletion(s, a, false), b, true), a),
        !has_key(after_deletion(after_deletion(s, a, false), b, true), b),
        has_key(after_deletion(after_deletion(s, b, true), a, false), a),
        !has_key(after_deletion(after_deletion(s, b, true), a, false), b),
{
    lemma_without_key(s, b);
    let w = without_key(s, b);
    let i = choose|i: int| 0 <= i < s.len() && (#[trigger] s[i]).key() == a;
    assert(s.contains(s[i]));
    assert(w.contains(s[i]));
    let j = choose|j: int| 0 <= j < w.len() && w[j] == s[i];
    assert(w[j].key() == a);
}

/// The records after upserting each of `recs` in turn.
pub open spec fn upsert_all<T: Record>(s: Seq<T>, recs: Seq<T>) -> Seq<T>
    decreases recs.len(),
{
    if recs.len() == 0 {
        s
    } else {
        upserted(upsert_all(s, recs.drop_last()), recs.last())
    }
}

/// Upserting keeps every id that was there and adds the upserted ones.
pub proof fn lemma_upsert_all_has<T: Record>(s: Seq<T>, recs: Seq<T>, k: Seq<char>)
    requires
        has_key(s, k) || keys(recs).contains(k),
    ensures
        has_key(upsert_all(s, recs), k),
    decreases recs.len(),
{
    if recs.len() > 0 {
        let d = recs.drop_last();
        let r = recs.last();
        let u = upsert_all(s, d);
        lemma_upsert_unique(u, r);
        if k != r.key() {
            if keys(recs).contains(k) {
                let q = choose|q: int| 0 <= q < keys(recs).len() && keys(recs)[q] == k;
                assert(q < recs.len() - 1);
                assert(keys(d)[q] == k);
            }
            lemma_upsert_all_has(s, d, k);
            lemma_without_key(u, r.key());
            let i = choose|i: int| 0 <= i < u.len() && (#[trigger] u[i]).key() == k;
            assert(u.contains(u[i]));
            let w = without_key(u, r.key());
            assert(w.contains(u[i]));
            let j = choose|j: int| 0 <= j < w.len() && w[j] == u[i];
            assert(upserted(u, r)[j] == u[i]);
        }
    }
}

/// A filter that nothing passes is empty.
proof fn lemma_filter_none(ids: Seq<Seq<char>>, p: spec_fn(Seq<char>) -> bool)
    requires
        forall|i: int| 0 <= i < ids.len() ==> !p(#[trigger] ids[i]),
    ensures
        ids.filter(p).len() == 0,
{
    if ids.filter(p).len() > 0 {
        let x = ids.filter(p)[0];
        ids.lemma_filter_pred(p, 0);
        assert(ids.filter(p).contains(x));
        ids.lemma_filter_contains_rev(p, x);
    }
}

/// Idempotence: after a run in which every selected album and playlist was
/// either already recorded or recorded by the run, a second run with the
/// same selection has nothing to add, and every one of its units is a
/// manifest hit, for which `album_action` and `playlist_action` decide to
/// skip.
pub proof fn lemma_second_run_adds_nothing(
    sel: SyncSelection,
    m: SyncManifest,
    albums: Seq<SyncedAlbum>,
    playlists: Seq<SyncedPlaylist>,
    m2: SyncManifest,
)
    requires
        m2.synced_albums@ == upsert_all(m.synced_albums@, albums),
        m2.synced_playlists@ == upsert_all(m.synced_playlists@, playlists),
        forall|id: Seq<char>| #[trigger]
            album_ids(sel.albums@).contains(id) ==> has_key(m.synced_albums@, id) || keys(
                albums,
            ).contains(id),
        forall|id: Seq<char>| #[trigger]
            playlist_ids(sel.playlists@).contains(id) ==> has_key(m.synced_playlists@, id) || keys(
                playlists,
            ).contains(id),
    ensures
        albums_to_add(sel, m2).len() == 0,
        playlists_to_add(sel, m2).len() == 0,
        forall|i: int| 0 <= i < sel.albums@.len() ==> m2.has_album((#[trigger] sel.albums@[i]).id@),
        forall|i: int|
            0 <= i < sel.playlists@.len() ==> m2.has_playlist((#[trigger] sel.playlists@[i]).id@),
{
    let ai = album_ids(sel.albums@);
    assert forall|i: int| 0 <= i < ai.len() implies has_key(
        m2.synced_albums@,
        #[trigger] ai[i],
    ) by {
        assert(ai.contains(ai[i]));
        lemma_upsert_all_has(m.synced_albums@, albums, ai[i]);
    }
    lemma_filter_none(ai, |id: Seq<char>| !has_key(m2.synced_albums@, id));
    assert forall|i: int| 0 <= i < sel.albums@.len() implies m2.has_album(
        (#[trigger] sel.albums@[i]).id@,
    ) by {
        assert(ai[i] == sel.albums@[i].id@);
    }
    let pi = playlist_ids(sel.playlists@);
    assert forall|i: int| 0 <= i < pi.len() implies has_key(
        m2.synced_playlists@,
        #[trigger] pi[i],
    ) by {
        assert(pi.contains(pi[i]));
        lemma_upsert_all_has(m.synced_playlists@, playlists, pi[i]);
    }
    lemma_filter_none(pi, |id: Seq<char>| !has_key(m2.synced_playlists@, id));
    assert forall|i: int| 0 <= i < sel.playlists@.len() implies m2.has_playlist(
        (#[trigger] sel.playlists@[i]).id@,
    ) by {
        assert(pi[i] == sel.playlists@[i].id@);
    }
}

} // verus!
