//! Where things go on the volume: the directory layout for albums and
//! playlists and the names of track, cover and playlist index files.

use vstd::prelude::*;
use vstd::string::*;
use crate::sanitize::{sanitize_filename, sanitized};
use crate::pipeline::{extension_of, track_extension, ProcessedTrack};
use crate::text::{join_path, join_path_exec, push_two_digits, two_digits};

verus! {

/// File name of the cover image written beside an album's tracks.
pub const COVER_FILE: &'static str = "cover.jpg";

/// File name of a playlist's index.
pub const M3U_FILE: &'static str = "playlist.m3u";

/// Name of an album track file: `NN - <title>.<ext>`.
pub open spec fn album_track_filename(track_number: nat, title: Seq<char>, ext: Seq<char>) -> Seq<char> {
    two_digits(track_number) + " - "@ + sanitized(title) + "."@ + ext
}

/// Name of a playlist track file: `<artist> - <title>.<ext>`.
pub open spec fn playlist_track_filename(artist: Seq<char>, title: Seq<char>, ext: Seq<char>) -> Seq<char> {
    sanitized(artist) + " - "@ + sanitized(title) + "."@ + ext
}

/// File operations on one volume are relative to its root.
#[derive(Debug, Clone)]
pub struct DeviceStorage {
    pub root: String,
}

impl DeviceStorage {
    pub open spec fn artists_path(&self) -> Seq<char> {
        join_path(self.root@, "Artists"@)
    }

    pub open spec fn playlists_path(&self) -> Seq<char> {
        join_path(self.root@, "Playlists"@)
    }

    /// Directory of an album: `Artists/<artist>/<album>`, names sanitised.
    pub open spec fn album_path(&self, artist: Seq<char>, album: Seq<char>) -> Seq<char> {
        join_path(join_path(self.artists_path(), sanitized(artist)), sanitized(album))
    }

    /// Directory of a playlist: `Playlists/<name>`, name sanitised.
    pub open spec fn playlist_path(&self, name: Seq<char>) -> Seq<char> {
        join_path(self.playlists_path(), sanitized(name))
    }

    /// Storage rooted at a volume's mount point.
    pub fn new(mount_point: String) -> (r: Self)
        ensures
            r.root == mount_point,
    {
        DeviceStorage { root: mount_point }
    }

    /// The directory that holds one directory per artist.
    pub fn artists_dir(&self) -> (r: String)
        ensures
            r@ == self.artists_path(),
    {
        join_path_exec(self.root.as_str(), "Artists")
    }

    /// The directory that holds one directory per playlist.
    pub fn playlists_dir(&self) -> (r: String)
        ensures
            r@ == self.playlists_path(),
    {
        join_path_exec(self.root.as_str(), "Playlists")
    }

    /// The directory of an album.
    pub fn album_dir(&self, artist: &str, album: &str) -> (r: String)
        ensures
            r@ == self.album_path(artist@, album@),
    {
        let a = join_path_exec(self.artists_dir().as_str(), sanitize_filename(artist).as_str());
        join_path_exec(a.as_str(), sanitize_filename(album).as_str())
    }

    /// The directory of a playlist.
    pub fn playlist_dir(&self, name: &str) -> (r: String)
        ensures
            r@ == self.playlist_path(name@),
    {
        join_path_exec(self.playlists_dir().as_str(), sanitize_filename(name).as_str())
    }

    /// The file a track of an album is written to.
    pub fn album_track_path(
        &self,
        artist: &str,
        album: &str,
        track_number: u32,
        title: &str,
        extension: &str,
    ) -> (r: String)
        ensures
            r@ == join_path(
                self.album_path(artist@, album@),
                album_track_filename(track_number as nat, title@, extension@),
            ),
    {
        let name = album_track_file_name(track_number, title, extension);
        join_path_exec(self.album_dir(artist, album).as_str(), name.as_str())
    }

    /// The file a playlist track with the given file name is written to.
    pub fn playlist_track_path(&self, playlist_name: &str, filename: &str) -> (r: String)
        ensures
            r@ == join_path(self.playlist_path(playlist_name@), filename@),
    {
        join_path_exec(self.playlist_dir(playlist_name).as_str(), filename)
    }

    /// The cover image file of an album.
    pub fn cover_art_path(&self, artist: &str, album: &str) -> (r: String)
        ensures
            r@ == join_path(self.album_path(artist@, album@), COVER_FILE@),
    {
        join_path_exec(self.album_dir(artist, album).as_str(), COVER_FILE)
    }

    /// The index file of a playlist.
    pub fn m3u_path(&self, playlist_name: &str) -> (r: String)
        ensures
            r@ == join_path(self.playlist_path(playlist_name@), M3U_FILE@),
    {
        join_path_exec(self.playlist_dir(playlist_name).as_str(), M3U_FILE)
    }
}

/// The file name of an album track.
pub fn album_track_file_name(track_number: u32, title: &str, extension: &str) -> (r: String)
    ensures
        r@ == album_track_filename(track_number as nat, title@, extension@),
{
    let mut r = String::new();
    push_two_digits(&mut r, track_number as u64);
    r.append(" - ");
    r.append(sanitize_filename(title).as_str());
    r.append(".");
    r.append(extension);
    assert(r@ =~= album_track_filename(track_number as nat, title@, extension@));
    r
}

/// The file name of a playlist track; playlist indexes refer to tracks by
/// this name.
pub fn playlist_track_file_name(artist: &str, title: &str, extension: &str) -> (r: String)
    ensures
        r@ == playlist_track_filename(artist@, title@, extension@),
{
    let mut r = sanitize_filename(artist);
    r.append(" - ");
    r.append(sanitize_filename(title).as_str());
    r.append(".");
    r.append(extension);
    assert(r@ =~= playlist_track_filename(artist@, title@, extension@));
    r
}

impl DeviceStorage {
    /// The files that an album's processed tracks are written to, in write
    /// order.
    pub fn album_track_paths(&self, tracks: &Vec<ProcessedTrack>) -> (r: Vec<String>)
        ensures
            r@.len() == tracks@.len(),
            forall|i: int|
                0 <= i < r@.len() ==> (#[trigger] r@[i])@ == join_path(
                    self.album_path(tracks@[i].artist@, tracks@[i].album@),
                    album_track_filename(
                        tracks@[i].track_number as nat,
                        tracks@[i].song.title@,
                        extension_of(tracks@[i].song),
                    ),
                ),
    {
        let mut out: Vec<String> = Vec::new();
        let mut i: usize = 0;
        while i < tracks.len()
            invariant
                i <= tracks@.len(),
                out@.len() == i,
                forall|k: int|
                    0 <= k < i ==> (#[trigger] out@[k])@ == join_path(
                        self.album_path(tracks@[k].artist@, tracks@[k].album@),
                        album_track_filename(
                            tracks@[k].track_number as nat,
                            tracks@[k].song.title@,
                            extension_of(tracks@[k].song),
                        ),
                    ),
            decreases tracks@.len() - i,
        {
            let t = &tracks[i];
            let ext = track_extension(&t.song);
            out.push(
                self.album_track_path(
                    t.artist.as_str(),
                    t.album.as_str(),
                    t.track_number,
                    t.song.title.as_str(),
                    ext.as_str(),
                ),
            );
            i = i + 1;
        }
        out
    }
}

/// The file names of a playlist's processed tracks, in write order; the
/// playlist's index lists exactly these names.
pub fn playlist_file_names(tracks: &Vec<ProcessedTrack>) -> (r: Vec<String>)
    ensures
        r@.len() == tracks@.len(),
        forall|i: int|
            0 <= i < r@.len() ==> (#[trigger] r@[i])@ == playlist_track_filename(
                tracks@[i].artist@,
                tracks@[i].song.title@,
                extension_of(tracks@[i].song),
            ),
{
    let mut out: Vec<String> = Vec::new();
    let mut i: usize = 0;
    while i < tracks.len()
        invariant
            i <= tracks@.len(),
            out@.len() == i,
            forall|k: int|
                0 <= k < i ==> (#[trigger] out@[k])@ == playlist_track_filename(
                    tracks@[k].artist@,
                    tracks@[k].song.title@,
                    extension_of(tracks@[k].song),
                ),
        decreases tracks@.len() - i,
    {
        let t = &tracks[i];
        let ext = track_extension(&t.song);
        out.push(playlist_track_file_name(t.artist.as_str(), t.song.title.as_str(), ext.as_str()));
        i = i + 1;
    }
    out
}

} // verus!
