//! Catalog data as the sync engine sees it: artists, albums, playlists and
//! songs, the response envelopes of the catalog API, and the selection of
//! albums and playlists that should be present on a volume.

use vstd::prelude::*;

verus! {

/// Envelope of every catalog API response.
#[derive(Debug, Clone)]
pub struct SubsonicResponse<T> {
    pub subsonic_response: SubsonicResponseInner<T>,
}

/// Status, version and payload of a catalog API response.
#[derive(Debug, Clone)]
pub struct SubsonicResponseInner<T> {
    pub status: String,
    pub version: String,
    pub data: Option<T>,
    pub error: Option<SubsonicError>,
}

/// Error reported by the catalog server.
#[derive(Debug, Clone)]
pub struct SubsonicError {
    pub code: i32,
    pub message: String,
}

/// Why a catalog response was not usable.
#[derive(Debug, Clone, PartialEq, Eq)]
pub enum ResponseError {
    /// The server reported an error with this code and message.
    Server { code: i32, message: String },
    /// The status was not "ok" and the server gave no error.
    Unknown,
}

impl<T> SubsonicResponseInner<T> {
    /// Accepts a response whose status is "ok"; otherwise reports the
    /// server's error, or an unknown error if it gave none.
    pub fn check(&self) -> (r: Result<(), ResponseError>)
        ensures
            r is Ok <==> self.status@ == "ok"@,
            r matches Err(ResponseError::Server { code, message }) ==> self.error matches Some(
                e,
            ) && e.code == code && e.message == message,
            r matches Err(ResponseError::Unknown) ==> self.error is None,
            self.status@ != "ok"@ && self.error is Some ==> r matches Err(
                ResponseError::Server { .. },
            ),
    {
        if self.status.eq(&"ok".to_owned()) {
            Ok(())
        } else {
            match &self.error {
                Some(e) => Err(ResponseError::Server { code: e.code, message: e.message.clone() }),
                None => Err(ResponseError::Unknown),
            }
        }
    }
}

/// Payload of the artist index.
#[derive(Debug, Clone)]
pub struct ArtistsData {
    pub artists: ArtistsIndex,
}

/// The artist index: groups of artists by initial.
#[derive(Debug, Clone)]
pub struct ArtistsIndex {
    pub index: Vec<ArtistIndex>,
}

/// One group of the artist index.
#[derive(Debug, Clone)]
pub struct ArtistIndex {
    pub name: String,
    pub artist: Vec<Artist>,
}

/// The artists of all groups, in index order.
pub open spec fn all_artists(groups: Seq<ArtistIndex>) -> Seq<Artist>
    decreases groups.len(),
{
    if groups.len() == 0 {
        Seq::empty()
    } else {
        all_artists(groups.drop_last()) + groups.last().artist@
    }
}

impl ArtistsIndex {
    /// Flattens the index into the list of artists, group by group.
    pub fn into_artists(self) -> (r: Vec<Artist>)
        ensures
            r@ == all_artists(self.index@),
    {
        let ghost groups = self.index@;
        let mut rest = self.index;
        let mut out: Vec<Artist> = Vec::new();
        while rest.len() > 0
            invariant
                rest.len() <= groups.len(),
                rest@ == groups.subrange(groups.len() - rest.len(), groups.len() as int),
                out@ == all_artists(groups.subrange(0, groups.len() - rest.len())),
            decreases rest.len(),
        {
            let ghost done = groups.len() - rest.len();
            let mut g = rest.remove(0);
            proof {
                let pre = groups.subrange(0, done + 1);
                assert(pre.drop_last() =~= groups.subrange(0, done));
                assert(pre.last() == g);
                assert(rest@ =~= groups.subrange(groups.len() - rest.len(), groups.len() as int));
            }
            let ghost ga = g.artist@;
            out.append(&mut g.artist);
            assert(out@ =~= all_artists(groups.subrange(0, done)) + ga);
        }
        assert(groups.subrange(0, groups.len() as int) =~= groups);
        out
    }
}

/// Artist from the library.
#[derive(Debug, Clone)]
pub struct Artist {
    pub id: String,
    pub name: String,
    pub album_count: Option<u32>,
    pub cover_art: Option<String>,
}

/// Payload of an artist lookup.
#[derive(Debug, Clone)]
pub struct ArtistData {
    pub artist: ArtistWithAlbums,
}

/// An artist with its albums.
#[derive(Debug, Clone)]
pub struct ArtistWithAlbums {
    pub id: String,
    pub name: String,
    pub album_count: Option<u32>,
    pub cover_art: Option<String>,
    pub album: Vec<Album>,
}

/// Album from the library.
#[derive(Debug, Clone, PartialEq)]
pub struct Album {
    pub id: String,
    pub name: String,
    pub artist: Option<String>,
    pub artist_id: Option<String>,
    pub cover_art: Option<String>,
    pub song_count: Option<u32>,
    pub duration: Option<u32>,
    pub year: Option<u32>,
    pub genre: Option<String>,
}

/// Payload of an album lookup.
#[derive(Debug, Clone)]
pub struct AlbumData {
    pub album: AlbumWithSongs,
}

/// An album with its songs.
#[derive(Debug, Clone)]
pub struct AlbumWithSongs {
    pub id: String,
    pub name: String,
    pub artist: Option<String>,
    pub artist_id: Option<String>,
    pub cover_art: Option<String>,
    pub song_count: Option<u32>,
    pub duration: Option<u32>,
    pub year: Option<u32>,
    pub genre: Option<String>,
    pub song: Vec<Song>,
}

/// Song from the library.
#[derive(Debug, Clone)]
pub struct Song {
    pub id: String,
    pub title: String,
    pub album: Option<String>,
    pub album_id: Option<String>,
    pub artist: Option<String>,
    pub artist_id: Option<String>,
    pub track: Option<u32>,
    pub disc_number: Option<u32>,
    pub duration: Option<u32>,
    pub size: Option<u64>,
    pub suffix: Option<String>,
    pub content_type: Option<String>,
    pub cover_art: Option<String>,
    pub path: Option<String>,
}

/// Payload of the playlist listing.
#[derive(Debug, Clone)]
pub struct PlaylistsData {
    pub playlists: PlaylistsList,
}

/// The list of playlists.
#[derive(Debug, Clone)]
pub struct PlaylistsList {
    pub playlist: Vec<Playlist>,
}

/// Playlist metadata.
#[derive(Debug, Clone, PartialEq)]
pub struct Playlist {
    pub id: String,
    pub name: String,
    pub song_count: Option<u32>,
    pub duration: Option<u32>,
    pub owner: Option<String>,
    pub public: Option<bool>,
    pub cover_art: Option<String>,
}

/// Payload of a playlist lookup.
#[derive(Debug, Clone)]
pub struct PlaylistData {
    pub playlist: PlaylistWithSongs,
}

/// A playlist with its songs.
#[derive(Debug, Clone)]
pub struct PlaylistWithSongs {
    pub id: String,
    pub name: String,
    pub song_count: Option<u32>,
    pub duration: Option<u32>,
    pub owner: Option<String>,
    pub public: Option<bool>,
    pub cover_art: Option<String>,
    pub songs: Vec<Song>,
}

/// The albums and playlists that should be present on the volume.
#[derive(Debug, Clone)]
pub struct SyncSelection {
    pub albums: Vec<Album>,
    pub playlists: Vec<Playlist>,
}

/// The ids of the selected albums, in selection order.
pub open spec fn album_ids(s: Seq<Album>) -> Seq<Seq<char>> {
    s.map_values(|a: Album| a.id@)
}

/// The ids of the selected playlists, in selection order.
pub open spec fn playlist_ids(s: Seq<Playlist>) -> Seq<Seq<char>> {
    s.map_values(|p: Playlist| p.id@)
}

impl SyncSelection {
    /// An empty selection.
    pub fn new() -> (r: Self)
        ensures
            r.albums@.len() == 0,
            r.playlists@.len() == 0,
    {
        SyncSelection { albums: Vec::new(), playlists: Vec::new() }
    }

    /// Whether nothing is selected.
    pub fn is_empty(&self) -> (r: bool)
        ensures
            r == (self.albums@.len() == 0 && self.playlists@.len() == 0),
    {
        self.albums.len() == 0 && self.playlists.len() == 0
    }

    /// Number of selected albums.
    pub fn album_count(&self) -> (r: usize)
        ensures
            r == self.albums@.len(),
    {
        self.albums.len()
    }

    /// Number of selected playlists.
    pub fn playlist_count(&self) -> (r: usize)
        ensures
            r == self.playlists@.len(),
    {
        self.playlists.len()
    }

    /// The selection restricted to albums, playlists, or both: the kinds
    /// left out become empty.
    pub fn scoped(self, albums: bool, playlists: bool) -> (r: Self)
        ensures
            r.albums@ == if albums {
                self.albums@
            } else {
                Seq::empty()
            },
            r.playlists@ == if playlists {
                self.playlists@
            } else {
                Seq::empty()
            },
    {
        SyncSelection {
            albums: if albums {
                self.albums
            } else {
                Vec::new()
            },
            playlists: if playlists {
                self.playlists
            } else {
                Vec::new()
            },
        }
    }

    /// Whether an album with this id is selected.
    pub fn has_album(&self, id: &String) -> (r: bool)
        ensures
            r == album_ids(self.albums@).contains(id@),
    {
        let mut i: usize = 0;
        while i < self.albums.len()
            invariant
                i <= self.albums.len(),
                forall|j: int| 0 <= j < i ==> (#[trigger] self.albums@[j]).id@ != id@,
            decreases self.albums.len() - i,
        {
            if self.albums[i].id.eq(id) {
                assert(album_ids(self.albums@)[i as int] == id@);
                return true;
            }
            i = i + 1;
        }
        proof {
            if album_ids(self.albums@).contains(id@) {
                let k = choose|k: int|
                    0 <= k < album_ids(self.albums@).len() && album_ids(self.albums@)[k] == id@;
                assert(self.albums@[k].id@ == id@);
            }
        }
        false
    }

    /// Whether a playlist with this id is selected.
    pub fn has_playlist(&self, id: &String) -> (r: bool)
        ensures
            r == playlist_ids(self.playlists@).contains(id@),
    {
        let mut i: usize = 0;
        while i < self.playlists.len()
            invariant
                i <= self.playlists.len(),
                forall|j: int| 0 <= j < i ==> (#[trigger] self.playlists@[j]).id@ != id@,
            decreases self.playlists.len() - i,
        {
            if self.playlists[i].id.eq(id) {
                assert(playlist_ids(self.playlists@)[i as int] == id@);
                return true;
            }
            i = i + 1;
        }
        proof {
            if playlist_ids(self.playlists@).contains(id@) {
                let k = choose|k: int|
                    0 <= k < playlist_ids(self.playlists@).len() && playlist_ids(self.playlists@)[k]
                        == id@;
                assert(self.playlists@[k].id@ == id@);
            }
        }
        false
    }
}

} // verus!
