//! The per-volume manifest: which albums and playlists have been synced.
//!
//! Records are keyed by their catalog identifier. Adding a record whose
//! identifier is already present first drops the stale record, so that a
//! manifest built only through these operations holds one record per id.

use vstd::prelude::*;

verus! {

/// Format version written into new manifests.
pub const MANIFEST_VERSION: u32 = 1;

/// A manifest entry identified by a catalog id.
pub trait Record: Sized {
    spec fn key(&self) -> Seq<char>;

    fn id_ref(&self) -> (r: &String)
        ensures
            r@ == self.key(),
    ;
}

/// Record of a synced album.
#[derive(Debug, Clone, PartialEq, Eq)]
pub struct SyncedAlbum {
    /// Catalog album id.
    pub id: String,
    /// Artist name.
    pub artist: String,
    /// Album name.
    pub album: String,
    /// Number of tracks written.
    pub track_count: u32,
    /// When the album was synced, in seconds since the Unix epoch.
    pub synced_at: i64,
}

/// Record of a synced playlist.
#[derive(Debug, Clone, PartialEq, Eq)]
pub struct SyncedPlaylist {
    /// Catalog playlist id.
    pub id: String,
    /// Playlist name.
    pub name: String,
    /// Number of tracks written.
    pub track_count: u32,
    /// When the playlist was synced, in seconds since the Unix epoch.
    pub synced_at: i64,
}

impl Record for SyncedAlbum {
    open spec fn key(&self) -> Seq<char> {
        self.id@
    }

    fn id_ref(&self) -> (r: &String) {
        &self.id
    }
}

impl Record for SyncedPlaylist {
    open spec fn key(&self) -> Seq<char> {
        self.id@
    }

    fn id_ref(&self) -> (r: &String) {
        &self.id
    }
}

/// The ids of a sequence of records, in order.
pub open spec fn keys<T: Record>(s: Seq<T>) -> Seq<Seq<char>> {
    s.map_values(|r: T| r.key())
}

/// Whether some record of `s` has id `k`.
pub open spec fn has_key<T: Record>(s: Seq<T>, k: Seq<char>) -> bool {
    exists|i: int| 0 <= i < s.len() && (#[trigger] s[i]).key() == k
}

/// No two records of `s` share an id.
pub open spec fn unique_keys<T: Record>(s: Seq<T>) -> bool {
    forall|i: int, j: int| 0 <= i < j < s.len() ==> (#[trigger] s[i]).key() != (#[trigger] s[j]).key()
}

/// The records of `s` whose id is not `k`, in order.
pub open spec fn without_key<T: Record>(s: Seq<T>, k: Seq<char>) -> Seq<T> {
    s.filter(|r: T| r.key() != k)
}

/// Upsert: the records of `s` other than those with `r`'s id, then `r`.
pub open spec fn upserted<T: Record>(s: Seq<T>, r: T) -> Seq<T> {
    without_key(s, r.key()).push(r)
}

/// No record of `without_key(s, k)` has id `k`, and every one of them is a
/// record of `s`.
pub proof fn lemma_without_key<T: Record>(s: Seq<T>, k: Seq<char>)
    ensures
        !has_key(without_key(s, k), k),
        forall|r: T| without_key(s, k).contains(r) ==> s.contains(r),
        forall|r: T| s.contains(r) && r.key() != k ==> without_key(s, k).contains(r),
        unique_keys(s) ==> unique_keys(without_key(s, k)),
    decreases s.len(),
{
    reveal(Seq::filter);
    let w = without_key(s, k);
    if s.len() > 0 {
        let d = s.drop_last();
        lemma_without_key(d, k);
        let wd = without_key(d, k);
        assert(w == (if s.last().key() != k {
            wd.push(s.last())
        } else {
            wd
        }));
        assert forall|r: T| w.contains(r) implies s.contains(r) by {
            let q = choose|q: int| 0 <= q < w.len() && w[q] == r;
            if q < wd.len() {
                assert(wd[q] == r);
                assert(wd.contains(r));
                assert(d.contains(r));
                let m = choose|m: int| 0 <= m < d.len() && d[m] == r;
                assert(s[m] == r);
            } else {
                assert(s[s.len() - 1] == r);
            }
        }
        assert forall|r: T| s.contains(r) && r.key() != k implies w.contains(r) by {
            let m = choose|m: int| 0 <= m < s.len() && s[m] == r;
            if m < s.len() - 1 {
                assert(d[m] == r);
                assert(wd.contains(r));
                let q = choose|q: int| 0 <= q < wd.len() && wd[q] == r;
                if s.last().key() != k {
                    assert(w[q] == r);
                }
            } else {
                assert(w[w.len() - 1] == r);
            }
        }
        if unique_keys(s) {
            assert(unique_keys(d)) by {
                assert forall|i: int, j: int| 0 <= i < j < d.len() implies (#[trigger] d[i]).key()
                    != (#[trigger] d[j]).key() by {
                    assert(d[i] == s[i] && d[j] == s[j]);
                }
            }
            if s.last().key() != k {
                assert(w == wd.push(s.last()));
                assert forall|i: int, j: int| 0 <= i < j < w.len() implies (#[trigger] w[i]).key()
                    != (#[trigger] w[j]).key() by {
                    if j == w.len() - 1 {
                        assert(w[i] == wd[i]);
                        assert(wd.contains(wd[i]));
                        assert(d.contains(wd[i]));
                        let m = choose|m: int| 0 <= m < d.len() && d[m] == wd[i];
                        assert(s[m] == wd[i]);
                        assert(s[s.len() - 1] == w[j]);
                    } else {
                        assert(w[i] == wd[i] && w[j] == wd[j]);
                    }
                }
            }
        }
        if has_key(w, k) {
            let i = choose|i: int| 0 <= i < w.len() && (#[trigger] w[i]).key() == k;
            if s.last().key() != k {
                assert(w == wd.push(s.last()));
                if i < wd.len() {
                    assert(wd[i] == w[i]);
                }
            } else {
                assert(w == wd);
            }
        }
    }
}

/// Whether `v` holds a record with id `id`.
pub fn contains_key<T: Record>(v: &Vec<T>, id: &String) -> (r: bool)
    ensures
        r == has_key(v@, id@),
{
    let mut i: usize = 0;
    while i < v.len()
        invariant
            i <= v.len(),
            forall|j: int| 0 <= j < i ==> (#[trigger] v@[j]).key() != id@,
        decreases v.len() - i,
    {
        if v[i].id_ref().eq(id) {
            return true;
        }
        i = i + 1;
    }
    false
}

/// Drops every record of `v` with id `id`, keeping the others in order.
pub fn remove_key<T: Record>(v: &mut Vec<T>, id: &String)
    ensures
        final(v)@ == without_key(old(v)@, id@),
{
    let ghost orig = old(v)@;
    let mut rest: Vec<T> = Vec::new();
    std::mem::swap(v, &mut rest);
    let ghost n = orig.len();
    while rest.len() > 0
        invariant
            n == orig.len(),
            rest.len() <= n,
            rest@ == orig.subrange(n - rest.len(), n as int),
            v@ == without_key(orig.subrange(0, n - rest.len()), id@),
        decreases rest.len(),
    {
        let ghost taken = n - rest.len();
        let r = rest.remove(0);
        proof {
            reveal(Seq::filter);
            let pre = orig.subrange(0, taken + 1);
            assert(pre.drop_last() =~= orig.subrange(0, taken));
            assert(pre.last() == r);
            assert(rest@ =~= orig.subrange(n - rest.len(), n as int));
        }
        if !r.id_ref().eq(id) {
            v.push(r);
        }
    }
    assert(orig.subrange(0, n as int) =~= orig);
}

/// Replaces any record with `rec`'s id by `rec`, which goes last.
pub fn upsert_key<T: Record>(v: &mut Vec<T>, rec: T)
    ensures
        final(v)@ == upserted(old(v)@, rec),
{
    let id = rec.id_ref().clone();
    remove_key(v, &id);
    v.push(rec);
}

/// Tracks what has been synced to one volume.
#[derive(Debug, Clone)]
pub struct SyncManifest {
    /// Manifest format version.
    pub version: u32,
    /// Time of the last change, in seconds since the Unix epoch.
    pub last_sync: i64,
    /// Catalog server that the records refer to.
    pub subsonic_url: String,
    /// Synced albums.
    pub synced_albums: Vec<SyncedAlbum>,
    /// Synced playlists.
    pub synced_playlists: Vec<SyncedPlaylist>,
}

impl SyncManifest {
    /// At most one record per id, for albums and for playlists.
    pub open spec fn wf(&self) -> bool {
        unique_keys(self.synced_albums@) && unique_keys(self.synced_playlists@)
    }

    pub open spec fn has_album(&self, id: Seq<char>) -> bool {
        has_key(self.synced_albums@, id)
    }

    pub open spec fn has_playlist(&self, id: Seq<char>) -> bool {
        has_key(self.synced_playlists@, id)
    }

    /// An empty manifest for the given catalog server, created at `now`
    /// (seconds since the Unix epoch).
    pub fn new(subsonic_url: &str, now: i64) -> (r: Self)
        ensures
            r.version == MANIFEST_VERSION,
            r.last_sync == now,
            r.subsonic_url@ == subsonic_url@,
            r.synced_albums@.len() == 0,
            r.synced_playlists@.len() == 0,
            r.wf(),
    {
        SyncManifest {
            version: MANIFEST_VERSION,
            last_sync: now,
            subsonic_url: subsonic_url.to_owned(),
            synced_albums: Vec::new(),
            synced_playlists: Vec::new(),
        }
    }

    /// Whether an album with this id has been synced.
    pub fn is_album_synced(&self, album_id: &str) -> (r: bool)
        ensures
            r == self.has_album(album_id@),
    {
        contains_key(&self.synced_albums, &album_id.to_owned())
    }

    /// Whether a playlist with this id has been synced.
    pub fn is_playlist_synced(&self, playlist_id: &str) -> (r: bool)
        ensures
            r == self.has_playlist(playlist_id@),
    {
        contains_key(&self.synced_playlists, &playlist_id.to_owned())
    }

    /// Records a synced album, replacing any record with the same id, and
    /// sets `last_sync` to `now`.
    pub fn add_album(&mut self, album: SyncedAlbum, now: i64)
        ensures
            final(self).last_sync == now,
            final(self).synced_albums@ == upserted(old(self).synced_albums@, album),
            final(self).synced_playlists@ == old(self).synced_playlists@,
            final(self).version == old(self).version,
            final(self).subsonic_url == old(self).subsonic_url,
            old(self).wf() ==> final(self).wf(),
    {
        proof {
            lemma_upsert_unique(self.synced_albums@, album);
        }
        upsert_key(&mut self.synced_albums, album);
        self.last_sync = now;
    }

    /// Records a synced playlist, replacing any record with the same id, and
    /// sets `last_sync` to `now`.
    pub fn add_playlist(&mut self, playlist: SyncedPlaylist, now: i64)
        ensures
            final(self).last_sync == now,
            final(self).synced_playlists@ == upserted(old(self).synced_playlists@, playlist),
            final(self).synced_albums@ == old(self).synced_albums@,
            final(self).version == old(self).version,
            final(self).subsonic_url == old(self).subsonic_url,
            old(self).wf() ==> final(self).wf(),
    {
        proof {
            lemma_upsert_unique(self.synced_playlists@, playlist);
        }
        upsert_key(&mut self.synced_playlists, playlist);
        self.last_sync = now;
    }

    /// Drops the album record with this id; nothing happens if there is none.
    pub fn remove_album(&mut self, album_id: &str)
        ensures
            final(self).synced_albums@ == without_key(old(self).synced_albums@, album_id@),
            final(self).synced_playlists@ == old(self).synced_playlists@,
            final(self).version == old(self).version,
            final(self).last_sync == old(self).last_sync,
            final(self).subsonic_url == old(self).subsonic_url,
            old(self).wf() ==> final(self).wf(),
    {
        proof {
            lemma_without_key(self.synced_albums@, album_id@);
        }
        remove_key(&mut self.synced_albums, &album_id.to_owned());
    }

    /// Drops the playlist record with this id; nothing happens if there is
    /// none.
    pub fn remove_playlist(&mut self, playlist_id: &str)
        ensures
            final(self).synced_playlists@ == without_key(old(self).synced_playlists@, playlist_id@),
            final(self).synced_albums@ == old(self).synced_albums@,
            final(self).version == old(self).version,
            final(self).last_sync == old(self).last_sync,
            final(self).subsonic_url == old(self).subsonic_url,
            old(self).wf() ==> final(self).wf(),
    {
        proof {
            lemma_without_key(self.synced_playlists@, playlist_id@);
        }
        remove_key(&mut self.synced_playlists, &playlist_id.to_owned());
    }
}

/// Upserting into records with unique ids keeps the ids unique.
pub proof fn lemma_upsert_unique<T: Record>(s: Seq<T>, r: T)
    ensures
        unique_keys(s) ==> unique_keys(upserted(s, r)),
        has_key(upserted(s, r), r.key()),
{
    lemma_without_key(s, r.key());
    let w = without_key(s, r.key());
    let u = upserted(s, r);
    assert(u[u.len() - 1] == r);
    if unique_keys(s) {
        assert forall|i: int, j: int| 0 <= i < j < u.len() implies (#[trigger] u[i]).key()
            != (#[trigger] u[j]).key() by {
            assert(u[i] == w[i]);
            if j < w.len() {
                assert(u[j] == w[j]);
            } else {
                if w[i].key() == r.key() {
                    assert(has_key(w, r.key()));
                }
            }
        }
    }
}

/// Upserting `a` and then `b` with the same id leaves exactly one record with
/// that id, and it is `b`.
pub proof fn lemma_upsert_twice<T: Record>(s: Seq<T>, a: T, b: T)
    requires
        a.key() == b.key(),
    ensures
        ({
            let u = upserted(upserted(s, a), b);
            &&& u.last() == b
            &&& forall|i: int| 0 <= i < u.len() - 1 ==> (#[trigger] u[i]).key() != b.key()
        }),
{
    let s1 = upserted(s, a);
    lemma_without_key(s1, b.key());
    let w = without_key(s1, b.key());
    let u = upserted(s1, b);
    assert forall|i: int| 0 <= i < u.len() - 1 implies (#[trigger] u[i]).key() != b.key() by {
        assert(u[i] == w[i]);
    }
}

} // verus!
