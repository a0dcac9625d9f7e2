//! Reconciliation of a selection against a manifest: what must be added to
//! the volume and what must be deleted from it. Identity is the catalog id
//! alone; a renamed album with a known id is neither added nor deleted.

use vstd::prelude::*;
use crate::manifest::{has_key, unique_keys, Record, SyncManifest, SyncedAlbum, SyncedPlaylist};
use crate::models::{album_ids, playlist_ids, SyncSelection};
use crate::seq_facts::{lemma_filter_empty_prefix, lemma_filter_no_duplicates, lemma_filter_prefix_step};

verus! {

/// Items to be deleted from the volume.
#[derive(Debug, Clone)]
pub struct DeletionSelection {
    /// Albums to delete: (id, artist, album name).
    pub albums: Vec<(String, String, String)>,
    /// Playlists to delete: (id, name).
    pub playlists: Vec<(String, String)>,
}

impl DeletionSelection {
    /// Nothing to delete.
    pub fn new() -> (r: Self)
        ensures
            r.albums@.len() == 0,
            r.playlists@.len() == 0,
    {
        DeletionSelection { albums: Vec::new(), playlists: Vec::new() }
    }

    /// The deletions restricted to albums, playlists, or both. A run that
    /// leaves a kind out of its selection must not delete that kind.
    pub fn scoped(self, albums: bool, playlists: bool) -> (r: Self)
        ensures
            r.albums@ == if albums {
                self.albums@
            } else {
                Seq::empty()
            },
            r.playlists@ == if playlists {
                self.playlists@
            } else {
                Seq::empty()
            },
    {
        DeletionSelection {
            albums: if albums {
                self.albums
            } else {
                Vec::new()
            },
            playlists: if playlists {
                self.playlists
            } else {
                Vec::new()
            },
        }
    }

    /// Whether there is nothing to delete.
    pub fn is_empty(&self) -> (r: bool)
        ensures
            r == (self.albums@.len() == 0 && self.playlists@.len() == 0),
    {
        self.albums.len() == 0 && self.playlists.len() == 0
    }
}

/// The ids of a list of strings.
pub open spec fn views(s: Seq<String>) -> Seq<Seq<char>> {
    s.map_values(|x: String| x@)
}

/// The album deletion entry for a manifest record.
pub open spec fn album_entry(r: SyncedAlbum) -> (Seq<char>, Seq<char>, Seq<char>) {
    (r.id@, r.artist@, r.album@)
}

/// The playlist deletion entry for a manifest record.
pub open spec fn playlist_entry(r: SyncedPlaylist) -> (Seq<char>, Seq<char>) {
    (r.id@, r.name@)
}

pub open spec fn album_entry_view(e: (String, String, String)) -> (Seq<char>, Seq<char>, Seq<char>) {
    (e.0@, e.1@, e.2@)
}

pub open spec fn playlist_entry_view(e: (String, String)) -> (Seq<char>, Seq<char>) {
    (e.0@, e.1@)
}

/// `es` lists, entry by entry, the deletion entries of the records `rs`.
pub open spec fn album_entries_match(es: Seq<(String, String, String)>, rs: Seq<SyncedAlbum>) -> bool {
    &&& es.len() == rs.len()
    &&& forall|k: int| 0 <= k < es.len() ==> album_entry_view(#[trigger] es[k]) == album_entry(rs[k])
}

/// `es` lists, entry by entry, the deletion entries of the records `rs`.
pub open spec fn playlist_entries_match(es: Seq<(String, String)>, rs: Seq<SyncedPlaylist>) -> bool {
    &&& es.len() == rs.len()
    &&& forall|k: int| 0 <= k < es.len() ==> playlist_entry_view(#[trigger] es[k]) == playlist_entry(rs[k])
}

/// Selected album ids that the manifest does not hold, in selection order.
pub open spec fn albums_to_add(sel: SyncSelection, m: SyncManifest) -> Seq<Seq<char>> {
    album_ids(sel.albums@).filter(|id: Seq<char>| !has_key(m.synced_albums@, id))
}

/// Selected playlist ids that the manifest does not hold, in selection order.
pub open spec fn playlists_to_add(sel: SyncSelection, m: SyncManifest) -> Seq<Seq<char>> {
    playlist_ids(sel.playlists@).filter(|id: Seq<char>| !has_key(m.synced_playlists@, id))
}

/// Manifest album records whose id is not selected, in manifest order.
pub open spec fn albums_to_delete(sel: SyncSelection, m: SyncManifest) -> Seq<SyncedAlbum> {
    m.synced_albums@.filter(|r: SyncedAlbum| !album_ids(sel.albums@).contains(r.id@))
}

/// Manifest playlist records whose id is not selected, in manifest order.
pub open spec fn playlists_to_delete(sel: SyncSelection, m: SyncManifest) -> Seq<SyncedPlaylist> {
    m.synced_playlists@.filter(|r: SyncedPlaylist| !playlist_ids(sel.playlists@).contains(r.id@))
}

/// What a sync run must do: the ids to add and the items to delete.
#[derive(Debug, Clone)]
pub struct SyncPlan {
    pub albums_to_add: Vec<String>,
    pub playlists_to_add: Vec<String>,
    pub deletions: DeletionSelection,
}

impl SyncPlan {
    /// The plan for `sel` against `m`.
    pub open spec fn is_plan_for(&self, sel: SyncSelection, m: SyncManifest) -> bool {
        &&& views(self.albums_to_add@) == albums_to_add(sel, m)
        &&& views(self.playlists_to_add@) == playlists_to_add(sel, m)
        &&& album_entries_match(self.deletions.albums@, albums_to_delete(sel, m))
        &&& playlist_entries_match(self.deletions.playlists@, playlists_to_delete(sel, m))
    }
}

/// Deletions for a selection: every manifest record whose id is no longer
/// selected.
pub fn calculate_deletions(selection: &SyncSelection, manifest: &SyncManifest) -> (r:
    DeletionSelection)
    ensures
        album_entries_match(r.albums@, albums_to_delete(*selection, *manifest)),
        playlist_entries_match(r.playlists@, playlists_to_delete(*selection, *manifest)),
        manifest.wf() ==> forall|i: int, j: int|
            0 <= i < j < r.albums@.len() ==> (#[trigger] r.albums@[i]).0@ != (
            #[trigger] r.albums@[j]).0@,
        manifest.wf() ==> forall|i: int, j: int|
            0 <= i < j < r.playlists@.len() ==> (#[trigger] r.playlists@[i]).0@ != (
            #[trigger] r.playlists@[j]).0@,
{
    let mut d = DeletionSelection::new();
    let ms = &manifest.synced_albums;
    let ghost pa = |r: SyncedAlbum| !album_ids(selection.albums@).contains(r.id@);
    let mut i: usize = 0;
    proof {
        lemma_filter_empty_prefix(ms@, pa);
    }
    while i < ms.len()
        invariant
            i <= ms.len(),
            pa == (|r: SyncedAlbum| !album_ids(selection.albums@).contains(r.id@)),
            album_entries_match(d.albums@, ms@.subrange(0, i as int).filter(pa)),
            d.playlists@.len() == 0,
        decreases ms.len() - i,
    {
        let r = &ms[i];
        proof {
            lemma_filter_prefix_step(ms@, i as int, pa);
        }
        if !selection.has_album(&r.id) {
            let e = (r.id.clone(), r.artist.clone(), r.album.clone());
            assert(album_entry_view(e) == album_entry(*r));
            d.albums.push(e);
        }
        i = i + 1;
    }
    assert(ms@.subrange(0, ms.len() as int) =~= ms@);
    let ps = &manifest.synced_playlists;
    let ghost pp = |r: SyncedPlaylist| !playlist_ids(selection.playlists@).contains(r.id@);
    let mut j: usize = 0;
    proof {
        lemma_filter_empty_prefix(ps@, pp);
    }
    while j < ps.len()
        invariant
            j <= ps.len(),
            pp == (|r: SyncedPlaylist| !playlist_ids(selection.playlists@).contains(r.id@)),
            album_entries_match(d.albums@, ms@.filter(pa)),
            playlist_entries_match(d.playlists@, ps@.subrange(0, j as int).filter(pp)),
        decreases ps.len() - j,
    {
        let r = &ps[j];
        proof {
            lemma_filter_prefix_step(ps@, j as int, pp);
        }
        if !selection.has_playlist(&r.id) {
            let e = (r.id.clone(), r.name.clone());
            assert(playlist_entry_view(e) == playlist_entry(*r));
            d.playlists.push(e);
        }
        j = j + 1;
    }
    assert(ps@.subrange(0, ps.len() as int) =~= ps@);
    proof {
        if manifest.wf() {
            lemma_filter_unique(ms@, pa);
            lemma_filter_unique(ps@, pp);
        }
    }
    d
}

/// Filtering records keeps their ids distinct.
proof fn lemma_filter_unique<T: Record>(s: Seq<T>, p: spec_fn(T) -> bool)
    requires
        unique_keys(s),
    ensures
        unique_keys(s.filter(p)),
{
    assert(s.no_duplicates()) by {
        assert forall|a: int, b: int| 0 <= a < s.len() && 0 <= b < s.len() && a != b implies s[a]
            != s[b] by {
            if a < b {
                assert(s[a].key() != s[b].key());
            } else {
                assert(s[b].key() != s[a].key());
            }
        }
    }
    lemma_filter_no_duplicates(s, p);
    let f = s.filter(p);
    assert forall|i: int, j: int| 0 <= i < j < f.len() implies (#[trigger] f[i]).key() != (
    #[trigger] f[j]).key() by {
        assert(f.contains(f[i]) && f.contains(f[j]));
        s.lemma_filter_contains_rev(p, f[i]);
        s.lemma_filter_contains_rev(p, f[j]);
        let a = choose|a: int| 0 <= a < s.len() && s[a] == f[i];
        let b = choose|b: int| 0 <= b < s.len() && s[b] == f[j];
        assert(f[i] != f[j]);
        if a < b {
            assert(s[a].key() != s[b].key());
        } else {
            assert(s[b].key() != s[a].key());
        }
    }
}

/// Computes what to add and what to delete for `selection` against
/// `manifest`.
pub fn reconcile(selection: &SyncSelection, manifest: &SyncManifest) -> (r: SyncPlan)
    ensures
        r.is_plan_for(*selection, *manifest),
        album_ids(selection.albums@).no_duplicates() ==> albums_to_add(
            *selection,
            *manifest,
        ).no_duplicates(),
        playlist_ids(selection.playlists@).no_duplicates() ==> playlists_to_add(
            *selection,
            *manifest,
        ).no_duplicates(),
        manifest.wf() ==> unique_keys(albums_to_delete(*selection, *manifest)),
        manifest.wf() ==> unique_keys(playlists_to_delete(*selection, *manifest)),
{
    let ghost pa = |id: Seq<char>| !has_key(manifest.synced_albums@, id);
    let sa = &selection.albums;
    let mut add_albums: Vec<String> = Vec::new();
    let mut i: usize = 0;
    proof {
        lemma_filter_empty_prefix(album_ids(sa@), pa);
    }
    while i < sa.len()
        invariant
            i <= sa.len(),
            pa == (|id: Seq<char>| !has_key(manifest.synced_albums@, id)),
            views(add_albums@) == album_ids(sa@).subrange(0, i as int).filter(pa),
        decreases sa.len() - i,
    {
        proof {
            lemma_filter_prefix_step(album_ids(sa@), i as int, pa);
        }
        if !manifest.is_album_synced(sa[i].id.as_str()) {
            add_albums.push(sa[i].id.clone());
        }
        i = i + 1;
        assert(views(add_albums@) =~= album_ids(sa@).subrange(0, i as int).filter(pa));
    }
    assert(album_ids(sa@).subrange(0, sa.len() as int) =~= album_ids(sa@));
    let ghost pp = |id: Seq<char>| !has_key(manifest.synced_playlists@, id);
    let sp = &selection.playlists;
    let mut add_playlists: Vec<String> = Vec::new();
    let mut j: usize = 0;
    proof {
        lemma_filter_empty_prefix(playlist_ids(sp@), pp);
    }
    while j < sp.len()
        invariant
            j <= sp.len(),
            pp == (|id: Seq<char>| !has_key(manifest.synced_playlists@, id)),
            views(add_playlists@) == playlist_ids(sp@).subrange(0, j as int).filter(pp),
        decreases sp.len() - j,
    {
        proof {
            lemma_filter_prefix_step(playlist_ids(sp@), j as int, pp);
        }
        if !manifest.is_playlist_synced(sp[j].id.as_str()) {
            add_playlists.push(sp[j].id.clone());
        }
        j = j + 1;
        assert(views(add_playlists@) =~= playlist_ids(sp@).subrange(0, j as int).filter(pp));
    }
    assert(playlist_ids(sp@).subrange(0, sp.len() as int) =~= playlist_ids(sp@));
    proof {
        if album_ids(sa@).no_duplicates() {
            lemma_filter_no_duplicates(album_ids(sa@), pa);
        }
        if playlist_ids(sp@).no_duplicates() {
            lemma_filter_no_duplicates(playlist_ids(sp@), pp);
        }
        if manifest.wf() {
            lemma_filter_unique(
                manifest.synced_albums@,
                |r: SyncedAlbum| !album_ids(selection.albums@).contains(r.id@),
            );
            lemma_filter_unique(
                manifest.synced_playlists@,
                |r: SyncedPlaylist| !playlist_ids(selection.playlists@).contains(r.id@),
            );
        }
    }
    let deletions = calculate_deletions(selection, manifest);
    SyncPlan { albums_to_add: add_albums, playlists_to_add: add_playlists, deletions }
}

proof fn lemma_filter_ids(ids: Seq<Seq<char>>, p: spec_fn(Seq<char>) -> bool, id: Seq<char>)
    ensures
        ids.filter(p).contains(id) <==> (ids.contains(id) && p(id)),
{
    if ids.filter(p).contains(id) {
        ids.lemma_filter_contains_rev(p, id);
        let k = choose|k: int| 0 <= k < ids.filter(p).len() && ids.filter(p)[k] == id;
        ids.lemma_filter_pred(p, k);
    }
    if ids.contains(id) && p(id) {
        let k = choose|k: int| 0 <= k < ids.len() && ids[k] == id;
        ids.lemma_filter_contains(p, k);
    }
}

proof fn lemma_filter_records<T: Record>(
    rs: Seq<T>,
    p: spec_fn(T) -> bool,
    sel: Seq<Seq<char>>,
    id: Seq<char>,
)
    requires
        forall|r: T| #[trigger] p(r) == !sel.contains(r.key()),
    ensures
        has_key(rs.filter(p), id) <==> (has_key(rs, id) && !sel.contains(id)),
{
    let f = rs.filter(p);
    if has_key(f, id) {
        let k = choose|k: int| 0 <= k < f.len() && (#[trigger] f[k]).key() == id;
        assert(f.contains(f[k]));
        rs.lemma_filter_contains_rev(p, f[k]);
        rs.lemma_filter_pred(p, k);
        let q = choose|q: int| 0 <= q < rs.len() && rs[q] == f[k];
        assert(rs[q].key() == id);
    }
    if has_key(rs, id) && !sel.contains(id) {
        let q = choose|q: int| 0 <= q < rs.len() && (#[trigger] rs[q]).key() == id;
        rs.lemma_filter_contains(p, q);
        let k = choose|k: int| 0 <= k < f.len() && f[k] == rs[q];
        assert(f[k].key() == id);
    }
}

/// Reconciliation is a set difference both ways: an album or playlist id is
/// to be added exactly when it is selected and not in the manifest, a record
/// is to be deleted exactly when its id is in the manifest and not selected,
/// and no id is both added and deleted.
pub proof fn lemma_reconcile_partition(sel: SyncSelection, m: SyncManifest)
    ensures
        forall|id: Seq<char>| #[trigger]
            albums_to_add(sel, m).contains(id) <==> (album_ids(sel.albums@).contains(id)
                && !has_key(m.synced_albums@, id)),
        forall|id: Seq<char>| #[trigger]
            has_key(albums_to_delete(sel, m), id) <==> (has_key(m.synced_albums@, id)
                && !album_ids(sel.albums@).contains(id)),
        forall|id: Seq<char>|
            !(#[trigger] albums_to_add(sel, m).contains(id) && has_key(albums_to_delete(sel, m), id)),
        forall|id: Seq<char>| #[trigger]
            playlists_to_add(sel, m).contains(id) <==> (playlist_ids(sel.playlists@).contains(id)
                && !has_key(m.synced_playlists@, id)),
        forall|id: Seq<char>| #[trigger]
            has_key(playlists_to_delete(sel, m), id) <==> (has_key(m.synced_playlists@, id)
                && !playlist_ids(sel.playlists@).contains(id)),
        forall|id: Seq<char>|
            !(#[trigger] playlists_to_add(sel, m).contains(id) && has_key(
                playlists_to_delete(sel, m),
                id,
            )),
{
    assert forall|id: Seq<char>| #[trigger]
        albums_to_add(sel, m).contains(id) <==> (album_ids(sel.albums@).contains(id) && !has_key(
            m.synced_albums@,
            id,
        )) by {
        lemma_filter_ids(
            album_ids(sel.albums@),
            |i: Seq<char>| !has_key(m.synced_albums@, i),
            id,
        );
    }
    assert forall|id: Seq<char>| #[trigger]
        has_key(albums_to_delete(sel, m), id) <==> (has_key(m.synced_albums@, id)
            && !album_ids(sel.albums@).contains(id)) by {
        lemma_filter_records(
            m.synced_albums@,
            |r: SyncedAlbum| !album_ids(sel.albums@).contains(r.id@),
            album_ids(sel.albums@),
            id,
        );
    }
    assert forall|id: Seq<char>| #[trigger]
        playlists_to_add(sel, m).contains(id) <==> (playlist_ids(sel.playlists@).contains(id)
            && !has_key(m.synced_playlists@, id)) by {
        lemma_filter_ids(
            playlist_ids(sel.playlists@),
            |i: Seq<char>| !has_key(m.synced_playlists@, i),
            id,
        );
    }
    assert forall|id: Seq<char>| #[trigger]
        has_key(playlists_to_delete(sel, m), id) <==> (has_key(m.synced_playlists@, id)
            && !playlist_ids(sel.playlists@).contains(id)) by {
        lemma_filter_records(
            m.synced_playlists@,
            |r: SyncedPlaylist| !playlist_ids(sel.playlists@).contains(r.id@),
            playlist_ids(sel.playlists@),
            id,
        );
    }
}

} // verus!
