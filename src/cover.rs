//! The size policy for embedded cover images: re-encode at lower JPEG
//! quality until the image fits the byte budget, but never below a floor.

use vstd::prelude::*;

verus! {

/// Largest width or height of a processed cover, in pixels.
pub const MAX_COVER_SIZE: u32 = 300;

/// JPEG quality of the first encoding attempt.
pub const JPEG_QUALITY: u8 = 75;

/// Quality below which no further attempt is made.
pub const MIN_JPEG_QUALITY: u8 = 50;

/// Quality lost at each further attempt.
pub const QUALITY_STEP: u8 = 10;

/// Byte budget of a processed cover.
pub const MAX_COVER_BYTES: usize = 204800;

/// After an encoding of `encoded_len` bytes at `quality`: `None` to keep it,
/// or the quality of the next attempt.
pub fn next_cover_quality(encoded_len: usize, quality: u8) -> (r: Option<u8>)
    ensures
        r is None <==> (encoded_len <= MAX_COVER_BYTES || quality <= MIN_JPEG_QUALITY),
        r matches Some(q) ==> q == quality - QUALITY_STEP,
{
    if encoded_len <= MAX_COVER_BYTES || quality <= MIN_JPEG_QUALITY {
        None
    } else {
        Some(quality - QUALITY_STEP)
    }
}

/// Whether an image of this size is already small enough to keep as is.
pub fn fits_cover_size(width: u32, height: u32) -> (r: bool)
    ensures
        r == (width <= MAX_COVER_SIZE && height <= MAX_COVER_SIZE),
{
    width <= MAX_COVER_SIZE && height <= MAX_COVER_SIZE
}

/// Whether one of the first `n` entries of `ids` is the cover id `id`.
pub open spec fn names_cover(ids: Seq<Option<String>>, n: int, id: Seq<char>) -> bool {
    exists|k: int| 0 <= k < n && ids[k] is Some && (#[trigger] ids[k])->Some_0@ == id
}

/// Whether `out` holds the id `id`.
pub open spec fn holds_id(out: Seq<String>, id: Seq<char>) -> bool {
    exists|j: int| 0 <= j < out.len() && (#[trigger] out[j])@ == id
}

/// The distinct cover ids of a playlist's tracks, so that each cover is
/// processed once: no id twice, every track's id present, and nothing else.
pub fn unique_cover_ids(ids: &Vec<Option<String>>) -> (r: Vec<String>)
    ensures
        forall|i: int, j: int| 0 <= i < j < r@.len() ==> (#[trigger] r@[i])@ != (#[trigger] r@[j])@,
        forall|i: int| 0 <= i < ids@.len() && (#[trigger] ids@[i]) is Some ==> holds_id(r@, ids@[i]->Some_0@),
        forall|j: int| 0 <= j < r@.len() ==> names_cover(ids@, ids@.len() as int, (#[trigger] r@[j])@),
{
    let mut out: Vec<String> = Vec::new();
    let mut i: usize = 0;
    while i < ids.len()
        invariant
            i <= ids@.len(),
            forall|a: int, b: int| 0 <= a < b < out@.len() ==> (#[trigger] out@[a])@ != (#[trigger] out@[b])@,
            forall|k: int| 0 <= k < i && (#[trigger] ids@[k]) is Some ==> holds_id(out@, ids@[k]->Some_0@),
            forall|j: int| 0 <= j < out@.len() ==> names_cover(ids@, i as int, (#[trigger] out@[j])@),
        decreases ids@.len() - i,
    {
        let ghost before = out@;
        match &ids[i] {
            Some(id) => {
                let mut seen = false;
                let mut j: usize = 0;
                while j < out.len()
                    invariant
                        j <= out@.len(),
                        seen == exists|q: int| 0 <= q < j && (#[trigger] out@[q])@ == id@,
                    decreases out@.len() - j,
                {
                    if out[j].eq(id) {
                        seen = true;
                    }
                    j = j + 1;
                }
                if !seen {
                    out.push(id.clone());
                    assert(out@[out@.len() - 1]@ == id@);
                    assert forall|k: int| 0 <= k < i && (#[trigger] ids@[k]) is Some implies holds_id(out@, ids@[k]->Some_0@) by {
                        let q: int = choose|q: int| 0 <= q < before.len() && (#[trigger] before[q])@ == ids@[k]->Some_0@;
                        assert(out@[q] == before[q]);
                    }
                } else {
                    assert(holds_id(out@, id@));
                }
                assert(holds_id(out@, ids@[i as int]->Some_0@));
            },
            None => {},
        }
        assert forall|j: int| 0 <= j < out@.len() implies names_cover(ids@, i + 1, (#[trigger] out@[j])@) by {
            if j < before.len() {
                assert(out@[j] == before[j]);
                assert(names_cover(ids@, i as int, before[j]@));
                let k = choose|k: int| 0 <= k < i && ids@[k] is Some && (#[trigger] ids@[k])->Some_0@ == before[j]@;
                assert(0 <= k < i + 1);
            } else {
                assert(ids@[i as int] is Some && ids@[i as int]->Some_0@ == out@[j]@);
            }
        }
        i = i + 1;
    }
    out
}

} // verus!
