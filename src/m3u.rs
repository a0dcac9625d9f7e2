//! Playlist index files: a fixed header line, then one track file name per
//! line. Names are relative, so the index stays valid wherever the volume is
//! mounted.

use vstd::prelude::*;
use vstd::string::*;

verus! {

/// The header line that starts every playlist index.
pub const M3U_HEADER: &'static str = "#EXTM3U\n";

/// The lines of an index body: each name followed by a newline.
pub open spec fn m3u_lines(tracks: Seq<Seq<char>>) -> Seq<char>
    decreases tracks.len(),
{
    if tracks.len() == 0 {
        Seq::empty()
    } else {
        m3u_lines(tracks.drop_last()) + tracks.last() + seq!['\n']
    }
}

/// The full text of an index for the given track names.
pub open spec fn m3u_text(tracks: Seq<Seq<char>>) -> Seq<char> {
    M3U_HEADER@ + m3u_lines(tracks)
}

/// Generates the playlist index for the given track file names, in order.
pub fn generate_m3u(tracks: &[String]) -> (r: String)
    ensures
        r@ == m3u_text(tracks@.map_values(|t: String| t@)),
{
    let ghost names = tracks@.map_values(|t: String| t@);
    let mut content = String::from_str(M3U_HEADER);
    let mut i: usize = 0;
    while i < tracks.len()
        invariant
            i <= tracks@.len(),
            names == tracks@.map_values(|t: String| t@),
            content@ == M3U_HEADER@ + m3u_lines(names.subrange(0, i as int)),
        decreases tracks@.len() - i,
    {
        content.append(tracks[i].as_str());
        content.append("\n");
        proof {
            reveal_strlit("\n");
            let pre = names.subrange(0, i + 1);
            assert(pre.drop_last() =~= names.subrange(0, i as int));
            assert(pre.last() == tracks@[i as int]@);
        }
        i = i + 1;
        assert(content@ =~= M3U_HEADER@ + m3u_lines(names.subrange(0, i as int)));
    }
    assert(names.subrange(0, tracks@.len() as int) =~= names);
    content
}

} // verus!
