//! File-name sanitisation: characters that file systems reject are replaced
//! by look-alike code points, and surrounding white space is dropped.

use vstd::prelude::*;
use crate::text::{chars_of, string_from_chars};

verus! {

/// The replacement for one character of a name.
pub open spec fn safe_char(c: char) -> char {
    if c == '/' {
        '\u{29F8}'
    } else if c == '\\' {
        '\u{29F9}'
    } else if c == ':' {
        '\u{A789}'
    } else if c == '*' {
        '\u{204E}'
    } else if c == '?' {
        '\u{FF1F}'
    } else if c == '"' {
        '\u{2033}'
    } else if c == '<' {
        '\u{2039}'
    } else if c == '>' {
        '\u{203A}'
    } else if c == '|' {
        '\u{FF5C}'
    } else if c == '\0' {
        '_'
    } else {
        c
    }
}

/// Unicode `White_Space`, the set that `char::is_whitespace` tests.
pub open spec fn is_white_space(c: char) -> bool {
    ||| ('\t' <= c && c <= '\r')
    ||| c == ' '
    ||| c == '\u{85}'
    ||| c == '\u{A0}'
    ||| c == '\u{1680}'
    ||| ('\u{2000}' <= c && c <= '\u{200A}')
    ||| c == '\u{2028}'
    ||| c == '\u{2029}'
    ||| c == '\u{202F}'
    ||| c == '\u{205F}'
    ||| c == '\u{3000}'
}

/// `s` without its leading white space.
pub open spec fn trim_start(s: Seq<char>) -> Seq<char>
    decreases s.len(),
{
    if s.len() > 0 && is_white_space(s[0]) {
        trim_start(s.drop_first())
    } else {
        s
    }
}

/// `s` without its trailing white space.
pub open spec fn trim_end(s: Seq<char>) -> Seq<char>
    decreases s.len(),
{
    if s.len() > 0 && is_white_space(s.last()) {
        trim_end(s.drop_last())
    } else {
        s
    }
}

/// `s` without white space at either end.
pub open spec fn trimmed(s: Seq<char>) -> Seq<char> {
    trim_end(trim_start(s))
}

/// The sanitised form of a name.
pub open spec fn sanitized(s: Seq<char>) -> Seq<char> {
    trimmed(s.map_values(|c: char| safe_char(c)))
}

fn safe_char_exec(c: char) -> (r: char)
    ensures
        r == safe_char(c),
{
    if c == '/' {
        '\u{29F8}'
    } else if c == '\\' {
        '\u{29F9}'
    } else if c == ':' {
        '\u{A789}'
    } else if c == '*' {
        '\u{204E}'
    } else if c == '?' {
        '\u{FF1F}'
    } else if c == '"' {
        '\u{2033}'
    } else if c == '<' {
        '\u{2039}'
    } else if c == '>' {
        '\u{203A}'
    } else if c == '|' {
        '\u{FF5C}'
    } else if c == '\0' {
        '_'
    } else {
        c
    }
}

/// Whether `c` is Unicode white space.
pub fn is_white_space_exec(c: char) -> (r: bool)
    ensures
        r == is_white_space(c),
{
    ('\t' <= c && c <= '\r') || c == ' ' || c == '\u{85}' || c == '\u{A0}' || c == '\u{1680}'
        || ('\u{2000}' <= c && c <= '\u{200A}') || c == '\u{2028}' || c == '\u{2029}'
        || c == '\u{202F}' || c == '\u{205F}' || c == '\u{3000}'
}

proof fn lemma_trim_start_skip(s: Seq<char>, i: int)
    requires
        0 <= i <= s.len(),
        forall|k: int| 0 <= k < i ==> is_white_space(#[trigger] s[k]),
        i < s.len() ==> !is_white_space(s[i]),
    ensures
        trim_start(s) == s.subrange(i, s.len() as int),
    decreases i,
{
    if i == 0 {
        assert(s.subrange(0, s.len() as int) =~= s);
    } else {
        let t = s.drop_first();
        assert forall|k: int| 0 <= k < i - 1 implies is_white_space(#[trigger] t[k]) by {
            assert(t[k] == s[k + 1]);
        }
        lemma_trim_start_skip(t, i - 1);
        assert(t.subrange(i - 1, t.len() as int) =~= s.subrange(i, s.len() as int));
    }
}

proof fn lemma_trim_end_skip(s: Seq<char>, j: int)
    requires
        0 <= j <= s.len(),
        forall|k: int| j <= k < s.len() ==> is_white_space(#[trigger] s[k]),
        j > 0 ==> !is_white_space(s[j - 1]),
    ensures
        trim_end(s) == s.subrange(0, j),
    decreases s.len() - j,
{
    if j == s.len() {
        assert(s.subrange(0, j) =~= s);
    } else {
        let t = s.drop_last();
        assert forall|k: int| j <= k < t.len() implies is_white_space(#[trigger] t[k]) by {
            assert(t[k] == s[k]);
        }
        lemma_trim_end_skip(t, j);
        assert(t.subrange(0, j) =~= s.subrange(0, j));
    }
}

/// Replaces file-system-unsafe characters by look-alikes and trims white
/// space from both ends.
pub fn sanitize_filename(name: &str) -> (r: String)
    ensures
        r@ == sanitized(name@),
{
    let cs = chars_of(name);
    let mut mapped: Vec<char> = Vec::new();
    let mut i: usize = 0;
    while i < cs.len()
        invariant
            i <= cs.len(),
            cs@ == name@,
            mapped@ == name@.map_values(|c: char| safe_char(c)).subrange(0, i as int),
        decreases cs.len() - i,
    {
        mapped.push(safe_char_exec(cs[i]));
        i = i + 1;
        assert(mapped@ =~= name@.map_values(|c: char| safe_char(c)).subrange(0, i as int));
    }
    let ghost m = name@.map_values(|c: char| safe_char(c));
    assert(mapped@ =~= m);
    let mut start: usize = 0;
    while start < mapped.len() && is_white_space_exec(mapped[start])
        invariant
            start <= mapped.len(),
            mapped@ == m,
            forall|k: int| 0 <= k < start ==> is_white_space(#[trigger] m[k]),
        decreases mapped.len() - start,
    {
        start = start + 1;
    }
    proof {
        lemma_trim_start_skip(m, start as int);
    }
    let ghost ts = m.subrange(start as int, m.len() as int);
    let mut end: usize = mapped.len();
    while end > start && is_white_space_exec(mapped[end - 1])
        invariant
            start <= end <= mapped.len(),
            mapped@ == m,
            forall|k: int| end <= k < m.len() ==> is_white_space(#[trigger] m[k]),
        decreases end,
    {
        end = end - 1;
    }
    let mut out: Vec<char> = Vec::new();
    let mut k: usize = start;
    while k < end
        invariant
            start <= k <= end,
            end <= mapped.len(),
            mapped@ == m,
            out@ == m.subrange(start as int, k as int),
        decreases end - k,
    {
        out.push(mapped[k]);
        k = k + 1;
        assert(out@ =~= m.subrange(start as int, k as int));
    }
    proof {
        assert forall|q: int| (end - start) <= q < ts.len() implies is_white_space(
            #[trigger] ts[q],
        ) by {
            assert(ts[q] == m[q + start]);
        }
        if end > start {
            assert(ts[end - start - 1] == m[end - 1]);
        }
        lemma_trim_end_skip(ts, end - start);
        assert(ts.subrange(0, end - start) =~= m.subrange(start as int, end as int));
    }
    string_from_chars(&out)
}

} // verus!
