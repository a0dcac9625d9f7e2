//! Request URLs of the catalog API: `<base>/rest/<endpoint>?<query>`, where
//! the query carries the authentication parameters, percent-encoded, joined
//! by `&`, optionally followed by an item id and an image size.

use vstd::prelude::*;
use vstd::string::*;
use crate::auth::is_ascii_alphanumeric;
use crate::text::push_decimal;

verus! {

/// Characters that percent-encoding leaves as they are.
pub open spec fn is_unreserved(c: char) -> bool {
    is_ascii_alphanumeric(c) || c == '-' || c == '.' || c == '_' || c == '~'
}

/// The percent-encoding of the UTF-8 bytes of `s`.
pub uninterp spec fn url_encoded(s: Seq<char>) -> Seq<char>;

/// Relies on `urlencoding::encode`: every byte but ASCII letters, digits and
/// `-`, `.`, `_`, `~` is percent-encoded, so text made only of those comes
/// back unchanged.
#[verifier::external_body]
fn url_encode(s: &str) -> (r: String)
    ensures
        r@ == url_encoded(s@),
        (forall|i: int| 0 <= i < s@.len() ==> is_unreserved(#[trigger] s@[i])) ==> r@ == s@,
{
    urlencoding::encode(s).into_owned()
}

/// `key=encoded(value)` for each parameter, joined by `&`.
pub open spec fn query_of(params: Seq<(Seq<char>, Seq<char>)>) -> Seq<char>
    decreases params.len(),
{
    if params.len() == 0 {
        Seq::empty()
    } else {
        let p = params.last();
        let item = p.0 + seq!['='] + url_encoded(p.1);
        if params.len() == 1 {
            item
        } else {
            query_of(params.drop_last()) + seq!['&'] + item
        }
    }
}

pub open spec fn param_views(params: Seq<(String, String)>) -> Seq<(Seq<char>, Seq<char>)> {
    params.map_values(|p: (String, String)| (p.0@, p.1@))
}

/// The URL of an endpoint with the given query parameters.
pub open spec fn request_url_of(
    base_url: Seq<char>,
    endpoint: Seq<char>,
    params: Seq<(Seq<char>, Seq<char>)>,
) -> Seq<char> {
    base_url + "/rest/"@ + endpoint + seq!['?'] + query_of(params)
}

/// `s` without the `/` characters at its end.
pub open spec fn trim_trailing_slashes(s: Seq<char>) -> Seq<char>
    decreases s.len(),
{
    if s.len() > 0 && s.last() == '/' {
        trim_trailing_slashes(s.drop_last())
    } else {
        s
    }
}

/// A server URL without trailing `/`, so that paths can be appended.
pub fn normalize_base_url(url: &str) -> (r: String)
    ensures
        r@ == trim_trailing_slashes(url@),
{
    let mut end = url.unicode_len();
    assert(url@.subrange(0, end as int) =~= url@);
    while end > 0 && url.get_char(end - 1) == '/'
        invariant
            end <= url@.len(),
            trim_trailing_slashes(url@) == trim_trailing_slashes(url@.subrange(0, end as int)),
        decreases end,
    {
        proof {
            let pre = url@.subrange(0, end as int);
            assert(pre.drop_last() =~= url@.subrange(0, end - 1));
        }
        end = end - 1;
    }
    url.substring_char(0, end).to_owned()
}

/// The URL of `endpoint` on the server at `base_url`, with the given
/// query parameters (usually the authentication parameters).
pub fn request_url(base_url: &str, endpoint: &str, params: &Vec<(String, String)>) -> (r: String)
    ensures
        r@ == request_url_of(base_url@, endpoint@, param_views(params@)),
{
    let ghost pv = param_views(params@);
    let mut url = String::from_str(base_url);
    url.append("/rest/");
    url.append(endpoint);
    url.append("?");
    let ghost head = url@;
    let mut i: usize = 0;
    while i < params.len()
        invariant
            i <= params@.len(),
            pv == param_views(params@),
            url@ == head + query_of(pv.subrange(0, i as int)),
        decreases params@.len() - i,
    {
        if i > 0 {
            url.append("&");
        }
        url.append(params[i].0.as_str());
        url.append("=");
        url.append(url_encode(params[i].1.as_str()).as_str());
        proof {
            reveal_strlit("&");
            reveal_strlit("=");
            let pre = pv.subrange(0, i + 1);
            assert(pre.drop_last() =~= pv.subrange(0, i as int));
            assert(pre.last() == pv[i as int]);
            if i == 0 {
                assert(pv.subrange(0, 0) =~= Seq::<(Seq<char>, Seq<char>)>::empty());
            }
        }
        i = i + 1;
        assert(url@ =~= head + query_of(pv.subrange(0, i as int)));
    }
    proof {
        reveal_strlit("?");
        assert(pv.subrange(0, params@.len() as int) =~= pv);
    }
    assert(url@ =~= request_url_of(base_url@, endpoint@, pv));
    url
}

/// `url` with an `id` parameter added.
pub open spec fn with_id(url: Seq<char>, id: Seq<char>) -> Seq<char> {
    url + "&id="@ + id
}

/// The download URL of a song.
pub fn download_url(base_url: &str, params: &Vec<(String, String)>, id: &str) -> (r: String)
    ensures
        r@ == with_id(request_url_of(base_url@, "download"@, param_views(params@)), id@),
{
    let mut url = request_url(base_url, "download", params);
    url.append("&id=");
    url.append(id);
    url
}

/// The URL of a cover image, with an optional size in pixels.
pub fn cover_art_url(base_url: &str, params: &Vec<(String, String)>, id: &str, size: Option<u32>) -> (r:
    String)
    ensures
        ({
            let u = with_id(request_url_of(base_url@, "getCoverArt"@, param_views(params@)), id@);
            r@ == match size {
                Some(s) => u + "&size="@ + crate::text::decimal(s as nat),
                None => u,
            }
        }),
{
    let mut url = request_url(base_url, "getCoverArt", params);
    url.append("&id=");
    url.append(id);
    match size {
        Some(s) => {
            url.append("&size=");
            push_decimal(&mut url, s as u64);
        },
        None => {},
    }
    url
}

/// The URL of a lookup of one item by id (album, artist or playlist).
pub fn item_url(base_url: &str, endpoint: &str, params: &Vec<(String, String)>, id: &str) -> (r:
    String)
    ensures
        r@ == with_id(request_url_of(base_url@, endpoint@, param_views(params@)), id@),
{
    let mut url = request_url(base_url, endpoint, params);
    url.append("&id=");
    url.append(id);
    url
}

} // verus!
