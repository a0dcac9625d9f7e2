//! Request authentication for the catalog API: each request carries the
//! user name, a fresh random salt and the token MD5(password + salt).

use vstd::prelude::*;
use vstd::string::*;
use crate::text::{concat_str, hex_digit, hex_of, hex_string, push_char};

verus! {

/// API version sent with every request.
pub const API_VERSION: &'static str = "1.16.1";

/// Client identifier sent with every request.
pub const CLIENT_NAME: &'static str = "nutune";

/// Response format requested.
pub const RESPONSE_FORMAT: &'static str = "json";

/// Catalog server credentials.
#[derive(Debug, Clone)]
pub struct SubsonicCredentials {
    pub url: String,
    pub username: String,
    pub password: String,
}

/// Length of a request salt.
pub const SALT_LEN: usize = 16;

pub open spec fn is_ascii_alphanumeric(c: char) -> bool {
    ('A' <= c && c <= 'Z') || ('a' <= c && c <= 'z') || ('0' <= c && c <= '9')
}

pub open spec fn is_lower_hex_digit(c: char) -> bool {
    ('0' <= c && c <= '9') || ('a' <= c && c <= 'f')
}

/// The 16-byte MD5 digest of the UTF-8 bytes of `s`.
pub uninterp spec fn md5_of(s: Seq<char>) -> Seq<u8>;

/// Relies on `rand::distributions::Alphanumeric` drawn from `rand::thread_rng`:
/// one of `A-Z`, `a-z`, `0-9`. Nothing else is known of it.
#[verifier::external_body]
fn random_alphanumeric() -> (c: char)
    ensures
        is_ascii_alphanumeric(c),
{
    char::from(rand::Rng::sample(&mut rand::thread_rng(), rand::distributions::Alphanumeric))
}

/// Relies on `md5::Md5` (the `md-5` crate): the 16-byte digest of the UTF-8
/// bytes of `s`, which depends on `s` alone.
#[verifier::external_body]
fn md5_digest(s: &str) -> (r: Vec<u8>)
    ensures
        r@ == md5_of(s@),
        r@.len() == 16,
{
    <md5::Md5 as md5::Digest>::digest(s.as_bytes()).to_vec()
}

/// A random salt of sixteen ASCII letters and digits.
pub fn generate_salt() -> (r: String)
    ensures
        r@.len() == SALT_LEN,
        forall|i: int| 0 <= i < r@.len() ==> is_ascii_alphanumeric(#[trigger] r@[i]),
{
    let mut r = String::new();
    let mut i: usize = 0;
    while i < SALT_LEN
        invariant
            i <= SALT_LEN,
            r@.len() == i,
            forall|k: int| 0 <= k < r@.len() ==> is_ascii_alphanumeric(#[trigger] r@[k]),
        decreases SALT_LEN - i,
    {
        push_char(&mut r, random_alphanumeric());
        i = i + 1;
    }
    r
}

/// Each digit of the lowercase hex form of some bytes is a lowercase hex
/// digit, and there are two per byte.
proof fn lemma_hex_form(b: Seq<u8>)
    ensures
        hex_of(b).len() == 2 * b.len(),
        forall|i: int| 0 <= i < hex_of(b).len() ==> is_lower_hex_digit(#[trigger] hex_of(b)[i]),
    decreases b.len(),
{
    if b.len() > 0 {
        lemma_hex_form(b.drop_last());
        let h = hex_of(b.drop_last());
        let x = b.last();
        assert(hex_of(b) == h + seq![hex_digit(x / 16), hex_digit(x % 16)]);
        assert forall|i: int| 0 <= i < hex_of(b).len() implies is_lower_hex_digit(
            #[trigger] hex_of(b)[i],
        ) by {
            if i >= h.len() {
                let v = if i == h.len() { x / 16 } else { x % 16 };
                assert(hex_of(b)[i] == hex_digit(v));
            } else {
                assert(hex_of(b)[i] == h[i]);
            }
        }
    }
}

/// The token for a password and a salt: MD5(password + salt) in lowercase
/// hex.
pub fn generate_token(password: &str, salt: &str) -> (r: String)
    ensures
        r@ == hex_of(md5_of(password@ + salt@)),
        r@.len() == 32,
        forall|i: int| 0 <= i < r@.len() ==> is_lower_hex_digit(#[trigger] r@[i]),
{
    let digest = md5_digest(concat_str(password, salt).as_str());
    proof {
        lemma_hex_form(digest@);
    }
    hex_string(&digest)
}

/// The authentication parameters of one request, in this order: user name
/// `u`, token `t`, salt `s`, API version `v`, client name `c` and response
/// format `f`. The token is computed from the password and the fresh salt.
pub fn generate_auth_params(username: &str, password: &str) -> (r: Vec<(String, String)>)
    ensures
        r@.len() == 6,
        r@[0].0@ == "u"@ && r@[0].1@ == username@,
        r@[1].0@ == "t"@ && r@[1].1@ == hex_of(md5_of(password@ + r@[2].1@)) && r@[1].1@.len() == 32,
        r@[2].0@ == "s"@ && r@[2].1@.len() == SALT_LEN,
        forall|i: int| 0 <= i < r@[2].1@.len() ==> is_ascii_alphanumeric(#[trigger] r@[2].1@[i]),
        r@[3].0@ == "v"@ && r@[3].1@ == API_VERSION@,
        r@[4].0@ == "c"@ && r@[4].1@ == CLIENT_NAME@,
        r@[5].0@ == "f"@ && r@[5].1@ == RESPONSE_FORMAT@,
{
    let salt = generate_salt();
    let token = generate_token(password, salt.as_str());
    let mut params: Vec<(String, String)> = Vec::new();
    params.push(("u".to_owned(), username.to_owned()));
    params.push(("t".to_owned(), token));
    params.push(("s".to_owned(), salt));
    params.push(("v".to_owned(), API_VERSION.to_owned()));
    params.push(("c".to_owned(), CLIENT_NAME.to_owned()));
    params.push(("f".to_owned(), RESPONSE_FORMAT.to_owned()));
    params
}

} // verus!
