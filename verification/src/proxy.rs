//! The token-guarded local endpoint: which route a request takes, which
//! headers are passed on, and the per-launch token.

use rand::Rng;
use vstd::prelude::*;

use crate::text::{ascii_lower_all, ascii_lowercase, chars_of, push_char, str_eq};

verus! {

/// Where the local endpoint listens, and the token every request must carry.
pub struct Proxy {
    pub port: u16,
    pub token: String,
}

/// A random index below `n` (`rand::thread_rng().gen_range(0..n)`). The
/// value is random, so only its range is stated.
#[verifier::external_body]
fn random_below(n: usize) -> (r: usize)
    requires
        n > 0,
    ensures
        r < n,
{
    rand::thread_rng().gen_range(0..n)
}

/// The characters a token is drawn from: lower-case ASCII letters and digits.
pub open spec fn token_char(c: char) -> bool {
    ('a' <= c && c <= 'z') || ('0' <= c && c <= '9')
}

/// The character at index `i` of the token alphabet
/// `abcdefghijklmnopqrstuvwxyz0123456789`.
pub fn token_alphabet(i: usize) -> (c: char)
    requires
        i < 36,
    ensures
        token_char(c),
        c as u32 == if i < 26 {
            97 + i
        } else {
            22 + i
        },
{
    if i < 26 {
        ((97 + i) as u8) as char
    } else {
        ((48 + i - 26) as u8) as char
    }
}

/// A fresh 32-character token for this launch.
pub fn random_token() -> (r: String)
    ensures
        r@.len() == 32,
        forall|i: int| 0 <= i < 32 ==> token_char(#[trigger] r@[i]),
{
    let mut out = String::new();
    let mut n: usize = 0;
    while n < 32
        invariant
            n <= 32,
            out@.len() == n,
            forall|i: int| 0 <= i < n ==> token_char(#[trigger] out@[i]),
        decreases 32 - n,
    {
        let c = token_alphabet(random_below(36));
        push_char(&mut out, c);
        n = n + 1;
    }
    out
}

/// The pairs of an `application/x-www-form-urlencoded` query, names and
/// values percent-decoded, in order (`form_urlencoded::parse`).
pub uninterp spec fn form_urlencoded_pairs(query: Seq<char>) -> Seq<(Seq<char>, Seq<char>)>;

/// The scheme of a URL, when the url crate parses it as an absolute URL
/// (`Url::parse(..).map(|u| u.scheme())`).
pub uninterp spec fn url_scheme_of(target: Seq<char>) -> Option<Seq<char>>;

pub open spec fn pair_views(s: Seq<(String, String)>) -> Seq<(Seq<char>, Seq<char>)> {
    s.map_values(|p: (String, String)| (p.0@, p.1@))
}

/// The decoded pairs of a query string (`form_urlencoded::parse`).
#[verifier::external_body]
fn form_pairs(query: &str) -> (r: Vec<(String, String)>)
    ensures
        pair_views(r@) == form_urlencoded_pairs(query@),
{
    url::form_urlencoded::parse(query.as_bytes()).into_owned().collect()
}

/// The scheme of a URL, if it parses (`url::Url::parse`, then `scheme`).
#[verifier::external_body]
fn url_scheme(target: &str) -> (r: Option<String>)
    ensures
        match r {
            Some(s) => url_scheme_of(target@) == Some(s@),
            None => url_scheme_of(target@) is None,
        },
{
    match url::Url::parse(target) {
        Ok(u) => Some(u.scheme().to_owned()),
        Err(_) => None,
    }
}

/// The value of the first pair named `key`.
pub open spec fn lookup(pairs: Seq<(Seq<char>, Seq<char>)>, key: Seq<char>) -> Option<Seq<char>>
    decreases pairs.len(),
{
    if pairs.len() == 0 {
        None
    } else if pairs[0].0 == key {
        Some(pairs[0].1)
    } else {
        lookup(pairs.drop_first(), key)
    }
}

proof fn lemma_lookup_skip(pairs: Seq<(Seq<char>, Seq<char>)>, key: Seq<char>, i: int)
    requires
        0 <= i <= pairs.len(),
        forall|j: int| 0 <= j < i ==> pairs[j].0 != key,
    ensures
        lookup(pairs, key) == lookup(pairs.skip(i), key),
    decreases i,
{
    if i > 0 {
        lemma_lookup_skip(pairs.drop_first(), key, i - 1);
        assert(pairs.drop_first().skip(i - 1) =~= pairs.skip(i));
    } else {
        assert(pairs.skip(0) =~= pairs);
    }
}

/// The value of the first pair named `key`.
pub fn find_param(pairs: &Vec<(String, String)>, key: &str) -> (r: Option<String>)
    ensures
        match r {
            Some(v) => lookup(pair_views(pairs@), key@) == Some(v@),
            None => lookup(pair_views(pairs@), key@) is None,
        },
{
    let ghost p = pair_views(pairs@);
    let mut i: usize = 0;
    while i < pairs.len()
        invariant
            p == pair_views(pairs@),
            p.len() == pairs@.len(),
            i <= pairs@.len(),
            forall|j: int| 0 <= j < i ==> p[j].0 != key@,
        decreases pairs@.len() - i,
    {
        assert(p[i as int] == (pairs@[i as int].0@, pairs@[i as int].1@));
        if str_eq(pairs[i].0.as_str(), key) {
            proof {
                lemma_lookup_skip(p, key@, i as int);
                assert(p.skip(i as int)[0] == p[i as int]);
            }
            return Some(pairs[i].1.clone());
        }
        i = i + 1;
    }
    proof {
        lemma_lookup_skip(p, key@, i as int);
        assert(p.skip(i as int).len() == 0);
    }
    None
}

/// The decoded value of the first query parameter named `key`.
pub fn query_param(query: &str, key: &str) -> (r: Option<String>)
    ensures
        match r {
            Some(v) => lookup(form_urlencoded_pairs(query@), key@) == Some(v@),
            None => lookup(form_urlencoded_pairs(query@), key@) is None,
        },
{
    let pairs = form_pairs(query);
    find_param(&pairs, key)
}

/// Where a request to the local endpoint goes.
#[derive(Debug, Clone, Copy, PartialEq, Eq, Structural)]
pub enum Route {
    /// The path does not start with the token: refused with 403, whatever
    /// the method.
    Forbidden,
    /// A CORS preflight that carries the token: answered empty.
    Preflight,
    /// `/clipboard-image`: the clipboard image as PNG.
    ClipboardImage,
    /// `/zoom`: a zoom step.
    Zoom,
    /// Anything else: forward the request named by the `url` parameter.
    Forward,
}

/// The number of `/` at the start of `s`.
pub open spec fn leading_slashes(s: Seq<char>) -> nat
    decreases s.len(),
{
    if s.len() > 0 && s[0] == '/' {
        1 + leading_slashes(s.drop_first())
    } else {
        0
    }
}

/// The index of the first `/`, if any.
pub open spec fn first_slash(s: Seq<char>) -> Option<int>
    decreases s.len(),
{
    if s.len() == 0 {
        None
    } else if s[0] == '/' {
        Some(0)
    } else {
        match first_slash(s.drop_first()) {
            Some(i) => Some(i + 1),
            None => None,
        }
    }
}

/// The token part and the rest of a request path: leading slashes are
/// trimmed, then the path splits at its first `/`.
pub open spec fn split_path(path: Seq<char>) -> (Seq<char>, Seq<char>) {
    let p = path.skip(leading_slashes(path) as int);
    match first_slash(p) {
        Some(i) => (p.take(i), p.skip(i + 1)),
        None => (p, Seq::empty()),
    }
}

/// The route of a request: without the token nothing but a 403; with it, a
/// preflight, one of the two host routes, or a forward.
pub open spec fn route_spec(is_options: bool, path: Seq<char>, token: Seq<char>) -> Route {
    if split_path(path).0 != token {
        Route::Forbidden
    } else if is_options {
        Route::Preflight
    } else if split_path(path).1 == "clipboard-image"@ {
        Route::ClipboardImage
    } else if split_path(path).1 == "zoom"@ {
        Route::Zoom
    } else {
        Route::Forward
    }
}

proof fn lemma_leading_slashes(s: Seq<char>, i: int)
    requires
        0 <= i <= s.len(),
        forall|j: int| 0 <= j < i ==> s[j] == '/',
        i == s.len() || s[i] != '/',
    ensures
        leading_slashes(s) == i,
    decreases i,
{
    if i > 0 {
        lemma_leading_slashes(s.drop_first(), i - 1);
    }
}

proof fn lemma_first_slash(s: Seq<char>, i: int)
    requires
        0 <= i <= s.len(),
        forall|j: int| 0 <= j < i ==> s[j] != '/',
        i == s.len() || s[i] == '/',
    ensures
        first_slash(s) == if i == s.len() {
            None::<int>
        } else {
            Some(i)
        },
    decreases i,
{
    if i > 0 {
        lemma_first_slash(s.drop_first(), i - 1);
    }
}

/// Splits a request path into its token and the rest.
pub fn split_request_path(path: &str) -> (r: (String, String))
    ensures
        (r.0@, r.1@) == split_path(path@),
{
    let cs = chars_of(path);
    let mut start: usize = 0;
    while start < cs.len() && cs[start] == '/'
        invariant
            cs@ == path@,
            start <= cs@.len(),
            forall|j: int| 0 <= j < start ==> path@[j] == '/',
        decreases cs@.len() - start,
    {
        start = start + 1;
    }
    proof {
        lemma_leading_slashes(path@, start as int);
    }
    let ghost p = path@.skip(start as int);
    let mut i: usize = start;
    while i < cs.len() && cs[i] != '/'
        invariant
            cs@ == path@,
            start <= i <= cs@.len(),
            p == path@.skip(start as int),
            forall|j: int| 0 <= j < i - start ==> p[j] != '/',
        decreases cs@.len() - i,
    {
        i = i + 1;
    }
    proof {
        lemma_first_slash(p, i - start);
    }
    if i < cs.len() {
        let token = path.substring_char(start, i).to_owned();
        let rest = path.substring_char(i + 1, cs.len()).to_owned();
        assert(token@ =~= p.take(i - start));
        assert(rest@ =~= p.skip(i - start + 1));
        (token, rest)
    } else {
        let token = path.substring_char(start, cs.len()).to_owned();
        assert(token@ =~= p);
        (token, String::new())
    }
}

/// Which route a request takes, from its method, path and the launch token.
pub fn route(is_options: bool, path: &str, token: &str) -> (r: Route)
    ensures
        r == route_spec(is_options, path@, token@),
{
    let (path_token, rest) = split_request_path(path);
    if !str_eq(path_token.as_str(), token) {
        Route::Forbidden
    } else if is_options {
        Route::Preflight
    } else if str_eq(rest.as_str(), "clipboard-image") {
        Route::ClipboardImage
    } else if str_eq(rest.as_str(), "zoom") {
        Route::Zoom
    } else {
        Route::Forward
    }
}

/// The URL a forwarded request goes to: the `url` parameter, when it parses
/// as an `http` or `https` URL.
pub open spec fn forward_target_spec(query: Seq<char>) -> Option<Seq<char>> {
    match lookup(form_urlencoded_pairs(query), "url"@) {
        Some(t) => match url_scheme_of(t) {
            Some(s) => if s == "http"@ || s == "https"@ {
                Some(t)
            } else {
                None
            },
            None => None,
        },
        None => None,
    }
}

/// A target is forwarded only over `http` or `https`.
pub fn web_target(target: String, scheme: Option<&str>) -> (r: Option<String>)
    ensures
        match scheme {
            Some(s) => if s@ == "http"@ || s@ == "https"@ {
                r == Some(target)
            } else {
                r is None
            },
            None => r is None,
        },
{
    match scheme {
        Some(s) => if str_eq(s, "http") || str_eq(s, "https") {
            Some(target)
        } else {
            None
        },
        None => None,
    }
}

pub fn forward_target(query: &str) -> (r: Option<String>)
    ensures
        match r {
            Some(t) => forward_target_spec(query@) == Some(t@),
            None => forward_target_spec(query@) is None,
        },
{
    match query_param(query, "url") {
        Some(t) => {
            let scheme = url_scheme(t.as_str());
            match scheme {
                Some(s) => web_target(t, Some(s.as_str())),
                None => None,
            }
        },
        None => None,
    }
}

/// Connection-level headers, which a proxy must not pass on.
pub open spec fn hop_by_hop(n: Seq<char>) -> bool {
    n == "connection"@ || n == "keep-alive"@ || n == "proxy-authenticate"@ || n
        == "proxy-authorization"@ || n == "te"@ || n == "trailers"@ || n == "transfer-encoding"@
        || n == "upgrade"@
}

/// Response headers dropped so that the page can use what comes back.
pub open spec fn stripped(n: Seq<char>) -> bool {
    n == "content-security-policy"@ || n == "content-security-policy-report-only"@ || n
        == "content-encoding"@ || n == "content-length"@ || n == "access-control-allow-origin"@
        || n == "x-frame-options"@
}

fn is_hop_by_hop(n: &str) -> (r: bool)
    ensures
        r == hop_by_hop(n@),
{
    str_eq(n, "connection") || str_eq(n, "keep-alive") || str_eq(n, "proxy-authenticate")
        || str_eq(n, "proxy-authorization") || str_eq(n, "te") || str_eq(n, "trailers")
        || str_eq(n, "transfer-encoding") || str_eq(n, "upgrade")
}

fn is_stripped(n: &str) -> (r: bool)
    ensures
        r == stripped(n@),
{
    str_eq(n, "content-security-policy") || str_eq(n, "content-security-policy-report-only")
        || str_eq(n, "content-encoding") || str_eq(n, "content-length") || str_eq(
        n,
        "access-control-allow-origin",
    ) || str_eq(n, "x-frame-options")
}

/// Whether a request header is passed upstream: not hop-by-hop, and not
/// `host`, `origin` or `referer`, compared without regard to ASCII case.
pub fn forwards_request_header(name: &str) -> (r: bool)
    ensures
        r == !(hop_by_hop(ascii_lower_all(name@)) || ascii_lower_all(name@) == "host"@
            || ascii_lower_all(name@) == "origin"@ || ascii_lower_all(name@) == "referer"@),
{
    let n = ascii_lowercase(name);
    let s = n.as_str();
    !(is_hop_by_hop(s) || str_eq(s, "host") || str_eq(s, "origin") || str_eq(s, "referer"))
}

/// Whether an upstream response header is passed back to the page.
pub fn keeps_response_header(name: &str) -> (r: bool)
    ensures
        r == !(hop_by_hop(ascii_lower_all(name@)) || stripped(ascii_lower_all(name@))),
{
    let n = ascii_lowercase(name);
    let s = n.as_str();
    !(is_hop_by_hop(s) || is_stripped(s))
}

/// Every request must carry the launch token: one without it is refused
/// with 403 whatever its method, and only one with it reaches a route, a
/// preflight included.
pub proof fn lemma_token_guards_every_route(is_options: bool, path: Seq<char>, token: Seq<char>)
    ensures
        split_path(path).0 != token ==> route_spec(is_options, path, token) == Route::Forbidden,
        route_spec(is_options, path, token) != Route::Forbidden ==> split_path(path).0 == token,
{
}

/// The endpoint has exactly three routes for a non-preflight request that
/// carries the token: the clipboard image, a zoom step, and the forward that
/// every other path takes.
pub proof fn lemma_three_routes(path: Seq<char>, token: Seq<char>)
    requires
        split_path(path).0 == token,
    ensures
        route_spec(false, path, token) == if split_path(path).1 == "clipboard-image"@ {
            Route::ClipboardImage
        } else if split_path(path).1 == "zoom"@ {
            Route::Zoom
        } else {
            Route::Forward
        },
        route_spec(true, path, token) == Route::Preflight,
{
}

} // verus!
