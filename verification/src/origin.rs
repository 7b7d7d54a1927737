//! Pointing Runtime API requests at the configured endpoint.
//!
//! Requests are built with a path only (`/2018-06-01/runtime/...`). Before
//! they are sent, their URI is rewritten against the base URI of the client:
//! its scheme (`http` when it has none), its authority, and its path with any
//! trailing slashes removed, followed by the request's path and query.

use vstd::prelude::*;
use crate::concurrency::opt_string_view;
use crate::built_uri::{build_uri, spec_build_uri, OriginUri};

verus! {

/// The parts of a URI that a client reads.
#[derive(Debug, Clone)]
pub struct UriComponents {
    pub scheme: Option<String>,
    pub authority: Option<String>,
    pub path: String,
    pub path_and_query: Option<String>,
}

/// The mathematical value of [`UriComponents`].
pub struct UriComponentsView {
    pub scheme: Option<Seq<char>>,
    pub authority: Option<Seq<char>>,
    pub path: Seq<char>,
    pub path_and_query: Option<Seq<char>>,
}

impl View for UriComponents {
    type V = UriComponentsView;

    open spec fn view(&self) -> UriComponentsView {
        UriComponentsView {
            scheme: opt_string_view(self.scheme),
            authority: opt_string_view(self.authority),
            path: self.path@,
            path_and_query: opt_string_view(self.path_and_query),
        }
    }
}

/// What `http::Uri` parses a string into, component by component (`None` when
/// it refuses the string).
pub uninterp spec fn spec_parse_uri(s: Seq<char>) -> Option<UriComponentsView>;

/// Parses a URI with `http::Uri`'s `FromStr` and reads its scheme, authority,
/// path and path-and-query.
///
/// Trusted: the result is named, as a function of the string alone; what
/// `http` accepts and how it splits a URI is not restated here.
#[verifier::external_body]
fn parse_uri(s: &str) -> (r: Option<UriComponents>)
    ensures
        match r {
            Some(c) => spec_parse_uri(s@) == Some(c@),
            None => spec_parse_uri(s@) is None,
        },
{
    let uri: http::Uri = s.parse().ok()?;
    Some(UriComponents {
        scheme: uri.scheme_str().map(|x| x.to_owned()),
        authority: uri.authority().map(|a| a.as_str().to_owned()),
        path: uri.path().to_owned(),
        path_and_query: uri.path_and_query().map(|p| p.as_str().to_owned()),
    })
}

/// A byte that `http::uri::PathAndQuery` accepts in the path: the characters
/// that need no percent-encoding there, `"`, `{` and `}`, and every byte of a
/// non-ASCII character.
pub open spec fn path_byte_ok(b: u8) -> bool {
    b == 0x21 || (0x24 <= b && b <= 0x3B) || b == 0x3D || (0x40 <= b && b <= 0x5F) || (0x61 <= b && b <= 0x7A)
        || b == 0x7C || b == 0x7E || b == 0x22 || b == 0x7B || b == 0x7D || b >= 0x80
}

/// A byte that `http::uri::PathAndQuery` accepts in the query.
pub open spec fn query_byte_ok(b: u8) -> bool {
    b == 0x21 || (0x24 <= b && b <= 0x3B) || b == 0x3D || (0x3F <= b && b <= 0x7E) || b >= 0x80
}

/// Whether the bytes from `i` on are a valid path (or, once a `?` was seen, a
/// valid query). A `#` starts the fragment, which is dropped unchecked.
pub open spec fn scans_as_path_and_query(b: Seq<u8>, i: int, in_query: bool) -> bool
    decreases b.len() - i,
{
    if i < 0 || i >= b.len() {
        true
    } else if b[i] == 0x23 {
        true
    } else if !in_query && b[i] == 0x3F {
        scans_as_path_and_query(b, i + 1, true)
    } else if (if in_query { query_byte_ok(b[i]) } else { path_byte_ok(b[i]) }) {
        scans_as_path_and_query(b, i + 1, in_query)
    } else {
        false
    }
}

/// Whether `http::uri::PathAndQuery` accepts a string: its UTF-8 bytes are
/// between 1 and 65534 long, and are `*` alone, or start with `/`, `?` or `#`
/// and scan as a path followed by an optional query and fragment.
pub open spec fn spec_path_and_query_valid(s: Seq<char>) -> bool {
    let b = vstd::utf8::encode_utf8(s);
    &&& 0 < b.len() && b.len() <= 65534
    &&& (b.len() == 1 && b[0] == 0x2A)
        || ((b[0] == 0x2F || b[0] == 0x3F || b[0] == 0x23) && scans_as_path_and_query(b, 0, false))
}

/// Whether a string parses as an `http::uri::PathAndQuery`.
///
/// Trusted: `http` scans the bytes of the string as
/// [`spec_path_and_query_valid`] states (`scan_path_and_query` in its
/// `uri/path.rs`); the bytes of a `str` are valid UTF-8, so the later UTF-8
/// check always passes.
#[verifier::external_body]
fn path_and_query_valid(s: &str) -> (r: bool)
    ensures
        r == spec_path_and_query_valid(s@),
{
    s.parse::<http::uri::PathAndQuery>().is_ok()
}

/// The base URI of a Runtime API client. It must have an authority.
#[derive(Debug, Clone, PartialEq, Eq)]
pub struct BaseUri {
    pub scheme: Option<String>,
    pub authority: String,
    pub path: String,
}

/// A base URI from the components of a URI; `None` when it has no authority.
pub fn base_uri_from(c: UriComponents) -> (r: Option<BaseUri>)
    ensures
        r is Some <==> c@.authority is Some,
        r matches Some(b) ==> opt_string_view(b.scheme) == c@.scheme && Some(b.authority@) == c@.authority
            && b.path@ == c@.path,
{
    match c.authority {
        Some(authority) => Some(BaseUri { scheme: c.scheme, authority, path: c.path }),
        None => None,
    }
}

/// The base URI that a string parses into: `None` when `http` refuses the
/// string or the URI has no authority.
pub fn parse_base_uri(s: &str) -> (r: Option<BaseUri>)
    ensures
        r is Some <==> (spec_parse_uri(s@) matches Some(c) && c.authority is Some),
        r matches Some(b) ==> spec_parse_uri(s@) matches Some(c) && opt_string_view(b.scheme) == c.scheme
            && Some(b.authority@) == c.authority && b.path@ == c.path,
{
    match parse_uri(s) {
        Some(c) => base_uri_from(c),
        None => None,
    }
}

/// The path-and-query of the URI a string parses into (`None` when `http`
/// refuses the string or the URI has none).
pub fn parse_path_and_query(s: &str) -> (r: Option<String>)
    ensures
        opt_string_view(r) == (match spec_parse_uri(s@) {
            Some(c) => c.path_and_query,
            None => None,
        }),
{
    match parse_uri(s) {
        Some(c) => c.path_and_query,
        None => None,
    }
}

/// A string without its trailing `/` characters.
pub open spec fn trim_trailing_slashes(s: Seq<char>) -> Seq<char>
    decreases s.len(),
{
    if s.len() > 0 && s.last() == '/' {
        trim_trailing_slashes(s.drop_last())
    } else {
        s
    }
}

/// A string without its trailing `/` characters.
pub fn trim_end_slashes(s: &str) -> (r: &str)
    ensures
        r@ == trim_trailing_slashes(s@),
{
    let mut end = s.unicode_len();
    assert(s@.subrange(0, end as int) =~= s@);
    while end > 0 && s.get_char(end - 1) == '/'
        invariant
            end <= s@.len(),
            trim_trailing_slashes(s@) == trim_trailing_slashes(s@.subrange(0, end as int)),
        decreases end,
    {
        assert(s@.subrange(0, end as int).drop_last() =~= s@.subrange(0, end - 1));
        end = end - 1;
    }
    s.substring_char(0, end)
}

/// The scheme of the rewritten URI.
pub open spec fn spec_origin_scheme(scheme: Option<Seq<char>>) -> Seq<char> {
    match scheme {
        Some(s) => s,
        None => "http"@,
    }
}

/// The path-and-query of the rewritten URI.
pub open spec fn spec_origin_path(base_path: Seq<char>, path_and_query: Seq<char>) -> Seq<char> {
    trim_trailing_slashes(base_path) + path_and_query
}

/// Law: trailing slashes of the base path do not change the rewritten
/// path-and-query (`http://host/foo` and `http://host/foo/` give the same URI).
pub proof fn lemma_trailing_slash_irrelevant(base_path: Seq<char>, path_and_query: Seq<char>)
    ensures
        spec_origin_path(base_path.push('/'), path_and_query) == spec_origin_path(base_path, path_and_query),
        trim_trailing_slashes(trim_trailing_slashes(base_path)) == trim_trailing_slashes(base_path),
{
    assert(base_path.push('/').drop_last() =~= base_path);
    lemma_trim_idempotent(base_path);
}

/// Trimming twice trims as much as once.
proof fn lemma_trim_idempotent(s: Seq<char>)
    ensures
        trim_trailing_slashes(trim_trailing_slashes(s)) == trim_trailing_slashes(s),
    decreases s.len(),
{
    if s.len() > 0 && s.last() == '/' {
        lemma_trim_idempotent(s.drop_last());
    }
}

/// Why a request's URI could not be rewritten.
#[derive(Debug, Clone, Copy, PartialEq, Eq, Structural)]
pub enum SetOriginError {
    /// The joined path-and-query is not a valid one.
    InvalidPathAndQuery,
    /// `http` refused to build the URI.
    InvalidUri,
}

/// Rewrites a request's path-and-query against the base URI: the resulting
/// URI and its text.
pub fn set_origin(base: &BaseUri, path_and_query: &str) -> (r: Result<OriginUri, SetOriginError>)
    requires
        spec_path_and_query_valid(spec_origin_path(base.path@, path_and_query@)),
    ensures
        r is Ok <==> spec_build_uri(spec_origin_scheme(opt_string_view(base.scheme)), base.authority@,
            spec_origin_path(base.path@, path_and_query@)) is Some,
        r matches Ok(u) ==> Some(u.spec_text()) == spec_build_uri(spec_origin_scheme(opt_string_view(base.scheme)),
            base.authority@, spec_origin_path(base.path@, path_and_query@)),
        r matches Err(e) ==> e == SetOriginError::InvalidUri,
{
    let scheme: &str = match &base.scheme {
        Some(s) => s.as_str(),
        None => "http",
    };
    let base_path = trim_end_slashes(base.path.as_str());
    let joined = base_path.to_owned().concat(path_and_query);
    match build_uri(scheme, base.authority.as_str(), joined.as_str()) {
        Some(u) => Ok(u),
        None => Err(SetOriginError::InvalidUri),
    }
}

/// Rewrites a request's path-and-query against the base URI, first checking
/// that the joined path-and-query is valid (`InvalidPathAndQuery` when not).
pub fn set_origin_checked(base: &BaseUri, path_and_query: &str) -> (r: Result<OriginUri, SetOriginError>)
    ensures
        !spec_path_and_query_valid(spec_origin_path(base.path@, path_and_query@))
            ==> r == Err::<OriginUri, SetOriginError>(SetOriginError::InvalidPathAndQuery),
        spec_path_and_query_valid(spec_origin_path(base.path@, path_and_query@)) ==> {
            &&& r is Ok <==> spec_build_uri(spec_origin_scheme(opt_string_view(base.scheme)), base.authority@,
                spec_origin_path(base.path@, path_and_query@)) is Some
            &&& r matches Ok(u) ==> Some(u.spec_text()) == spec_build_uri(spec_origin_scheme(opt_string_view(base.scheme)),
                base.authority@, spec_origin_path(base.path@, path_and_query@))
            &&& r matches Err(e) ==> e == SetOriginError::InvalidUri
        },
{
    let base_path = trim_end_slashes(base.path.as_str());
    let joined = base_path.to_owned().concat(path_and_query);
    if !path_and_query_valid(joined.as_str()) {
        return Err(SetOriginError::InvalidPathAndQuery);
    }
    set_origin(base, path_and_query)
}

} // verus!
