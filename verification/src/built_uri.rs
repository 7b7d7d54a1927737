//! Request URIs built by `http`.
//!
//! An [`OriginUri`] can only be made by [`build_uri`], so the `http::Uri` it
//! holds is always the one that `http` built for the arguments whose text the
//! contract of [`build_uri`] names.

use vstd::prelude::*;
use crate::origin::spec_path_and_query_valid;

verus! {

/// The text of the URI that `http::uri::Builder` builds from a scheme, an
/// authority and a path-and-query (`None` when it refuses them).
pub uninterp spec fn spec_build_uri(scheme: Seq<char>, authority: Seq<char>, path_and_query: Seq<char>) -> Option<Seq<char>>;

/// `http::Uri`, which the library carries without looking inside.
#[verifier::external_type_specification]
#[verifier::external_body]
pub struct ExUri(http::Uri);

/// A URI built by `http`: the `http::Uri` and its text, from one build. Its
/// fields are private to this module, so no other code can pair a URI with
/// the text of another.
#[derive(Debug, PartialEq, Eq)]
pub struct OriginUri {
    uri: http::Uri,
    text: String,
}

impl OriginUri {
    /// The text of the URI.
    pub closed spec fn spec_text(&self) -> Seq<char> {
        self.text@
    }

    /// The text of the URI, as its `Display` renders it.
    pub fn text(&self) -> (r: &str)
        ensures
            r@ == self.spec_text(),
    {
        self.text.as_str()
    }

    /// The URI itself.
    pub fn uri(&self) -> &http::Uri {
        &self.uri
    }

    /// The URI itself, to send a request to.
    pub fn into_uri(self) -> http::Uri {
        self.uri
    }
}

/// Builds a URI with `http::Uri::builder()`, and renders it with its
/// `Display`.
///
/// Trusted: the text is named, as a function of the three strings alone; the
/// `http::Uri` beside it is the one that same build produced. The
/// path-and-query must parse (the caller checks it first).
#[verifier::external_body]
pub(crate) fn build_uri(scheme: &str, authority: &str, path_and_query: &str) -> (r: Option<OriginUri>)
    requires
        spec_path_and_query_valid(path_and_query@),
    ensures
        match r {
            Some(o) => spec_build_uri(scheme@, authority@, path_and_query@) == Some(o.spec_text()),
            None => spec_build_uri(scheme@, authority@, path_and_query@) is None,
        },
{
    let pq: http::uri::PathAndQuery = match path_and_query.parse() {
        Ok(pq) => pq,
        Err(_) => return None,
    };
    match http::Uri::builder().scheme(scheme).authority(authority).path_and_query(pq).build() {
        Ok(uri) => {
            let text = uri.to_string();
            Some(OriginUri { uri, text })
        },
        Err(_) => None,
    }
}

} // verus!
