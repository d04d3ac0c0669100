//! Addresses, taken apart.

use vstd::prelude::*;

verus! {

/// The parts of a text as an address, if it is one.
pub uninterp spec fn url_parts(text: Seq<char>) -> Option<UrlPartsView>;

/// The parts of an address.
#[derive(Debug)]
pub struct UrlParts {
    /// The host, where the address has one.
    pub host: Option<String>,
    /// What stands behind the question mark, as it is written.
    pub query: Option<String>,
    /// The path.
    pub path: String,
    /// The query as decoded pairs of key and value, in order.
    pub pairs: Vec<(String, String)>,
}

/// The parts of an address as plain text.
pub struct UrlPartsView {
    pub host: Option<Seq<char>>,
    pub query: Option<Seq<char>>,
    pub path: Seq<char>,
    pub pairs: Seq<(Seq<char>, Seq<char>)>,
}

impl View for UrlParts {
    type V = UrlPartsView;

    open spec fn view(&self) -> UrlPartsView {
        UrlPartsView {
            host: self.host.deep_view(),
            query: self.query.deep_view(),
            path: self.path@,
            pairs: Seq::new(self.pairs@.len(), |i: int| (self.pairs@[i].0@, self.pairs@[i].1@)),
        }
    }
}

/// Calls `url::Url::parse` and, where the text is an address, takes its
/// host, query, path and query pairs as the address gives them.
#[verifier::external_body]
pub(crate) fn parse_url(text: &str) -> (parts: Option<UrlParts>)
    ensures
        parts is Some <==> url_parts(text@) is Some,
        parts is Some ==> parts->0@ == url_parts(text@)->0,
{
    match url::Url::parse(text) {
        Ok(url) => Some(
            UrlParts {
                host: url.host_str().map(String::from),
                query: url.query().map(String::from),
                path: url.path().to_string(),
                pairs: url.query_pairs().map(|(k, v)| (k.into_owned(), v.into_owned())).collect(),
            },
        ),
        Err(_) => None,
    }
}

} // verus!
