//! The target of a request: what parsing makes of a URL.

use crate::text::text_of;
use vstd::prelude::*;

verus! {

/// A parsed URL, as far as a request needs it.
#[derive(Debug)]
pub struct Target {
    /// The URL as it is written out after parsing.
    pub text: String,
    /// The path, which for an `http` URL starts with a slash.
    pub path: String,
    /// The query behind the question mark, if the URL has one.
    pub query: Option<String>,
    /// The host, if the URL has one.
    pub host: Option<String>,
}

/// The model of a `Target`.
pub struct TargetView {
    pub text: Seq<char>,
    pub path: Seq<char>,
    pub query: Option<Seq<char>>,
    pub host: Option<Seq<char>>,
}

impl View for Target {
    type V = TargetView;

    open spec fn view(&self) -> TargetView {
        TargetView {
            text: self.text@,
            path: self.path@,
            query: text_of(self.query),
            host: text_of(self.host),
        }
    }
}

/// The model of an optional `Target`.
pub open spec fn target_of(t: Option<Target>) -> Option<TargetView> {
    match t {
        Some(t) => Some(t@),
        None => None,
    }
}

/// What `Url::parse` makes of `url`: nothing where it refuses the text, and
/// else the URL with the parts that `Url::as_str`, `Url::path`, `Url::query`
/// and `Url::host_str` give.
pub uninterp spec fn parsed_url(url: Seq<char>) -> Option<TargetView>;

/// `reqwest::Url::parse`, with the parts of the URL copied out by
/// `Url::as_str`, `Url::path`, `Url::query` and `Url::host_str`.
#[verifier::external_body]
fn url_parse(url: &str) -> (r: Option<Target>)
    ensures
        target_of(r) == parsed_url(url@),
{
    match reqwest::Url::parse(url) {
        Ok(u) => Some(
            Target {
                text: u.as_str().to_string(),
                path: u.path().to_string(),
                query: u.query().map(String::from),
                host: u.host_str().map(String::from),
            },
        ),
        Err(_) => None,
    }
}

impl Target {
    /// Parses `url`.
    pub fn parse(url: &str) -> (r: Option<Target>)
        ensures
            target_of(r) == parsed_url(url@),
    {
        url_parse(url)
    }
}

} // verus!
