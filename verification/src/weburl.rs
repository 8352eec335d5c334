//! URL parsing and relative resolution, done by the `url` crate.
//!
//! A URL travels through the library as its text; each function here parses
//! the text, asks the `url` crate one question and hands the answer back as
//! text.

use crate::text::text_view;
use vstd::prelude::*;

verus! {

/// The serialization of `reference` resolved against the URL `base`, as
/// `url::Url::join` computes it; `None` when `base` is not an absolute URL
/// or the reference cannot be resolved against it.
pub uninterp spec fn url_join(base: Seq<char>, reference: Seq<char>) -> Option<Seq<char>>;

/// The path component of the URL `url`, as `url::Url::path` returns it;
/// `None` when `url` is not an absolute URL.
pub uninterp spec fn url_path(url: Seq<char>) -> Option<Seq<char>>;

/// The host of the URL `url`, as `url::Url::host_str` returns it; `None`
/// when `url` is not an absolute URL or has no host.
pub uninterp spec fn url_host(url: Seq<char>) -> Option<Seq<char>>;

/// Parses `base` with `url::Url::parse` and resolves `reference` against it
/// with `url::Url::join`; hands back `url::Url::as_str` of the result.
///
/// Trusted: the result is a function of the two texts alone, named
/// [`url_join`].
#[verifier::external_body]
pub(crate) fn join_url(base: &str, reference: &str) -> (joined: Option<String>)
    ensures
        text_view(joined) == url_join(base@, reference@),
{
    let parsed = url::Url::parse(base).ok()?;
    let joined = parsed.join(reference).ok()?;
    Some(joined.as_str().to_string())
}

/// Parses `url` with `url::Url::parse` and hands back `url::Url::path`.
///
/// Trusted: the result is a function of the text alone, named [`url_path`].
#[verifier::external_body]
pub(crate) fn path_of_url(url: &str) -> (path: Option<String>)
    ensures
        text_view(path) == url_path(url@),
{
    let parsed = url::Url::parse(url).ok()?;
    Some(parsed.path().to_string())
}

/// Parses `url` with `url::Url::parse` and hands back `url::Url::host_str`.
///
/// Trusted: the result is a function of the text alone, named [`url_host`].
#[verifier::external_body]
pub(crate) fn host_of_url(url: &str) -> (host: Option<String>)
    ensures
        text_view(host) == url_host(url@),
{
    let parsed = url::Url::parse(url).ok()?;
    parsed.host_str().map(|host| host.to_string())
}

} // verus!
