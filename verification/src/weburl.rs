//! URL parsing and joining, as the `url` crate does them.
//!
//! A URL is held as its text. What the crate makes of a text is given a name
//! here, and each call states that its result is the named value. Nothing in
//! this file is proved.

use vstd::prelude::*;

verus! {

/// The error of the `url` crate. Nothing is read from it: each caller maps
/// it to a reason of its own.
#[verifier::external_type_specification]
#[verifier::external_body]
pub struct ExParseError(url::ParseError);

/// Whether `Url::parse` accepts `input`.
pub uninterp spec fn url_parses(input: Seq<char>) -> bool;

/// The text of the URL that `Url::join` gives for `reference` on the URL
/// parsed from `base`; `None` where the join fails. It has a meaning only
/// where `base` parses.
pub uninterp spec fn url_join(base: Seq<char>, reference: Seq<char>) -> Option<Seq<char>>;

/// What `Url::path_segments` gives on the URL parsed from `input`: its path
/// segments in order, `None` for a URL that cannot be a base. It has a meaning
/// only where `input` parses.
pub uninterp spec fn url_path_segments(input: Seq<char>) -> Option<Seq<Seq<char>>>;

/// What `Url::domain` gives on the URL parsed from `input`: its host where
/// that is a domain name. It has a meaning only where `input` parses.
pub uninterp spec fn url_domain(input: Seq<char>) -> Option<Seq<char>>;

/// Calls `Url::parse` on `base`, then `Url::join` with `reference`, and takes
/// the text of the joined URL.
///
/// Believed: the outer result is `Ok` exactly where `base` parses; the inner
/// one then holds the named join of the two texts, and is `Err` where that
/// join fails.
#[verifier::external_body]
pub(crate) fn join_url(base: &str, reference: &str) -> (joined: Result<
    Result<String, url::ParseError>,
    url::ParseError,
>)
    ensures
        joined is Ok <==> url_parses(base@),
        joined matches Ok(Ok(text)) ==> url_join(base@, reference@) == Some(text@),
        joined matches Ok(Err(_)) ==> url_join(base@, reference@) is None,
{
    url::Url::parse(base).map(|parsed| parsed.join(reference).map(String::from))
}

/// Calls `Url::parse` on `input`, then `Url::path_segments`, and copies the
/// segments out.
///
/// Believed: the result is `Ok` exactly where `input` parses, and then holds
/// the named segments.
#[verifier::external_body]
pub(crate) fn path_segments(input: &str) -> (parsed: Result<Option<Vec<String>>, url::ParseError>)
    ensures
        parsed is Ok <==> url_parses(input@),
        parsed matches Ok(segments) ==> segments.deep_view() == url_path_segments(input@),
{
    url::Url::parse(input).map(
        |parsed| parsed.path_segments().map(|parts| parts.map(String::from).collect()),
    )
}

/// Calls `Url::parse` on `input`, then `Url::domain`, and copies the domain
/// out.
///
/// Believed: the result is `Ok` exactly where `input` parses, and then holds
/// the named domain.
#[verifier::external_body]
pub(crate) fn domain(input: &str) -> (parsed: Result<Option<String>, url::ParseError>)
    ensures
        parsed is Ok <==> url_parses(input@),
        parsed matches Ok(host) ==> host.deep_view() == url_domain(input@),
{
    url::Url::parse(input).map(|parsed| parsed.domain().map(String::from))
}

} // verus!
