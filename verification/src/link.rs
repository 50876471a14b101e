//! Resolving a reference found on the page to an absolute URL.

use crate::reason::{text_outcome, SkipReason};
use crate::text::{is_prefix, starts_with};
use crate::weburl::{join_url, url_join, url_parses};
use vstd::prelude::*;

verus! {

/// `reference` begins with `https:` or `http:`, and so is taken as absolute.
pub open spec fn is_absolute(reference: Seq<char>) -> bool {
    is_prefix("https:"@, reference) || is_prefix("http:"@, reference)
}

/// The join of `reference` to `base`: `MalformedBase` where `base` does not
/// parse, `JoinError` where the join fails, and the text of the joined URL
/// otherwise.
pub open spec fn join_outcome(base: Seq<char>, reference: Seq<char>) -> Result<
    Seq<char>,
    SkipReason,
> {
    if !url_parses(base) {
        Err(SkipReason::MalformedBase)
    } else {
        match url_join(base, reference) {
            Some(text) => Ok(text),
            None => Err(SkipReason::JoinError),
        }
    }
}

/// The absolute URL that `reference` stands for on a page at `base`: itself
/// where it is absolute, and its join to `base` otherwise.
pub open spec fn resolution(base: Seq<char>, reference: Seq<char>) -> Result<
    Seq<char>,
    SkipReason,
> {
    if is_absolute(reference) {
        Ok(reference)
    } else {
        join_outcome(base, reference)
    }
}

/// What an anchor with the attribute `href` gives on a page at `base`.
pub open spec fn link_outcome(href: Option<Seq<char>>, base: Seq<char>) -> Result<
    Seq<char>,
    SkipReason,
> {
    match href {
        None => Err(SkipReason::MissingAttribute),
        Some(reference) => resolution(base, reference),
    }
}

/// An absolute href resolves to itself, whatever the base; any other href
/// resolves to its join to the base.
pub proof fn lemma_link_resolution(href: Seq<char>, base: Seq<char>)
    ensures
        is_absolute(href) ==> link_outcome(Some(href), base) == Ok::<Seq<char>, SkipReason>(href),
        !is_absolute(href) ==> link_outcome(Some(href), base) == join_outcome(base, href),
{
}

/// Resolving is idempotent on absolute results: a link that resolved to an
/// absolute URL resolves to the same URL when it is resolved again, against
/// any base.
pub proof fn lemma_link_idempotent(href: Seq<char>, base: Seq<char>, other_base: Seq<char>)
    requires
        link_outcome(Some(href), base) is Ok,
        is_absolute(link_outcome(Some(href), base)->Ok_0),
    ensures
        link_outcome(Some(link_outcome(Some(href), base)->Ok_0), other_base) == link_outcome(
            Some(href),
            base,
        ),
{
}

/// Whether `reference` begins with `https:` or `http:`.
pub fn has_scheme_marker(reference: &str) -> (absolute: bool)
    ensures
        absolute == is_absolute(reference@),
{
    starts_with(reference, "https:") || starts_with(reference, "http:")
}

/// Maps what the join of a reference to a base came to: a base that did not
/// parse is `MalformedBase`, a join that failed is `JoinError`.
pub fn joined_from(joined: Result<Result<String, url::ParseError>, url::ParseError>) -> (found:
    Result<String, SkipReason>)
    ensures
        match joined {
            Ok(Ok(text)) => found == Ok::<String, SkipReason>(text),
            Ok(Err(_)) => found == Err::<String, SkipReason>(SkipReason::JoinError),
            Err(_) => found == Err::<String, SkipReason>(SkipReason::MalformedBase),
        },
{
    match joined {
        Ok(Ok(text)) => Ok(text),
        Ok(Err(_)) => Err(SkipReason::JoinError),
        Err(_) => Err(SkipReason::MalformedBase),
    }
}

/// The join of `reference` to `base`, by the standard rules for URLs.
pub fn join(base: &str, reference: &str) -> (found: Result<String, SkipReason>)
    ensures
        text_outcome(found) == join_outcome(base@, reference@),
{
    joined_from(join_url(base, reference))
}

/// The absolute URL that `reference` stands for on a page at `base`. A
/// reference that begins with `https:` or `http:` is returned unchanged, and
/// `base` is not looked at; any other is joined to `base`.
pub fn resolve(base: &str, reference: String) -> (found: Result<String, SkipReason>)
    ensures
        text_outcome(found) == resolution(base@, reference@),
        is_absolute(reference@) ==> found == Ok::<String, SkipReason>(reference),
{
    if has_scheme_marker(reference.as_str()) {
        Ok(reference)
    } else {
        join(base, reference.as_str())
    }
}

/// The absolute URL of one anchor, from its `href` attribute and the URL of
/// the page. Fails with `MissingAttribute` where the anchor has no `href`,
/// with `MalformedBase` where a relative `href` meets a base that does not
/// parse, and with `JoinError` where the two cannot be joined.
pub fn resolve_link(href: Option<String>, base: &str) -> (found: Result<String, SkipReason>)
    ensures
        text_outcome(found) == link_outcome(href.deep_view(), base@),
        href matches Some(reference) ==> (is_absolute(reference@) ==> found == Ok::<
            String,
            SkipReason,
        >(reference)),
{
    match href {
        None => Err(SkipReason::MissingAttribute),
        Some(reference) => resolve(base, reference),
    }
}

} // verus!
