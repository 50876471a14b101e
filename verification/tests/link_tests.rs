use page_assets::link::{has_scheme_marker, join, joined_from, resolve, resolve_link};
use page_assets::reason::SkipReason;

const BASE: &str = "https://example.com/dir/page.html";

fn some(text: &str) -> Option<String> {
    Some(String::from(text))
}

#[test]
fn absolute_href_is_returned_unchanged() {
    assert_eq!(
        resolve_link(some("https://other.org/a/b?c=d#e"), BASE),
        Ok(String::from("https://other.org/a/b?c=d#e"))
    );
    assert_eq!(
        resolve_link(some("http://other.org"), BASE),
        Ok(String::from("http://other.org"))
    );
}

#[test]
fn absolute_href_is_not_normalised() {
    assert_eq!(
        resolve_link(some("https://other.org/a/../b c"), BASE),
        Ok(String::from("https://other.org/a/../b c"))
    );
    assert_eq!(resolve_link(some("https:"), BASE), Ok(String::from("https:")));
}

#[test]
fn absolute_href_does_not_look_at_the_base() {
    assert_eq!(
        resolve_link(some("https://other.org/x"), "not a url"),
        Ok(String::from("https://other.org/x"))
    );
}

#[test]
fn relative_href_is_joined_to_the_base() {
    assert_eq!(
        resolve_link(some("other.html"), BASE),
        Ok(String::from("https://example.com/dir/other.html"))
    );
    assert_eq!(
        resolve_link(some("/top"), BASE),
        Ok(String::from("https://example.com/top"))
    );
    assert_eq!(
        resolve_link(some("../about"), BASE),
        Ok(String::from("https://example.com/about"))
    );
    assert_eq!(
        resolve_link(some("./a/./b/../c"), BASE),
        Ok(String::from("https://example.com/dir/a/c"))
    );
}

#[test]
fn relative_href_inherits_scheme_and_host() {
    assert_eq!(
        resolve_link(some("//cdn.example.org/lib.js"), BASE),
        Ok(String::from("https://cdn.example.org/lib.js"))
    );
    assert_eq!(
        resolve_link(some("?page=2"), BASE),
        Ok(String::from("https://example.com/dir/page.html?page=2"))
    );
    assert_eq!(
        resolve_link(some("#top"), BASE),
        Ok(String::from("https://example.com/dir/page.html#top"))
    );
    assert_eq!(
        resolve_link(some(""), BASE),
        Ok(String::from("https://example.com/dir/page.html"))
    );
}

#[test]
fn relative_href_is_percent_encoded() {
    assert_eq!(
        resolve_link(some("a b"), BASE),
        Ok(String::from("https://example.com/dir/a%20b"))
    );
}

#[test]
fn other_schemes_go_through_the_join() {
    assert_eq!(
        resolve_link(some("mailto:someone@example.com"), BASE),
        Ok(String::from("mailto:someone@example.com"))
    );
    assert_eq!(
        resolve_link(some("HTTPS://Example.ORG/x"), BASE),
        Ok(String::from("https://example.org/x"))
    );
}

#[test]
fn missing_href_is_reported() {
    assert_eq!(resolve_link(None, BASE), Err(SkipReason::MissingAttribute));
    assert_eq!(resolve_link(None, "not a url"), Err(SkipReason::MissingAttribute));
}

#[test]
fn malformed_base_is_reported() {
    assert_eq!(
        resolve_link(some("other.html"), "not a url"),
        Err(SkipReason::MalformedBase)
    );
    assert_eq!(resolve_link(some("other.html"), ""), Err(SkipReason::MalformedBase));
}

#[test]
fn join_error_is_reported() {
    assert_eq!(
        resolve_link(some("other.html"), "mailto:someone@example.com"),
        Err(SkipReason::JoinError)
    );
    assert_eq!(
        resolve_link(some("//exa mple.com/x"), BASE),
        Err(SkipReason::JoinError)
    );
}

#[test]
fn resolving_a_resolved_link_changes_nothing() {
    let once = resolve_link(some("../about"), BASE).unwrap();
    let twice = resolve_link(Some(once.clone()), "https://elsewhere.net/").unwrap();
    assert_eq!(once, twice);
}

#[test]
fn scheme_marker_is_http_or_https() {
    assert!(has_scheme_marker("http:"));
    assert!(has_scheme_marker("https:"));
    assert!(has_scheme_marker("https://example.com"));
    assert!(has_scheme_marker("http:relative"));
    assert!(!has_scheme_marker("HTTP://example.com"));
    assert!(!has_scheme_marker("//example.com"));
    assert!(!has_scheme_marker("ftp://example.com"));
    assert!(!has_scheme_marker("http"));
    assert!(!has_scheme_marker(""));
}

#[test]
fn join_and_resolve_agree_on_relative_references() {
    assert_eq!(
        join(BASE, "x/y.png"),
        Ok(String::from("https://example.com/dir/x/y.png"))
    );
    assert_eq!(
        resolve(BASE, String::from("x/y.png")),
        Ok(String::from("https://example.com/dir/x/y.png"))
    );
    assert_eq!(
        join(BASE, "https://other.org/a/../b"),
        Ok(String::from("https://other.org/b"))
    );
    assert_eq!(
        resolve(BASE, String::from("https://other.org/a/../b")),
        Ok(String::from("https://other.org/a/../b"))
    );
}

#[test]
fn joined_from_maps_each_failure() {
    assert_eq!(
        joined_from(Ok(Ok(String::from("https://example.com/")))),
        Ok(String::from("https://example.com/"))
    );
    assert_eq!(
        joined_from(Ok(Err(url::ParseError::EmptyHost))),
        Err(SkipReason::JoinError)
    );
    assert_eq!(
        joined_from(Err(url::ParseError::RelativeUrlWithoutBase)),
        Err(SkipReason::MalformedBase)
    );
}
