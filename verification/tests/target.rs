use std::time::Duration;

use health_check::config::{HealthConfig, UpstreamScheme};
use health_check::target::{create_uri, resolve, target_text};
use poem::http::uri::Authority;
use poem::http::Uri;

fn cfg(scheme: UpstreamScheme, path: &str) -> HealthConfig {
    HealthConfig::new(scheme, String::from(path), Duration::from_secs(5), vec![200])
}

#[test]
fn target_text_joins_scheme_authority_and_path() {
    assert_eq!(
        target_text(UpstreamScheme::Http, "example.com:8080", "health"),
        "http://example.com:8080/health"
    );
    assert_eq!(
        target_text(UpstreamScheme::Https, "10.0.0.1", "status/live"),
        "https://10.0.0.1/status/live"
    );
}

#[test]
fn target_text_with_empty_path_ends_in_slash() {
    assert_eq!(target_text(UpstreamScheme::Http, "a:1", ""), "http://a:1/");
}

#[test]
fn target_text_keeps_a_leading_slash_of_the_path() {
    assert_eq!(target_text(UpstreamScheme::Http, "a:1", "/health"), "http://a:1//health");
}

#[test]
fn create_uri_parses_the_target() {
    let uri = create_uri(
        &Authority::from_static("example.com:8080"),
        &cfg(UpstreamScheme::Https, "health"),
    )
    .unwrap();
    assert_eq!(uri.scheme_str(), Some("https"));
    assert_eq!(uri.host(), Some("example.com"));
    assert_eq!(uri.port_u16(), Some(8080));
    assert_eq!(uri.path(), "/health");
    assert_eq!(uri, "https://example.com:8080/health".parse::<Uri>().unwrap());
}

#[test]
fn create_uri_with_query_in_path() {
    let uri = create_uri(
        &Authority::from_static("example.com"),
        &cfg(UpstreamScheme::Http, "health?deep=1"),
    )
    .unwrap();
    assert_eq!(uri.path(), "/health");
    assert_eq!(uri.query(), Some("deep=1"));
}

#[test]
fn create_uri_refuses_a_path_that_makes_no_uri() {
    let err = create_uri(
        &Authority::from_static("example.com"),
        &cfg(UpstreamScheme::Http, "he alth"),
    )
    .unwrap_err();
    assert_eq!(err.target, "http://example.com/he alth");
}

#[test]
fn resolve_keeps_a_parsed_uri() {
    let parsed = "http://a:80/x".parse::<Uri>();
    let out = resolve(parsed, String::from("http://a:80/x")).unwrap();
    assert_eq!(out.to_string(), "http://a:80/x");
}

#[test]
fn resolve_turns_a_failed_parse_into_the_text() {
    let parsed = "http://a:80/x y".parse::<Uri>();
    assert!(parsed.is_err());
    let out = resolve(parsed, String::from("http://a:80/x y")).unwrap_err();
    assert_eq!(out.target, "http://a:80/x y");
}
