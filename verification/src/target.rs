//! The address that a probe is sent to: `{scheme}://{authority}/{path}`.
//!
//! Authorities and URIs are values of the `http` crate, reached through
//! `poem::http`. They are opaque here: the only things read from them are
//! the text of an authority and whether a text parses as a URI.

use vstd::prelude::*;
use vstd::string::StringExecFns;
use poem::http::uri::{Authority, InvalidUri};
use poem::http::Uri;
use crate::config::{ConfigView, HealthConfig, UpstreamScheme};

verus! {

/// `http::uri::Authority`, the `host` or `host:port` of a node. Nothing is
/// known of what is inside.
#[verifier::external_type_specification]
#[verifier::external_body]
pub struct ExAuthority(Authority);

/// `http::Uri`, a parsed URI. Nothing is known of what is inside.
#[verifier::external_type_specification]
#[verifier::external_body]
pub struct ExUri(Uri);

/// `http::uri::InvalidUri`, the reason for which a text is no URI. Nothing
/// is known of what is inside.
#[verifier::external_type_specification]
#[verifier::external_body]
pub struct ExInvalidUri(InvalidUri);

/// The text of an authority, `host` or `host:port`, as
/// `Authority::as_str` gives it.
pub uninterp spec fn authority_text(authority: Authority) -> Seq<char>;

/// What `str::parse::<Uri>` makes of a text: the URI, or the reason for
/// which the text is none.
pub uninterp spec fn uri_from_str(text: Seq<char>) -> Result<Uri, InvalidUri>;

/// `Authority::as_str`: the text that the authority was built from. Assumed:
/// the text depends on the authority's value alone.
pub assume_specification<'a>[ Authority::as_str ](authority: &'a Authority) -> (text: &'a str)
    ensures
        text@ == authority_text(*authority),
;

/// `<Authority as Clone>::clone`. Assumed: the clone is the same authority.
pub assume_specification[ <Authority as Clone>::clone ](authority: &Authority) -> (copy: Authority)
    ensures
        copy == *authority,
;

/// `str::parse::<Uri>`, which is `<Uri as FromStr>::from_str`. Assumed: the
/// outcome depends on the text alone, and the call returns for every text.
#[verifier::external_body]
fn parse_uri(text: &str) -> (parsed: Result<Uri, InvalidUri>)
    ensures
        parsed == uri_from_str(text@),
{
    text.parse::<Uri>()
}

/// A text that was put together for a probe and is no URI.
#[derive(Debug)]
pub struct InvalidTarget {
    /// The text that was refused.
    pub target: String,
}

/// The text `{scheme}://{authority}/{path}`.
pub open spec fn probe_target(scheme: UpstreamScheme, authority: Seq<char>, path: Seq<char>) -> Seq<
    char,
> {
    scheme.text() + "://"@ + authority + "/"@ + path
}

/// Writes `{scheme}://{authority}/{path}`.
pub fn target_text(scheme: UpstreamScheme, authority: &str, path: &str) -> (text: String)
    ensures
        text@ == probe_target(scheme, authority@, path@),
{
    let mut text = String::from_str(scheme.as_str());
    text.append("://");
    text.append(authority);
    text.append("/");
    text.append(path);
    text
}

/// What a parse of `target` amounts to for a probe.
pub open spec fn resolved(parsed: Result<Uri, InvalidUri>, target: Seq<char>, out: Result<
    Uri,
    InvalidTarget,
>) -> bool {
    match parsed {
        Ok(uri) => out == Ok::<Uri, InvalidTarget>(uri),
        Err(_) => out is Err && out->Err_0.target@ == target,
    }
}

/// Keeps a parsed URI, and turns a failed parse into the text that failed.
pub fn resolve(parsed: Result<Uri, InvalidUri>, target: String) -> (out: Result<Uri, InvalidTarget>)
    ensures
        resolved(parsed, target@, out),
{
    match parsed {
        Ok(uri) => Ok(uri),
        Err(_) => Err(InvalidTarget { target }),
    }
}

/// The text that a probe of `authority` under `cfg` is addressed to.
pub open spec fn target_of(authority: Authority, cfg: ConfigView) -> Seq<char> {
    probe_target(cfg.scheme, authority_text(authority), cfg.path)
}

/// Whether `out` is the address of `authority` under `cfg`: the URI that its
/// target text parses to, or that text where it parses to none.
pub open spec fn addressed(authority: Authority, cfg: ConfigView, out: Result<Uri, InvalidTarget>) -> bool {
    resolved(uri_from_str(target_of(authority, cfg)), target_of(authority, cfg), out)
}

/// The address to probe `authority` at: `{scheme}://{authority}/{path}` as a
/// URI, or that text where it is none.
pub fn create_uri(authority: &Authority, cfg: &HealthConfig) -> (out: Result<Uri, InvalidTarget>)
    ensures
        addressed(*authority, cfg@, out),
{
    let target = target_text(cfg.scheme(), authority.as_str(), cfg.path());
    let parsed = parse_uri(target.as_str());
    resolve(parsed, target)
}

} // verus!
