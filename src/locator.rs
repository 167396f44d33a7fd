//! Where the server executable is found, as a URI.
use vstd::prelude::*;
use lsp_types::Url;

verus! {

#[verifier::external_type_specification]
#[verifier::external_body]
pub struct ExUrl(Url);

/// The URL that `url::Url::parse` makes of a text, if any.
pub uninterp spec fn parsed_url(text: Seq<char>) -> Option<Url>;

/// The URL that `url::Url::join` makes of a base URL and a reference, if any.
pub uninterp spec fn joined_url(base: Url, reference: Seq<char>) -> Option<Url>;

/// Relies on url::Url::parse: its result depends on the text alone.
#[verifier::external_body]
fn parse_url(text: &str) -> (r: Option<Url>)
    ensures
        r == parsed_url(text@),
{
    Url::parse(text).ok()
}

/// Relies on url::Url::join: its result depends on the base and the
/// reference alone.
#[verifier::external_body]
fn join_url(base: &Url, reference: &str) -> (r: Option<Url>)
    ensures
        r == joined_url(*base, reference@),
{
    base.join(reference).ok()
}

/// The text that a configured server path is read as a URI from: a bare
/// path gets the `urn:` scheme.
pub open spec fn explicit_uri_text(path: Seq<char>) -> Seq<char> {
    "urn:"@ + path
}

/// The file name of the installed server executable.
pub open spec fn executable_name() -> Seq<char> {
    "taplo"@
}

/// The locator of the installed executable, from the host's URI of the
/// plugin's install root.
pub open spec fn installed_url(root: Seq<char>) -> Option<Url> {
    match parsed_url(root) {
        Some(base) => joined_url(base, executable_name()),
        None => None,
    }
}

/// Reads a configured server path as the locator of the server.
pub fn explicit_locator(path: &String) -> (r: Option<Url>)
    ensures
        r == parsed_url(explicit_uri_text(path@)),
{
    let mut text = String::from_str("urn:");
    text.append(path.as_str());
    parse_url(text.as_str())
}

/// The locator of the installed executable inside the install root.
pub fn installed_locator(root: &String) -> (r: Option<Url>)
    ensures
        r == installed_url(root@),
{
    match parse_url(root.as_str()) {
        Some(base) => join_url(&base, "taplo"),
        None => None,
    }
}

} // verus!
