//! The plugin's configuration block: an optional server to run instead of
//! the installed one, its arguments, and the files the server is for.
use vstd::prelude::*;

verus! {

/// The `volt` block of the initialization options, as plain values: the
/// server path when it is a string, and the server arguments when they are
/// a sequence, each element in its string form.
pub struct VoltOptions {
    pub server_path: Option<String>,
    pub server_args: Option<Vec<String>>,
}

/// The value of a `VoltOptions`.
pub struct OptionsView {
    pub server_path: Option<Seq<char>>,
    pub server_args: Option<Seq<Seq<char>>>,
}

/// The characters of each string of a sequence.
pub open spec fn texts(v: Seq<String>) -> Seq<Seq<char>> {
    v.map_values(|s: String| s@)
}

impl View for VoltOptions {
    type V = OptionsView;

    open spec fn view(&self) -> OptionsView {
        OptionsView {
            server_path: match self.server_path {
                Some(p) => Some(p@),
                None => None,
            },
            server_args: match self.server_args {
                Some(a) => Some(texts(a@)),
                None => None,
            },
        }
    }
}

/// The value of an optional configuration block.
pub open spec fn options_view(o: Option<VoltOptions>) -> Option<OptionsView> {
    match o {
        Some(v) => Some(v@),
        None => None,
    }
}

/// The arguments a server is started with when none are configured.
pub open spec fn default_args() -> Seq<Seq<char>> {
    seq!["lsp"@, "stdio"@]
}

/// The arguments a server is started with, on either path.
pub open spec fn configured_args(o: Option<OptionsView>) -> Seq<Seq<char>> {
    match o {
        Some(v) => match v.server_args {
            Some(a) => a,
            None => default_args(),
        },
        None => default_args(),
    }
}

/// The configured server path, where it is set and not empty.
pub open spec fn explicit_path(o: Option<OptionsView>) -> Option<Seq<char>> {
    match o {
        Some(v) => match v.server_path {
            Some(p) => if p.len() > 0 {
                Some(p)
            } else {
                None
            },
            None => None,
        },
        None => None,
    }
}

/// One filter of a document selector: a language and a file pattern.
#[derive(Debug)]
pub struct DocumentFilter {
    pub language: String,
    pub pattern: String,
}

/// The language and pattern of each filter.
pub open spec fn filters_view(v: Seq<DocumentFilter>) -> Seq<(Seq<char>, Seq<char>)> {
    v.map_values(|f: DocumentFilter| (f.language@, f.pattern@))
}

/// The files every launched server is for: TOML files in any directory.
pub open spec fn toml_selector() -> Seq<(Seq<char>, Seq<char>)> {
    seq![("toml"@, "**/*.toml"@)]
}

/// The arguments used when none are configured: `lsp stdio`.
pub fn default_server_args() -> (r: Vec<String>)
    ensures
        texts(r@) == default_args(),
{
    let r = vec![String::from_str("lsp"), String::from_str("stdio")];
    assert(texts(r@) =~= default_args());
    r
}

/// The document selector of every launch.
pub fn document_selector() -> (r: Vec<DocumentFilter>)
    ensures
        filters_view(r@) == toml_selector(),
{
    let r = vec![
        DocumentFilter { language: String::from_str("toml"), pattern: String::from_str("**/*.toml") },
    ];
    assert(filters_view(r@) =~= toml_selector());
    r
}

/// Splits the configuration into the explicit server path, if one is set
/// and not empty, and the arguments to start the server with.
pub fn resolve_options(o: Option<VoltOptions>) -> (r: (Option<String>, Vec<String>))
    ensures
        match r.0 {
            Some(p) => explicit_path(options_view(o)) == Some(p@),
            None => explicit_path(options_view(o)) is None,
        },
        texts(r.1@) == configured_args(options_view(o)),
{
    match o {
        Some(v) => {
            let args = match v.server_args {
                Some(a) => a,
                None => default_server_args(),
            };
            let path = match v.server_path {
                Some(p) => if p.as_str().is_empty() {
                    None
                } else {
                    Some(p)
                },
                None => None,
            };
            (path, args)
        },
        None => (None, default_server_args()),
    }
}

} // verus!
