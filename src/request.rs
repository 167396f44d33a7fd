//! The host's requests that the plugin answers.
use vstd::prelude::*;

verus! {

/// The kinds of request the plugin tells apart.
#[derive(Clone, Copy, Debug, PartialEq, Eq, Structural)]
pub enum RequestKind {
    /// The language server protocol's `initialize`.
    Initialize,
    /// Any other request: it is ignored.
    Other,
}

/// The kind of a request with this method name.
pub open spec fn kind_of(method: Seq<char>) -> RequestKind {
    if method == "initialize"@ {
        RequestKind::Initialize
    } else {
        RequestKind::Other
    }
}

/// Tells the requests that start a server from those that are ignored.
pub fn request_kind(method: &String) -> (r: RequestKind)
    ensures
        r == kind_of(method@),
{
    let initialize = String::from_str("initialize");
    if *method == initialize {
        RequestKind::Initialize
    } else {
        RequestKind::Other
    }
}

} // verus!
