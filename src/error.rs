//! Why an initialization attempt ended without a launch.
use vstd::prelude::*;

verus! {

/// An error that ends an initialization attempt.
#[derive(Debug)]
pub enum InitError {
    /// The configured server path does not form a URI.
    BadServerPath(String),
    /// The host reported an architecture that no build exists for.
    UnsupportedArch(String),
    /// The host could not say which architecture it runs on.
    ArchUnknown(String),
    /// The host reported an operating system that no build exists for.
    UnsupportedOs(String),
    /// The host could not say which operating system it runs on.
    OsUnknown(String),
    /// The server build could not be downloaded.
    Download(String),
    /// The downloaded body is not a gzip stream.
    NotGzip,
    /// Writing, decompressing to or removing a file failed.
    Filesystem(String),
    /// The host could not say where the plugin's files are kept.
    InstallRootUnknown(String),
    /// The location of the plugin's files does not form a URI.
    BadInstallRoot(String),
}

/// The value of an `InitError`, with each text as its characters.
pub enum Failure {
    BadServerPath(Seq<char>),
    UnsupportedArch(Seq<char>),
    ArchUnknown(Seq<char>),
    UnsupportedOs(Seq<char>),
    OsUnknown(Seq<char>),
    Download(Seq<char>),
    NotGzip,
    Filesystem(Seq<char>),
    InstallRootUnknown(Seq<char>),
    BadInstallRoot(Seq<char>),
}

impl View for InitError {
    type V = Failure;

    open spec fn view(&self) -> Failure {
        match self {
            InitError::BadServerPath(s) => Failure::BadServerPath(s@),
            InitError::UnsupportedArch(s) => Failure::UnsupportedArch(s@),
            InitError::ArchUnknown(s) => Failure::ArchUnknown(s@),
            InitError::UnsupportedOs(s) => Failure::UnsupportedOs(s@),
            InitError::OsUnknown(s) => Failure::OsUnknown(s@),
            InitError::Download(s) => Failure::Download(s@),
            InitError::NotGzip => Failure::NotGzip,
            InitError::Filesystem(s) => Failure::Filesystem(s@),
            InitError::InstallRootUnknown(s) => Failure::InstallRootUnknown(s@),
            InitError::BadInstallRoot(s) => Failure::BadInstallRoot(s@),
        }
    }
}

/// The diagnostic line logged for a failure.
pub open spec fn failure_message(f: Failure) -> Seq<char> {
    match f {
        Failure::BadServerPath(s) => "Invalid server path: "@ + s,
        Failure::UnsupportedArch(s) => "Unsupported ARCH: "@ + s,
        Failure::ArchUnknown(s) => "Error ARCH: "@ + s,
        Failure::UnsupportedOs(s) => "Unsupported OS: "@ + s,
        Failure::OsUnknown(s) => "Error OS: "@ + s,
        Failure::Download(s) => "Download failed: "@ + s,
        Failure::NotGzip => "Downloaded server is not a gzip stream"@,
        Failure::Filesystem(s) => "Install failed: "@ + s,
        Failure::InstallRootUnknown(s) => "Error plugin location: "@ + s,
        Failure::BadInstallRoot(s) => "Invalid plugin location: "@ + s,
    }
}

fn prefixed(prefix: &str, text: &String) -> (r: String)
    ensures
        r@ == prefix@ + text@,
{
    let mut r = String::from_str(prefix);
    r.append(text.as_str());
    r
}

impl InitError {
    /// The diagnostic line to log for this error.
    pub fn message(&self) -> (r: String)
        ensures
            r@ == failure_message(self@),
    {
        match self {
            InitError::BadServerPath(s) => prefixed("Invalid server path: ", s),
            InitError::UnsupportedArch(s) => prefixed("Unsupported ARCH: ", s),
            InitError::ArchUnknown(s) => prefixed("Error ARCH: ", s),
            InitError::UnsupportedOs(s) => prefixed("Unsupported OS: ", s),
            InitError::OsUnknown(s) => prefixed("Error OS: ", s),
            InitError::Download(s) => prefixed("Download failed: ", s),
            InitError::NotGzip => String::from_str("Downloaded server is not a gzip stream"),
            InitError::Filesystem(s) => prefixed("Install failed: ", s),
            InitError::InstallRootUnknown(s) => prefixed("Error plugin location: ", s),
            InitError::BadInstallRoot(s) => prefixed("Invalid plugin location: ", s),
        }
    }
}

} // verus!
