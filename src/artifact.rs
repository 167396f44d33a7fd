//! The published server build for a platform, and how it is unpacked.
use vstd::prelude::*;
use crate::platform::{Platform, arch_token, os_token};
use crate::locator::executable_name;

verus! {

/// The name of the compressed build for a platform.
pub open spec fn archive_name(p: Platform) -> Seq<char> {
    "taplo-full-"@ + os_token(p.os) + "-"@ + arch_token(p.arch) + ".gz"@
}

/// Where the builds of the server's release are published.
pub open spec fn release_base() -> Seq<char> {
    "https://github.com/panekj/taplo/releases/download/"@ + "0.7.1"@
}

/// The download URL of the compressed build for a platform.
pub open spec fn download_url(p: Platform) -> Seq<char> {
    release_base() + "/"@ + archive_name(p)
}

/// What `flate2::read::GzDecoder` reads out of a gzip stream, if it can.
pub uninterp spec fn gunzip(bytes: Seq<u8>) -> Option<Seq<u8>>;

/// Relies on flate2::read::GzDecoder: the bytes of the first gzip member,
/// or an error; either depends on the input bytes alone.
#[verifier::external_body]
fn decompress(bytes: &[u8]) -> (r: Option<Vec<u8>>)
    ensures
        match r {
            Some(out) => gunzip(bytes@) == Some(out@),
            None => gunzip(bytes@) is None,
        },
{
    let mut out = Vec::new();
    match std::io::Read::read_to_end(&mut flate2::read::GzDecoder::new(bytes), &mut out) {
        Ok(_) => Some(out),
        Err(_) => None,
    }
}

/// The name of the compressed build for a platform.
pub fn archive_file_name(p: Platform) -> (r: String)
    ensures
        r@ == archive_name(p),
{
    let mut r = String::from_str("taplo-full-");
    r.append(p.os.token());
    r.append("-");
    r.append(p.arch.token());
    r.append(".gz");
    r
}

/// The download URL of the compressed build for a platform.
pub fn archive_url(p: Platform) -> (r: String)
    ensures
        r@ == download_url(p),
{
    let name = archive_file_name(p);
    let mut r = String::from_str("https://github.com/panekj/taplo/releases/download/");
    r.append("0.7.1");
    r.append("/");
    r.append(name.as_str());
    r
}

/// The files an install writes: the downloaded archive, kept only while
/// installing, and the executable unpacked from it.
pub struct Installation {
    pub archive_name: String,
    pub archive: Vec<u8>,
    pub executable_name: String,
    pub executable: Vec<u8>,
}

/// The value of an `Installation`.
pub struct InstallView {
    pub archive_name: Seq<char>,
    pub archive: Seq<u8>,
    pub executable_name: Seq<char>,
    pub executable: Seq<u8>,
}

impl View for Installation {
    type V = InstallView;

    open spec fn view(&self) -> InstallView {
        InstallView {
            archive_name: self.archive_name@,
            archive: self.archive@,
            executable_name: self.executable_name@,
            executable: self.executable@,
        }
    }
}

/// The install of a downloaded body for a platform, if the body unpacks.
pub open spec fn planned_install(p: Platform, body: Seq<u8>) -> Option<InstallView> {
    match gunzip(body) {
        Some(exe) => Some(
            InstallView {
                archive_name: archive_name(p),
                archive: body,
                executable_name: executable_name(),
                executable: exe,
            },
        ),
        None => None,
    }
}

/// Unpacks a downloaded build into the files to write.
pub fn plan_install(p: Platform, body: Vec<u8>) -> (r: Option<Installation>)
    ensures
        match r {
            Some(i) => planned_install(p, body@) == Some(i@),
            None => planned_install(p, body@) is None,
        },
{
    match decompress(body.as_slice()) {
        Some(exe) => Some(
            Installation {
                archive_name: archive_file_name(p),
                archive: body,
                executable_name: String::from_str("taplo"),
                executable: exe,
            },
        ),
        None => None,
    }
}

} // verus!
