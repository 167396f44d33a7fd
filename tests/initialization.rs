use std::io::Write;

use lapce_toml::config::VoltOptions;
use lapce_toml::error::InitError;
use lapce_toml::session::{Action, Event, Session, Stage};

fn text(s: &str) -> String {
    String::from(s)
}

fn gzip(bytes: &[u8]) -> Vec<u8> {
    let mut enc = flate2::write::GzEncoder::new(Vec::new(), flate2::Compression::default());
    enc.write_all(bytes).unwrap();
    enc.finish().unwrap()
}

fn started(options: Option<VoltOptions>) -> (Session, Action) {
    let mut s = Session::new();
    let a = s.step(Event::Start(options));
    (s, a)
}

fn launched(a: Action) -> lapce_toml::session::LaunchRequest {
    match a {
        Action::Launch(l) => l,
        _ => panic!("expected a launch"),
    }
}

fn failed(a: Action) -> InitError {
    match a {
        Action::Fail(e) => e,
        _ => panic!("expected a failure"),
    }
}

#[test]
fn explicit_server_is_launched_without_download() {
    let options = VoltOptions {
        server_path: Some(text("/opt/bin/server")),
        server_args: Some(vec![text("lsp"), text("stdio")]),
    };
    let (mut s, a) = started(Some(options));
    let l = launched(a);
    assert_eq!(l.server.as_str(), "urn:/opt/bin/server");
    assert_eq!(l.server, lsp_types::Url::parse("urn:/opt/bin/server").unwrap());
    assert_eq!(l.args, vec![text("lsp"), text("stdio")]);
    assert_eq!(s.stage, Stage::Done);
    assert!(matches!(s.step(Event::ArchReported(Ok(text("x86_64")))), Action::Ignore));
    assert!(matches!(s.step(Event::Fetched(Ok(vec![1, 2, 3]))), Action::Ignore));
}

#[test]
fn empty_options_install_the_linux_build() {
    let (mut s, a) = started(None);
    assert!(matches!(a, Action::QueryArch));
    assert!(matches!(s.step(Event::ArchReported(Ok(text("x86_64")))), Action::QueryOs));
    let url = match s.step(Event::OsReported(Ok(text("linux")))) {
        Action::Fetch(u) => u,
        _ => panic!("expected a download"),
    };
    assert!(url.ends_with("taplo-full-linux-x86_64.gz"));
    assert_eq!(
        url,
        "https://github.com/panekj/taplo/releases/download/0.7.1/taplo-full-linux-x86_64.gz"
    );
    let body = gzip(b"server executable");
    let install = match s.step(Event::Fetched(Ok(body.clone()))) {
        Action::Install(i) => i,
        _ => panic!("expected an install"),
    };
    assert_eq!(install.archive_name, "taplo-full-linux-x86_64.gz");
    assert_eq!(install.archive, body);
    assert_eq!(install.executable_name, "taplo");
    assert_eq!(install.executable, b"server executable".to_vec());
    assert!(matches!(s.step(Event::Installed(Ok(()))), Action::QueryRoot));
    let l = launched(s.step(Event::RootReported(Ok(text("file:///home/u/.lapce/plugins/toml/")))));
    assert_eq!(l.server.as_str(), "file:///home/u/.lapce/plugins/toml/taplo");
    assert_eq!(l.args, vec![text("lsp"), text("stdio")]);
    assert_eq!(l.selector.len(), 1);
    assert_eq!(l.selector[0].language, "toml");
    assert_eq!(l.selector[0].pattern, "**/*.toml");
    assert_eq!(s.stage, Stage::Done);
}

#[test]
fn unsupported_architecture_fails_the_attempt() {
    let (mut s, _) = started(None);
    let e = failed(s.step(Event::ArchReported(Ok(text("riscv64")))));
    assert!(matches!(&e, InitError::UnsupportedArch(v) if v == "riscv64"));
    assert_eq!(e.message(), "Unsupported ARCH: riscv64");
    assert!(matches!(s.step(Event::OsReported(Ok(text("linux")))), Action::Ignore));
    assert!(matches!(s.step(Event::RootReported(Ok(text("file:///a/")))), Action::Ignore));
}

#[test]
fn failed_architecture_query_fails_the_attempt() {
    let (mut s, _) = started(None);
    let e = failed(s.step(Event::ArchReported(Err(text("environment variable not found")))));
    assert_eq!(e.message(), "Error ARCH: environment variable not found");
    assert_eq!(s.stage, Stage::Done);
}

#[test]
fn unsupported_os_fails_the_attempt() {
    let (mut s, _) = started(None);
    s.step(Event::ArchReported(Ok(text("aarch64"))));
    let e = failed(s.step(Event::OsReported(Ok(text("freebsd")))));
    assert!(matches!(&e, InitError::UnsupportedOs(v) if v == "freebsd"));
    assert_eq!(e.message(), "Unsupported OS: freebsd");
    assert!(matches!(s.step(Event::Fetched(Ok(vec![]))), Action::Ignore));
}

#[test]
fn failed_os_query_fails_the_attempt() {
    let (mut s, _) = started(None);
    s.step(Event::ArchReported(Ok(text("aarch64"))));
    let e = failed(s.step(Event::OsReported(Err(text("not present")))));
    assert_eq!(e.message(), "Error OS: not present");
}

#[test]
fn macos_is_published_as_darwin() {
    let (mut s, _) = started(None);
    s.step(Event::ArchReported(Ok(text("aarch64"))));
    match s.step(Event::OsReported(Ok(text("macos")))) {
        Action::Fetch(u) => assert_eq!(
            u,
            "https://github.com/panekj/taplo/releases/download/0.7.1/taplo-full-darwin-aarch64.gz"
        ),
        _ => panic!("expected a download"),
    }
}

#[test]
fn empty_server_path_installs_with_configured_args() {
    let options = VoltOptions { server_path: Some(text("")), server_args: Some(vec![text("lsp"), text("--verbose"), text("stdio")]) };
    let (mut s, a) = started(Some(options));
    assert!(matches!(a, Action::QueryArch));
    s.step(Event::ArchReported(Ok(text("x86_64"))));
    s.step(Event::OsReported(Ok(text("windows"))));
    s.step(Event::Fetched(Ok(gzip(b"exe"))));
    s.step(Event::Installed(Ok(())));
    let l = launched(s.step(Event::RootReported(Ok(text("file:///plugins/toml/")))));
    assert_eq!(l.args, vec![text("lsp"), text("--verbose"), text("stdio")]);
}

#[test]
fn empty_argument_list_is_kept() {
    let options = VoltOptions { server_path: Some(text("/usr/bin/taplo")), server_args: Some(vec![]) };
    let l = launched(started(Some(options)).1);
    assert!(l.args.is_empty());
}

#[test]
fn missing_args_default_on_explicit_path() {
    let options = VoltOptions { server_path: Some(text("/usr/bin/taplo")), server_args: None };
    let l = launched(started(Some(options)).1);
    assert_eq!(l.args, vec![text("lsp"), text("stdio")]);
    assert_eq!(l.server.as_str(), "urn:/usr/bin/taplo");
}

#[test]
fn malformed_server_path_is_a_configuration_error() {
    let options = VoltOptions { server_path: Some(text("//[bad")), server_args: None };
    let (s, a) = started(Some(options));
    let e = failed(a);
    assert!(matches!(&e, InitError::BadServerPath(p) if p == "//[bad"));
    assert_eq!(e.message(), "Invalid server path: //[bad");
    assert_eq!(s.stage, Stage::Done);
}

#[test]
fn body_that_is_not_gzip_fails_the_install() {
    let (mut s, _) = started(None);
    s.step(Event::ArchReported(Ok(text("x86_64"))));
    s.step(Event::OsReported(Ok(text("linux"))));
    let e = failed(s.step(Event::Fetched(Ok(b"<html>Not Found</html>".to_vec()))));
    assert!(matches!(e, InitError::NotGzip));
    assert_eq!(e.message(), "Downloaded server is not a gzip stream");
}

#[test]
fn download_failure_fails_the_attempt() {
    let (mut s, _) = started(None);
    s.step(Event::ArchReported(Ok(text("x86_64"))));
    s.step(Event::OsReported(Ok(text("linux"))));
    let e = failed(s.step(Event::Fetched(Err(text("connection refused")))));
    assert_eq!(e.message(), "Download failed: connection refused");
}

#[test]
fn filesystem_failure_fails_the_attempt() {
    let (mut s, _) = started(None);
    s.step(Event::ArchReported(Ok(text("x86_64"))));
    s.step(Event::OsReported(Ok(text("linux"))));
    s.step(Event::Fetched(Ok(gzip(b"exe"))));
    let e = failed(s.step(Event::Installed(Err(text("permission denied")))));
    assert_eq!(e.message(), "Install failed: permission denied");
    assert!(matches!(s.step(Event::RootReported(Ok(text("file:///a/")))), Action::Ignore));
}

#[test]
fn install_root_failures_fail_the_attempt() {
    let mut s = Session::new();
    s.step(Event::Start(None));
    s.step(Event::ArchReported(Ok(text("x86_64"))));
    s.step(Event::OsReported(Ok(text("linux"))));
    s.step(Event::Fetched(Ok(gzip(b"exe"))));
    s.step(Event::Installed(Ok(())));
    let e = failed(s.step(Event::RootReported(Ok(text("not a uri")))));
    assert!(matches!(&e, InitError::BadInstallRoot(r) if r == "not a uri"));
    assert_eq!(e.message(), "Invalid plugin location: not a uri");

    let mut t = Session::new();
    t.step(Event::Start(None));
    t.step(Event::ArchReported(Ok(text("x86_64"))));
    t.step(Event::OsReported(Ok(text("linux"))));
    t.step(Event::Fetched(Ok(gzip(b"exe"))));
    t.step(Event::Installed(Ok(())));
    let e = failed(t.step(Event::RootReported(Err(text("unset")))));
    assert_eq!(e.message(), "Error plugin location: unset");
}

#[test]
fn events_out_of_order_are_ignored() {
    let mut s = Session::new();
    assert!(matches!(s.step(Event::ArchReported(Ok(text("x86_64")))), Action::Ignore));
    assert_eq!(s.stage, Stage::Configure);
    assert!(matches!(s.step(Event::Start(None)), Action::QueryArch));
    assert!(matches!(s.step(Event::Installed(Ok(()))), Action::Ignore));
    assert_eq!(s.stage, Stage::QueryArch);
}
