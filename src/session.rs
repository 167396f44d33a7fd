//! One initialization attempt as a state machine: the host's answers come in
//! as events, and each step says what the host is to do next.
use vstd::prelude::*;
use lsp_types::Url;
use crate::artifact::{archive_url, download_url, plan_install, planned_install, Installation, InstallView};
use crate::config::{
    configured_args, document_selector, explicit_path, options_view, resolve_options,
    texts, toml_selector, filters_view, DocumentFilter, OptionsView, VoltOptions,
};
use crate::error::{Failure, InitError};
use crate::locator::{explicit_locator, explicit_uri_text, installed_locator, installed_url, parsed_url};
use crate::platform::{arch_named, os_named, Arch, Os, Platform};

verus! {

/// Where an initialization attempt stands.
#[derive(Clone, Copy, Debug, PartialEq, Eq, Structural)]
pub enum Stage {
    /// Waiting for the initialization options.
    Configure,
    /// Waiting for the host's architecture.
    QueryArch,
    /// Waiting for the host's operating system.
    QueryOs(Arch),
    /// Waiting for the download of the build for the platform.
    Fetch(Platform),
    /// Waiting for the install's files to be written.
    Install,
    /// Waiting for the URI of the install root.
    Locate,
    /// The attempt launched a server or failed; nothing more happens.
    Done,
}

/// An initialization attempt: its stage and the server arguments it will use.
pub struct Session {
    pub stage: Stage,
    pub args: Vec<String>,
}

/// The value of a `Session`.
pub struct SessionView {
    pub stage: Stage,
    pub args: Seq<Seq<char>>,
}

impl View for Session {
    type V = SessionView;

    open spec fn view(&self) -> SessionView {
        SessionView { stage: self.stage, args: texts(self.args@) }
    }
}

/// What the host reports to an attempt.
pub enum Event {
    /// The `volt` block of the initialization options, if there is one.
    Start(Option<VoltOptions>),
    /// The host's name for its architecture, or why it has none.
    ArchReported(Result<String, String>),
    /// The host's name for its operating system, or why it has none.
    OsReported(Result<String, String>),
    /// The downloaded body, or why the download failed.
    Fetched(Result<Vec<u8>, String>),
    /// That the install's files were written, or why they were not.
    Installed(Result<(), String>),
    /// The URI of the install root, or why the host has none.
    RootReported(Result<String, String>),
}

/// The value of an `Event`.
pub enum EventView {
    Start(Option<OptionsView>),
    ArchReported(Result<Seq<char>, Seq<char>>),
    OsReported(Result<Seq<char>, Seq<char>>),
    Fetched(Result<Seq<u8>, Seq<char>>),
    Installed(Result<(), Seq<char>>),
    RootReported(Result<Seq<char>, Seq<char>>),
}

/// The characters of a reported text or of the reason it is missing.
pub open spec fn text_result(r: Result<String, String>) -> Result<Seq<char>, Seq<char>> {
    match r {
        Ok(t) => Ok(t@),
        Err(m) => Err(m@),
    }
}

impl View for Event {
    type V = EventView;

    open spec fn view(&self) -> EventView {
        match self {
            Event::Start(o) => EventView::Start(options_view(*o)),
            Event::ArchReported(r) => EventView::ArchReported(text_result(*r)),
            Event::OsReported(r) => EventView::OsReported(text_result(*r)),
            Event::Fetched(r) => EventView::Fetched(
                match r {
                    Ok(b) => Ok(b@),
                    Err(m) => Err(m@),
                },
            ),
            Event::Installed(r) => EventView::Installed(
                match r {
                    Ok(_) => Ok(()),
                    Err(m) => Err(m@),
                },
            ),
            Event::RootReported(r) => EventView::RootReported(text_result(*r)),
        }
    }
}

/// A request to the host to start a language server.
pub struct LaunchRequest {
    pub server: Url,
    pub args: Vec<String>,
    pub selector: Vec<DocumentFilter>,
}

/// The value of a `LaunchRequest`.
pub struct LaunchView {
    pub server: Url,
    pub args: Seq<Seq<char>>,
    pub selector: Seq<(Seq<char>, Seq<char>)>,
}

/// What the host is to do next.
pub enum Action {
    /// Report the host's architecture.
    QueryArch,
    /// Report the host's operating system.
    QueryOs,
    /// Download the body at this URL.
    Fetch(String),
    /// Write the archive, unpack it to the executable, remove the archive.
    Install(Installation),
    /// Report the URI of the install root.
    QueryRoot,
    /// Start the server, passing the initialization options on unchanged.
    Launch(LaunchRequest),
    /// Log the error; the attempt is over.
    Fail(InitError),
    /// Nothing: the event does not belong to this stage.
    Ignore,
}

/// The value of an `Action`.
pub enum ActionView {
    QueryArch,
    QueryOs,
    Fetch(Seq<char>),
    Install(InstallView),
    QueryRoot,
    Launch(LaunchView),
    Fail(Failure),
    Ignore,
}

impl View for Action {
    type V = ActionView;

    open spec fn view(&self) -> ActionView {
        match self {
            Action::QueryArch => ActionView::QueryArch,
            Action::QueryOs => ActionView::QueryOs,
            Action::Fetch(u) => ActionView::Fetch(u@),
            Action::Install(i) => ActionView::Install(i@),
            Action::QueryRoot => ActionView::QueryRoot,
            Action::Launch(l) => ActionView::Launch(
                LaunchView { server: l.server, args: texts(l.args@), selector: filters_view(l.selector@) },
            ),
            Action::Fail(e) => ActionView::Fail(e@),
            Action::Ignore => ActionView::Ignore,
        }
    }
}

/// A new attempt, waiting for its options.
pub open spec fn initial_session() -> SessionView {
    SessionView { stage: Stage::Configure, args: Seq::empty() }
}

/// The launch of a server with the given locator and arguments.
pub open spec fn launch_of(server: Url, args: Seq<Seq<char>>) -> ActionView {
    ActionView::Launch(LaunchView { server, args, selector: toml_selector() })
}

/// The attempt after one event, and what the host is to do.
pub open spec fn next(s: SessionView, e: EventView) -> (SessionView, ActionView) {
    let done = SessionView { stage: Stage::Done, args: s.args };
    match s.stage {
        Stage::Configure => match e {
            EventView::Start(o) => {
                let args = configured_args(o);
                match explicit_path(o) {
                    Some(p) => (
                        SessionView { stage: Stage::Done, args },
                        match parsed_url(explicit_uri_text(p)) {
                            Some(u) => launch_of(u, args),
                            None => ActionView::Fail(Failure::BadServerPath(p)),
                        },
                    ),
                    None => (SessionView { stage: Stage::QueryArch, args }, ActionView::QueryArch),
                }
            },
            _ => (s, ActionView::Ignore),
        },
        Stage::QueryArch => match e {
            EventView::ArchReported(Ok(t)) => match arch_named(t) {
                Some(a) => (SessionView { stage: Stage::QueryOs(a), args: s.args }, ActionView::QueryOs),
                None => (done, ActionView::Fail(Failure::UnsupportedArch(t))),
            },
            EventView::ArchReported(Err(m)) => (done, ActionView::Fail(Failure::ArchUnknown(m))),
            _ => (s, ActionView::Ignore),
        },
        Stage::QueryOs(a) => match e {
            EventView::OsReported(Ok(t)) => match os_named(t) {
                Some(os) => {
                    let p = Platform { os, arch: a };
                    (SessionView { stage: Stage::Fetch(p), args: s.args }, ActionView::Fetch(download_url(p)))
                },
                None => (done, ActionView::Fail(Failure::UnsupportedOs(t))),
            },
            EventView::OsReported(Err(m)) => (done, ActionView::Fail(Failure::OsUnknown(m))),
            _ => (s, ActionView::Ignore),
        },
        Stage::Fetch(p) => match e {
            EventView::Fetched(Ok(body)) => match planned_install(p, body) {
                Some(i) => (SessionView { stage: Stage::Install, args: s.args }, ActionView::Install(i)),
                None => (done, ActionView::Fail(Failure::NotGzip)),
            },
            EventView::Fetched(Err(m)) => (done, ActionView::Fail(Failure::Download(m))),
            _ => (s, ActionView::Ignore),
        },
        Stage::Install => match e {
            EventView::Installed(Ok(_)) => (SessionView { stage: Stage::Locate, args: s.args }, ActionView::QueryRoot),
            EventView::Installed(Err(m)) => (done, ActionView::Fail(Failure::Filesystem(m))),
            _ => (s, ActionView::Ignore),
        },
        Stage::Locate => match e {
            EventView::RootReported(Ok(root)) => match installed_url(root) {
                Some(u) => (done, launch_of(u, s.args)),
                None => (done, ActionView::Fail(Failure::BadInstallRoot(root))),
            },
            EventView::RootReported(Err(m)) => (done, ActionView::Fail(Failure::InstallRootUnknown(m))),
            _ => (s, ActionView::Ignore),
        },
        Stage::Done => (s, ActionView::Ignore),
    }
}

fn copy_args(v: &Vec<String>) -> (r: Vec<String>)
    ensures
        texts(r@) == texts(v@),
{
    let mut r: Vec<String> = Vec::new();
    let mut i: usize = 0;
    while i < v.len()
        invariant
            i <= v@.len(),
            r@.len() == i,
            texts(r@) == texts(v@).subrange(0, i as int),
        decreases v@.len() - i,
    {
        let ghost before = r@;
        r.push(v[i].clone());
        assert(forall|k: int| 0 <= k < i ==> texts(before)[k] == texts(v@)[k]);
        i = i + 1;
        assert(texts(r@) =~= texts(v@).subrange(0, i as int));
    }
    assert(texts(v@).subrange(0, i as int) =~= texts(v@));
    r
}

impl Session {
    /// A new attempt, waiting for its options.
    pub fn new() -> (r: Session)
        ensures
            r@ == initial_session(),
    {
        let r = Session { stage: Stage::Configure, args: Vec::new() };
        assert(texts(r.args@) =~= Seq::empty());
        r
    }

    fn launch(&self, server: Url) -> (r: Action)
        ensures
            r@ == launch_of(server, self@.args),
    {
        Action::Launch(LaunchRequest { server, args: copy_args(&self.args), selector: document_selector() })
    }

    fn finish(&mut self, e: InitError) -> (r: Action)
        ensures
            final(self)@ == (SessionView { stage: Stage::Done, args: old(self)@.args }),
            r@ == ActionView::Fail(e@),
    {
        self.stage = Stage::Done;
        Action::Fail(e)
    }

    /// Takes in one event and says what the host is to do next.
    pub fn step(&mut self, e: Event) -> (r: Action)
        ensures
            (final(self)@, r@) == next(old(self)@, e@),
    {
        match self.stage {
            Stage::Configure => match e {
                Event::Start(o) => {
                    let (path, args) = resolve_options(o);
                    self.args = args;
                    match path {
                        Some(p) => {
                            self.stage = Stage::Done;
                            match explicit_locator(&p) {
                                Some(u) => self.launch(u),
                                None => Action::Fail(InitError::BadServerPath(p)),
                            }
                        },
                        None => {
                            self.stage = Stage::QueryArch;
                            Action::QueryArch
                        },
                    }
                },
                _ => Action::Ignore,
            },
            Stage::QueryArch => match e {
                Event::ArchReported(Ok(t)) => match Arch::from_host_name(&t) {
                    Some(a) => {
                        self.stage = Stage::QueryOs(a);
                        Action::QueryOs
                    },
                    None => self.finish(InitError::UnsupportedArch(t)),
                },
                Event::ArchReported(Err(m)) => self.finish(InitError::ArchUnknown(m)),
                _ => Action::Ignore,
            },
            Stage::QueryOs(a) => match e {
                Event::OsReported(Ok(t)) => match Os::from_host_name(&t) {
                    Some(os) => {
                        let p = Platform { os, arch: a };
                        self.stage = Stage::Fetch(p);
                        Action::Fetch(archive_url(p))
                    },
                    None => self.finish(InitError::UnsupportedOs(t)),
                },
                Event::OsReported(Err(m)) => self.finish(InitError::OsUnknown(m)),
                _ => Action::Ignore,
            },
            Stage::Fetch(p) => match e {
                Event::Fetched(Ok(body)) => match plan_install(p, body) {
                    Some(i) => {
                        self.stage = Stage::Install;
                        Action::Install(i)
                    },
                    None => self.finish(InitError::NotGzip),
                },
                Event::Fetched(Err(m)) => self.finish(InitError::Download(m)),
                _ => Action::Ignore,
            },
            Stage::Install => match e {
                Event::Installed(Ok(())) => {
                    self.stage = Stage::Locate;
                    Action::QueryRoot
                },
                Event::Installed(Err(m)) => self.finish(InitError::Filesystem(m)),
                _ => Action::Ignore,
            },
            Stage::Locate => match e {
                Event::RootReported(Ok(root)) => match installed_locator(&root) {
                    Some(u) => {
                        self.stage = Stage::Done;
                        self.launch(u)
                    },
                    None => self.finish(InitError::BadInstallRoot(root)),
                },
                Event::RootReported(Err(m)) => self.finish(InitError::InstallRootUnknown(m)),
                _ => Action::Ignore,
            },
            Stage::Done => Action::Ignore,
        }
    }
}

} // verus!
