//! What holds of every run of an initialization attempt.
use vstd::prelude::*;
use crate::artifact::{archive_name, download_url};
use crate::config::{configured_args, explicit_path, toml_selector, OptionsView};
use crate::error::Failure;
use crate::locator::{explicit_uri_text, parsed_url};
use crate::platform::{arch_named, arch_token, os_named, os_token, Platform};
use crate::session::{initial_session, launch_of, next, ActionView, EventView, SessionView, Stage};

verus! {

/// The actions that an attempt asks for while the events come in, in order.
pub open spec fn actions(s: SessionView, es: Seq<EventView>) -> Seq<ActionView>
    decreases es.len(),
{
    if es.len() == 0 {
        Seq::empty()
    } else {
        let (t, a) = next(s, es[0]);
        seq![a] + actions(t, es.drop_first())
    }
}

proof fn lemma_actions_unfold(s: SessionView, es: Seq<EventView>)
    requires
        es.len() > 0,
    ensures
        actions(s, es).len() == es.len(),
        actions(s, es)[0] == next(s, es[0]).1,
        forall|i: int|
            1 <= i < es.len() ==> #[trigger] actions(s, es)[i] == actions(next(s, es[0]).0, es.drop_first())[i - 1],
{
    lemma_actions_len(next(s, es[0]).0, es.drop_first());
}

proof fn lemma_actions_len(s: SessionView, es: Seq<EventView>)
    ensures
        actions(s, es).len() == es.len(),
    decreases es.len(),
{
    if es.len() > 0 {
        lemma_actions_len(next(s, es[0]).0, es.drop_first());
    }
}

proof fn lemma_done_is_inert(s: SessionView, es: Seq<EventView>)
    requires
        s.stage == Stage::Done,
    ensures
        actions(s, es).len() == es.len(),
        forall|i: int| 0 <= i < es.len() ==> #[trigger] actions(s, es)[i] == ActionView::Ignore,
    decreases es.len(),
{
    lemma_actions_len(s, es);
    if es.len() > 0 {
        lemma_done_is_inert(s, es.drop_first());
        lemma_actions_unfold(s, es);
    }
}

proof fn lemma_launch_args(s: SessionView, es: Seq<EventView>)
    requires
        s.stage != Stage::Configure,
    ensures
        forall|i: int|
            0 <= i < es.len() && (#[trigger] actions(s, es)[i] is Launch) ==> actions(s, es)[i]->Launch_0.args
                == s.args,
    decreases es.len(),
{
    lemma_actions_len(s, es);
    if es.len() > 0 {
        let t = next(s, es[0]).0;
        assert(t.stage != Stage::Configure && t.args == s.args);
        lemma_launch_args(t, es.drop_first());
        lemma_actions_unfold(s, es);
    }
}

/// The archive of a platform's build is named `taplo-full-<os>-<arch>.gz`
/// and is downloaded from the release of version 0.7.1.
pub proof fn artifact_follows_template(p: Platform)
    ensures
        archive_name(p) == "taplo-full-"@ + os_token(p.os) + "-"@ + arch_token(p.arch) + ".gz"@,
        download_url(p) == "https://github.com/panekj/taplo/releases/download/0.7.1/"@ + archive_name(p),
{
    reveal_strlit("https://github.com/panekj/taplo/releases/download/");
    reveal_strlit("0.7.1");
    reveal_strlit("/");
    reveal_strlit("https://github.com/panekj/taplo/releases/download/0.7.1/");
    assert("https://github.com/panekj/taplo/releases/download/"@ + "0.7.1"@ + "/"@
        =~= "https://github.com/panekj/taplo/releases/download/0.7.1/"@);
}

/// An architecture that no build exists for, or a failed query for it, ends
/// the attempt with that error: nothing is downloaded, installed or
/// launched, whatever the host reports afterwards.
pub proof fn unsupported_arch_ends_attempt(
    s: SessionView,
    reported: Result<Seq<char>, Seq<char>>,
    later: Seq<EventView>,
)
    requires
        s.stage == Stage::QueryArch,
        reported matches Ok(t) ==> arch_named(t) is None,
    ensures
        ({
            let acts = actions(s, seq![EventView::ArchReported(reported)] + later);
            &&& acts.len() == later.len() + 1
            &&& acts[0] == ActionView::Fail(
                match reported {
                    Ok(t) => Failure::UnsupportedArch(t),
                    Err(m) => Failure::ArchUnknown(m),
                },
            )
            &&& forall|i: int| 1 <= i < acts.len() ==> acts[i] == ActionView::Ignore
        }),
{
    let es = seq![EventView::ArchReported(reported)] + later;
    assert(es.drop_first() =~= later);
    lemma_actions_unfold(s, es);
    lemma_done_is_inert(next(s, es[0]).0, later);
}

/// An operating system that no build exists for, or a failed query for it,
/// ends the attempt with that error: nothing is downloaded, installed or
/// launched, whatever the host reports afterwards.
pub proof fn unsupported_os_ends_attempt(
    s: SessionView,
    reported: Result<Seq<char>, Seq<char>>,
    later: Seq<EventView>,
)
    requires
        s.stage is QueryOs,
        reported matches Ok(t) ==> os_named(t) is None,
    ensures
        ({
            let acts = actions(s, seq![EventView::OsReported(reported)] + later);
            &&& acts.len() == later.len() + 1
            &&& acts[0] == ActionView::Fail(
                match reported {
                    Ok(t) => Failure::UnsupportedOs(t),
                    Err(m) => Failure::OsUnknown(m),
                },
            )
            &&& forall|i: int| 1 <= i < acts.len() ==> acts[i] == ActionView::Ignore
        }),
{
    let es = seq![EventView::OsReported(reported)] + later;
    assert(es.drop_first() =~= later);
    lemma_actions_unfold(s, es);
    lemma_done_is_inert(next(s, es[0]).0, later);
}

/// With a non-empty server path configured, the attempt launches the server
/// at the URI read from that path, or fails on it, and asks for nothing else:
/// no platform query, download or install.
pub proof fn explicit_server_skips_install(o: Option<OptionsView>, later: Seq<EventView>)
    requires
        explicit_path(o) is Some,
    ensures
        ({
            let p = explicit_path(o)->0;
            let acts = actions(initial_session(), seq![EventView::Start(o)] + later);
            &&& acts.len() == later.len() + 1
            &&& acts[0] == match parsed_url(explicit_uri_text(p)) {
                Some(u) => launch_of(u, configured_args(o)),
                None => ActionView::Fail(Failure::BadServerPath(p)),
            }
            &&& forall|i: int| 1 <= i < acts.len() ==> acts[i] == ActionView::Ignore
        }),
{
    let es = seq![EventView::Start(o)] + later;
    assert(es.drop_first() =~= later);
    lemma_actions_unfold(initial_session(), es);
    lemma_done_is_inert(next(initial_session(), es[0]).0, later);
}

/// Configured server arguments are the arguments of every launch, element
/// for element, whether the server is configured or installed.
pub proof fn configured_args_reach_launch(
    o: Option<OptionsView>,
    args: Seq<Seq<char>>,
    later: Seq<EventView>,
)
    requires
        o matches Some(v) && v.server_args == Some(args),
    ensures
        ({
            let acts = actions(initial_session(), seq![EventView::Start(o)] + later);
            forall|i: int|
                0 <= i < acts.len() && (#[trigger] acts[i] is Launch) ==> acts[i]->Launch_0.args == args
        }),
{
    let es = seq![EventView::Start(o)] + later;
    assert(es.drop_first() =~= later);
    lemma_actions_unfold(initial_session(), es);
    lemma_launch_args(next(initial_session(), es[0]).0, later);
}

/// Every launch is for TOML files only: one filter, language `toml`,
/// pattern `**/*.toml`.
pub proof fn every_launch_serves_toml(s: SessionView, es: Seq<EventView>)
    ensures
        toml_selector() == seq![("toml"@, "**/*.toml"@)],
        forall|i: int|
            0 <= i < es.len() && (#[trigger] actions(s, es)[i] is Launch) ==> actions(s, es)[i]->Launch_0.selector
                == toml_selector(),
    decreases es.len(),
{
    lemma_actions_len(s, es);
    if es.len() > 0 {
        every_launch_serves_toml(next(s, es[0]).0, es.drop_first());
        lemma_actions_unfold(s, es);
    }
}

} // verus!
