//! Opening a browser.

use crate::host::Host;
use crate::step::{last_reply_view, Invocation, InvocationView, Step, StepView};
use vstd::prelude::*;

verus! {

/// The command interpreter of Windows, as a Windows program names it.
pub const COMMAND_INTERPRETER: &'static str = "cmd";

/// The same interpreter, as Linux under Windows reaches it.
pub const BRIDGED_COMMAND_INTERPRETER: &'static str = "/mnt/c/Windows/System32/cmd.exe";

/// The failure reported where no browser can be opened.
pub const BROWSER_UNAVAILABLE: &'static str = "Browser opening not implemented for non-Windows";

/// The interpreter's `start` command for `url`: Windows opens the address with
/// the program registered for it.
pub open spec fn start_command(program: Seq<char>, url: Seq<char>) -> InvocationView {
    InvocationView { program, args: seq!["/C"@, "start"@, url] }
}

/// The course of opening `url` in a browser. A host that can do it is first
/// asked to start the interpreter, without waiting for it to end; whether
/// that start succeeded is the result.
pub open spec fn browser_step(
    host: Host,
    url: Seq<char>,
    reply: Option<Result<(), Seq<char>>>,
) -> StepView<InvocationView, ()> {
    match (host, reply) {
        (Host::Other, _) => StepView::Finish(Err(BROWSER_UNAVAILABLE@)),
        (Host::Windows, None) => StepView::Perform(start_command(COMMAND_INTERPRETER@, url)),
        (Host::Bridged, None) => StepView::Perform(
            start_command(BRIDGED_COMMAND_INTERPRETER@, url),
        ),
        (_, Some(outcome)) => StepView::Finish(outcome),
    }
}

/// Opening a browser asks for one thing: with a reply in hand it is finished,
/// and with the reply's own outcome where the host can open one.
pub proof fn lemma_browser_finishes(
    host: Host,
    url: Seq<char>,
    reply: Option<Result<(), Seq<char>>>,
)
    requires
        reply is Some,
    ensures
        browser_step(host, url, reply) is Finish,
        host != Host::Other ==> browser_step(host, url, reply) == StepView::<
            InvocationView,
            (),
        >::Finish(reply->0),
{
}

/// Opens `url` in the browser of the Windows desktop.
///
/// `reply` is `None` on the first call and afterwards holds what starting the
/// requested program gave: nothing, or the failure's message.
pub fn open_browser(host: Host, url: &str, reply: Option<Result<(), String>>) -> (step: Step<
    Invocation,
    (),
>)
    ensures
        step.deep_view() == browser_step(host, url@, last_reply_view(reply)),
{
    let program = match host {
        Host::Windows => COMMAND_INTERPRETER,
        Host::Bridged => BRIDGED_COMMAND_INTERPRETER,
        Host::Other => {
            return Step::Finish(Err(BROWSER_UNAVAILABLE.to_string()));
        },
    };
    match reply {
        None => {
            let mut args: Vec<String> = Vec::new();
            args.push("/C".to_string());
            args.push("start".to_string());
            args.push(url.to_string());
            assert(args.deep_view() =~= seq!["/C"@, "start"@, url@]);
            Step::Perform(Invocation { program: program.to_string(), args })
        },
        Some(outcome) => Step::Finish(outcome),
    }
}

} // verus!
