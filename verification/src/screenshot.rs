//! Capturing the screen.

use crate::host::Host;
use crate::step::{last_reply_view, Invocation, InvocationView, Step, StepView};
use crate::text::{decode_utf8_lossy, lossy_utf8};
use vstd::prelude::*;
use vstd::utf8::{decode_utf8, valid_utf8};

verus! {

/// Width in pixels of the rectangle that a capture copies.
pub const CAPTURE_WIDTH: i32 = 1920;

/// Height in pixels of the rectangle that a capture copies.
pub const CAPTURE_HEIGHT: i32 = 1080;

/// The scripting host of Windows, as Linux under Windows starts it.
pub const SCRIPT_HOST: &'static str = "powershell.exe";

/// The script that presses the print-screen key.
pub const PRINT_SCREEN_SCRIPT: &'static str =
    "Add-Type -AssemblyName System.Windows.Forms; [System.Windows.Forms.SendKeys]::SendWait('{PRTSC}');";

/// The result of a capture on a Windows desktop.
pub const SCREENSHOT_CAPTURED: &'static str = "Screenshot captured (Windows)";

/// The failure reported where no capture is possible.
pub const SCREENSHOT_UNAVAILABLE: &'static str = "Native screenshot not implemented for non-Windows";

/// What a capture asks of the host.
#[derive(Debug, PartialEq, Eq)]
pub enum ScreenshotRequest {
    /// Copy the rectangle of this size at the screen's origin into a bitmap in
    /// memory, by a bit-block transfer.
    CopyScreen { width: i32, height: i32 },
    /// Run the program to its end and reply with what it wrote to its standard
    /// output.
    RunTool(Invocation),
}

/// A `ScreenshotRequest` as a mathematical value.
pub enum ScreenshotRequestView {
    CopyScreen { width: int, height: int },
    RunTool(InvocationView),
}

impl DeepView for ScreenshotRequest {
    type V = ScreenshotRequestView;

    open spec fn deep_view(&self) -> ScreenshotRequestView {
        match self {
            ScreenshotRequest::CopyScreen { width, height } => ScreenshotRequestView::CopyScreen {
                width: *width as int,
                height: *height as int,
            },
            ScreenshotRequest::RunTool(tool) => ScreenshotRequestView::RunTool(tool.deep_view()),
        }
    }
}

/// The command that has the scripting host press the print-screen key.
pub open spec fn print_screen_command() -> InvocationView {
    InvocationView { program: SCRIPT_HOST@, args: seq!["-Command"@, PRINT_SCREEN_SCRIPT@] }
}

/// The course of a capture. Windows copies the screen, and the result is then
/// fixed, whatever the copy gave. Linux under Windows runs the print-screen
/// command instead, and the result is what the command printed, decoded
/// lossily, or the message of the failure to run it.
pub open spec fn screenshot_step(host: Host, reply: Option<Result<Seq<u8>, Seq<char>>>)
    -> StepView<ScreenshotRequestView, Seq<char>> {
    match (host, reply) {
        (Host::Other, _) => StepView::Finish(Err(SCREENSHOT_UNAVAILABLE@)),
        (Host::Windows, None) => StepView::Perform(
            ScreenshotRequestView::CopyScreen {
                width: CAPTURE_WIDTH as int,
                height: CAPTURE_HEIGHT as int,
            },
        ),
        (Host::Windows, Some(_)) => StepView::Finish(Ok(SCREENSHOT_CAPTURED@)),
        (Host::Bridged, None) => StepView::Perform(
            ScreenshotRequestView::RunTool(print_screen_command()),
        ),
        (Host::Bridged, Some(Ok(output))) => StepView::Finish(Ok(lossy_utf8(output))),
        (Host::Bridged, Some(Err(message))) => StepView::Finish(Err(message)),
    }
}

/// A capture that is over and gave this text.
pub open spec fn finished_with(text: Seq<char>) -> StepView<ScreenshotRequestView, Seq<char>> {
    StepView::Finish(Ok(text))
}

/// A capture asks for one thing: with a reply in hand it is finished.
pub proof fn lemma_screenshot_finishes(host: Host, reply: Option<Result<Seq<u8>, Seq<char>>>)
    requires
        reply is Some,
    ensures
        screenshot_step(host, reply) is Finish,
{
}

/// Captures the screen of the Windows desktop.
///
/// `reply` is `None` on the first call and afterwards holds what the request
/// gave: the bytes that the tool printed (none for a copy of the screen), or
/// the failure's message.
pub fn take_screenshot(host: Host, reply: Option<Result<Vec<u8>, String>>) -> (step: Step<
    ScreenshotRequest,
    String,
>)
    ensures
        step.deep_view() == screenshot_step(host, last_reply_view(reply)),
        host == Host::Bridged ==> (last_reply_view(reply) matches Some(Ok(output)) ==> (valid_utf8(
            output,
        ) ==> step.deep_view() == finished_with(decode_utf8(output)))),
{
    match host {
        Host::Other => Step::Finish(Err(SCREENSHOT_UNAVAILABLE.to_string())),
        Host::Windows => match reply {
            None => Step::Perform(
                ScreenshotRequest::CopyScreen { width: CAPTURE_WIDTH, height: CAPTURE_HEIGHT },
            ),
            Some(_) => Step::Finish(Ok(SCREENSHOT_CAPTURED.to_string())),
        },
        Host::Bridged => match reply {
            None => {
                let mut args: Vec<String> = Vec::new();
                args.push("-Command".to_string());
                args.push(PRINT_SCREEN_SCRIPT.to_string());
                assert(args.deep_view() =~= seq!["-Command"@, PRINT_SCREEN_SCRIPT@]);
                Step::Perform(
                    ScreenshotRequest::RunTool(
                        Invocation { program: SCRIPT_HOST.to_string(), args },
                    ),
                )
            },
            Some(Ok(output)) => {
                assert(output.deep_view() =~= output@);
                Step::Finish(Ok(decode_utf8_lossy(output.as_slice())))
            },
            Some(Err(message)) => Step::Finish(Err(message)),
        },
    }
}

} // verus!
