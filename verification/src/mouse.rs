//! Clicking the mouse.

use crate::host::Host;
use crate::step::{replies_view, Step, StepView};
use vstd::prelude::*;

verus! {

/// The failure reported where the mouse cannot be driven.
pub const MOUSE_UNAVAILABLE: &'static str = "Mouse control not implemented for non-Windows";

/// One thing that a click asks of the host.
#[derive(Clone, Copy, Debug, PartialEq, Eq, Structural)]
pub enum MouseAction {
    /// Put the cursor at this point of the screen.
    MoveCursor { x: i32, y: i32 },
    /// Press the left button where the cursor is.
    PressLeft,
    /// Let the left button go.
    ReleaseLeft,
}

impl DeepView for MouseAction {
    type V = MouseAction;

    open spec fn deep_view(&self) -> MouseAction {
        *self
    }
}

/// The course of a click at (`x`, `y`), given the replies to the actions
/// carried out so far, oldest first. The cursor is moved, the left button
/// pressed and let go, in that order. A cursor that could not be moved ends
/// the click with the failure's message before any button is touched; what
/// the host says of the button actions changes nothing.
pub open spec fn click_step(host: Host, x: i32, y: i32, replies: Seq<Result<(), Seq<char>>>)
    -> StepView<MouseAction, ()> {
    if host != Host::Windows {
        StepView::Finish(Err(MOUSE_UNAVAILABLE@))
    } else if replies.len() == 0 {
        StepView::Perform(MouseAction::MoveCursor { x, y })
    } else if let Err(message) = replies[0] {
        StepView::Finish(Err(message))
    } else if replies.len() == 1 {
        StepView::Perform(MouseAction::PressLeft)
    } else if replies.len() == 2 {
        StepView::Perform(MouseAction::ReleaseLeft)
    } else {
        StepView::Finish(Ok(()))
    }
}

/// No button is touched unless the host is Windows and the cursor was moved
/// there without failure.
pub proof fn lemma_buttons_follow_the_cursor(
    host: Host,
    x: i32,
    y: i32,
    replies: Seq<Result<(), Seq<char>>>,
)
    requires
        click_step(host, x, y, replies) == StepView::<MouseAction, ()>::Perform(
            MouseAction::PressLeft,
        ) || click_step(host, x, y, replies) == StepView::<MouseAction, ()>::Perform(
            MouseAction::ReleaseLeft,
        ),
    ensures
        host == Host::Windows,
        replies.len() >= 1,
        replies[0] is Ok,
{
}

/// A click asks for three things at most: with three replies in hand it is
/// finished.
pub proof fn lemma_click_finishes(
    host: Host,
    x: i32,
    y: i32,
    replies: Seq<Result<(), Seq<char>>>,
)
    requires
        replies.len() >= 3,
    ensures
        click_step(host, x, y, replies) is Finish,
{
}

/// Clicks the left mouse button at (`x`, `y`) on the Windows desktop.
///
/// `replies` holds, oldest first, what each action requested so far gave:
/// nothing, or the failure's message. It is empty on the first call.
pub fn click_mouse(host: Host, x: i32, y: i32, replies: &Vec<Result<(), String>>) -> (step: Step<
    MouseAction,
    (),
>)
    ensures
        step.deep_view() == click_step(host, x, y, replies_view(replies@)),
{
    match host {
        Host::Windows => {},
        _ => {
            return Step::Finish(Err(MOUSE_UNAVAILABLE.to_string()));
        },
    }
    let done = replies.len();
    if done == 0 {
        return Step::Perform(MouseAction::MoveCursor { x, y });
    }
    match &replies[0] {
        Err(message) => Step::Finish(Err(message.clone())),
        Ok(_) => {
            if done == 1 {
                Step::Perform(MouseAction::PressLeft)
            } else if done == 2 {
                Step::Perform(MouseAction::ReleaseLeft)
            } else {
                Step::Finish(Ok(()))
            }
        },
    }
}

} // verus!
