//! Listing the top-level windows.

use crate::host::Host;
use crate::step::{last_reply_view, Step, StepView};
use crate::text::{decode_utf16_lossy, lossy_utf16};
use vstd::prelude::*;
use vstd::slice::slice_subrange;

verus! {

/// How many 16-bit units of a window's title are read.
pub const TITLE_CAPACITY: usize = 512;

/// The failure reported where windows cannot be listed.
pub const LISTING_UNAVAILABLE: &'static str = "Window listing not implemented for non-Windows";

/// A top-level window: its title and the handle by which the system knows it.
#[derive(Debug, PartialEq, Eq)]
pub struct WindowInfo {
    pub title: String,
    pub hwnd: isize,
}

/// A `WindowInfo` as a mathematical value.
pub struct WindowInfoView {
    pub title: Seq<char>,
    pub hwnd: int,
}

impl DeepView for WindowInfo {
    type V = WindowInfoView;

    open spec fn deep_view(&self) -> WindowInfoView {
        WindowInfoView { title: self.title@, hwnd: self.hwnd as int }
    }
}

/// What a listing asks of the host: walk the top-level windows and read each
/// one's title, in UTF-16, into a buffer of `title_capacity` units.
#[derive(Clone, Copy, Debug, PartialEq, Eq, Structural)]
pub struct WindowScan {
    pub title_capacity: usize,
}

impl DeepView for WindowScan {
    type V = WindowScan;

    open spec fn deep_view(&self) -> WindowScan {
        *self
    }
}

/// A window as the walk met it: its handle, the buffer that its title was
/// read into, and the number of units that the system says it wrote there.
#[derive(Debug, PartialEq, Eq)]
pub struct FoundWindow {
    pub hwnd: isize,
    pub text: Vec<u16>,
    pub copied: i32,
}

/// A `FoundWindow` as a mathematical value.
pub struct FoundWindowView {
    pub hwnd: int,
    pub text: Seq<u16>,
    pub copied: int,
}

impl DeepView for FoundWindow {
    type V = FoundWindowView;

    open spec fn deep_view(&self) -> FoundWindowView {
        FoundWindowView { hwnd: self.hwnd as int, text: self.text@, copied: self.copied as int }
    }
}

impl FoundWindowView {
    /// The units said to be written lie inside the buffer.
    pub open spec fn wf(self) -> bool {
        self.copied <= self.text.len()
    }

    /// The units of the window's title: the written part of the buffer, or
    /// none where nothing was written.
    pub open spec fn title_units(self) -> Option<Seq<u16>> {
        if self.copied > 0 {
            Some(self.text.take(self.copied))
        } else {
            None
        }
    }

    /// The window's entry in a listing: none for a window without a title,
    /// else the handle with the title's units decoded lossily.
    pub open spec fn entry(self) -> Option<WindowInfoView> {
        match self.title_units() {
            Some(units) => Some(WindowInfoView { title: lossy_utf16(units), hwnd: self.hwnd }),
            None => None,
        }
    }
}

impl FoundWindow {
    /// Whether the units said to be written lie inside the buffer.
    pub fn well_formed(&self) -> (ok: bool)
        ensures
            ok == self.deep_view().wf(),
    {
        self.copied <= 0 || self.copied as usize <= self.text.len()
    }

    /// The units of the window's title, where it has one.
    pub fn title_units(&self) -> (units: Option<&[u16]>)
        requires
            self.deep_view().wf(),
        ensures
            units.deep_view() == self.deep_view().title_units(),
    {
        if self.copied > 0 {
            let units = slice_subrange(self.text.as_slice(), 0, self.copied as usize);
            assert(units.deep_view() =~= self.text@.take(self.copied as int));
            Some(units)
        } else {
            None
        }
    }
}

/// Every window met is well formed.
pub open spec fn all_wf(found: Seq<FoundWindowView>) -> bool {
    forall|i: int| 0 <= i < found.len() ==> (#[trigger] found[i]).wf()
}

/// The listing of the windows met: those with a title, in the order of the
/// walk.
pub open spec fn titled_windows(found: Seq<FoundWindowView>) -> Seq<WindowInfoView> {
    found.filter_map(|window: FoundWindowView| window.entry())
}

/// The course of a listing. Only Windows can walk its windows; the result is
/// the listing of what the walk met, or the message of the walk's failure.
pub open spec fn listing_step(
    host: Host,
    reply: Option<Result<Seq<FoundWindowView>, Seq<char>>>,
) -> StepView<WindowScan, Seq<WindowInfoView>> {
    match (host, reply) {
        (Host::Windows, None) => StepView::Perform(WindowScan { title_capacity: TITLE_CAPACITY }),
        (Host::Windows, Some(Ok(found))) => StepView::Finish(Ok(titled_windows(found))),
        (Host::Windows, Some(Err(message))) => StepView::Finish(Err(message)),
        (_, _) => StepView::Finish(Err(LISTING_UNAVAILABLE@)),
    }
}

/// A walk made of two parts lists what the first part lists, then what the
/// second lists: the listing keeps the order of the walk and drops nothing
/// that a part alone would list.
pub proof fn lemma_listing_of_joined_walks(first: Seq<FoundWindowView>, second: Seq<FoundWindowView>)
    ensures
        titled_windows(first + second) == titled_windows(first) + titled_windows(second),
    decreases second.len(),
{
    if second.len() == 0 {
        assert(first + second =~= first);
    } else {
        lemma_listing_of_joined_walks(first, second.drop_last());
        assert((first + second).drop_last() =~= first + second.drop_last());
    }
}

/// A walk that met one window lists its entry, or nothing if it has none.
pub proof fn lemma_listing_of_one_window(window: FoundWindowView)
    ensures
        window.entry() is None ==> titled_windows(seq![window]) == Seq::<WindowInfoView>::empty(),
        window.entry() is Some ==> titled_windows(seq![window]) == seq![window.entry()->0],
{
    Seq::lemma_filter_map_singleton(window, |window: FoundWindowView| window.entry());
}

/// A listing asks for one walk: with a reply in hand it is finished.
pub proof fn lemma_listing_finishes(
    host: Host,
    reply: Option<Result<Seq<FoundWindowView>, Seq<char>>>,
)
    requires
        reply is Some,
    ensures
        listing_step(host, reply) is Finish,
{
}

/// Lists the windows that a walk met and that have a title.
pub fn titled(found: &Vec<FoundWindow>) -> (listed: Vec<WindowInfo>)
    requires
        all_wf(found.deep_view()),
    ensures
        listed.deep_view() == titled_windows(found.deep_view()),
{
    let mut listed: Vec<WindowInfo> = Vec::new();
    let mut i: usize = 0;
    while i < found.len()
        invariant
            i <= found.len(),
            all_wf(found.deep_view()),
            listed.deep_view() == titled_windows(found.deep_view().take(i as int)),
        decreases found.len() - i,
    {
        let window = &found[i];
        let ghost before = listed.deep_view();
        proof {
            found.deep_view().lemma_filter_map_take_succ(
                |window: FoundWindowView| window.entry(),
                i as int,
            );
            assert(found.deep_view()[i as int] == window.deep_view());
            assert(window.deep_view().wf());
        }
        if let Some(units) = window.title_units() {
            assert(units.deep_view() =~= units@);
            let title = decode_utf16_lossy(units);
            listed.push(WindowInfo { title, hwnd: window.hwnd });
            assert(listed.deep_view() =~= before + seq![window.deep_view().entry().unwrap()]);
        }
        i += 1;
    }
    assert(found.deep_view().take(i as int) =~= found.deep_view());
    listed
}

/// Lists the titled top-level windows of the Windows desktop.
///
/// `reply` is `None` on the first call and afterwards holds what the walk
/// gave: the windows it met, in its order, or the failure's message.
pub fn list_windows(host: Host, reply: Option<Result<Vec<FoundWindow>, String>>) -> (step: Step<
    WindowScan,
    Vec<WindowInfo>,
>)
    requires
        host == Host::Windows ==> (last_reply_view(reply) matches Some(Ok(found)) ==> all_wf(found)),
    ensures
        step.deep_view() == listing_step(host, last_reply_view(reply)),
{
    match host {
        Host::Windows => {},
        _ => {
            return Step::Finish(Err(LISTING_UNAVAILABLE.to_string()));
        },
    }
    match reply {
        None => Step::Perform(WindowScan { title_capacity: TITLE_CAPACITY }),
        Some(Ok(found)) => Step::Finish(Ok(titled(&found))),
        Some(Err(message)) => Step::Finish(Err(message)),
    }
}

} // verus!
