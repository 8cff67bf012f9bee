//! The decisions of a small desktop-automation helper, kept apart from the
//! machine they are about.
//!
//! Four operations drive a Windows desktop: capturing the screen, listing the
//! top-level windows, clicking the mouse and opening a browser. Nothing here
//! touches the machine. Each operation is a function from the kind of host and
//! the replies received so far to a [`Step`]: a request that the caller
//! carries out on the host, or the operation's result. The caller repeats the
//! call with each new reply until the operation is finished.

pub mod browser;
pub mod host;
pub mod mouse;
pub mod screenshot;
pub mod step;
pub mod text;
pub mod window;

pub use browser::open_browser;
pub use host::Host;
pub use mouse::{click_mouse, MouseAction};
pub use screenshot::{take_screenshot, ScreenshotRequest};
pub use step::{Invocation, Step};
pub use window::{list_windows, FoundWindow, WindowInfo, WindowScan};
