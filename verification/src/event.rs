//! What the platform delivers to the frame loop, what a render attempt
//! reports back, and what the loop asks its caller to do.

use vstd::prelude::*;
use crate::surface::{Size, SurfaceConfig};

verus! {

/// A physical key, as far as the loop tells keys apart.
#[derive(Clone, Copy, Debug, PartialEq, Eq)]
pub enum Key {
    /// The designated exit key.
    Escape,
    Other,
}

/// An event addressed to one window.
#[derive(Clone, Copy, Debug, PartialEq, Eq)]
pub enum Signal {
    /// The window's physical size changed.
    Resized(Size),
    /// The platform asks for a new frame.
    RedrawRequested,
    /// The user asked to close the window.
    CloseRequested,
    /// A key changed state; `pressed` is false on release.
    KeyboardInput { pressed: bool, key: Key },
    /// Any other window event.
    Other,
}

/// An event of the platform's event loop.
#[derive(Clone, Copy, Debug, PartialEq, Eq)]
pub enum Event {
    /// The application was resumed.
    Resumed,
    /// `signal` was delivered to the window identified by `window`.
    Window { window: u64, signal: Signal },
    /// Any other event.
    Other,
}

/// How an attempt to render one frame ended.
#[derive(Clone, Copy, Debug, PartialEq, Eq)]
pub enum RenderOutcome {
    /// The frame was presented.
    Presented,
    /// The surface was lost; no frame was presented.
    Lost,
    /// The surface no longer matches the window; no frame was presented.
    Outdated,
    /// The device is out of memory.
    OutOfMemory,
    /// No frame became available in time.
    Timeout,
}

/// Why the loop ends.
#[derive(Clone, Copy, Debug, PartialEq, Eq)]
pub enum ExitReason {
    /// Close request or exit key: a clean shutdown.
    Requested,
    /// Rendering cannot go on.
    OutOfMemory,
}

/// What the caller must do after handing the loop an event or an outcome.
#[derive(Clone, Copy, Debug, PartialEq, Eq)]
pub enum Action {
    /// Nothing.
    Nothing,
    /// Apply this configuration to the surface.
    Configure(SurfaceConfig),
    /// Request the next redraw. Where `render` is set, then render one
    /// frame and report its outcome to the loop.
    Redraw { render: bool },
    /// Warn that frame acquisition timed out; the frame is skipped.
    WarnTimeout,
    /// Terminate the loop.
    Exit(ExitReason),
}

impl Signal {
    /// The signals on which the loop terminates: a close request, or the
    /// exit key going down.
    pub open spec fn asks_exit(self) -> bool {
        match self {
            Signal::CloseRequested => true,
            Signal::KeyboardInput { pressed, key } => pressed && key == Key::Escape,
            _ => false,
        }
    }

    /// Whether the loop terminates on this signal.
    pub fn is_exit_request(&self) -> (exit: bool)
        ensures
            exit == self.asks_exit(),
    {
        match self {
            Signal::CloseRequested => true,
            Signal::KeyboardInput { pressed: true, key: Key::Escape } => true,
            _ => false,
        }
    }
}

impl RenderOutcome {
    /// The outcomes after which the surface must be configured again.
    pub open spec fn invalidates_surface(self) -> bool {
        self == RenderOutcome::Lost || self == RenderOutcome::Outdated
    }
}

} // verus!
