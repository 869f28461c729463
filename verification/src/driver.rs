//! The frame loop's decisions: a state machine from the loop's state and
//! an event, or a render outcome, to the next state and the action that the
//! caller carries out.

use vstd::prelude::*;
use crate::context::{State, StateView};
use crate::event::{Action, Event, ExitReason, RenderOutcome, Signal};

verus! {

/// The mathematical content of a [`FrameLoop`].
pub struct LoopView {
    /// A size change was observed for the window: rendering may start.
    pub configured: bool,
    /// Termination was requested: nothing is handled any more.
    pub exit_requested: bool,
}

/// Loop state, context state and action after one step.
pub struct Transition {
    pub driver: LoopView,
    pub context: StateView,
    pub action: Action,
}

/// A step that changes nothing and asks for nothing.
pub open spec fn stay(driver: LoopView, context: StateView) -> Transition {
    Transition { driver, context, action: Action::Nothing }
}

/// The loop's answer to one window event of its own window.
pub open spec fn on_signal(driver: LoopView, context: StateView, signal: Signal) -> Transition {
    match signal {
        Signal::Resized(size) => Transition {
            driver: LoopView { configured: true, ..driver },
            context: context.resized(size),
            action: if size.has_area() {
                Action::Configure(context.resized(size).config)
            } else {
                Action::Nothing
            },
        },
        Signal::RedrawRequested => Transition {
            driver,
            context,
            action: Action::Redraw { render: driver.configured },
        },
        _ => if signal.asks_exit() {
            Transition {
                driver: LoopView { exit_requested: true, ..driver },
                context,
                action: Action::Exit(ExitReason::Requested),
            }
        } else {
            stay(driver, context)
        },
    }
}

/// The loop's answer to one platform event. After an exit request nothing
/// is handled; events of other windows and events that are no window
/// events are ignored.
pub open spec fn on_event(driver: LoopView, context: StateView, event: Event) -> Transition {
    if driver.exit_requested {
        stay(driver, context)
    } else {
        match event {
            Event::Window { window, signal } => if window == context.window {
                on_signal(driver, context, signal)
            } else {
                stay(driver, context)
            },
            _ => stay(driver, context),
        }
    }
}

/// The loop's answer to the outcome of a render attempt.
pub open spec fn on_outcome(driver: LoopView, context: StateView, outcome: RenderOutcome)
    -> Transition {
    if driver.exit_requested {
        stay(driver, context)
    } else {
        match outcome {
            RenderOutcome::Presented => stay(driver, context),
            RenderOutcome::Lost | RenderOutcome::Outdated => Transition {
                driver,
                context: context.resized(context.size),
                action: if context.size.has_area() {
                    Action::Configure(context.resized(context.size).config)
                } else {
                    Action::Nothing
                },
            },
            RenderOutcome::OutOfMemory => Transition {
                driver: LoopView { exit_requested: true, ..driver },
                context,
                action: Action::Exit(ExitReason::OutOfMemory),
            },
            RenderOutcome::Timeout => Transition { driver, context, action: Action::WarnTimeout },
        }
    }
}

/// The frame loop driver: gates rendering until the window has reported a
/// size, and remembers that termination was requested.
pub struct FrameLoop {
    configured: bool,
    exit_requested: bool,
}

impl View for FrameLoop {
    type V = LoopView;

    closed spec fn view(&self) -> LoopView {
        LoopView { configured: self.configured, exit_requested: self.exit_requested }
    }
}

impl FrameLoop {
    /// A loop at startup: not configured, no exit requested.
    pub fn new() -> (driver: FrameLoop)
        ensures
            driver@ == (LoopView { configured: false, exit_requested: false }),
    {
        FrameLoop { configured: false, exit_requested: false }
    }

    /// Whether a size change was observed, so that rendering may start.
    pub fn is_configured(&self) -> (configured: bool)
        ensures
            configured == self@.configured,
    {
        self.configured
    }

    /// Whether termination was requested.
    pub fn exit_requested(&self) -> (requested: bool)
        ensures
            requested == self@.exit_requested,
    {
        self.exit_requested
    }

    /// Handles one platform event and says what the caller must do. The
    /// event is first offered to the context's input hook; where the hook
    /// declines, a size change opens the rendering gate and is forwarded to
    /// the context, a redraw request asks for the next redraw and, once the
    /// gate is open, advances the context for one frame to be rendered, and
    /// a close request or the exit key going down ends the loop.
    pub fn handle(&mut self, state: &mut State, event: &Event) -> (action: Action)
        ensures
            (Transition { driver: final(self)@, context: final(state)@, action }) == on_event(
                old(self)@,
                old(state)@,
                *event,
            ),
            final(state)@.wf(),
    {
        proof {
            use_type_invariant(&*state);
        }
        if self.exit_requested {
            return Action::Nothing;
        }
        match event {
            Event::Window { window, signal } => {
                if *window != state.window() {
                    return Action::Nothing;
                }
                if state.input(signal) {
                    return Action::Nothing;
                }
                match signal {
                    Signal::Resized(size) => {
                        self.configured = true;
                        match state.resize(*size) {
                            Some(config) => Action::Configure(config),
                            None => Action::Nothing,
                        }
                    },
                    Signal::RedrawRequested => {
                        if self.configured {
                            state.update();
                        }
                        Action::Redraw { render: self.configured }
                    },
                    _ => {
                        if signal.is_exit_request() {
                            self.exit_requested = true;
                            Action::Exit(ExitReason::Requested)
                        } else {
                            Action::Nothing
                        }
                    },
                }
            },
            _ => Action::Nothing,
        }
    }

    /// Takes the outcome of the render attempt that a redraw asked for and
    /// says what the caller must do: after a lost or outdated surface,
    /// configure it again at the last known size; after a timeout, warn and
    /// go on; when out of memory, end the loop.
    pub fn after_render(&mut self, state: &mut State, outcome: RenderOutcome) -> (action: Action)
        ensures
            (Transition { driver: final(self)@, context: final(state)@, action }) == on_outcome(
                old(self)@,
                old(state)@,
                outcome,
            ),
            final(state)@.wf(),
    {
        let size = state.size();
        if self.exit_requested {
            return Action::Nothing;
        }
        match outcome {
            RenderOutcome::Presented => Action::Nothing,
            RenderOutcome::Lost | RenderOutcome::Outdated => {
                match state.resize(size) {
                    Some(config) => Action::Configure(config),
                    None => Action::Nothing,
                }
            },
            RenderOutcome::OutOfMemory => {
                self.exit_requested = true;
                Action::Exit(ExitReason::OutOfMemory)
            },
            RenderOutcome::Timeout => Action::WarnTimeout,
        }
    }
}

} // verus!
