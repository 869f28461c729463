//! Runs of the frame loop: what holds of every sequence of events and
//! render outcomes that the loop is handed.

use vstd::prelude::*;
use crate::context::{lemma_resized_keeps_valid_size, lemma_resized_to_own_size, StateView};
use crate::driver::{on_event, on_outcome, LoopView, Transition};
use crate::event::{Action, Event, ExitReason, RenderOutcome, Signal};

verus! {

/// One thing handed to the loop: a platform event, or the outcome of a
/// render attempt.
pub enum Stimulus {
    Platform(Event),
    Frame(RenderOutcome),
}

/// The loop's answer to one stimulus.
pub open spec fn respond(driver: LoopView, context: StateView, stimulus: Stimulus) -> Transition {
    match stimulus {
        Stimulus::Platform(event) => on_event(driver, context, event),
        Stimulus::Frame(outcome) => on_outcome(driver, context, outcome),
    }
}

/// The loop and context as they stand after the first `n` of `stimuli`,
/// with the action answered to the last of them (none for `n == 0`).
pub open spec fn after(driver: LoopView, context: StateView, stimuli: Seq<Stimulus>, n: nat)
    -> Transition
    decreases n,
{
    if n == 0 {
        Transition { driver, context, action: Action::Nothing }
    } else {
        let before = after(driver, context, stimuli, (n - 1) as nat);
        respond(before.driver, before.context, stimuli[n - 1])
    }
}

/// The action answered to stimulus number `i` of a run.
pub open spec fn action_at(driver: LoopView, context: StateView, stimuli: Seq<Stimulus>, i: int)
    -> Action {
    after(driver, context, stimuli, (i + 1) as nat).action
}

/// An action that asks the caller to render a frame.
pub open spec fn asks_render(action: Action) -> bool {
    action matches Action::Redraw { render } && render
}

/// Every step keeps the context well formed and bound to its window, never
/// closes the rendering gate again, never withdraws an exit request, and
/// never replaces a size with area by one without.
pub proof fn lemma_step_preserves(driver: LoopView, context: StateView, stimulus: Stimulus)
    requires
        context.wf(),
    ensures
        respond(driver, context, stimulus).context.wf(),
        respond(driver, context, stimulus).context.window == context.window,
        driver.configured ==> respond(driver, context, stimulus).driver.configured,
        driver.exit_requested ==> respond(driver, context, stimulus).driver.exit_requested,
        context.size.has_area() ==> respond(driver, context, stimulus).context.size.has_area(),
{
    match stimulus {
        Stimulus::Platform(event) => {
            if let Event::Window { signal, .. } = event {
                if let Signal::Resized(size) = signal {
                    lemma_resized_keeps_valid_size(context, size);
                }
            }
        },
        Stimulus::Frame(outcome) => {
            lemma_resized_keeps_valid_size(context, context.size);
        },
    }
}

/// Whenever a step asks to configure the surface, the configuration is the
/// one that the context then holds, and it targets the context's last known
/// size, which has area: never a stale size, never a zero dimension.
pub proof fn lemma_configure_uses_valid_size(
    driver: LoopView,
    context: StateView,
    stimulus: Stimulus,
)
    requires
        context.wf(),
    ensures
        respond(driver, context, stimulus).action matches Action::Configure(config) ==> {
            &&& config == respond(driver, context, stimulus).context.config
            &&& config.extent() == respond(driver, context, stimulus).context.size
            &&& config.extent().has_area()
        },
{
    lemma_step_preserves(driver, context, stimulus);
}

/// A lost or outdated surface is answered, in the same step, by a request
/// to configure the surface again at the last known size, provided that
/// size has area; the context itself is unchanged.
pub proof fn lemma_invalidated_surface_is_reconfigured(
    driver: LoopView,
    context: StateView,
    outcome: RenderOutcome,
)
    requires
        context.wf(),
        context.size.has_area(),
        !driver.exit_requested,
        outcome.invalidates_surface(),
    ensures
        on_outcome(driver, context, outcome).action == Action::Configure(context.config),
        context.config.extent() == context.size,
        on_outcome(driver, context, outcome).context == context,
        on_outcome(driver, context, outcome).driver == driver,
{
    lemma_resized_to_own_size(context);
}

/// Running out of memory is answered by an exit request, and the loop
/// remembers it.
pub proof fn lemma_out_of_memory_requests_exit(driver: LoopView, context: StateView)
    requires
        !driver.exit_requested,
    ensures
        on_outcome(driver, context, RenderOutcome::OutOfMemory).action == Action::Exit(
            ExitReason::OutOfMemory,
        ),
        on_outcome(driver, context, RenderOutcome::OutOfMemory).driver.exit_requested,
        on_outcome(driver, context, RenderOutcome::OutOfMemory).context == context,
{
}

/// A step answers with an exit exactly when it is the step on which the
/// exit request is raised.
pub proof fn lemma_exit_marks_the_request(driver: LoopView, context: StateView, stimulus: Stimulus)
    ensures
        respond(driver, context, stimulus).action is Exit <==> !driver.exit_requested && respond(
            driver,
            context,
            stimulus,
        ).driver.exit_requested,
{
}

/// Before the window has reported a size change, a redraw request asks for
/// the next redraw and for no rendering.
pub proof fn lemma_no_render_before_configured(
    driver: LoopView,
    context: StateView,
    stimulus: Stimulus,
)
    requires
        !driver.configured,
    ensures
        !asks_render(respond(driver, context, stimulus).action),
{
}

/// Once an exit was requested, the loop handles nothing: every later
/// stimulus leaves loop and context as they are and is answered by no
/// action.
pub proof fn lemma_exit_is_final(
    driver: LoopView,
    context: StateView,
    stimuli: Seq<Stimulus>,
    n: nat,
)
    requires
        driver.exit_requested,
        n <= stimuli.len(),
    ensures
        after(driver, context, stimuli, n) == (Transition {
            driver,
            context,
            action: Action::Nothing,
        }),
    decreases n,
{
    if n > 0 {
        lemma_exit_is_final(driver, context, stimuli, (n - 1) as nat);
    }
}

/// The exit request persists through a run.
pub proof fn lemma_exit_request_persists(
    driver: LoopView,
    context: StateView,
    stimuli: Seq<Stimulus>,
    m: nat,
    n: nat,
)
    requires
        m <= n <= stimuli.len(),
        after(driver, context, stimuli, m).driver.exit_requested,
    ensures
        after(driver, context, stimuli, n).driver.exit_requested,
        m < n ==> after(driver, context, stimuli, n).action == Action::Nothing,
    decreases n,
{
    if m < n {
        lemma_exit_request_persists(driver, context, stimuli, m, (n - 1) as nat);
    }
}

/// In every run, from every state, an exit is requested at most once, and
/// after it no action is asked for: no render, no second exit.
pub proof fn lemma_nothing_follows_exit(
    driver: LoopView,
    context: StateView,
    stimuli: Seq<Stimulus>,
    i: int,
    j: int,
)
    requires
        0 <= i < j < stimuli.len(),
        action_at(driver, context, stimuli, i) is Exit,
    ensures
        action_at(driver, context, stimuli, j) == Action::Nothing,
        !asks_render(action_at(driver, context, stimuli, j)),
{
    let before = after(driver, context, stimuli, i as nat);
    lemma_exit_marks_the_request(before.driver, before.context, stimuli[i]);
    lemma_exit_request_persists(driver, context, stimuli, (i + 1) as nat, (j + 1) as nat);
}

/// The rendering gate opens once and stays open through a run.
pub proof fn lemma_configured_is_never_reset(
    driver: LoopView,
    context: StateView,
    stimuli: Seq<Stimulus>,
    m: nat,
    n: nat,
)
    requires
        context.wf(),
        m <= n <= stimuli.len(),
        after(driver, context, stimuli, m).driver.configured,
    ensures
        after(driver, context, stimuli, n).driver.configured,
    decreases n,
{
    if m < n {
        lemma_configured_is_never_reset(driver, context, stimuli, m, (n - 1) as nat);
        let before = after(driver, context, stimuli, (n - 1) as nat);
        lemma_run_keeps_context_valid(driver, context, stimuli, (n - 1) as nat);
        lemma_step_preserves(before.driver, before.context, stimuli[n - 1]);
    }
}

/// Through a run the context stays well formed and bound to its window.
pub proof fn lemma_run_keeps_context_valid(
    driver: LoopView,
    context: StateView,
    stimuli: Seq<Stimulus>,
    n: nat,
)
    requires
        context.wf(),
        n <= stimuli.len(),
    ensures
        after(driver, context, stimuli, n).context.wf(),
        after(driver, context, stimuli, n).context.window == context.window,
    decreases n,
{
    if n > 0 {
        lemma_run_keeps_context_valid(driver, context, stimuli, (n - 1) as nat);
        let before = after(driver, context, stimuli, (n - 1) as nat);
        lemma_step_preserves(before.driver, before.context, stimuli[n - 1]);
    }
}

} // verus!
