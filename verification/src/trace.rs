//! The shell over whole runs of the event loop.
//!
//! The controller in [`crate::app`] handles one event at a time. This module
//! states what holds of arbitrary sequences of events: the lifecycle moves
//! from initializing to ready at most once, nothing reaches a graphics
//! context before that, and afterwards every resize and redraw is forwarded
//! with the parameters received.

use vstd::prelude::*;

use crate::app::draw_action;
use crate::app::resize_action;
use crate::app::resumed_action;
use crate::app::resumed_phase;
use crate::app::window_action;
use crate::app::Action;
use crate::app::Phase;
use crate::app::WindowEvent;

verus! {

/// Everything the platform event loop delivers to the controller: a window
/// event, the resume of the application, or the completion of the
/// asynchronous graphics construction.
#[derive(Clone, Copy, Debug, PartialEq, Eq, Structural)]
pub enum LoopEvent {
    Window(WindowEvent),
    Resumed,
    GraphicsReady,
}

/// The phase after the controller has handled one event.
pub open spec fn step_phase(phase: Phase, event: LoopEvent) -> Phase {
    match event {
        LoopEvent::Window(_) => phase,
        LoopEvent::Resumed => resumed_phase(phase),
        LoopEvent::GraphicsReady => Phase::Ready,
    }
}

/// The one action the controller emits for one event.
pub open spec fn step_action(phase: Phase, event: LoopEvent) -> Action {
    match event {
        LoopEvent::Window(w) => window_action(phase, w),
        LoopEvent::Resumed => resumed_action(phase),
        LoopEvent::GraphicsReady => Action::Draw,
    }
}

/// The phase after a whole sequence of events, handled in order.
pub open spec fn run_phase(phase: Phase, events: Seq<LoopEvent>) -> Phase
    decreases events.len(),
{
    if events.len() == 0 {
        phase
    } else {
        run_phase(step_phase(phase, events[0]), events.drop_first())
    }
}

/// The phase just before event `i` of the sequence is handled.
pub open spec fn phase_before(phase: Phase, events: Seq<LoopEvent>, i: int) -> Phase {
    run_phase(phase, events.take(i))
}

/// The action emitted for event `i` of the sequence.
pub open spec fn action_at(phase: Phase, events: Seq<LoopEvent>, i: int) -> Action {
    step_action(phase_before(phase, events, i), events[i])
}

/// Whether an action hands work to a graphics context.
pub open spec fn reaches_graphics(action: Action) -> bool {
    action is Draw || action is Resize
}

/// Running a concatenation is running the parts in turn.
pub proof fn lemma_run_phase_append(phase: Phase, a: Seq<LoopEvent>, b: Seq<LoopEvent>)
    ensures
        run_phase(phase, a + b) == run_phase(run_phase(phase, a), b),
    decreases a.len(),
{
    if a.len() == 0 {
        assert(a + b =~= b);
    } else {
        assert((a + b)[0] == a[0]);
        assert((a + b).drop_first() =~= a.drop_first() + b);
        lemma_run_phase_append(step_phase(phase, a[0]), a.drop_first(), b);
    }
}

/// Window events never change the phase: only resuming and the completion
/// of the graphics construction do.
pub proof fn lemma_window_events_keep_phase(phase: Phase, events: Seq<LoopEvent>)
    requires
        forall|i: int| 0 <= i < events.len() ==> (#[trigger] events[i]) is Window,
    ensures
        run_phase(phase, events) == phase,
    decreases events.len(),
{
    if events.len() > 0 {
        assert(events[0] is Window);
        assert forall|i: int| 0 <= i < events.drop_first().len() implies (#[trigger] events.drop_first()[i]) is Window by {
            assert(events.drop_first()[i] == events[i + 1]);
        }
        lemma_window_events_keep_phase(phase, events.drop_first());
    }
}

/// While the application is still initializing, no sequence of window
/// events makes a draw or resize call reach a graphics context: none exists
/// yet. The phase stays at initializing throughout.
pub proof fn lemma_init_nothing_reaches_graphics(phase: Phase, events: Seq<LoopEvent>)
    requires
        phase is Init,
        forall|i: int| 0 <= i < events.len() ==> (#[trigger] events[i]) is Window,
    ensures
        forall|i: int| 0 <= i < events.len() ==> (#[trigger] phase_before(phase, events, i)) is Init,
        forall|i: int| 0 <= i < events.len() ==> !reaches_graphics(#[trigger] action_at(phase, events, i)),
{
    assert forall|i: int| 0 <= i < events.len() implies (#[trigger] phase_before(phase, events, i)) is Init by {
        assert forall|j: int| 0 <= j < events.take(i).len() implies (#[trigger] events.take(i)[j]) is Window by {
            assert(events.take(i)[j] == events[j]);
        }
        lemma_window_events_keep_phase(phase, events.take(i));
    }
    assert forall|i: int| 0 <= i < events.len() implies !reaches_graphics(#[trigger] action_at(phase, events, i)) by {
        assert(phase_before(phase, events, i) is Init);
    }
}

/// Once ready, the application stays ready: no event leads back to
/// initializing.
pub proof fn lemma_ready_is_stable(phase: Phase, events: Seq<LoopEvent>)
    requires
        phase is Ready,
    ensures
        run_phase(phase, events) is Ready,
    decreases events.len(),
{
    if events.len() > 0 {
        assert(step_phase(phase, events[0]) is Ready);
        lemma_ready_is_stable(step_phase(phase, events[0]), events.drop_first());
    }
}

/// Once ready at some point of a run, ready at every later point.
pub proof fn lemma_ready_stays(phase: Phase, events: Seq<LoopEvent>, i: int, j: int)
    requires
        0 <= i <= j <= events.len(),
        phase_before(phase, events, i) is Ready,
    ensures
        phase_before(phase, events, j) is Ready,
{
    assert(events.take(j) =~= events.take(i) + events.subrange(i, j));
    lemma_run_phase_append(phase, events.take(i), events.subrange(i, j));
    lemma_ready_is_stable(phase_before(phase, events, i), events.subrange(i, j));
}

/// Whether handling event `i` is the transition from initializing to ready.
pub open spec fn becomes_ready_at(phase: Phase, events: Seq<LoopEvent>, i: int) -> bool {
    &&& 0 <= i < events.len()
    &&& phase_before(phase, events, i) is Init
    &&& phase_before(phase, events, i + 1) is Ready
}

/// The transition from initializing to ready happens at most once per run:
/// two such transitions are the same one.
pub proof fn lemma_ready_at_most_once(phase: Phase, events: Seq<LoopEvent>, i: int, j: int)
    requires
        becomes_ready_at(phase, events, i),
        becomes_ready_at(phase, events, j),
    ensures
        i == j,
{
    if i < j {
        lemma_ready_stays(phase, events, i + 1, j);
    } else if j < i {
        lemma_ready_stays(phase, events, j + 1, i);
    }
}

/// After the transition to ready, every resize and every redraw request is
/// forwarded to the graphics context, one action per event, with the size
/// received.
pub proof fn lemma_ready_forwards_exactly(phase: Phase, events: Seq<LoopEvent>, i: int, j: int)
    requires
        0 <= i <= j < events.len(),
        phase_before(phase, events, i) is Ready,
    ensures
        events[j] matches LoopEvent::Window(WindowEvent::Resized(size)) ==> action_at(
            phase,
            events,
            j,
        ) == Action::Resize(size),
        events[j] == LoopEvent::Window(WindowEvent::RedrawRequested) ==> action_at(
            phase,
            events,
            j,
        ) == Action::Draw,
{
    lemma_ready_stays(phase, events, i, j);
}

/// A close request signals the event loop to exit, whatever the phase.
pub proof fn lemma_close_always_exits(phase: Phase)
    ensures
        window_action(phase, WindowEvent::CloseRequested) == Action::Exit,
{
}

} // verus!
