//! What holds of every startup, whatever the host reports.

use vstd::prelude::*;
use crate::placement::{PlacementResult, placement_fits, placement_of};
use crate::platform::PlatformBehavior;
use crate::startup::{
    MAX_STARTUP_EVENTS, StartupAction, StartupError, StartupEvent, StartupState, answers,
    first_action, next_action,
};

verus! {

/// Whether `event` reports that `pending` went well, so that startup goes on.
/// The monitor query goes well without a monitor, and with one on which the
/// window has a position.
pub open spec fn succeeds(pending: StartupAction, event: StartupEvent) -> bool {
    match pending {
        StartupAction::QueryMonitor => match event {
            StartupEvent::NoMonitor => true,
            StartupEvent::MonitorFound { width, height } => placement_fits(
                width as int,
                height as int,
            ),
            _ => false,
        },
        _ => event is Completed,
    }
}

/// The setup that comes before the window is placed, in the order in which it
/// is asked for. It ends with the monitor query.
pub open spec fn setup_plan(behavior: PlatformBehavior) -> Seq<StartupAction> {
    match behavior {
        PlatformBehavior::PanelCapable => seq![
            StartupAction::SetActivationPolicyAccessory,
            StartupAction::GetMainWindow,
            StartupAction::ConvertToPanel,
            StartupAction::SetPanelLevelFloating,
            StartupAction::SetPanelNonActivating,
            StartupAction::SetPanelOnAllSpaces,
            StartupAction::QueryMonitor,
        ],
        PlatformBehavior::StandardWindow => seq![
            StartupAction::GetMainWindow,
            StartupAction::QueryMonitor,
        ],
    }
}

/// Every action asked for during a run, in order: the one that startup begins
/// with, then the one that follows each event.
pub open spec fn requested(behavior: PlatformBehavior, events: Seq<StartupEvent>) -> Seq<
    StartupAction,
> {
    Seq::new(
        events.len() + 1,
        |count: int| StartupState::initial(behavior).after(events.take(count)).pending,
    )
}

/// A step keeps the behaviour, and keeps an ordinary window away from panel
/// work.
pub proof fn lemma_step_keeps_well_formed(state: StartupState, event: StartupEvent)
    requires
        state.well_formed(),
    ensures
        state.next(event).well_formed(),
        state.next(event).behavior == state.behavior,
{
}

/// Whatever the host reports, in whatever order, the state reached from the
/// beginning is well formed and has the behaviour that startup began with.
pub proof fn lemma_run_is_well_formed(behavior: PlatformBehavior, events: Seq<StartupEvent>)
    ensures
        StartupState::initial(behavior).after(events).well_formed(),
        StartupState::initial(behavior).after(events).behavior == behavior,
    decreases events.len(),
{
    if events.len() > 0 {
        lemma_run_is_well_formed(behavior, events.drop_last());
        lemma_step_keeps_well_formed(
            StartupState::initial(behavior).after(events.drop_last()),
            events.last(),
        );
    }
}

/// Without panel support neither the activation policy nor any panel call is
/// ever asked for, whatever the host reports: not at the end of a run, and at
/// no point on the way.
pub proof fn lemma_standard_window_never_requests_panel_work(events: Seq<StartupEvent>)
    ensures
        !StartupState::initial(PlatformBehavior::StandardWindow).after(
            events,
        ).pending.panel_only(),
        forall|count: int|
            0 <= count <= events.len() ==> !(#[trigger] requested(
                PlatformBehavior::StandardWindow,
                events,
            )[count]).panel_only(),
{
    lemma_run_is_well_formed(PlatformBehavior::StandardWindow, events);
    assert forall|count: int| 0 <= count <= events.len() implies !(#[trigger] requested(
        PlatformBehavior::StandardWindow,
        events,
    )[count]).panel_only() by {
        lemma_run_is_well_formed(PlatformBehavior::StandardWindow, events.take(count));
    }
}

/// When the host has no monitor to report, startup finishes at once: the
/// window is not moved, and nothing fails.
pub proof fn lemma_no_monitor_skips_placement(state: StartupState)
    requires
        state.pending is QueryMonitor,
    ensures
        state.next(StartupEvent::NoMonitor).pending is Finish,
{
}

/// The only position the window is ever sent to is the one computed from the
/// size of the monitor that the host has just reported.
pub proof fn lemma_position_is_the_computed_placement(
    state: StartupState,
    event: StartupEvent,
    position: PlacementResult,
)
    requires
        state.next(event).pending == StartupAction::SetWindowPosition(position),
    ensures
        state.pending is QueryMonitor,
        event matches StartupEvent::MonitorFound { width, height } && placement_of(
            width as int,
            height as int,
        ) == Some(position),
{
}

/// Every step moves forward in the sequence, so no action is asked for twice.
/// Once startup has finished or failed, further events change nothing.
pub proof fn lemma_step_advances(state: StartupState, event: StartupEvent)
    ensures
        state.pending.terminal() ==> state.next(event) == state,
        !state.pending.terminal() ==> state.next(event).pending.progress()
            > state.pending.progress(),
        state.pending.terminal() <==> state.pending.progress() == MAX_STARTUP_EVENTS,
        state.pending.progress() <= MAX_STARTUP_EVENTS,
{
}

/// A run never goes back: after any events the sequence stands at least as
/// far as before, and it has moved by one position for each event unless it
/// has ended. So panel work, which comes before the monitor query, is never
/// asked for once the window is being placed.
pub proof fn lemma_run_advances(state: StartupState, events: Seq<StartupEvent>)
    ensures
        state.after(events).pending.progress() >= state.pending.progress(),
        state.after(events).pending.terminal() || state.after(events).pending.progress()
            >= state.pending.progress() + events.len(),
    decreases events.len(),
{
    if events.len() > 0 {
        lemma_run_advances(state, events.drop_last());
        lemma_step_advances(state.after(events.drop_last()), events.last());
    }
}

/// Startup always comes to an end: after `MAX_STARTUP_EVENTS` events, whatever
/// they are, it has finished or failed.
pub proof fn lemma_startup_completes(behavior: PlatformBehavior, events: Seq<StartupEvent>)
    requires
        events.len() >= MAX_STARTUP_EVENTS,
    ensures
        StartupState::initial(behavior).after(events).pending.terminal(),
{
    let state = StartupState::initial(behavior);
    lemma_run_advances(state, events);
    lemma_step_advances(state.after(events), StartupEvent::Completed);
}

/// Startup fails on the first event that does not report success, and each
/// error has exactly one cause.
pub proof fn lemma_failure_causes(state: StartupState, event: StartupEvent)
    requires
        !state.pending.terminal(),
    ensures
        state.next(event).pending is Abort <==> !succeeds(state.pending, event),
        state.next(event).pending == StartupAction::Abort(StartupError::MissingMainWindow)
            <==> state.pending is GetMainWindow && event is Failed,
        state.next(event).pending == StartupAction::Abort(StartupError::PanelConversionFailed)
            <==> state.pending is ConvertToPanel && event is Failed,
        state.next(event).pending == StartupAction::Abort(StartupError::MonitorQueryFailed)
            <==> state.pending is QueryMonitor && event is Failed,
        state.next(event).pending == StartupAction::Abort(StartupError::PositionRejected)
            <==> state.pending is SetWindowPosition && event is Failed,
        state.next(event).pending == StartupAction::Abort(StartupError::PlacementOutOfRange)
            <==> state.pending is QueryMonitor && (event matches StartupEvent::MonitorFound {
            width,
            height,
        } && !placement_fits(width as int, height as int)),
        state.next(event).pending == StartupAction::Abort(StartupError::UnexpectedEvent)
            <==> !answers(state.pending, event),
{
}

/// Each action of the setup plan is followed by the next one, unless startup
/// fails; and the monitor query is the plan's last action.
proof fn lemma_setup_plan_is_followed(
    behavior: PlatformBehavior,
    index: int,
    event: StartupEvent,
)
    requires
        0 <= index < setup_plan(behavior).len(),
    ensures
        setup_plan(behavior)[index] is QueryMonitor <==> index + 1 == setup_plan(behavior).len(),
        setup_plan(behavior)[0] == first_action(behavior),
        !(setup_plan(behavior)[index] is QueryMonitor) && !next_action(
            behavior,
            setup_plan(behavior)[index],
            event,
        ).terminal() ==> next_action(behavior, setup_plan(behavior)[index], event) == setup_plan(
            behavior,
        )[index + 1],
{
    // One case for each action of the plan.
    match behavior {
        PlatformBehavior::PanelCapable => {
            if index == 0 {
            } else if index == 1 {
            } else if index == 2 {
            } else if index == 3 {
            } else if index == 4 {
            } else if index == 5 {
            } else {
            }
        },
        PlatformBehavior::StandardWindow => {
            if index == 0 {
            } else {
            }
        },
    }
}

/// As long as a run has not gone past the monitor query, it has followed the
/// setup plan action by action.
proof fn lemma_run_follows_setup_plan(behavior: PlatformBehavior, events: Seq<StartupEvent>)
    requires
        StartupState::initial(behavior).after(events).pending.progress()
            <= StartupAction::QueryMonitor.progress(),
    ensures
        events.len() < setup_plan(behavior).len(),
        forall|count: int|
            0 <= count <= events.len() ==> #[trigger] requested(behavior, events)[count]
                == setup_plan(behavior)[count],
    decreases events.len(),
{
    let start = StartupState::initial(behavior);
    let plan = setup_plan(behavior);
    if events.len() == 0 {
        assert(events.take(0) =~= events);
        lemma_setup_plan_is_followed(behavior, 0, StartupEvent::Completed);
    } else {
        let earlier = events.drop_last();
        let before = start.after(earlier);
        let reached = earlier.len() as int;
        lemma_step_advances(before, events.last());
        lemma_run_is_well_formed(behavior, earlier);
        lemma_run_follows_setup_plan(behavior, earlier);
        assert(earlier.take(reached) =~= earlier);
        assert(requested(behavior, earlier)[reached] == before.pending);
        assert(before.pending == plan[reached]);
        lemma_setup_plan_is_followed(behavior, reached, events.last());
        assert(start.after(events).pending == plan[reached + 1]);
        assert(events.take(events.len() as int) =~= events);
        assert forall|count: int| 0 <= count <= events.len() implies #[trigger] requested(
            behavior,
            events,
        )[count] == plan[count] by {
            if count < events.len() {
                assert(events.take(count) =~= earlier.take(count));
                assert(requested(behavior, earlier)[count] == plan[count]);
            }
        }
    }
}

/// The window is placed only after the setup is complete, and startup is
/// complete only with all of it: whenever the monitor is asked for, the
/// window is moved, or startup has finished, the actions asked for begin with
/// the setup plan, in its order. With panel support that is the activation
/// policy, the window lookup, the panel conversion and the three panel
/// settings; without it, the window lookup alone.
pub proof fn lemma_setup_precedes_placement(behavior: PlatformBehavior, events: Seq<StartupEvent>)
    requires
        ({
            let reached = StartupState::initial(behavior).after(events).pending;
            reached is QueryMonitor || reached is SetWindowPosition || reached is Finish
        }),
    ensures
        setup_plan(behavior).is_prefix_of(requested(behavior, events)),
        StartupState::initial(behavior).after(events).pending is QueryMonitor ==> requested(
            behavior,
            events,
        ) == setup_plan(behavior),
    decreases events.len(),
{
    let start = StartupState::initial(behavior);
    let plan = setup_plan(behavior);
    assert(events.take(events.len() as int) =~= events);
    if start.after(events).pending is QueryMonitor {
        lemma_run_follows_setup_plan(behavior, events);
        assert(requested(behavior, events)[events.len() as int] == StartupAction::QueryMonitor);
        assert(requested(behavior, events) =~= plan);
    } else {
        let earlier = events.drop_last();
        lemma_run_is_well_formed(behavior, earlier);
        lemma_setup_precedes_placement(behavior, earlier);
        assert forall|count: int| 0 <= count < plan.len() implies requested(behavior, events)[count]
            == plan[count] by {
            assert(events.take(count) =~= earlier.take(count));
            assert(requested(behavior, earlier)[count] == plan[count]);
        }
        assert(requested(behavior, events).subrange(0, plan.len() as int) =~= plan);
    }
}

} // verus!
