//! The startup sequence, as a machine that the embedding application drives.
//!
//! The machine asks for one action at a time. The application carries the
//! action out with its windowing toolkit, reports what happened as an event,
//! and is told what to do next. The sequence runs once, front to back: no
//! action is asked for twice, and the first failure ends it.

use vstd::prelude::*;
use crate::placement::{PlacementResult, compute_placement, placement_of};
use crate::platform::PlatformBehavior;

pub mod laws;

verus! {

/// Why startup was given up.
#[derive(Clone, Copy, Debug, PartialEq, Eq, Structural)]
pub enum StartupError {
    /// The host has no main window.
    MissingMainWindow,
    /// The host could not turn the main window into a panel.
    PanelConversionFailed,
    /// The host failed while looking for the window's monitor.
    MonitorQueryFailed,
    /// The host refused to move the window.
    PositionRejected,
    /// The monitor is so large that the window's position is no signed 32-bit
    /// pixel coordinate.
    PlacementOutOfRange,
    /// The event reported does not answer the action that was asked for.
    UnexpectedEvent,
}

/// What the application is asked to do next.
#[derive(Clone, Copy, Debug, PartialEq, Eq, Structural)]
pub enum StartupAction {
    /// Make the application an accessory: no dock or task-switcher entry, and
    /// it does not come to the front when its window is shown.
    SetActivationPolicyAccessory,
    /// Look up the main window.
    GetMainWindow,
    /// Turn the main window into a panel.
    ConvertToPanel,
    /// Raise the panel to the floating level, above full-screen windows.
    SetPanelLevelFloating,
    /// Keep the panel from activating the application; it still takes
    /// pointer input.
    SetPanelNonActivating,
    /// Show the panel on every space, also beside a full-screen application.
    SetPanelOnAllSpaces,
    /// Ask for the monitor that the window is on.
    QueryMonitor,
    /// Move the window's top-left corner to this physical position.
    SetWindowPosition(PlacementResult),
    /// Startup is complete.
    Finish,
    /// Startup has failed: end the process with this diagnostic.
    Abort(StartupError),
}

/// What the host did with the action that was asked for.
#[derive(Clone, Copy, Debug, PartialEq, Eq, Structural)]
pub enum StartupEvent {
    /// The action was carried out.
    Completed,
    /// The host could not carry the action out.
    Failed,
    /// The monitor query found a monitor of this physical size.
    MonitorFound { width: u32, height: u32 },
    /// The monitor query succeeded, and there is no monitor to report.
    NoMonitor,
}

impl StartupAction {
    /// Whether the action exists only on platforms with panel support.
    pub open spec fn panel_only(self) -> bool {
        ||| self is SetActivationPolicyAccessory
        ||| self is ConvertToPanel
        ||| self is SetPanelLevelFloating
        ||| self is SetPanelNonActivating
        ||| self is SetPanelOnAllSpaces
    }

    /// Whether the action ends the sequence.
    pub open spec fn terminal(self) -> bool {
        self is Finish || self is Abort
    }

    /// Position of the action in the sequence. Every step moves to a higher
    /// one; the two terminal actions share the highest.
    pub open spec fn progress(self) -> nat {
        match self {
            StartupAction::SetActivationPolicyAccessory => 0,
            StartupAction::GetMainWindow => 1,
            StartupAction::ConvertToPanel => 2,
            StartupAction::SetPanelLevelFloating => 3,
            StartupAction::SetPanelNonActivating => 4,
            StartupAction::SetPanelOnAllSpaces => 5,
            StartupAction::QueryMonitor => 6,
            StartupAction::SetWindowPosition(_) => 7,
            StartupAction::Finish => 8,
            StartupAction::Abort(_) => 8,
        }
    }

    /// Tells whether the action exists only on platforms with panel support.
    pub fn is_panel_only(&self) -> (result: bool)
        ensures
            result == self.panel_only(),
    {
        match self {
            StartupAction::SetActivationPolicyAccessory => true,
            StartupAction::ConvertToPanel => true,
            StartupAction::SetPanelLevelFloating => true,
            StartupAction::SetPanelNonActivating => true,
            StartupAction::SetPanelOnAllSpaces => true,
            _ => false,
        }
    }

    /// Tells whether the action ends the sequence.
    pub fn is_terminal(&self) -> (result: bool)
        ensures
            result == self.terminal(),
    {
        match self {
            StartupAction::Finish => true,
            StartupAction::Abort(_) => true,
            _ => false,
        }
    }
}

/// The longest startup: the number of events after which every sequence has
/// ended.
pub const MAX_STARTUP_EVENTS: usize = 8;

/// The action that startup begins with.
pub open spec fn first_action(behavior: PlatformBehavior) -> StartupAction {
    match behavior {
        PlatformBehavior::PanelCapable => StartupAction::SetActivationPolicyAccessory,
        PlatformBehavior::StandardWindow => StartupAction::GetMainWindow,
    }
}

/// The action that comes after `action` once the host has carried it out.
/// The monitor query has none, since what follows it depends on what it
/// found, and nothing comes after the end: for these it is `action` itself.
pub open spec fn successor(behavior: PlatformBehavior, action: StartupAction) -> StartupAction {
    match action {
        StartupAction::SetActivationPolicyAccessory => StartupAction::GetMainWindow,
        StartupAction::GetMainWindow => match behavior {
            PlatformBehavior::PanelCapable => StartupAction::ConvertToPanel,
            PlatformBehavior::StandardWindow => StartupAction::QueryMonitor,
        },
        StartupAction::ConvertToPanel => StartupAction::SetPanelLevelFloating,
        StartupAction::SetPanelLevelFloating => StartupAction::SetPanelNonActivating,
        StartupAction::SetPanelNonActivating => StartupAction::SetPanelOnAllSpaces,
        StartupAction::SetPanelOnAllSpaces => StartupAction::QueryMonitor,
        StartupAction::SetWindowPosition(_) => StartupAction::Finish,
        _ => action,
    }
}

/// Whether the host can fail at `action`: at the window lookup, the panel
/// conversion, the monitor query and the move. The activation policy and the
/// three panel settings always take effect.
pub open spec fn can_fail(action: StartupAction) -> bool {
    ||| action is GetMainWindow
    ||| action is ConvertToPanel
    ||| action is QueryMonitor
    ||| action is SetWindowPosition
}

/// The error that ends startup when the host fails at `action`.
pub open spec fn failure_of(action: StartupAction) -> StartupError {
    match action {
        StartupAction::GetMainWindow => StartupError::MissingMainWindow,
        StartupAction::ConvertToPanel => StartupError::PanelConversionFailed,
        StartupAction::QueryMonitor => StartupError::MonitorQueryFailed,
        StartupAction::SetWindowPosition(_) => StartupError::PositionRejected,
        _ => StartupError::UnexpectedEvent,
    }
}

/// Whether `event` is something the host can report on `pending`. Only the
/// monitor query reports a monitor, or none, and it never simply completes.
pub open spec fn answers(pending: StartupAction, event: StartupEvent) -> bool {
    match event {
        StartupEvent::Completed => !pending.terminal() && !(pending is QueryMonitor),
        StartupEvent::Failed => can_fail(pending),
        StartupEvent::MonitorFound { .. } => pending is QueryMonitor,
        StartupEvent::NoMonitor => pending is QueryMonitor,
    }
}

/// The action that follows `pending` once the host has reported `event`.
///
/// A startup that has ended stays as it is. An event that does not answer
/// the pending action ends startup with `UnexpectedEvent`, and a failure ends
/// it with the error of the action that failed. Without a monitor startup
/// is complete; with one, the window is sent to its place on that monitor,
/// unless it has none there. Every other action is followed by its successor.
pub open spec fn next_action(
    behavior: PlatformBehavior,
    pending: StartupAction,
    event: StartupEvent,
) -> StartupAction {
    if pending.terminal() {
        pending
    } else if !answers(pending, event) {
        StartupAction::Abort(StartupError::UnexpectedEvent)
    } else {
        match event {
            StartupEvent::Completed => successor(behavior, pending),
            StartupEvent::Failed => StartupAction::Abort(failure_of(pending)),
            StartupEvent::NoMonitor => StartupAction::Finish,
            StartupEvent::MonitorFound { width, height } => match placement_of(
                width as int,
                height as int,
            ) {
                Some(position) => StartupAction::SetWindowPosition(position),
                None => StartupAction::Abort(StartupError::PlacementOutOfRange),
            },
        }
    }
}

/// What a `Startup` stands for: the behaviour chosen for the platform, and
/// the action that the application has been asked for and not yet answered.
pub struct StartupState {
    pub behavior: PlatformBehavior,
    pub pending: StartupAction,
}

impl StartupState {
    /// The state that startup begins in.
    pub open spec fn initial(behavior: PlatformBehavior) -> StartupState {
        StartupState { behavior, pending: first_action(behavior) }
    }

    /// The state after the host has reported `event`.
    pub open spec fn next(self, event: StartupEvent) -> StartupState {
        StartupState {
            behavior: self.behavior,
            pending: next_action(self.behavior, self.pending, event),
        }
    }

    /// The state after the host has reported `events`, one after the other.
    pub open spec fn after(self, events: Seq<StartupEvent>) -> StartupState
        decreases events.len(),
    {
        if events.len() == 0 {
            self
        } else {
            self.after(events.drop_last()).next(events.last())
        }
    }

    /// An ordinary window is never asked for panel work.
    pub open spec fn well_formed(self) -> bool {
        self.behavior is StandardWindow ==> !self.pending.panel_only()
    }

    /// How startup has ended, if it has: complete, or failed with an error.
    pub open spec fn outcome(self) -> Option<Result<(), StartupError>> {
        match self.pending {
            StartupAction::Finish => Some(Ok(())),
            StartupAction::Abort(error) => Some(Err(error)),
            _ => None,
        }
    }
}

/// A startup in progress. It is neither copied nor cloned: each step takes
/// the startup and gives back the one that follows.
#[derive(Debug)]
pub struct Startup {
    behavior: PlatformBehavior,
    pending: StartupAction,
}

impl View for Startup {
    type V = StartupState;

    closed spec fn view(&self) -> StartupState {
        StartupState { behavior: self.behavior, pending: self.pending }
    }
}

impl Startup {
    #[verifier::type_invariant]
    spec fn valid(self) -> bool {
        self@.well_formed()
    }

    /// Starts the sequence for the given behaviour.
    pub fn begin(behavior: PlatformBehavior) -> (startup: Startup)
        ensures
            startup@ == StartupState::initial(behavior),
    {
        let pending = match behavior {
            PlatformBehavior::PanelCapable => StartupAction::SetActivationPolicyAccessory,
            PlatformBehavior::StandardWindow => StartupAction::GetMainWindow,
        };
        Startup { behavior, pending }
    }

    /// The behaviour that the sequence was started for.
    pub fn behavior(&self) -> (behavior: PlatformBehavior)
        ensures
            behavior == self@.behavior,
    {
        self.behavior
    }

    /// The action that the application is to carry out now. Under
    /// `StandardWindow` it is never one that needs panel support.
    pub fn pending(&self) -> (action: StartupAction)
        ensures
            action == self@.pending,
            self@.well_formed(),
    {
        proof {
            use_type_invariant(self);
        }
        self.pending
    }

    /// How startup has ended: `Ok` once it is complete, the error once it has
    /// failed, and `None` as long as an action is pending.
    pub fn outcome(&self) -> (result: Option<Result<(), StartupError>>)
        ensures
            result == self@.outcome(),
            result is None <==> !self@.pending.terminal(),
    {
        match self.pending {
            StartupAction::Finish => Some(Ok(())),
            StartupAction::Abort(error) => Some(Err(error)),
            _ => None,
        }
    }

    /// Takes the host's report on the pending action and moves on.
    pub fn step(self, event: StartupEvent) -> (next: Startup)
        ensures
            next@ == self@.next(event),
            next@.well_formed(),
    {
        let pending = match self.pending {
            StartupAction::Finish => StartupAction::Finish,
            StartupAction::Abort(error) => StartupAction::Abort(error),
            StartupAction::SetActivationPolicyAccessory => match event {
                StartupEvent::Completed => StartupAction::GetMainWindow,
                _ => StartupAction::Abort(StartupError::UnexpectedEvent),
            },
            StartupAction::GetMainWindow => match event {
                StartupEvent::Completed => match self.behavior {
                    PlatformBehavior::PanelCapable => StartupAction::ConvertToPanel,
                    PlatformBehavior::StandardWindow => StartupAction::QueryMonitor,
                },
                StartupEvent::Failed => StartupAction::Abort(StartupError::MissingMainWindow),
                _ => StartupAction::Abort(StartupError::UnexpectedEvent),
            },
            StartupAction::ConvertToPanel => match event {
                StartupEvent::Completed => StartupAction::SetPanelLevelFloating,
                StartupEvent::Failed => StartupAction::Abort(StartupError::PanelConversionFailed),
                _ => StartupAction::Abort(StartupError::UnexpectedEvent),
            },
            StartupAction::SetPanelLevelFloating => match event {
                StartupEvent::Completed => StartupAction::SetPanelNonActivating,
                _ => StartupAction::Abort(StartupError::UnexpectedEvent),
            },
            StartupAction::SetPanelNonActivating => match event {
                StartupEvent::Completed => StartupAction::SetPanelOnAllSpaces,
                _ => StartupAction::Abort(StartupError::UnexpectedEvent),
            },
            StartupAction::SetPanelOnAllSpaces => match event {
                StartupEvent::Completed => StartupAction::QueryMonitor,
                _ => StartupAction::Abort(StartupError::UnexpectedEvent),
            },
            StartupAction::QueryMonitor => match event {
                StartupEvent::MonitorFound { width, height } => match compute_placement(
                    width,
                    height,
                ) {
                    Some(position) => StartupAction::SetWindowPosition(position),
                    None => StartupAction::Abort(StartupError::PlacementOutOfRange),
                },
                StartupEvent::NoMonitor => StartupAction::Finish,
                StartupEvent::Failed => StartupAction::Abort(StartupError::MonitorQueryFailed),
                _ => StartupAction::Abort(StartupError::UnexpectedEvent),
            },
            StartupAction::SetWindowPosition(_) => match event {
                StartupEvent::Completed => StartupAction::Finish,
                StartupEvent::Failed => StartupAction::Abort(StartupError::PositionRejected),
                _ => StartupAction::Abort(StartupError::UnexpectedEvent),
            },
        };
        proof {
            use_type_invariant(&self);
        }
        Startup { behavior: self.behavior, pending }
    }
}

} // verus!
