//! The two ways the window can behave, and how one of them is chosen.

use vstd::prelude::*;

verus! {

/// How the application window behaves on the platform it runs on.
#[derive(Clone, Copy, Debug, PartialEq, Eq, Structural)]
pub enum PlatformBehavior {
    /// The platform offers floating panels: the application takes no place in
    /// the dock or task switcher, and its window becomes a panel that floats
    /// above full-screen applications without taking the focus.
    PanelCapable,
    /// An ordinary top-level window.
    StandardWindow,
}

impl PlatformBehavior {
    /// The behaviour that goes with a platform: panels where they are
    /// supported, an ordinary window everywhere else.
    pub open spec fn for_platform(panel_supported: bool) -> PlatformBehavior {
        if panel_supported {
            PlatformBehavior::PanelCapable
        } else {
            PlatformBehavior::StandardWindow
        }
    }

    /// Chooses the behaviour once, at startup, from what the target platform
    /// supports.
    pub fn select(panel_supported: bool) -> (behavior: PlatformBehavior)
        ensures
            behavior == PlatformBehavior::for_platform(panel_supported),
    {
        if panel_supported {
            PlatformBehavior::PanelCapable
        } else {
            PlatformBehavior::StandardWindow
        }
    }

    /// Whether the panel extension of the host toolkit has to be loaded.
    pub fn uses_panel(&self) -> (enabled: bool)
        ensures
            enabled == (self is PanelCapable),
    {
        match self {
            PlatformBehavior::PanelCapable => true,
            PlatformBehavior::StandardWindow => false,
        }
    }
}

} // verus!
