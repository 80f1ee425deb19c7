//! The states in which a window can be observed.

use vstd::prelude::*;

verus! {

/// What an observer sees of a window.
#[derive(Clone, Copy, Debug, PartialEq, Eq, Structural)]
pub enum WindowState {
    /// Not on screen, and not in the task bar or dock either.
    Hidden,
    /// Reduced to its icon.
    Minimized,
    /// On screen at its normal size.
    Shown,
    /// On screen, filling the work area.
    Maximized,
    /// Closed for good. No request brings a closed window back.
    Closed,
}

impl WindowState {
    /// Whether the window can still change its state.
    pub open spec fn spec_is_live(&self) -> bool {
        *self != WindowState::Closed
    }

    /// The state of a window that was in state `self` and has been driven
    /// toward `target`: a live window reaches the target, a closed window
    /// stays closed.
    pub open spec fn spec_toward(&self, target: WindowState) -> WindowState {
        if *self == WindowState::Closed {
            WindowState::Closed
        } else {
            target
        }
    }

    #[verifier::when_used_as_spec(spec_is_live)]
    pub fn is_live(&self) -> (b: bool)
        ensures
            b == self.spec_is_live(),
    {
        match self {
            WindowState::Closed => false,
            _ => true,
        }
    }

    #[verifier::when_used_as_spec(spec_toward)]
    pub fn toward(&self, target: WindowState) -> (next: WindowState)
        ensures
            next == self.spec_toward(target),
    {
        match self {
            WindowState::Closed => WindowState::Closed,
            _ => target,
        }
    }
}

} // verus!
