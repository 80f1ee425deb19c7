//! The one-time setup of the application.

use vstd::prelude::*;

verus! {

/// Remembers whether the application has been set up.
///
/// A process makes one value of this type when it starts and hands it to
/// every creation of a window. The first creation of a main window claims the
/// setup, and no later creation can claim it again.
#[derive(Debug)]
pub struct AppLifecycle {
    initialized: bool,
}

impl AppLifecycle {
    /// Whether the setup has been claimed.
    pub closed spec fn initialized(&self) -> bool {
        self.initialized
    }

    /// The lifecycle of a process that has not set its application up.
    pub fn new() -> (app: AppLifecycle)
        ensures
            !app.initialized(),
    {
        AppLifecycle { initialized: false }
    }

    pub fn is_initialized(&self) -> (b: bool)
        ensures
            b == self.initialized(),
    {
        self.initialized
    }

    /// Claims the setup. Returns `true` to the first claimant only, who then
    /// has to run the setup.
    pub fn claim(&mut self) -> (first: bool)
        ensures
            first == !old(self).initialized(),
            final(self).initialized(),
    {
        let first = !self.initialized;
        self.initialized = true;
        first
    }
}

} // verus!
