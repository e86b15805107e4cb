use vstd::prelude::*;

verus! {

/// Process-wide exit intent: `false` while the application stays resident in
/// the tray, `true` once the user asked to quit.
///
/// The flag only ever moves from resident to exiting. A host that shares it
/// between event callbacks keeps it behind a lock, so each event sees one
/// consistent value.
pub struct AppLifecycle {
    exiting: bool,
}

impl View for AppLifecycle {
    type V = bool;

    closed spec fn view(&self) -> bool {
        self.exiting
    }
}

impl AppLifecycle {
    /// A fresh flag, in tray-resident mode.
    pub fn new() -> (r: AppLifecycle)
        ensures
            !r@,
    {
        AppLifecycle { exiting: false }
    }

    /// Records that the user asked to quit. Calling it again changes nothing.
    pub fn mark_exiting(&mut self)
        ensures
            final(self)@,
    {
        self.exiting = true;
    }

    /// Whether quitting has been requested.
    pub fn is_exiting(&self) -> (r: bool)
        ensures
            r == self@,
    {
        self.exiting
    }
}

impl Default for AppLifecycle {
    fn default() -> (r: AppLifecycle)
        ensures
            !r@,
    {
        AppLifecycle::new()
    }
}

} // verus!
