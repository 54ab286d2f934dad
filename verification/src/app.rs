use vstd::prelude::*;

verus! {

/// The terminal application, which knows whether it is leaving.
pub struct App {
    exiting: bool,
}

impl View for App {
    type V = bool;

    /// Whether the application is leaving.
    closed spec fn view(&self) -> bool {
        self.exiting
    }
}

impl App {
    /// A fresh application, not leaving.
    pub fn new() -> (app: App)
        ensures
            !app@,
    {
        App { exiting: false }
    }
}

} // verus!
