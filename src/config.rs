use vstd::prelude::*;

verus! {

/// What happens when a window is asked to close.
#[derive(Clone, Copy, Debug, PartialEq, Eq, Structural)]
pub enum WindowCloseBehaviour {
    /// Closing removes the window; the process exits once no window is left.
    LastWindowExitsApp,
    /// Closing hides the window and keeps it registered.
    LastWindowHides,
    /// Closing removes the window and never exits the process.
    CloseWindow,
}

/// What the event loop should do once the current event has been handled.
#[derive(Clone, Copy, Debug, PartialEq, Eq, Structural)]
pub enum ControlFlow {
    /// Sleep until more input arrives.
    Wait,
    /// Leave the event loop and end the process.
    Exit,
}

} // verus!
