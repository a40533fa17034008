use vstd::prelude::*;

verus! {

/// Failure taxonomy of the popup core. Every failure is surfaced immediately
/// to the entry-point caller; none is retried.
#[derive(Clone, Copy, Debug, PartialEq, Eq, Structural)]
pub enum WindowError {
    /// The OS cursor/display query failed; fatal to the open attempt that
    /// requested it.
    Locator,
    /// No text was selected, or the capture mechanism was unavailable; fatal
    /// to a translation trigger.
    SelectionCapture,
    /// A host framework window create/close/focus/position call failed;
    /// treated as an unrecoverable internal error.
    WindowOperation,
}

impl WindowError {
    /// A short description of the failure, for the host's logging.
    pub fn describe(&self) -> (r: &'static str)
        ensures
            self is Locator ==> r@ == "cursor location query failed"@,
            self is SelectionCapture ==> r@ == "selection capture failed"@,
            self is WindowOperation ==> r@ == "host window operation failed"@,
    {
        match self {
            WindowError::Locator => "cursor location query failed",
            WindowError::SelectionCapture => "selection capture failed",
            WindowError::WindowOperation => "host window operation failed",
        }
    }
}

} // verus!
