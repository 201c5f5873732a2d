use vstd::prelude::*;
use vstd::string::*;

verus! {

/// The ways the idle workflow can fail. An error coming from the windowing
/// layer is carried as its rendered description.
#[derive(Debug)]
pub enum IdleError {
    /// The primary monitor could not be acquired at startup.
    CouldNotAcquireMonitor,
    /// The window could not be created; holds the OS error's description.
    CouldNotCreateWindow(String),
    /// The cursor could not be moved; holds the OS error's description.
    CouldNotMoveCursor(String),
}

/// The diagnostic line that each error kind is reported with.
pub open spec fn spec_message(e: IdleError) -> Seq<char> {
    match e {
        IdleError::CouldNotAcquireMonitor => "Could not acquire monitor handle."@,
        IdleError::CouldNotCreateWindow(s) => "Error while creating window: "@ + s@,
        IdleError::CouldNotMoveCursor(s) => "Could not move mouse cursor: "@ + s@,
    }
}

impl IdleError {
    /// The diagnostic message for this error, as the program prints it.
    pub fn message(&self) -> (r: String)
        ensures
            r@ == spec_message(*self),
    {
        match self {
            IdleError::CouldNotAcquireMonitor => String::from_str(
                "Could not acquire monitor handle.",
            ),
            IdleError::CouldNotCreateWindow(s) => {
                let mut m = String::from_str("Error while creating window: ");
                m.append(s.as_str());
                m
            },
            IdleError::CouldNotMoveCursor(s) => {
                let mut m = String::from_str("Could not move mouse cursor: ");
                m.append(s.as_str());
                m
            },
        }
    }
}

} // verus!
