//! The failures the overlay can meet, and which of them end the program.

use vstd::prelude::*;

verus! {

/// Everything that can go wrong in the overlay.
///
/// The first two occur only at startup and are fatal. The last two stand for
/// operating-system calls that fail during a tick; the overlay notes them and
/// carries on with the next tick.
#[derive(Clone, Copy, Debug, PartialEq, Eq, Structural)]
pub enum OverlayError {
    /// The text given for the target window is not a hexadecimal handle.
    InvalidHandleFormat,
    /// The overlay window, or its drawing surface, could not be created.
    WindowCreationFailed,
    /// The target window's rectangle could not be read.
    GeometryQueryFailed,
    /// The overlay's extended style bits could not be written.
    StyleApplyFailed,
}

impl OverlayError {
    /// Whether the program must stop on this error.
    pub open spec fn fatal(self) -> bool {
        self is InvalidHandleFormat || self is WindowCreationFailed
    }

    /// The diagnostic shown for this error.
    pub open spec fn diagnostic(self) -> Seq<char> {
        match self {
            OverlayError::InvalidHandleFormat => "invalid window handle"@,
            OverlayError::WindowCreationFailed => "the overlay window could not be created"@,
            OverlayError::GeometryQueryFailed => "the target window's rectangle could not be read"@,
            OverlayError::StyleApplyFailed => "the overlay's window style could not be changed"@,
        }
    }

    /// Startup errors are fatal; errors of a single tick are not.
    pub fn is_fatal(&self) -> (fatal: bool)
        ensures
            fatal == self.fatal(),
    {
        match self {
            OverlayError::InvalidHandleFormat => true,
            OverlayError::WindowCreationFailed => true,
            OverlayError::GeometryQueryFailed => false,
            OverlayError::StyleApplyFailed => false,
        }
    }

    /// A human-readable message for this error.
    pub fn message(&self) -> (text: String)
        ensures
            text@ == self.diagnostic(),
    {
        match self {
            OverlayError::InvalidHandleFormat => "invalid window handle".to_string(),
            OverlayError::WindowCreationFailed => "the overlay window could not be created".to_string(),
            OverlayError::GeometryQueryFailed => "the target window's rectangle could not be read".to_string(),
            OverlayError::StyleApplyFailed => "the overlay's window style could not be changed".to_string(),
        }
    }
}

} // verus!
