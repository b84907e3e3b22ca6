//! What the overlay asks of its own window, and the order of startup: the
//! target's handle is read first, and a window is asked for only once that
//! succeeded.

use vstd::prelude::*;
use crate::error::OverlayError;
use crate::handle::{handle_text_value, parse_handle, NativeWindowHandle};

verus! {

/// The attributes a window is created with.
#[derive(Clone, Copy, Debug, PartialEq, Eq, Structural)]
pub struct WindowAttributes {
    /// The window has a title bar and borders.
    pub decorations: bool,
    /// The window's background can be transparent.
    pub transparent: bool,
    /// The window stays above all ordinary windows.
    pub always_on_top: bool,
}

impl WindowAttributes {
    /// The attributes every overlay window must have.
    pub open spec fn required() -> WindowAttributes {
        WindowAttributes { decorations: false, transparent: true, always_on_top: true }
    }

    /// The attributes of the overlay's window: no title bar or borders, a
    /// background that can be transparent, and always on top.
    pub fn overlay() -> (attributes: WindowAttributes)
        ensures
            attributes == WindowAttributes::required(),
            !attributes.decorations,
            attributes.transparent,
            attributes.always_on_top,
    {
        WindowAttributes { decorations: false, transparent: true, always_on_top: true }
    }
}

/// What startup has settled before any window exists: the target to follow,
/// and the attributes of the window to create.
#[derive(Clone, Copy, Debug, PartialEq, Eq, Structural)]
pub struct StartupPlan {
    /// The window that the overlay will follow.
    pub target: NativeWindowHandle,
    /// The attributes to create the overlay's window with.
    pub window: WindowAttributes,
}

/// The startup plan for the program's argument, if there is one and it names
/// a target.
pub open spec fn startup_plan_for(argument: Option<Seq<char>>) -> Option<StartupPlan> {
    match argument {
        Some(text) => match handle_text_value(text) {
            Some(value) => Some(
                StartupPlan {
                    target: NativeWindowHandle { value: value as isize },
                    window: WindowAttributes::required(),
                },
            ),
            None => None,
        },
        None => None,
    }
}

/// The first step of startup. It takes the program's one argument, the target
/// window's handle in hexadecimal, and returns what to create. A missing or
/// malformed argument ends startup here, before a window is asked for.
pub fn plan_startup(argument: Option<&str>) -> (planned: Result<StartupPlan, OverlayError>)
    ensures
        match startup_plan_for(
            match argument {
                Some(text) => Some(text@),
                None => None,
            },
        ) {
            Some(plan) => planned == Ok::<StartupPlan, OverlayError>(plan),
            None => planned == Err::<StartupPlan, OverlayError>(
                OverlayError::InvalidHandleFormat,
            ),
        },
{
    match argument {
        Some(text) => match parse_handle(text) {
            Ok(target) => Ok(StartupPlan { target, window: WindowAttributes::overlay() }),
            Err(error) => Err(error),
        },
        None => Err(OverlayError::InvalidHandleFormat),
    }
}

/// The second step of startup: the handle of the window that was created.
/// `created` is the native handle that the window system reported for the new
/// window, or `None` where the window, its drawing surface or its handle could
/// not be had.
pub fn capture_overlay_handle(created: Option<isize>) -> (captured: Result<
    NativeWindowHandle,
    OverlayError,
>)
    ensures
        match created {
            Some(value) => captured == Ok::<NativeWindowHandle, OverlayError>(
                NativeWindowHandle { value },
            ),
            None => captured == Err::<NativeWindowHandle, OverlayError>(
                OverlayError::WindowCreationFailed,
            ),
        },
{
    match created {
        Some(value) => Ok(NativeWindowHandle { value }),
        None => Err(OverlayError::WindowCreationFailed),
    }
}

} // verus!
