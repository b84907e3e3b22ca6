//! Decision logic of a transparent, always-on-top overlay window that follows
//! another application's window.
//!
//! The crate holds every rule of the overlay as verified code on plain values:
//! how the target's handle is read from text, which extended style bits the
//! overlay carries in each mode, how a key press becomes a single toggle, which
//! geometry the overlay takes, and what the render loop does on each event and
//! each tick. Talking to the operating system, the user interface and the
//! graphics device is left to the caller, who hands in what was observed and
//! carries out what is returned.

pub mod error;
pub mod geometry;
pub mod handle;
pub mod input;
pub mod render_loop;
pub mod style;
pub mod window;

pub use error::OverlayError;
pub use geometry::{GeometrySynchronizer, GeometryWrite, OverlayGeometry, Rect};
pub use handle::{parse_handle, parse_handle_bytes, NativeWindowHandle};
pub use input::{key_is_down, InputMonitor, TOGGLE_KEY};
pub use render_loop::{
    ClearColor, EventPlan, Frame, LoopEvent, LoopPhase, RenderLoop, TickObservation, TickPlan,
    UiOutput, WaitPolicy,
};
pub use style::{
    OverlayStyleState, StyleController, StyleWrite, CLICK_THROUGH_BITS, WS_EX_LAYERED,
    WS_EX_NOACTIVATE, WS_EX_TRANSPARENT,
};
pub use window::{capture_overlay_handle, plan_startup, StartupPlan, WindowAttributes};
