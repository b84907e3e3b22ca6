use egui_overlay::{
    capture_overlay_handle, plan_startup, NativeWindowHandle, OverlayError, StartupPlan,
    WindowAttributes,
};

#[test]
fn overlay_window_attributes() {
    let attributes = WindowAttributes::overlay();
    assert!(!attributes.decorations);
    assert!(attributes.transparent);
    assert!(attributes.always_on_top);
}

#[test]
fn startup_with_a_handle() {
    let expected = StartupPlan {
        target: NativeWindowHandle { value: 0x00A0_B1C2 },
        window: WindowAttributes { decorations: false, transparent: true, always_on_top: true },
    };
    assert_eq!(plan_startup(Some("0x00A0B1C2")), Ok(expected));
    assert_eq!(plan_startup(Some("a0b1c2")), Ok(expected));
}

#[test]
fn startup_without_an_argument_fails() {
    assert_eq!(plan_startup(None), Err(OverlayError::InvalidHandleFormat));
}

#[test]
fn startup_with_a_malformed_handle_fails() {
    assert_eq!(plan_startup(Some("zzz")), Err(OverlayError::InvalidHandleFormat));
    assert_eq!(plan_startup(Some("")), Err(OverlayError::InvalidHandleFormat));
    assert_eq!(plan_startup(Some("0x")), Err(OverlayError::InvalidHandleFormat));
}

#[test]
fn created_window_gives_its_handle() {
    assert_eq!(capture_overlay_handle(Some(0x2222)), Ok(NativeWindowHandle { value: 0x2222 }));
    assert_eq!(capture_overlay_handle(Some(0)), Ok(NativeWindowHandle { value: 0 }));
    assert_eq!(capture_overlay_handle(Some(-1)), Ok(NativeWindowHandle { value: -1 }));
}

#[test]
fn missing_window_is_a_creation_failure() {
    assert_eq!(capture_overlay_handle(None), Err(OverlayError::WindowCreationFailed));
}

#[test]
fn startup_errors_are_fatal() {
    assert!(OverlayError::InvalidHandleFormat.is_fatal());
    assert!(OverlayError::WindowCreationFailed.is_fatal());
}

#[test]
fn tick_errors_are_not_fatal() {
    assert!(!OverlayError::GeometryQueryFailed.is_fatal());
    assert!(!OverlayError::StyleApplyFailed.is_fatal());
}

#[test]
fn error_messages() {
    assert_eq!(OverlayError::InvalidHandleFormat.message(), "invalid window handle");
    assert_eq!(
        OverlayError::WindowCreationFailed.message(),
        "the overlay window could not be created"
    );
    assert_eq!(
        OverlayError::GeometryQueryFailed.message(),
        "the target window's rectangle could not be read"
    );
    assert_eq!(
        OverlayError::StyleApplyFailed.message(),
        "the overlay's window style could not be changed"
    );
}
