use egui_overlay::{
    NativeWindowHandle, OverlayStyleState, StyleController, CLICK_THROUGH_BITS, WS_EX_LAYERED,
    WS_EX_NOACTIVATE, WS_EX_TRANSPARENT,
};

const OVERLAY: NativeWindowHandle = NativeWindowHandle { value: 0x2222 };

fn click_through() -> OverlayStyleState {
    OverlayStyleState { click_through: true, interactive: false }
}

fn interactive() -> OverlayStyleState {
    OverlayStyleState { click_through: false, interactive: true }
}

#[test]
fn style_bit_values() {
    assert_eq!(WS_EX_TRANSPARENT, 0x20);
    assert_eq!(WS_EX_LAYERED, 0x0008_0000);
    assert_eq!(WS_EX_NOACTIVATE, 0x0800_0000);
    assert_eq!(CLICK_THROUGH_BITS, WS_EX_TRANSPARENT | WS_EX_LAYERED | WS_EX_NOACTIVATE);
    assert_eq!(CLICK_THROUGH_BITS, 0x0808_0020);
}

#[test]
fn initial_state_is_interactive() {
    assert_eq!(OverlayStyleState::initial(), interactive());
}

#[test]
fn toggle_flips_both_flags() {
    assert_eq!(interactive().toggled(), click_through());
    assert_eq!(click_through().toggled(), interactive());
    assert_eq!(interactive().toggled().toggled(), interactive());
    let odd = OverlayStyleState { click_through: true, interactive: true };
    assert_eq!(odd.toggled(), OverlayStyleState { click_through: false, interactive: false });
}

#[test]
fn entering_click_through_sets_owned_bits() {
    let controller = StyleController::new(OVERLAY);
    let write = controller.apply(0, click_through());
    assert_eq!(write.handle, OVERLAY);
    assert_eq!(write.bits, 0x0808_0020);
    let write = controller.apply(0x0000_0108, click_through());
    assert_eq!(write.bits, 0x0808_0128);
}

#[test]
fn leaving_click_through_clears_owned_bits() {
    let controller = StyleController::new(OVERLAY);
    let write = controller.apply(0x0808_0020, interactive());
    assert_eq!(write.handle, OVERLAY);
    assert_eq!(write.bits, 0);
    let write = controller.apply(0x0808_0128, interactive());
    assert_eq!(write.bits, 0x0000_0108);
    let write = controller.apply(0xFFFF_FFFF, interactive());
    assert_eq!(write.bits, 0xF7F7_FFDF);
}

#[test]
fn partly_set_bits_are_completed_or_cleared() {
    let controller = StyleController::new(OVERLAY);
    assert_eq!(controller.apply(WS_EX_LAYERED, click_through()).bits, CLICK_THROUGH_BITS);
    assert_eq!(controller.apply(WS_EX_LAYERED, interactive()).bits, 0);
    assert_eq!(
        controller.apply(WS_EX_TRANSPARENT | WS_EX_NOACTIVATE, interactive()).bits,
        0
    );
}

#[test]
fn only_the_click_through_flag_decides_the_bits() {
    let controller = StyleController::new(OVERLAY);
    for interactive in [false, true] {
        let on = OverlayStyleState { click_through: true, interactive };
        let off = OverlayStyleState { click_through: false, interactive };
        assert_eq!(controller.apply(0x40, on).bits, 0x0808_0060);
        assert_eq!(controller.apply(0x0808_0060, off).bits, 0x40);
    }
}

#[test]
fn apply_is_idempotent() {
    let controller = StyleController::new(OVERLAY);
    for current in [0u32, 0x20, 0x0008_0000, 0x0808_0020, 0x0000_0108, 0xFFFF_FFFF, 0x1234_5678] {
        for desired in [click_through(), interactive()] {
            let once = controller.apply(current, desired);
            let twice = controller.apply(once.bits, desired);
            assert_eq!(twice, once);
        }
    }
}

#[test]
fn apply_leaves_other_bits_alone() {
    let controller = StyleController::new(OVERLAY);
    for current in [0u32, 0x0000_0108, 0xFFFF_FFFF, 0x1234_5678, 0x8000_0001] {
        for desired in [click_through(), interactive()] {
            let write = controller.apply(current, desired);
            assert_eq!(write.bits & !CLICK_THROUGH_BITS, current & !CLICK_THROUGH_BITS);
        }
    }
}

#[test]
fn double_toggle_restores_the_bits() {
    let controller = StyleController::new(OVERLAY);
    let start = controller.apply(0x0000_0108, interactive()).bits;
    let there = controller.apply(start, interactive().toggled()).bits;
    let back = controller.apply(there, interactive().toggled().toggled()).bits;
    assert_ne!(there, start);
    assert_eq!(back, start);
}
