use egui_overlay::{GeometrySynchronizer, NativeWindowHandle, OverlayGeometry, Rect};

const TARGET: NativeWindowHandle = NativeWindowHandle { value: 0x1111 };
const OVERLAY: NativeWindowHandle = NativeWindowHandle { value: 0x2222 };

#[test]
fn rect_extents() {
    let rect = Rect::new(100, 100, 500, 400);
    assert_eq!(rect, Rect { left: 100, top: 100, right: 500, bottom: 400 });
    assert_eq!(rect.width(), 400);
    assert_eq!(rect.height(), 300);
}

#[test]
fn overlay_covers_the_target() {
    let synchronizer = GeometrySynchronizer::new(TARGET, OVERLAY);
    let write = synchronizer.sync(Rect::new(100, 100, 500, 400));
    assert_eq!(write.handle, OVERLAY);
    assert_eq!(
        write.geometry,
        OverlayGeometry { left: 100, top: 100, width: 400, height: 300 }
    );
}

#[test]
fn negative_coordinates_are_kept() {
    let synchronizer = GeometrySynchronizer::new(TARGET, OVERLAY);
    let write = synchronizer.sync(Rect::new(-1920, -200, -640, 520));
    assert_eq!(
        write.geometry,
        OverlayGeometry { left: -1920, top: -200, width: 1280, height: 720 }
    );
}

#[test]
fn zero_rect_is_applied_as_it_is() {
    let synchronizer = GeometrySynchronizer::new(TARGET, OVERLAY);
    let write = synchronizer.sync(Rect::new(0, 0, 0, 0));
    assert_eq!(write.geometry, OverlayGeometry { left: 0, top: 0, width: 0, height: 0 });
}

#[test]
fn swapped_edges_give_negative_sizes() {
    let rect = Rect::new(500, 400, 100, 100);
    assert_eq!(rect.width(), -400);
    assert_eq!(rect.height(), -300);
    let write = GeometrySynchronizer::new(TARGET, OVERLAY).sync(rect);
    assert_eq!(
        write.geometry,
        OverlayGeometry { left: 500, top: 400, width: -400, height: -300 }
    );
}

#[test]
fn extreme_edges_do_not_overflow() {
    let widest = Rect::new(i32::MIN, i32::MIN, i32::MAX, i32::MAX);
    assert_eq!(widest.width(), 4_294_967_295);
    assert_eq!(widest.height(), 4_294_967_295);
    let inverted = Rect::new(i32::MAX, i32::MAX, i32::MIN, i32::MIN);
    assert_eq!(inverted.width(), -4_294_967_295);
    assert_eq!(inverted.height(), -4_294_967_295);
    let write = GeometrySynchronizer::new(TARGET, OVERLAY).sync(inverted);
    assert_eq!(write.geometry.left, i32::MAX);
    assert_eq!(write.geometry.top, i32::MAX);
    assert_eq!(write.geometry.width, -4_294_967_295);
}

#[test]
fn overlay_edges_equal_the_target_edges() {
    for rect in [
        Rect::new(100, 100, 500, 400),
        Rect::new(-5, 7, -9, 3),
        Rect::new(i32::MIN, 0, i32::MAX, 1),
    ] {
        let geometry = GeometrySynchronizer::new(TARGET, OVERLAY).sync(rect).geometry;
        assert_eq!(geometry.left as i64 + geometry.width, rect.right as i64);
        assert_eq!(geometry.top as i64 + geometry.height, rect.bottom as i64);
    }
}

#[test]
fn synchronizer_remembers_its_windows() {
    let synchronizer = GeometrySynchronizer::new(TARGET, OVERLAY);
    assert_eq!(synchronizer.target, TARGET);
    assert_eq!(synchronizer.overlay, OVERLAY);
}
