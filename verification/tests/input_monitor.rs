use egui_overlay::{key_is_down, InputMonitor, TOGGLE_KEY};

fn edges(monitor: &mut InputMonitor, samples: &[bool]) -> Vec<bool> {
    samples.iter().map(|&down| monitor.poll_toggle_edge(down)).collect()
}

#[test]
fn toggle_key_is_right_shift() {
    assert_eq!(TOGGLE_KEY, 0xA1);
}

#[test]
fn new_monitor_has_seen_the_key_up() {
    assert_eq!(InputMonitor::new(), InputMonitor { was_down: false });
}

#[test]
fn press_fires_once() {
    let mut monitor = InputMonitor::new();
    assert!(monitor.poll_toggle_edge(true));
    assert!(monitor.was_down);
    assert!(!monitor.poll_toggle_edge(true));
    assert!(monitor.was_down);
}

#[test]
fn held_key_fires_exactly_once() {
    for ticks in 1..50usize {
        let mut monitor = InputMonitor::new();
        let fired = edges(&mut monitor, &vec![true; ticks]);
        assert_eq!(fired.iter().filter(|&&edge| edge).count(), 1);
        assert!(fired[0]);
    }
}

#[test]
fn idle_key_never_fires() {
    let mut monitor = InputMonitor::new();
    let fired = edges(&mut monitor, &[false; 20]);
    assert!(fired.iter().all(|&edge| !edge));
    assert!(!monitor.was_down);
}

#[test]
fn key_down_from_the_start_is_silent() {
    let mut monitor = InputMonitor { was_down: true };
    let fired = edges(&mut monitor, &[true; 10]);
    assert!(fired.iter().all(|&edge| !edge));
}

#[test]
fn release_then_press_fires_again() {
    let mut monitor = InputMonitor::new();
    let fired = edges(&mut monitor, &[true, true, true, false, true, true, false, false, true]);
    assert_eq!(fired, vec![true, false, false, false, true, false, false, false, true]);
}

#[test]
fn release_does_not_fire() {
    let mut monitor = InputMonitor { was_down: true };
    assert!(!monitor.poll_toggle_edge(false));
    assert!(!monitor.was_down);
}

#[test]
fn key_state_word_decodes_by_its_top_bit() {
    assert!(key_is_down(i16::MIN));
    assert!(key_is_down(i16::MIN | 1));
    assert!(key_is_down(-1));
    assert!(!key_is_down(0));
    assert!(!key_is_down(1));
    assert!(!key_is_down(i16::MAX));
}
