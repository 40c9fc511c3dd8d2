use blink_strip::blink::{
    BlinkDebounceController, EdgeToggleController, PinLevel, HOLD_OFF_NS, HOLD_ON_NS,
};

#[test]
fn blink_starts_high_and_alternates_strictly() {
    let mut controller = BlinkDebounceController::new();
    let mut previous = PinLevel::High;
    for n in 1..=8 {
        let cmd = controller.on_timer_expiry();
        // odd interrupts leave the pin low, even ones high
        if n % 2 == 1 {
            assert_eq!(cmd.drive, PinLevel::Low);
        } else {
            assert_eq!(cmd.drive, PinLevel::High);
        }
        assert_ne!(cmd.drive, previous);
        previous = cmd.drive;
    }
}

#[test]
fn rearm_intervals_are_asymmetric() {
    assert_ne!(HOLD_ON_NS, HOLD_OFF_NS);
    let mut controller = BlinkDebounceController::new();
    let to_low = controller.on_timer_expiry();
    assert_eq!(to_low.drive, PinLevel::Low);
    assert_eq!(to_low.rearm_ns, HOLD_OFF_NS);
    assert_eq!(to_low.rearm_ns, 600);
    let to_high = controller.on_timer_expiry();
    assert_eq!(to_high.drive, PinLevel::High);
    assert_eq!(to_high.rearm_ns, HOLD_ON_NS);
    assert_eq!(to_high.rearm_ns, 300);
    assert_ne!(to_low.rearm_ns, to_high.rearm_ns);
}

#[test]
fn controller_states_follow_the_transition_rule() {
    let mut controller = BlinkDebounceController::new();
    let first = controller.on_timer_expiry();
    let second = controller.on_timer_expiry();
    let third = controller.on_timer_expiry();
    assert_eq!(first.drive, PinLevel::Low);
    assert_eq!(second.drive, PinLevel::High);
    assert_eq!(third.drive, PinLevel::Low);
    assert_eq!(first, third);
}

#[test]
fn two_switch_edges_cancel() {
    let mut toggle = EdgeToggleController::new(PinLevel::High);
    let after_first = toggle.on_switch_edge();
    assert_eq!(after_first, PinLevel::Low);
    let after_second = toggle.on_switch_edge();
    assert_eq!(after_second, PinLevel::High);

    let mut from_low = EdgeToggleController::new(PinLevel::Low);
    let _ = from_low.on_switch_edge();
    assert_eq!(from_low.on_switch_edge(), PinLevel::Low);
}
