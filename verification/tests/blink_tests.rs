use cellrs::blink::{cycle, increment, BlinkState};

#[test]
fn cycle_is_a_three_cycle_from_default() {
    // Default custom width 1: the ceiling rotates 1 -> 40 -> 0 -> 1.
    let mut state = BlinkState::new();
    assert_eq!(state.max, 1);
    assert_eq!(state.custom, 1);
    state.cycle(40);
    assert_eq!(state.max, 40);
    state.cycle(40);
    assert_eq!(state.max, 0);
    state.cycle(40);
    assert_eq!(state.max, 1);
}

#[test]
fn cycle_with_custom_width() {
    // Custom width 7: the ceiling rotates 7 -> width -> 0 -> 7.
    let mut state = BlinkState::new();
    state.set_max(7);
    assert_eq!(state.max, 7);
    assert_eq!(state.custom, 7);
    state.cycle(120);
    assert_eq!(state.max, 120);
    state.cycle(120);
    assert_eq!(state.max, 0);
    state.cycle(120);
    assert_eq!(state.max, 7);
}

#[test]
fn cycle_converges_through_custom_after_resize() {
    // A resize between cycles changes the terminal width handed in, but the
    // rotation still converges back through the custom width.
    let mut state = BlinkState::new();
    state.set_max(5);
    state.cycle(100);
    assert_eq!(state.max, 100);
    // Terminal resized: the next cycle still compares against custom 5.
    state.cycle(60);
    assert_eq!(state.max, 0);
    state.cycle(60);
    assert_eq!(state.max, 5);
}

#[test]
fn free_cycle_rotation() {
    assert_eq!(cycle(1, 1, 40), 40);
    assert_eq!(cycle(40, 1, 40), 0);
    assert_eq!(cycle(0, 1, 40), 1);
}

#[test]
fn increment_not_charging_forces_zero() {
    // Whatever the prior state, a tick without charging pulls the offset to 0.
    let mut a = BlinkState { val: 17, max: 40, custom: 3, reset: false };
    a.increment(false);
    assert_eq!(a.val, 0);
    let mut b = BlinkState { val: 40, max: 40, custom: 40, reset: true };
    b.increment(false);
    assert_eq!(b.val, 0);
    // The pending reset is not consumed while not charging.
    assert!(b.reset);
    let mut c = BlinkState::new();
    c.increment(false);
    assert_eq!(c.val, 0);
}

#[test]
fn increment_charging_steps_by_one() {
    let mut state = BlinkState { val: 3, max: 10, custom: 10, reset: false };
    state.increment(true);
    assert_eq!(state.val, 4);
    state.increment(true);
    assert_eq!(state.val, 5);
    assert!(!state.reset);
}

#[test]
fn increment_at_ceiling_restarts() {
    let mut state = BlinkState { val: 10, max: 10, custom: 10, reset: false };
    state.increment(true);
    assert_eq!(state.val, 0);
    assert!(!state.reset);
}

#[test]
fn increment_consumes_pending_reset() {
    let mut state = BlinkState { val: 4, max: 10, custom: 10, reset: true };
    state.increment(true);
    assert_eq!(state.val, 0);
    assert!(!state.reset);
}

#[test]
fn free_increment_matches_state_machine() {
    assert_eq!(increment(false, 7, 10), 0);
    assert_eq!(increment(true, 10, 10), 0);
    assert_eq!(increment(true, 7, 10), 8);
}

#[test]
fn getter_and_setter() {
    let mut state = BlinkState::new();
    assert_eq!(state.get_value(), 0);
    state.set_max(200);
    assert_eq!(state.max, 200);
    assert_eq!(state.custom, 200);
    state.set_reset();
    assert!(state.reset);
    // Raising the flag twice before the next increment changes nothing.
    state.set_reset();
    assert!(state.reset);
    assert_eq!(state.get_value(), 0);
}
