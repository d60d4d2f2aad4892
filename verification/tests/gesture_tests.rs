use hypr_gestures::input::{
    route_event, GestureState, InputEvent, InputManager, RawEvent, SwipeDirection,
};

fn recognizer() -> GestureState {
    GestureState::new(200, 30, 0)
}

#[test]
fn quick_tap_emits_tap() {
    let mut g = recognizer();
    g.start(1000);
    assert_eq!(g.finish(1050), Some(InputEvent::GestureTap));
}

#[test]
fn hold_at_timeout_boundary_still_taps() {
    let mut g = recognizer();
    g.start(1000);
    assert_eq!(g.finish(1200), Some(InputEvent::GestureTap));
}

#[test]
fn long_hold_emits_nothing() {
    let mut g = recognizer();
    g.start(1000);
    assert_eq!(g.finish(1201), None);
}

#[test]
fn swipe_right_then_release_emits_no_tap() {
    let mut g = recognizer();
    g.start(1000);
    assert_eq!(
        g.move_x(40),
        Some(InputEvent::GestureSwipe(SwipeDirection::Right))
    );
    assert_eq!(g.finish(1050), None);
}

#[test]
fn two_threshold_crossings_emit_two_swipes() {
    let mut g = recognizer();
    g.start(1000);
    assert_eq!(
        g.move_x(40),
        Some(InputEvent::GestureSwipe(SwipeDirection::Right))
    );
    assert_eq!(
        g.move_x(40),
        Some(InputEvent::GestureSwipe(SwipeDirection::Right))
    );
    assert_eq!(g.finish(1100), None);
}

#[test]
fn directions_follow_accumulator_signs() {
    let mut g = recognizer();
    g.start(0);
    assert_eq!(
        g.move_x(-30),
        Some(InputEvent::GestureSwipe(SwipeDirection::Left))
    );
    assert_eq!(
        g.move_y(-30),
        Some(InputEvent::GestureSwipe(SwipeDirection::Up))
    );
    assert_eq!(
        g.move_y(30),
        Some(InputEvent::GestureSwipe(SwipeDirection::Down))
    );
}

#[test]
fn accumulation_below_threshold_emits_nothing() {
    let mut g = recognizer();
    g.start(0);
    assert_eq!(g.move_x(15), None);
    assert_eq!(g.move_x(14), None);
    assert_eq!(g.accumulated_x, 29);
    assert_eq!(g.move_x(1), Some(InputEvent::GestureSwipe(SwipeDirection::Right)));
    assert_eq!(g.accumulated_x, 0);
    assert_eq!(g.accumulated_y, 0);
}

#[test]
fn tie_emits_nothing_and_keeps_accumulating() {
    let mut g = recognizer();
    g.start(0);
    // Land both magnitudes on an exact tie at the threshold.
    g.accumulated_y = 30;
    assert_eq!(g.move_x(30), None);
    assert_eq!(g.accumulated_x, 30);
    assert_eq!(g.accumulated_y, 30);
    // A later strictly dominant sample still fires.
    assert_eq!(g.move_x(1), Some(InputEvent::GestureSwipe(SwipeDirection::Right)));
}

#[test]
fn motion_while_idle_is_ignored() {
    let mut g = recognizer();
    assert_eq!(g.move_x(100), None);
    assert_eq!(g.move_y(100), None);
    assert_eq!(g.finish(10), None);
    assert_eq!(g.accumulated_x, 0);
}

#[test]
fn replaying_a_finished_sequence_gives_identical_events() {
    let samples: [(i32, i32); 4] = [(10, 0), (0, 5), (25, 0), (40, 0)];
    let mut first: Vec<Option<InputEvent>> = Vec::new();
    let mut second: Vec<Option<InputEvent>> = Vec::new();
    for out in [&mut first, &mut second] {
        let mut g = recognizer();
        g.start(0);
        for (dx, dy) in samples {
            if dx != 0 {
                out.push(g.move_x(dx));
            }
            if dy != 0 {
                out.push(g.move_y(dy));
            }
        }
        out.push(g.finish(100));
    }
    assert_eq!(first, second);
}

#[test]
fn route_event_drives_the_state_machine() {
    let mut g = recognizer();
    assert_eq!(route_event(&mut g, RawEvent::ForwardButton(1), 500), None);
    assert!(g.active);
    assert_eq!(
        route_event(&mut g, RawEvent::RelativeX(35), 510),
        Some(InputEvent::GestureSwipe(SwipeDirection::Right))
    );
    assert_eq!(route_event(&mut g, RawEvent::Other, 515), None);
    assert_eq!(route_event(&mut g, RawEvent::ForwardButton(0), 520), None);
    assert!(!g.active);
}

#[test]
fn horizontal_wheel_passes_through_any_state() {
    let mut g = recognizer();
    assert_eq!(
        route_event(&mut g, RawEvent::RelativeHorizontalWheel(-3), 0),
        Some(InputEvent::HorizontalScroll(-3))
    );
    g.start(10);
    assert_eq!(
        route_event(&mut g, RawEvent::RelativeHorizontalWheel(7), 20),
        Some(InputEvent::HorizontalScroll(7))
    );
    // The pass-through does not disturb the gesture cycle.
    assert_eq!(g.finish(30), Some(InputEvent::GestureTap));
}

#[test]
fn accumulators_saturate_instead_of_wrapping() {
    let mut g = GestureState::new(200, i32::MAX, 0);
    g.start(0);
    // An equal vertical magnitude keeps the dominant-axis rule from firing,
    // so the horizontal accumulator is observable across both updates.
    g.accumulated_y = i32::MAX;
    assert_eq!(g.move_x(i32::MAX), None);
    assert_eq!(g.move_x(i32::MAX), None);
    assert_eq!(g.accumulated_x, i32::MAX);
}

#[test]
fn new_cycle_discards_stale_accumulation() {
    let mut g = recognizer();
    g.start(0);
    assert_eq!(g.move_x(20), None);
    g.start(50);
    assert_eq!(g.accumulated_x, 0);
    assert!(!g.moved);
    assert_eq!(g.start_time_ms, 50);
}

#[test]
fn input_manager_keeps_its_configuration() {
    let m = InputManager::new(250, 40);
    assert_eq!(m.tap_timeout_ms, 250);
    assert_eq!(m.movement_threshold, 40);
}
