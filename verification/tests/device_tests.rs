use hypr_gestures::input::{DeviceCandidate, InputManager};

fn candidate(path: &str, name: &str, char_dev: bool, button: bool) -> DeviceCandidate {
    DeviceCandidate {
        path: path.to_owned(),
        file_name: name.to_owned(),
        is_char_device: char_dev,
        has_forward_button: button,
    }
}

#[test]
fn event_device_naming_convention() {
    let m = InputManager::new(200, 30);
    assert!(m.is_event_device("event0", true));
    assert!(m.is_event_device("event17", true));
    assert!(m.is_event_device("eventful", true));
    assert!(!m.is_event_device("event0", false));
    assert!(!m.is_event_device("mouse0", true));
    assert!(!m.is_event_device("even", true));
    assert!(!m.is_event_device("", true));
}

#[test]
fn only_qualifying_devices_are_kept_in_order() {
    let m = InputManager::new(200, 30);
    let candidates = vec![
        candidate("/dev/input/event0", "event0", true, true),
        candidate("/dev/input/event1", "event1", true, false),
        candidate("/dev/input/mouse0", "mouse0", true, true),
        candidate("/dev/input/event2", "event2", false, true),
        candidate("/dev/input/event3", "event3", true, true),
    ];
    let kept = m.find_gesture_devices(&candidates);
    assert_eq!(kept, vec!["/dev/input/event0".to_owned(), "/dev/input/event3".to_owned()]);
}

#[test]
fn no_qualifying_devices_is_an_empty_result() {
    let m = InputManager::new(200, 30);
    assert_eq!(m.find_gesture_devices(&Vec::new()), Vec::<String>::new());
    let candidates = vec![candidate("/dev/input/event9", "event9", true, false)];
    assert_eq!(m.find_gesture_devices(&candidates), Vec::<String>::new());
}
