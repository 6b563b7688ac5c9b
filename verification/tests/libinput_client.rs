use wayvr::event::ClientSideInput;
use wayvr::key_combiner::{KeyCombiner, KEY_ESC, KEY_LEFTMETA, KEY_X, KEY_Z};
use wayvr::libinput_client::{
    button_name, contains_name, in_input_group, scroll_delta, sysfs_path_is_virtual, GrabState,
    InputAction, LibInputApplication, LibinputEvent,
};

fn sorted(mut v: Vec<i32>) -> Vec<i32> {
    v.sort();
    v
}

#[test]
fn button_names() {
    assert_eq!(button_name(0x110), "BTN_LEFT");
    assert_eq!(button_name(0x111), "BTN_RIGHT");
    assert_eq!(button_name(0x112), "BTN_MIDDLE");
    assert_eq!(button_name(0x113), "BTN_SIDE");
    assert_eq!(button_name(0x114), "BTN_EXTRA");
    assert_eq!(button_name(0x115), "BTN_?");
    assert_eq!(button_name(0), "BTN_?");
}

#[test]
fn virtual_sysfs_paths() {
    assert!(sysfs_path_is_virtual("/sys/devices/virtual/input/input42/event7"));
    assert!(!sysfs_path_is_virtual(
        "/sys/devices/pci0000:00/0000:00:14.0/usb1/1-2/input/input5/event3"
    ));
    assert!(!sysfs_path_is_virtual("/sys/devices/virtualish/input/event1"));
    assert!(!sysfs_path_is_virtual("/virtual"));
    assert!(sysfs_path_is_virtual("/virtual/"));
}

#[test]
fn input_group_membership() {
    assert!(in_input_group(Some(b"alice wheel input video\n".to_vec())));
    assert!(in_input_group(Some(b"input\n".to_vec())));
    assert!(!in_input_group(Some(b"alice wheel inputs\n".to_vec())));
    assert!(!in_input_group(Some(b"alice\n".to_vec())));
    assert!(!in_input_group(Some(vec![0x69, 0x6e, 0x70, 0x75, 0x74, 0x20, 0xff])));
    assert!(!in_input_group(None));
}

#[test]
fn grab_state_starts_empty() {
    let mut st = GrabState::new();
    assert!(!st.is_active());
    assert!(st.grab_all().is_empty());
    assert!(st.is_active());
    assert!(st.virtual_sysnames().is_empty());
}

#[test]
fn physical_devices_join_the_grab() {
    let mut st = GrabState::new();
    assert!(!st.device_opened(5, Some("event5".to_string()), false));
    assert!(!st.device_opened(6, Some("event6".to_string()), false));
    assert!(!st.device_opened(5, Some("event5".to_string()), false));
    assert_eq!(sorted(st.grab_all()), vec![5, 6]);
    assert!(st.is_active());
    // a device appearing while grabbed is grabbed right away
    assert!(st.device_opened(9, None, false));
    assert_eq!(sorted(st.ungrab_all()), vec![5, 6, 9]);
    assert!(!st.is_active());
    assert!(st.virtual_sysnames().is_empty());
}

#[test]
fn virtual_devices_are_never_grabbed() {
    let mut st = GrabState::new();
    st.grab_all();
    assert!(!st.device_opened(3, Some("event3".to_string()), true));
    assert!(!st.device_opened(4, Some("event3".to_string()), true));
    assert!(!st.device_opened(8, None, true));
    assert_eq!(st.virtual_sysnames(), vec!["event3".to_string()]);
    assert!(st.grab_all().is_empty());
}

#[test]
fn closing_forgets_the_device() {
    let mut st = GrabState::new();
    st.device_opened(5, None, false);
    st.device_opened(6, None, false);
    st.device_closed(5);
    st.device_closed(42);
    assert_eq!(st.grab_all(), vec![6]);
}

#[test]
fn toggling_twice_restores_the_grab() {
    let mut st = GrabState::new();
    st.device_opened(11, None, false);
    let (now_active, fds) = st.toggle_grab();
    assert!(now_active);
    assert_eq!(fds, vec![11]);
    let (now_active, fds) = st.toggle_grab();
    assert!(!now_active);
    assert_eq!(fds, vec![11]);
    assert!(!st.is_active());
}

#[test]
fn names_are_matched_exactly() {
    let names = vec!["event3".to_string(), "event10".to_string()];
    assert!(contains_name(&names, &"event10".to_string()));
    assert!(!contains_name(&names, &"event1".to_string()));
    assert!(!contains_name(&Vec::new(), &"event3".to_string()));
}

#[test]
fn scroll_delta_defaults_to_zero() {
    assert_eq!(scroll_delta(Some(2.5f64.to_bits())), 2.5f64.to_bits());
    assert_eq!(f64::from_bits(scroll_delta(None)), 0.0);
}

#[test]
fn escape_toggles_on_press_only() {
    let mut app = LibInputApplication::new();
    let none: Vec<String> = Vec::new();
    let dev = "event4".to_string();
    assert_eq!(
        app.handle_event(&none, &dev, LibinputEvent::Key { key: KEY_ESC, pressed: true }),
        InputAction::ToggleGrab
    );
    assert_eq!(
        app.handle_event(&none, &dev, LibinputEvent::Key { key: KEY_ESC, pressed: false }),
        InputAction::Drop
    );
}

#[test]
fn keys_go_through_the_combiner() {
    let mut app = LibInputApplication::new();
    let none: Vec<String> = Vec::new();
    let dev = "event4".to_string();
    assert_eq!(
        app.handle_event(&none, &dev, LibinputEvent::Key { key: 30, pressed: true }),
        InputAction::Send(ClientSideInput::KeyDown(30))
    );
    assert_eq!(
        app.handle_event(&none, &dev, LibinputEvent::Key { key: 30, pressed: false }),
        InputAction::Send(ClientSideInput::KeyUp(30))
    );
    app.handle_event(&none, &dev, LibinputEvent::Key { key: KEY_LEFTMETA, pressed: true });
    assert_eq!(
        app.handle_event(&none, &dev, LibinputEvent::Key { key: KEY_Z, pressed: true }),
        InputAction::Send(ClientSideInput::SpecialDebug { code: 1 })
    );
}

#[test]
fn pointer_events_are_sent() {
    let mut app = LibInputApplication::new();
    let none: Vec<String> = Vec::new();
    let dev = "event2".to_string();
    let (dx, dy) = (1.25f64.to_bits(), (-3.5f64).to_bits());
    assert_eq!(
        app.handle_event(&none, &dev, LibinputEvent::PointerMotion { dx, dy }),
        InputAction::Send(ClientSideInput::MouseMove { dx, dy })
    );
    assert_eq!(
        app.handle_event(&none, &dev, LibinputEvent::PointerButton { button: 0x111, pressed: true }),
        InputAction::Send(ClientSideInput::MouseDown { button: 0x111 })
    );
    assert_eq!(
        app.handle_event(&none, &dev, LibinputEvent::PointerButton { button: 0x111, pressed: false }),
        InputAction::Send(ClientSideInput::MouseUp { button: 0x111 })
    );
    assert_eq!(
        app.handle_event(
            &none,
            &dev,
            LibinputEvent::ScrollWheel { horizontal: None, vertical: Some(15.0f64.to_bits()) }
        ),
        InputAction::Send(ClientSideInput::MouseScroll { dx: 0.0f64.to_bits(), dy: 15.0f64.to_bits() })
    );
}

#[test]
fn finger_and_continuous_scrolling_are_not_sent() {
    let mut app = LibInputApplication::new();
    let none: Vec<String> = Vec::new();
    let dev = "event2".to_string();
    let s = Some(1.0f64.to_bits());
    assert_eq!(
        app.handle_event(&none, &dev, LibinputEvent::ScrollFinger { horizontal: s, vertical: s }),
        InputAction::Drop
    );
    assert_eq!(
        app.handle_event(&none, &dev, LibinputEvent::ScrollContinuous { horizontal: s, vertical: None }),
        InputAction::Drop
    );
    assert_eq!(app.handle_event(&none, &dev, LibinputEvent::Other), InputAction::Drop);
}

#[test]
fn virtual_device_events_are_dropped() {
    let mut app = LibInputApplication::new();
    let virt = vec!["event9".to_string()];
    let dev = "event9".to_string();
    assert_eq!(
        app.handle_event(&virt, &dev, LibinputEvent::Key { key: KEY_ESC, pressed: true }),
        InputAction::Drop
    );
    assert_eq!(
        app.handle_event(&virt, &dev, LibinputEvent::Key { key: KEY_LEFTMETA, pressed: true }),
        InputAction::Drop
    );
    assert_eq!(
        app.handle_event(&virt, &dev, LibinputEvent::PointerButton { button: 0x110, pressed: true }),
        InputAction::Drop
    );
    // the Meta press of the virtual device did not reach the combiner
    let phys = "event1".to_string();
    assert_eq!(
        app.handle_event(&virt, &phys, LibinputEvent::Key { key: KEY_Z, pressed: true }),
        InputAction::Send(ClientSideInput::KeyDown(KEY_Z))
    );
}

#[test]
fn grab_is_active_after_an_even_number_of_escape_presses() {
    let mut app = LibInputApplication::new();
    let mut st = GrabState::new();
    st.device_opened(7, None, false);
    st.grab_all();
    let virt = vec!["event9".to_string()];
    let phys = "event1".to_string();
    let virtual_dev = "event9".to_string();
    let mut presses = 0;
    let script = [
        (&phys, LibinputEvent::Key { key: KEY_ESC, pressed: true }),
        (&phys, LibinputEvent::Key { key: KEY_ESC, pressed: false }),
        (&virtual_dev, LibinputEvent::Key { key: KEY_ESC, pressed: true }),
        (&phys, LibinputEvent::Key { key: 30, pressed: true }),
        (&phys, LibinputEvent::Key { key: KEY_ESC, pressed: true }),
        (&phys, LibinputEvent::Key { key: KEY_ESC, pressed: true }),
    ];
    for (dev, ev) in script {
        if *dev == phys && ev == (LibinputEvent::Key { key: KEY_ESC, pressed: true }) {
            presses += 1;
        }
        if app.handle_event(&virt, dev, ev) == InputAction::ToggleGrab {
            st.toggle_grab();
        }
        assert_eq!(st.is_active(), presses % 2 == 0);
    }
    assert_eq!(presses, 3);
}

#[test]
fn key_messages_are_those_of_one_combiner() {
    let mut app = LibInputApplication::new();
    let mut kc = KeyCombiner::new();
    let virt = vec!["event9".to_string()];
    let phys = "event1".to_string();
    let virtual_dev = "event9".to_string();
    let script = [
        (&phys, KEY_LEFTMETA, true),
        (&virtual_dev, KEY_LEFTMETA, false),
        (&phys, KEY_ESC, true),
        (&phys, KEY_Z, true),
        (&phys, KEY_X, true),
        (&phys, KEY_LEFTMETA, false),
        (&phys, KEY_Z, true),
    ];
    let mut sent = Vec::new();
    let mut expected = Vec::new();
    for (dev, key, pressed) in script {
        if let InputAction::Send(e) = app.handle_event(&virt, dev, LibinputEvent::Key { key, pressed }) {
            sent.push(e);
        }
        if *dev == phys && key != KEY_ESC {
            let input = if pressed { ClientSideInput::KeyDown(key) } else { ClientSideInput::KeyUp(key) };
            expected.push(kc.process(input));
        }
    }
    assert_eq!(sent, expected);
    assert_eq!(
        sent,
        vec![
            ClientSideInput::KeyDown(KEY_LEFTMETA),
            ClientSideInput::SpecialDebug { code: 1 },
            ClientSideInput::SpecialDebug { code: 2 },
            ClientSideInput::KeyUp(KEY_LEFTMETA),
            ClientSideInput::KeyDown(KEY_Z),
        ]
    );
}
