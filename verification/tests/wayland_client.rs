use wayvr::event::ClientSideInput;
use wayvr::wayland_client::{
    CapabilityPlan, ClientSideInputApplication, PointerEventKind, RemovalPlan, SeatCapability,
    KEYSYM_ESCAPE,
};

fn ready_app() -> ClientSideInputApplication {
    let mut app = ClientSideInputApplication::new(true, true);
    app.layer_surface_created();
    app
}

#[test]
fn new_app_logs_and_holds_nothing() {
    let app = ClientSideInputApplication::new(true, false);
    assert!(app.is_key_logging);
    assert!(app.has_relative_pointer_manager);
    assert!(!app.has_pointer_constraints);
    assert!(!app.has_keyboard && !app.has_pointer && !app.has_pool);
    assert!(!app.has_relative_pointer && !app.has_locked_pointer && !app.has_layer_surface);
    assert_eq!((app.screen_width, app.screen_height), (0, 0));
}

#[test]
fn escape_press_ends_logging_but_is_sent() {
    let mut app = ready_app();
    assert_eq!(app.press_key(0x61, 30), ClientSideInput::KeyDown(30));
    assert!(app.is_key_logging);
    assert_eq!(app.press_key(KEYSYM_ESCAPE, 1), ClientSideInput::KeyDown(1));
    assert!(!app.is_key_logging);
    assert_eq!(app.release_key(1), ClientSideInput::KeyUp(1));
}

#[test]
fn pointer_frames_send_buttons_and_scrolling() {
    let app = ready_app();
    let h = 2.0f64.to_bits();
    let v = (-10.0f64).to_bits();
    let frame = vec![
        PointerEventKind::Enter,
        PointerEventKind::Motion,
        PointerEventKind::Press { button: 0x110 },
        PointerEventKind::Axis { horizontal: h, vertical: v },
        PointerEventKind::Release { button: 0x110 },
        PointerEventKind::Leave,
    ];
    assert_eq!(
        app.pointer_frame(&frame),
        vec![
            ClientSideInput::MouseDown { button: 0x110 },
            ClientSideInput::MouseScroll { dx: h, dy: v },
            ClientSideInput::MouseUp { button: 0x110 },
        ]
    );
    assert!(app.pointer_frame(&vec![PointerEventKind::Motion]).is_empty());
}

#[test]
fn pointer_capability_binds_and_locks() {
    let mut app = ready_app();
    let plan = app.new_capability(SeatCapability::Pointer);
    assert_eq!(
        plan,
        CapabilityPlan {
            bind_keyboard: false,
            bind_pointer: true,
            bind_relative_pointer: true,
            lock_hint: Some((0, 0)),
        }
    );
    assert!(app.has_pointer && app.has_relative_pointer && app.has_locked_pointer);
    // a second announcement binds nothing
    let again = app.new_capability(SeatCapability::Pointer);
    assert!(!again.bind_pointer && !again.bind_relative_pointer && again.lock_hint.is_none());
}

#[test]
fn keyboard_capability_binds_once() {
    let mut app = ready_app();
    let plan = app.new_capability(SeatCapability::Keyboard);
    assert!(plan.bind_keyboard && !plan.bind_pointer && plan.lock_hint.is_none());
    assert!(app.has_keyboard);
    assert!(!app.new_capability(SeatCapability::Keyboard).bind_keyboard);
    let touch = app.new_capability(SeatCapability::Touch);
    assert!(!touch.bind_keyboard && !touch.bind_pointer);
}

#[test]
fn pointer_without_constraints_is_not_locked() {
    let mut app = ClientSideInputApplication::new(false, false);
    app.layer_surface_created();
    let plan = app.new_capability(SeatCapability::Pointer);
    assert!(plan.bind_pointer && !plan.bind_relative_pointer && plan.lock_hint.is_none());
    assert!(!app.has_locked_pointer && !app.has_relative_pointer);
}

#[test]
fn removing_capabilities_releases_objects() {
    let mut app = ready_app();
    app.new_capability(SeatCapability::Keyboard);
    app.new_capability(SeatCapability::Pointer);
    assert_eq!(
        app.remove_capability(SeatCapability::Pointer),
        RemovalPlan { release_keyboard: false, destroy_relative_pointer: true, release_pointer: true }
    );
    assert!(!app.has_pointer && !app.has_relative_pointer && app.has_keyboard);
    assert_eq!(
        app.remove_capability(SeatCapability::Keyboard),
        RemovalPlan { release_keyboard: true, destroy_relative_pointer: false, release_pointer: false }
    );
    assert_eq!(
        app.remove_capability(SeatCapability::Keyboard),
        RemovalPlan { release_keyboard: false, destroy_relative_pointer: false, release_pointer: false }
    );
}

#[test]
fn configure_sizes_buffer_and_creates_pool_once() {
    let mut app = ready_app();
    let plan = app.configure(1920, 1080);
    assert_eq!((plan.width, plan.height, plan.stride), (1920, 1080, 7680));
    assert_eq!(plan.pool_size, Some(1920 * 1080 * 4));
    assert!(app.has_pool);
    let plan = app.configure(0, 0);
    assert_eq!((plan.width, plan.height, plan.stride), (1, 1, 4));
    assert_eq!(plan.pool_size, None);
}

#[test]
fn configure_locks_pointer_when_ready() {
    let mut app = ClientSideInputApplication::new(true, true);
    app.new_capability(SeatCapability::Pointer);
    assert!(!app.has_locked_pointer);
    app.layer_surface_created();
    app.screen_width = 2560;
    app.screen_height = 1440;
    let plan = app.configure(0, 0);
    assert_eq!(plan.lock_hint, Some((1280, 720)));
    assert!(app.has_locked_pointer);
    assert_eq!(app.configure(0, 0).lock_hint, None);
}

#[test]
fn relative_motion_recenters_a_locked_pointer() {
    let mut app = ready_app();
    let (dx, dy) = (3.0f64.to_bits(), (-1.0f64).to_bits());
    assert_eq!(app.relative_motion(dx, dy), (ClientSideInput::MouseMove { dx, dy }, None));
    app.screen_width = 801;
    app.screen_height = 600;
    app.new_capability(SeatCapability::Pointer);
    assert_eq!(app.relative_motion(dx, dy), (ClientSideInput::MouseMove { dx, dy }, Some((400, 300))));
}

#[test]
fn closing_the_surface_ends_logging() {
    let mut app = ready_app();
    app.closed();
    assert!(!app.is_key_logging);
}

#[test]
fn lock_is_attempted_once() {
    let mut app = ready_app();
    app.has_pointer = true;
    assert_eq!(app.try_lock_pointer(), Some((0, 0)));
    assert_eq!(app.try_lock_pointer(), None);
    assert!(app.has_locked_pointer);
}

#[test]
fn creating_the_layer_surface_is_recorded() {
    let mut app = ClientSideInputApplication::new(false, false);
    assert!(!app.has_layer_surface);
    app.layer_surface_created();
    assert!(app.has_layer_surface);
    assert!(app.is_key_logging && !app.has_pointer);
}
