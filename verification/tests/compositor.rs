use wayvr::compositor::{
    commit_plan, wl_transform_to_frame_transform, BufferKind, CommittedBuffer, FrameTransform,
    SurfaceImport,
};

#[test]
fn transforms_map_by_wire_value() {
    let expected = [
        FrameTransform::Normal,
        FrameTransform::Rotated90,
        FrameTransform::Rotated180,
        FrameTransform::Rotated270,
        FrameTransform::Flipped,
        FrameTransform::Flipped90,
        FrameTransform::Flipped180,
        FrameTransform::Flipped270,
    ];
    for (value, t) in expected.iter().enumerate() {
        assert_eq!(wl_transform_to_frame_transform(value as u32), *t);
    }
    assert_eq!(wl_transform_to_frame_transform(8), FrameTransform::Undefined);
    assert_eq!(wl_transform_to_frame_transform(u32::MAX), FrameTransform::Undefined);
}

#[test]
fn dmabuf_commit_imports_as_dmabuf() {
    let plan = commit_plan(CommittedBuffer::New(Some(BufferKind::Dma)), 1, 2, 1234);
    assert_eq!(
        plan.import,
        Some(SurfaceImport { kind: BufferKind::Dma, transform: FrameTransform::Rotated90, scale: 2, dmabuf: true })
    );
    assert!(!plan.warn_unsupported);
    assert!(plan.release_buffer);
    assert_eq!(plan.callback_time, 1234);
}

#[test]
fn shm_and_single_pixel_commits_are_not_dmabuf() {
    let shm = commit_plan(CommittedBuffer::New(Some(BufferKind::Shm)), 4, 1, 0);
    assert_eq!(
        shm.import,
        Some(SurfaceImport { kind: BufferKind::Shm, transform: FrameTransform::Flipped, scale: 1, dmabuf: false })
    );
    let spb = commit_plan(CommittedBuffer::New(Some(BufferKind::SinglePixel)), 0, 3, 0);
    assert_eq!(
        spb.import,
        Some(SurfaceImport { kind: BufferKind::SinglePixel, transform: FrameTransform::Normal, scale: 3, dmabuf: false })
    );
    assert!(spb.release_buffer && !spb.warn_unsupported);
}

#[test]
fn unsupported_and_unknown_buffers_are_released_without_import() {
    let other = commit_plan(CommittedBuffer::New(Some(BufferKind::Other)), 0, 1, 5);
    assert_eq!(other.import, None);
    assert!(other.warn_unsupported);
    assert!(other.release_buffer);
    let unknown = commit_plan(CommittedBuffer::New(None), 0, 1, 5);
    assert_eq!(unknown.import, None);
    assert!(!unknown.warn_unsupported);
    assert!(unknown.release_buffer);
}

#[test]
fn no_new_buffer_means_nothing_to_release() {
    for b in [CommittedBuffer::Unchanged, CommittedBuffer::Removed] {
        let plan = commit_plan(b, 2, 1, 77);
        assert_eq!(plan.import, None);
        assert!(!plan.warn_unsupported);
        assert!(!plan.release_buffer);
        assert_eq!(plan.callback_time, 77);
    }
}

#[test]
fn callback_time_wraps_to_32_bits() {
    let plan = commit_plan(CommittedBuffer::Unchanged, 0, 1, (1u64 << 32) + 5);
    assert_eq!(plan.callback_time, 5);
    let plan = commit_plan(CommittedBuffer::Unchanged, 0, 1, u64::MAX);
    assert_eq!(plan.callback_time, u32::MAX);
}

use wayvr::compositor::{
    popup_needs_initial_configure, ClientSideInput as LoggerInput,
    ClientSideInputApplication as LoggerApplication, PopupKind, CLIENT_CAP_WINDOW_HEIGHT,
    CLIENT_CAP_WINDOW_WIDTH,
};
use wayvr::wayland_client::{SeatCapability, KEYSYM_ESCAPE};

#[test]
fn only_unconfigured_xdg_popups_get_the_initial_configure() {
    assert!(popup_needs_initial_configure(Some(PopupKind::Xdg), false));
    assert!(!popup_needs_initial_configure(Some(PopupKind::Xdg), true));
    assert!(!popup_needs_initial_configure(Some(PopupKind::InputMethod), false));
    assert!(!popup_needs_initial_configure(None, false));
}

#[test]
fn compositor_logger_sends_keys_and_stops_on_escape() {
    let mut app = LoggerApplication::new();
    assert!(app.is_key_logging);
    assert_eq!(app.press_key(0x61, 30), LoggerInput::KeyDown(30));
    assert!(app.is_key_logging);
    assert_eq!(app.release_key(30), LoggerInput::KeyUp(30));
    assert_eq!(app.press_key(KEYSYM_ESCAPE, 1), LoggerInput::KeyDown(1));
    assert!(!app.is_key_logging);
}

#[test]
fn compositor_logger_binds_and_releases_once() {
    let mut app = LoggerApplication::new();
    assert_eq!(app.new_capability(SeatCapability::Keyboard), (true, false));
    assert_eq!(app.new_capability(SeatCapability::Keyboard), (false, false));
    assert_eq!(app.new_capability(SeatCapability::Pointer), (false, true));
    assert_eq!(app.new_capability(SeatCapability::Touch), (false, false));
    assert!(app.has_keyboard && app.has_pointer);
    assert_eq!(app.remove_capability(SeatCapability::Pointer), (false, true));
    assert_eq!(app.remove_capability(SeatCapability::Pointer), (false, false));
    assert_eq!(app.remove_capability(SeatCapability::Keyboard), (true, false));
    assert!(!app.has_keyboard && !app.has_pointer);
}

#[test]
fn compositor_logger_configures_a_fixed_window() {
    let mut app = LoggerApplication::new();
    let plan = app.configure();
    assert_eq!(plan.pool_size, Some(4));
    assert_eq!((plan.width, plan.height, plan.stride), (400, 400, 400));
    assert_eq!((CLIENT_CAP_WINDOW_WIDTH, CLIENT_CAP_WINDOW_HEIGHT), (400, 400));
    assert_eq!(app.configure().pool_size, None);
    app.closed();
    assert!(!app.is_key_logging);
}
