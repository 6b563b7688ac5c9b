//! Input handling core of the WayVR client-input threads and compositor:
//! key-chord combining, exclusive-grab bookkeeping for libinput devices,
//! event routing, and the small decisions of the Wayland handlers.

pub mod compositor;
pub mod event;
pub mod text;
pub mod key_combiner;
pub mod libinput_client;
pub mod wayland_client;
