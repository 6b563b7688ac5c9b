use vstd::prelude::*;

verus! {

/// An input event as it travels from a capture thread to its consumer.
///
/// Pointer deltas are `f64` values on the wire; here they are carried as
/// their IEEE-754 bit patterns (`f64::to_bits`), which pass through the
/// routing logic untouched.
#[derive(Clone, Copy, Debug, PartialEq, Eq, Structural)]
pub enum ClientSideInput {
    KeyDown(u32),
    KeyUp(u32),
    MouseMove { dx: u64, dy: u64 },
    MouseDown { button: u32 },
    MouseUp { button: u32 },
    MouseScroll { dx: u64, dy: u64 },
    SpecialDebug { code: u32 },
}

} // verus!
