use vstd::prelude::*;

use crate::wayland_client::{keysym_is_escape, SeatCapability, KEYSYM_ESCAPE};

verus! {

/// How a captured frame is oriented relative to the display.
#[derive(Clone, Copy, Debug, PartialEq, Eq)]
pub enum FrameTransform {
    Undefined,
    Normal,
    Rotated90,
    Rotated180,
    Rotated270,
    Flipped,
    Flipped90,
    Flipped180,
    Flipped270,
}

/// The frame transform for a `wl_output.transform` wire value: the eight
/// protocol values map to the matching orientation, anything else is undefined.
pub open spec fn frame_transform_of(transform: u32) -> FrameTransform {
    if transform == 0 {
        FrameTransform::Normal
    } else if transform == 1 {
        FrameTransform::Rotated90
    } else if transform == 2 {
        FrameTransform::Rotated180
    } else if transform == 3 {
        FrameTransform::Rotated270
    } else if transform == 4 {
        FrameTransform::Flipped
    } else if transform == 5 {
        FrameTransform::Flipped90
    } else if transform == 6 {
        FrameTransform::Flipped180
    } else if transform == 7 {
        FrameTransform::Flipped270
    } else {
        FrameTransform::Undefined
    }
}

/// Converts a buffer transform (the `wl_output.transform` wire value) to the
/// transform of the frame made from the buffer.
pub fn wl_transform_to_frame_transform(transform: u32) -> (t: FrameTransform)
    ensures
        t == frame_transform_of(transform),
{
    match transform {
        0 => FrameTransform::Normal,
        1 => FrameTransform::Rotated90,
        2 => FrameTransform::Rotated180,
        3 => FrameTransform::Rotated270,
        4 => FrameTransform::Flipped,
        5 => FrameTransform::Flipped90,
        6 => FrameTransform::Flipped180,
        7 => FrameTransform::Flipped270,
        _ => FrameTransform::Undefined,
    }
}

/// The kind of a committed `wl_buffer`, as the renderer classifies it.
#[derive(Clone, Copy, Debug, PartialEq, Eq, Structural)]
pub enum BufferKind {
    Dma,
    Shm,
    SinglePixel,
    /// A kind that is known but cannot be imported.
    Other,
}

/// The buffer assignment of a surface commit.
#[derive(Clone, Copy, Debug, PartialEq, Eq)]
pub enum CommittedBuffer {
    /// No buffer change.
    Unchanged,
    /// The buffer was detached.
    Removed,
    /// A new buffer was attached; `None` when its kind is unknown.
    New(Option<BufferKind>),
}

/// What to import a new buffer as, and how to show the imported image.
#[derive(Clone, Copy, Debug, PartialEq, Eq)]
pub struct SurfaceImport {
    pub kind: BufferKind,
    pub transform: FrameTransform,
    pub scale: i32,
    pub dmabuf: bool,
}

/// What a surface commit does: the import to attempt (its image, when the
/// import succeeds, is applied to the surface), whether to warn about an
/// unsupported buffer, whether to release the buffer, and the time reported
/// to the frame callbacks.
#[derive(Clone, Copy, Debug, PartialEq, Eq)]
pub struct CommitPlan {
    pub import: Option<SurfaceImport>,
    pub warn_unsupported: bool,
    pub release_buffer: bool,
    pub callback_time: u32,
}

/// The import for a new buffer of kind `kind`: DMA-buf, SHM and single-pixel
/// buffers are imported, with the buffer's transform and scale, and only a
/// DMA-buf image is marked as such.
pub open spec fn import_of(kind: BufferKind, transform: u32, scale: i32) -> Option<SurfaceImport> {
    if kind == BufferKind::Other {
        None
    } else {
        Some(
            SurfaceImport {
                kind,
                transform: frame_transform_of(transform),
                scale,
                dmabuf: kind == BufferKind::Dma,
            },
        )
    }
}

/// What a new buffer is imported as: DMA-buf, SHM and single-pixel buffers
/// are imported, with exactly the committed scale and the frame transform of
/// the committed transform, of their own kind, marked DMA-buf only when they
/// are DMA-bufs; other buffers are not imported.
pub proof fn lemma_import_keeps_buffer_properties(kind: BufferKind, transform: u32, scale: i32)
    ensures
        import_of(kind, transform, scale) is Some <==> kind != BufferKind::Other,
        import_of(kind, transform, scale) matches Some(i) ==> i.scale == scale,
        import_of(kind, transform, scale) matches Some(i) ==> i.kind == kind,
        import_of(kind, transform, scale) matches Some(i) ==> i.transform == frame_transform_of(
            transform,
        ),
        import_of(kind, transform, scale) matches Some(i) ==> (i.dmabuf <==> kind == BufferKind::Dma),
{
}

/// The eight `wl_output.transform` values map to eight distinct defined
/// frame transforms, in protocol order; every other value is undefined.
pub proof fn lemma_frame_transform(transform: u32)
    ensures
        transform == 0 ==> frame_transform_of(transform) == FrameTransform::Normal,
        transform == 1 ==> frame_transform_of(transform) == FrameTransform::Rotated90,
        transform == 2 ==> frame_transform_of(transform) == FrameTransform::Rotated180,
        transform == 3 ==> frame_transform_of(transform) == FrameTransform::Rotated270,
        transform == 4 ==> frame_transform_of(transform) == FrameTransform::Flipped,
        transform == 5 ==> frame_transform_of(transform) == FrameTransform::Flipped90,
        transform == 6 ==> frame_transform_of(transform) == FrameTransform::Flipped180,
        transform == 7 ==> frame_transform_of(transform) == FrameTransform::Flipped270,
        (frame_transform_of(transform) == FrameTransform::Undefined) <==> transform > 7,
        forall|t: u32|
            #![trigger frame_transform_of(t)]
            t <= 7 && transform <= 7 && t != transform ==> frame_transform_of(t)
                != frame_transform_of(transform),
{
}

/// Plans a surface commit with the given buffer assignment, buffer transform
/// (wire value) and scale, at `millis` milliseconds of the session clock.
pub fn commit_plan(buffer: CommittedBuffer, transform: u32, scale: i32, millis: u64) -> (plan: CommitPlan)
    ensures
        plan.import == match buffer {
            CommittedBuffer::New(Some(kind)) => import_of(kind, transform, scale),
            _ => None,
        },
        plan.warn_unsupported == (buffer == CommittedBuffer::New(Some(BufferKind::Other))),
        plan.release_buffer == (buffer is New),
        plan.callback_time == millis % 0x1_0000_0000,
{
    let (import, warn_unsupported, release_buffer) = match buffer {
        CommittedBuffer::New(Some(kind)) => {
            if kind == BufferKind::Other {
                (None, true, true)
            } else {
                let import = SurfaceImport {
                    kind,
                    transform: wl_transform_to_frame_transform(transform),
                    scale,
                    dmabuf: kind == BufferKind::Dma,
                };
                (Some(import), false, true)
            }
        },
        CommittedBuffer::New(None) => (None, false, true),
        _ => (None, false, false),
    };
    let callback_time = millis as u32;
    assert(millis as u32 == millis % 0x1_0000_0000) by (bit_vector);
    CommitPlan { import, warn_unsupported, release_buffer, callback_time }
}

/// The kind of popup a committed surface belongs to.
#[derive(Clone, Copy, Debug, PartialEq, Eq, Structural)]
pub enum PopupKind {
    Xdg,
    InputMethod,
}

/// Whether a commit must send the initial configure to its popup: only an
/// xdg popup that has not had its initial configure yet gets it.
pub fn popup_needs_initial_configure(popup: Option<PopupKind>, initial_configure_sent: bool) -> (r: bool)
    ensures
        r == (popup == Some(PopupKind::Xdg) && !initial_configure_sent),
{
    match popup {
        Some(PopupKind::Xdg) => !initial_configure_sent,
        _ => false,
    }
}

/// Size of the compositor-side logger's capture window.
pub const CLIENT_CAP_WINDOW_WIDTH: u32 = 400;
pub const CLIENT_CAP_WINDOW_HEIGHT: u32 = 400;

/// Key events sent by the compositor-side input logger.
#[derive(Clone, Copy, Debug, PartialEq, Eq)]
pub enum ClientSideInput {
    KeyDown(u32),
    KeyUp(u32),
}

/// How the compositor-side logger answers a configure: a pool of `pool_size`
/// bytes is created when there is none, and a `width` x `height` buffer with
/// row length `stride` is attached.
#[derive(Clone, Copy, Debug, PartialEq, Eq)]
pub struct LoggerConfigurePlan {
    pub pool_size: Option<usize>,
    pub width: i32,
    pub height: i32,
    pub stride: i32,
}

/// The compositor-side keyboard and mouse logger: which Wayland objects it
/// holds and whether logging goes on. It sends key events only; its pointer
/// events are printed and not sent.
pub struct ClientSideInputApplication {
    pub has_keyboard: bool,
    pub has_pointer: bool,
    pub has_pool: bool,
    pub is_key_logging: bool,
}

impl ClientSideInputApplication {
    /// Nothing bound, logging on.
    pub fn new() -> (app: Self)
        ensures
            !app.has_keyboard,
            !app.has_pointer,
            !app.has_pool,
            app.is_key_logging,
    {
        ClientSideInputApplication {
            has_keyboard: false,
            has_pointer: false,
            has_pool: false,
            is_key_logging: true,
        }
    }

    /// A key press: the raw code is sent as a key-down, and Escape ends the logging.
    pub fn press_key(&mut self, keysym: u32, raw_code: u32) -> (e: ClientSideInput)
        ensures
            e == ClientSideInput::KeyDown(raw_code),
            *final(self) == (ClientSideInputApplication {
                is_key_logging: old(self).is_key_logging && keysym != KEYSYM_ESCAPE,
                ..*old(self)
            }),
    {
        if keysym_is_escape(keysym) {
            self.is_key_logging = false;
        }
        ClientSideInput::KeyDown(raw_code)
    }

    /// A key release: the raw code is sent as a key-up.
    pub fn release_key(&self, raw_code: u32) -> (e: ClientSideInput)
        ensures
            e == ClientSideInput::KeyUp(raw_code),
    {
        ClientSideInput::KeyUp(raw_code)
    }

    /// A capability appeared: returns whether to bind a keyboard and whether
    /// to bind a pointer (each only when none is held).
    pub fn new_capability(&mut self, capability: SeatCapability) -> (r: (bool, bool))
        ensures
            r.0 == (capability == SeatCapability::Keyboard && !old(self).has_keyboard),
            r.1 == (capability == SeatCapability::Pointer && !old(self).has_pointer),
            *final(self) == (ClientSideInputApplication {
                has_keyboard: old(self).has_keyboard || r.0,
                has_pointer: old(self).has_pointer || r.1,
                ..*old(self)
            }),
    {
        let bind_keyboard = capability == SeatCapability::Keyboard && !self.has_keyboard;
        let bind_pointer = capability == SeatCapability::Pointer && !self.has_pointer;
        if bind_keyboard {
            self.has_keyboard = true;
        }
        if bind_pointer {
            self.has_pointer = true;
        }
        (bind_keyboard, bind_pointer)
    }

    /// A capability disappeared: returns whether to release the keyboard and
    /// whether to release the pointer (each only when one is held).
    pub fn remove_capability(&mut self, capability: SeatCapability) -> (r: (bool, bool))
        ensures
            r.0 == (capability == SeatCapability::Keyboard && old(self).has_keyboard),
            r.1 == (capability == SeatCapability::Pointer && old(self).has_pointer),
            *final(self) == (ClientSideInputApplication {
                has_keyboard: old(self).has_keyboard && !r.0,
                has_pointer: old(self).has_pointer && !r.1,
                ..*old(self)
            }),
    {
        let release_keyboard = capability == SeatCapability::Keyboard && self.has_keyboard;
        let release_pointer = capability == SeatCapability::Pointer && self.has_pointer;
        if release_keyboard {
            self.has_keyboard = false;
        }
        if release_pointer {
            self.has_pointer = false;
        }
        (release_keyboard, release_pointer)
    }

    /// The layer surface was closed: logging ends.
    pub fn closed(&mut self)
        ensures
            *final(self) == (ClientSideInputApplication { is_key_logging: false, ..*old(self) }),
    {
        self.is_key_logging = false;
    }

    /// A configure: a 4-byte pool is created once, and a transparent
    /// 400 x 400 buffer with a row length of 400 bytes is attached.
    pub fn configure(&mut self) -> (plan: LoggerConfigurePlan)
        ensures
            plan.pool_size == if old(self).has_pool {
                None
            } else {
                Some(4usize)
            },
            plan.width == CLIENT_CAP_WINDOW_WIDTH as i32,
            plan.height == CLIENT_CAP_WINDOW_HEIGHT as i32,
            plan.stride == 400,
            *final(self) == (ClientSideInputApplication { has_pool: true, ..*old(self) }),
    {
        let pool_size = if self.has_pool {
            None
        } else {
            self.has_pool = true;
            Some(4usize)
        };
        LoggerConfigurePlan {
            pool_size,
            width: CLIENT_CAP_WINDOW_WIDTH as i32,
            height: CLIENT_CAP_WINDOW_HEIGHT as i32,
            stride: 400,
        }
    }
}

} // verus!
