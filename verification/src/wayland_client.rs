use vstd::prelude::*;

use xkeysym::Keysym;

use crate::event::ClientSideInput;

verus! {

/// The raw value of the Escape keysym.
pub const KEYSYM_ESCAPE: u32 = 0xff1b;

/// `Keysym::Escape` of xkeysym (the keysyms smithay-client-toolkit hands out):
/// whether the keysym with raw value `raw` is Escape. Claimed, as xkeysym's
/// source defines it: Escape is the keysym whose raw value is 0xff1b.
#[verifier::external_body]
pub(crate) fn keysym_is_escape(raw: u32) -> (r: bool)
    ensures
        r == (raw == KEYSYM_ESCAPE),
{
    Keysym::new(raw) == Keysym::Escape
}

/// A seat capability announced by the compositor.
#[derive(Clone, Copy, Debug, PartialEq, Eq, Structural)]
pub enum SeatCapability {
    Keyboard,
    Pointer,
    Touch,
}

/// A pointer event of a frame, reduced to what the logger reads. Axis values
/// are the `f64` bit patterns of the absolute scroll distances.
#[derive(Clone, Copy, Debug, PartialEq, Eq)]
pub enum PointerEventKind {
    Enter,
    Leave,
    Motion,
    Press { button: u32 },
    Release { button: u32 },
    Axis { horizontal: u64, vertical: u64 },
}

/// The event sent for one pointer event, if any: presses, releases and
/// scrolling are sent, entering, leaving and absolute motion are not.
pub open spec fn pointer_input(k: PointerEventKind) -> Option<ClientSideInput> {
    match k {
        PointerEventKind::Press { button } => Some(ClientSideInput::MouseDown { button }),
        PointerEventKind::Release { button } => Some(ClientSideInput::MouseUp { button }),
        PointerEventKind::Axis { horizontal, vertical } => Some(
            ClientSideInput::MouseScroll { dx: horizontal, dy: vertical },
        ),
        _ => None,
    }
}

/// The events sent for a frame of pointer events, in order.
pub open spec fn pointer_inputs(ks: Seq<PointerEventKind>) -> Seq<ClientSideInput>
    decreases ks.len(),
{
    if ks.len() == 0 {
        Seq::empty()
    } else {
        match pointer_input(ks.last()) {
            Some(e) => pointer_inputs(ks.drop_last()).push(e),
            None => pointer_inputs(ks.drop_last()),
        }
    }
}

/// The Wayland objects to bind after a capability appeared.
#[derive(Clone, Copy, Debug, PartialEq, Eq)]
pub struct CapabilityPlan {
    pub bind_keyboard: bool,
    pub bind_pointer: bool,
    pub bind_relative_pointer: bool,
    /// Lock the pointer and hint the cursor to this position.
    pub lock_hint: Option<(u32, u32)>,
}

/// The Wayland objects to release after a capability disappeared, in the
/// order keyboard, relative pointer, pointer.
#[derive(Clone, Copy, Debug, PartialEq, Eq)]
pub struct RemovalPlan {
    pub release_keyboard: bool,
    pub destroy_relative_pointer: bool,
    pub release_pointer: bool,
}

/// How to answer a configure of the capture layer surface: attach a
/// transparent `width` x `height` buffer with row length `stride` bytes,
/// creating the buffer pool with `pool_size` bytes first when there is none.
#[derive(Clone, Copy, Debug, PartialEq, Eq)]
pub struct ConfigurePlan {
    pub width: i32,
    pub height: i32,
    pub stride: i32,
    pub pool_size: Option<usize>,
    pub lock_hint: Option<(u32, u32)>,
}

/// A configured size, where zero (any size) becomes one.
pub open spec fn at_least_one(x: u32) -> u32 {
    if x == 0 {
        1
    } else {
        x
    }
}

/// The state of the Wayland client that captures keyboard and mouse input
/// through a full-screen overlay layer surface: which Wayland objects are
/// bound (each `has_` field stands for an object held), whether logging
/// goes on, and the screen size used for the cursor hint.
pub struct ClientSideInputApplication {
    pub has_keyboard: bool,
    pub has_pointer: bool,
    pub has_pool: bool,
    pub is_key_logging: bool,
    pub has_relative_pointer_manager: bool,
    pub has_relative_pointer: bool,
    pub has_pointer_constraints: bool,
    pub has_locked_pointer: bool,
    pub screen_width: u32,
    pub screen_height: u32,
    pub has_layer_surface: bool,
}

/// The state after a pointer-lock attempt: the pointer is locked when it was
/// already, or when pointer constraints, a pointer and the layer surface are all there.
pub open spec fn lock_attempted(a: ClientSideInputApplication) -> ClientSideInputApplication {
    ClientSideInputApplication {
        has_locked_pointer: a.has_locked_pointer || (a.has_pointer_constraints && a.has_pointer
            && a.has_layer_surface),
        ..a
    }
}

/// The cursor hint of a new pointer lock: the centre of the screen. There
/// is none when the pointer was locked already or cannot be locked.
pub open spec fn lock_hint(a: ClientSideInputApplication) -> Option<(u32, u32)> {
    if !a.has_locked_pointer && a.has_pointer_constraints && a.has_pointer && a.has_layer_surface {
        Some(((a.screen_width / 2) as u32, (a.screen_height / 2) as u32))
    } else {
        None
    }
}

/// The state after a configure: the pool exists and the pointer lock was tried.
pub open spec fn configured(a: ClientSideInputApplication) -> ClientSideInputApplication {
    lock_attempted(ClientSideInputApplication { has_pool: true, ..a })
}

impl ClientSideInputApplication {
    /// The state right after binding the globals: nothing bound yet, logging on.
    pub fn new(has_relative_pointer_manager: bool, has_pointer_constraints: bool) -> (app: Self)
        ensures
            !app.has_keyboard,
            !app.has_pointer,
            !app.has_pool,
            app.is_key_logging,
            app.has_relative_pointer_manager == has_relative_pointer_manager,
            !app.has_relative_pointer,
            app.has_pointer_constraints == has_pointer_constraints,
            !app.has_locked_pointer,
            app.screen_width == 0,
            app.screen_height == 0,
            !app.has_layer_surface,
    {
        ClientSideInputApplication {
            has_keyboard: false,
            has_pointer: false,
            has_pool: false,
            is_key_logging: true,
            has_relative_pointer_manager,
            has_relative_pointer: false,
            has_pointer_constraints,
            has_locked_pointer: false,
            screen_width: 0,
            screen_height: 0,
            has_layer_surface: false,
        }
    }

    /// The overlay layer surface has been created and committed.
    pub fn layer_surface_created(&mut self)
        ensures
            *final(self) == (ClientSideInputApplication { has_layer_surface: true, ..*old(self) }),
    {
        self.has_layer_surface = true;
    }

    /// Locks the pointer when it is not locked yet and pointer constraints, a
    /// pointer and the layer surface are all there (keeping the cursor off hot
    /// corners); returns the cursor hint to set on the new lock.
    pub fn try_lock_pointer(&mut self) -> (hint: Option<(u32, u32)>)
        ensures
            *final(self) == lock_attempted(*old(self)),
            hint == lock_hint(*old(self)),
    {
        if self.has_locked_pointer {
            return None;
        }
        if !(self.has_pointer_constraints && self.has_pointer && self.has_layer_surface) {
            return None;
        }
        self.has_locked_pointer = true;
        Some((self.screen_width / 2, self.screen_height / 2))
    }

    /// A key press with keysym `keysym` and raw code `raw_code`: the raw code
    /// is sent as a key-down, and Escape ends the logging.
    pub fn press_key(&mut self, keysym: u32, raw_code: u32) -> (e: ClientSideInput)
        ensures
            e == ClientSideInput::KeyDown(raw_code),
            *final(self) == (ClientSideInputApplication {
                is_key_logging: old(self).is_key_logging && keysym != KEYSYM_ESCAPE,
                ..*old(self)
            }),
    {
        if keysym_is_escape(keysym) {
            self.is_key_logging = false;
        }
        ClientSideInput::KeyDown(raw_code)
    }

    /// A key release: the raw code is sent as a key-up.
    pub fn release_key(&self, raw_code: u32) -> (e: ClientSideInput)
        ensures
            e == ClientSideInput::KeyUp(raw_code),
    {
        ClientSideInput::KeyUp(raw_code)
    }

    /// The events to send for a frame of pointer events.
    pub fn pointer_frame(&self, events: &Vec<PointerEventKind>) -> (out: Vec<ClientSideInput>)
        ensures
            out@ == pointer_inputs(events@),
    {
        let mut out: Vec<ClientSideInput> = Vec::new();
        let mut i: usize = 0;
        while i < events.len()
            invariant
                i <= events@.len(),
                out@ == pointer_inputs(events@.subrange(0, i as int)),
            decreases events@.len() - i,
        {
            let k = events[i];
            proof {
                assert(events@.subrange(0, i + 1).drop_last() =~= events@.subrange(0, i as int));
            }
            match k {
                PointerEventKind::Press { button } => out.push(ClientSideInput::MouseDown { button }),
                PointerEventKind::Release { button } => out.push(ClientSideInput::MouseUp { button }),
                PointerEventKind::Axis { horizontal, vertical } => out.push(
                    ClientSideInput::MouseScroll { dx: horizontal, dy: vertical },
                ),
                _ => {},
            }
            i = i + 1;
        }
        assert(events@.subrange(0, events@.len() as int) =~= events@);
        out
    }

    /// Relative pointer motion: the deltas are sent as a move, and a locked
    /// pointer gets its cursor hint set back to the centre of the screen.
    pub fn relative_motion(&self, dx: u64, dy: u64) -> (r: (ClientSideInput, Option<(u32, u32)>))
        ensures
            r.0 == (ClientSideInput::MouseMove { dx, dy }),
            r.1 == if self.has_locked_pointer {
                Some(((self.screen_width / 2) as u32, (self.screen_height / 2) as u32))
            } else {
                None
            },
    {
        let hint = if self.has_locked_pointer {
            Some((self.screen_width / 2, self.screen_height / 2))
        } else {
            None
        };
        (ClientSideInput::MouseMove { dx, dy }, hint)
    }

    /// A capability appeared on the seat: a keyboard is bound when there is
    /// none; a pointer is bound when there is none, together with a relative
    /// pointer when the relative-pointer manager is there, and then the
    /// pointer lock is tried.
    pub fn new_capability(&mut self, capability: SeatCapability) -> (plan: CapabilityPlan)
        ensures
            plan.bind_keyboard == (capability == SeatCapability::Keyboard && !old(self).has_keyboard),
            plan.bind_pointer == (capability == SeatCapability::Pointer && !old(self).has_pointer),
            plan.bind_relative_pointer == (plan.bind_pointer && old(self).has_relative_pointer_manager),
            plan.bind_keyboard ==> *final(self) == (ClientSideInputApplication {
                has_keyboard: true,
                ..*old(self)
            }) && plan.lock_hint is None,
            plan.bind_pointer ==> ({
                let bound = ClientSideInputApplication {
                    has_pointer: true,
                    has_relative_pointer: old(self).has_relative_pointer
                        || old(self).has_relative_pointer_manager,
                    ..*old(self)
                };
                &&& *final(self) == lock_attempted(bound)
                &&& plan.lock_hint == lock_hint(bound)
            }),
            !plan.bind_keyboard && !plan.bind_pointer ==> *final(self) == *old(self)
                && plan.lock_hint is None,
    {
        let mut plan = CapabilityPlan {
            bind_keyboard: false,
            bind_pointer: false,
            bind_relative_pointer: false,
            lock_hint: None,
        };
        if capability == SeatCapability::Keyboard && !self.has_keyboard {
            plan.bind_keyboard = true;
            self.has_keyboard = true;
        }
        if capability == SeatCapability::Pointer && !self.has_pointer {
            plan.bind_pointer = true;
            if self.has_relative_pointer_manager {
                plan.bind_relative_pointer = true;
                self.has_relative_pointer = true;
            }
            self.has_pointer = true;
            plan.lock_hint = self.try_lock_pointer();
        }
        plan
    }

    /// A capability disappeared from the seat: its objects are released.
    pub fn remove_capability(&mut self, capability: SeatCapability) -> (plan: RemovalPlan)
        ensures
            plan.release_keyboard == (capability == SeatCapability::Keyboard && old(self).has_keyboard),
            plan.destroy_relative_pointer == (capability == SeatCapability::Pointer
                && old(self).has_relative_pointer),
            plan.release_pointer == (capability == SeatCapability::Pointer && old(self).has_pointer),
            *final(self) == (ClientSideInputApplication {
                has_keyboard: old(self).has_keyboard && capability != SeatCapability::Keyboard,
                has_relative_pointer: old(self).has_relative_pointer && capability
                    != SeatCapability::Pointer,
                has_pointer: old(self).has_pointer && capability != SeatCapability::Pointer,
                ..*old(self)
            }),
    {
        let mut plan = RemovalPlan {
            release_keyboard: false,
            destroy_relative_pointer: false,
            release_pointer: false,
        };
        if capability == SeatCapability::Keyboard && self.has_keyboard {
            plan.release_keyboard = true;
            self.has_keyboard = false;
        }
        if capability == SeatCapability::Pointer {
            if self.has_relative_pointer {
                plan.destroy_relative_pointer = true;
                self.has_relative_pointer = false;
            }
            if self.has_pointer {
                plan.release_pointer = true;
                self.has_pointer = false;
            }
        }
        plan
    }

    /// The layer surface was closed: logging ends.
    pub fn closed(&mut self)
        ensures
            *final(self) == (ClientSideInputApplication { is_key_logging: false, ..*old(self) }),
    {
        self.is_key_logging = false;
    }

    /// The layer surface was configured with size `new_width` x `new_height`
    /// (zero meaning any size): the buffer is the configured size with each
    /// zero taken as one, four bytes per pixel; the pool, created once, holds
    /// one such buffer; then the pointer lock is tried.
    pub fn configure(&mut self, new_width: u32, new_height: u32) -> (plan: ConfigurePlan)
        requires
            !old(self).has_pool ==> at_least_one(new_width) * at_least_one(new_height) * 4
                <= u32::MAX,
            i32::MIN <= (at_least_one(new_width) as i32) * 4 <= i32::MAX,
        ensures
            plan.width == at_least_one(new_width) as i32,
            plan.height == at_least_one(new_height) as i32,
            plan.stride == (at_least_one(new_width) as i32) * 4,
            plan.pool_size == if old(self).has_pool {
                None
            } else {
                Some((at_least_one(new_width) * at_least_one(new_height) * 4) as usize)
            },
            *final(self) == configured(*old(self)),
            plan.lock_hint == lock_hint(ClientSideInputApplication { has_pool: true, ..*old(self) }),
    {
        let w = if new_width == 0 {
            1
        } else {
            new_width
        };
        let h = if new_height == 0 {
            1
        } else {
            new_height
        };
        let pool_size = if self.has_pool {
            None
        } else {
            self.has_pool = true;
            Some((w * h * 4) as usize)
        };
        let stride = w as i32 * 4;
        let lock_hint = self.try_lock_pointer();
        ConfigurePlan { width: w as i32, height: h as i32, stride, pool_size, lock_hint }
    }
}

/// The buffer pool is created by the first configure only: after any
/// configure the pool exists, so a later configure creates none.
pub proof fn lemma_pool_created_once(a: ClientSideInputApplication)
    ensures
        configured(a).has_pool,
        configured(configured(a)) == configured(a),
{
}

/// Once locked, the pointer stays locked, and a second lock attempt locks
/// nothing new and sets no hint.
pub proof fn lemma_lock_once(a: ClientSideInputApplication)
    ensures
        lock_attempted(a).has_locked_pointer || !a.has_locked_pointer,
        lock_attempted(lock_attempted(a)) == lock_attempted(a),
        lock_attempted(a).has_locked_pointer ==> lock_hint(lock_attempted(a)) is None,
{
}

/// A frame's events, one pointer event later: a press, a release or an axis
/// event appends exactly one event, the press or release of that button or
/// a scroll carrying the horizontal value as `dx` and the vertical value as
/// `dy` (whatever those values are); entering, leaving and motion append
/// nothing. So the output holds one event per press, release and axis
/// event of the frame, in order.
pub proof fn lemma_pointer_frame_step(ks: Seq<PointerEventKind>, k: PointerEventKind)
    ensures
        k matches PointerEventKind::Press { button } ==> pointer_inputs(ks.push(k)) == pointer_inputs(
            ks,
        ).push(ClientSideInput::MouseDown { button }),
        k matches PointerEventKind::Release { button } ==> pointer_inputs(ks.push(k))
            == pointer_inputs(ks).push(ClientSideInput::MouseUp { button }),
        k matches PointerEventKind::Axis { horizontal, vertical } ==> pointer_inputs(ks.push(k))
            == pointer_inputs(ks).push(ClientSideInput::MouseScroll { dx: horizontal, dy: vertical }),
        (k is Enter || k is Leave || k is Motion) ==> pointer_inputs(ks.push(k)) == pointer_inputs(
            ks,
        ),
        pointer_inputs(Seq::<PointerEventKind>::empty()) == Seq::<ClientSideInput>::empty(),
{
    assert(ks.push(k).drop_last() =~= ks);
}

/// A lock attempt locks only a pointer that is there: the pointer ends up
/// locked only if it was locked already or a pointer, pointer constraints
/// and the layer surface are all present; a cursor hint is given exactly
/// when the attempt newly locks, and then it is the centre of the screen.
/// Nothing but the lock changes.
pub proof fn lemma_lock_needs_pointer(a: ClientSideInputApplication)
    ensures
        lock_attempted(a).has_locked_pointer ==> a.has_locked_pointer || (a.has_pointer
            && a.has_pointer_constraints && a.has_layer_surface),
        a.has_locked_pointer ==> lock_attempted(a).has_locked_pointer,
        (a.has_pointer && a.has_pointer_constraints && a.has_layer_surface) ==> lock_attempted(
            a,
        ).has_locked_pointer,
        lock_hint(a) is Some <==> (!a.has_locked_pointer && lock_attempted(a).has_locked_pointer),
        lock_hint(a) is Some ==> a.has_pointer && a.has_pointer_constraints && a.has_layer_surface,
        lock_hint(a) is Some ==> lock_hint(a) == Some(
            ((a.screen_width / 2) as u32, (a.screen_height / 2) as u32),
        ),
        (ClientSideInputApplication { has_locked_pointer: a.has_locked_pointer, ..lock_attempted(a) })
            == a,
{
}

/// The configured size: zero becomes one, any other size is kept.
pub proof fn lemma_at_least_one(x: u32)
    ensures
        at_least_one(x) >= 1,
        x != 0 ==> at_least_one(x) == x,
        x == 0 ==> at_least_one(x) == 1,
{
}

} // verus!
