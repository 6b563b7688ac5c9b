use vstd::prelude::*;

use crate::event::ClientSideInput;

verus! {

/// Linux evdev key codes (include/uapi/linux/input-event-codes.h).
pub const KEY_ESC: u32 = 1;
pub const KEY_LEFTCTRL: u32 = 29;
pub const KEY_Z: u32 = 44;
pub const KEY_X: u32 = 45;
pub const KEY_LEFTALT: u32 = 56;
pub const KEY_LEFTMETA: u32 = 125;

/// Which of the tracked left-hand modifier keys are held down.
#[derive(Clone, Copy, Debug, PartialEq, Eq, Structural)]
pub struct HeldModifiers {
    pub lctrl: bool,
    pub lalt: bool,
    pub lmeta: bool,
}

/// Watches the key stream for modifier chords and rewrites the chords
/// Meta+Z and Meta+X into debug events; everything else passes through.
pub struct KeyCombiner {
    lctrl_pressed: bool,
    lalt_pressed: bool,
    lmeta_pressed: bool,
}

impl View for KeyCombiner {
    type V = HeldModifiers;

    closed spec fn view(&self) -> HeldModifiers {
        HeldModifiers {
            lctrl: self.lctrl_pressed,
            lalt: self.lalt_pressed,
            lmeta: self.lmeta_pressed,
        }
    }
}

/// Nothing held.
pub open spec fn no_modifiers() -> HeldModifiers {
    HeldModifiers { lctrl: false, lalt: false, lmeta: false }
}

/// The modifier state after one event: a key-down of a tracked modifier
/// marks it held, a key-up releases it, anything else leaves the state as it is.
pub open spec fn combine_step(m: HeldModifiers, e: ClientSideInput) -> HeldModifiers {
    match e {
        ClientSideInput::KeyDown(code) => {
            if code == KEY_LEFTCTRL {
                HeldModifiers { lctrl: true, ..m }
            } else if code == KEY_LEFTALT {
                HeldModifiers { lalt: true, ..m }
            } else if code == KEY_LEFTMETA {
                HeldModifiers { lmeta: true, ..m }
            } else {
                m
            }
        },
        ClientSideInput::KeyUp(code) => {
            if code == KEY_LEFTCTRL {
                HeldModifiers { lctrl: false, ..m }
            } else if code == KEY_LEFTALT {
                HeldModifiers { lalt: false, ..m }
            } else if code == KEY_LEFTMETA {
                HeldModifiers { lmeta: false, ..m }
            } else {
                m
            }
        },
        _ => m,
    }
}

/// The event forwarded for `e` given the modifiers held before it:
/// Z pressed with Meta held becomes debug code 1, X becomes debug code 2,
/// every other event is forwarded as it is.
pub open spec fn combine_output(m: HeldModifiers, e: ClientSideInput) -> ClientSideInput {
    match e {
        ClientSideInput::KeyDown(code) => {
            if m.lmeta && code == KEY_Z {
                ClientSideInput::SpecialDebug { code: 1 }
            } else if m.lmeta && code == KEY_X {
                ClientSideInput::SpecialDebug { code: 2 }
            } else {
                e
            }
        },
        _ => e,
    }
}

/// The modifier state after feeding `events` in order, starting from `m`.
pub open spec fn combine_all(m: HeldModifiers, events: Seq<ClientSideInput>) -> HeldModifiers
    decreases events.len(),
{
    if events.len() == 0 {
        m
    } else {
        combine_step(combine_all(m, events.drop_last()), events.last())
    }
}

/// Whether the last event of `events` that presses or releases key `code`
/// presses it; `None` when no event touches that key.
pub open spec fn last_press(events: Seq<ClientSideInput>, code: u32) -> Option<bool>
    decreases events.len(),
{
    if events.len() == 0 {
        None
    } else if events.last() == ClientSideInput::KeyDown(code) {
        Some(true)
    } else if events.last() == ClientSideInput::KeyUp(code) {
        Some(false)
    } else {
        last_press(events.drop_last(), code)
    }
}

/// Whether key `code` is held after `events`, given whether it was held before.
pub open spec fn held_after(before: bool, events: Seq<ClientSideInput>, code: u32) -> bool {
    match last_press(events, code) {
        Some(pressed) => pressed,
        None => before,
    }
}

/// Each modifier flag of the combiner, after any sequence of events, says
/// whether the last press or release of that key was a press (and keeps its
/// earlier value when the key did not occur at all).
pub proof fn lemma_modifiers_follow_last_press(m: HeldModifiers, events: Seq<ClientSideInput>)
    ensures
        combine_all(m, events) == (HeldModifiers {
            lctrl: held_after(m.lctrl, events, KEY_LEFTCTRL),
            lalt: held_after(m.lalt, events, KEY_LEFTALT),
            lmeta: held_after(m.lmeta, events, KEY_LEFTMETA),
        }),
    decreases events.len(),
{
    if events.len() > 0 {
        lemma_modifiers_follow_last_press(m, events.drop_last());
    }
}

/// Meta+Z and Meta+X: right after a Meta press, Z becomes debug code 1 and X
/// debug code 2; right after a Meta release both keys are forwarded as they are.
pub proof fn lemma_meta_chords(m: HeldModifiers)
    ensures
        combine_output(combine_step(m, ClientSideInput::KeyDown(KEY_LEFTMETA)), ClientSideInput::KeyDown(KEY_Z))
            == (ClientSideInput::SpecialDebug { code: 1 }),
        combine_output(combine_step(m, ClientSideInput::KeyDown(KEY_LEFTMETA)), ClientSideInput::KeyDown(KEY_X))
            == (ClientSideInput::SpecialDebug { code: 2 }),
        combine_output(combine_step(m, ClientSideInput::KeyUp(KEY_LEFTMETA)), ClientSideInput::KeyDown(KEY_Z))
            == ClientSideInput::KeyDown(KEY_Z),
        combine_output(combine_step(m, ClientSideInput::KeyUp(KEY_LEFTMETA)), ClientSideInput::KeyDown(KEY_X))
            == ClientSideInput::KeyDown(KEY_X),
{
}

/// The combiner rewrites nothing but the two Meta chords: any event it does
/// not forward unchanged is a press of Z or X while Meta is held, and the
/// events other than key presses and releases leave the modifiers as they are.
pub proof fn lemma_only_chords_rewritten(m: HeldModifiers, e: ClientSideInput)
    ensures
        combine_output(m, e) != e ==> m.lmeta && (e == ClientSideInput::KeyDown(KEY_Z) || e
            == ClientSideInput::KeyDown(KEY_X)),
        !(e is KeyDown) && !(e is KeyUp) ==> combine_step(m, e) == m,
{
}

impl KeyCombiner {
    /// A combiner with no modifier held.
    pub fn new() -> (kc: Self)
        ensures
            kc@ == no_modifiers(),
    {
        KeyCombiner { lctrl_pressed: false, lalt_pressed: false, lmeta_pressed: false }
    }

    /// The modifiers currently held.
    pub fn modifiers(&self) -> (m: HeldModifiers)
        ensures
            m == self@,
    {
        HeldModifiers {
            lctrl: self.lctrl_pressed,
            lalt: self.lalt_pressed,
            lmeta: self.lmeta_pressed,
        }
    }

    /// Feeds one event through the combiner and returns the event to forward.
    pub fn process(&mut self, e: ClientSideInput) -> (out: ClientSideInput)
        ensures
            final(self)@ == combine_step(old(self)@, e),
            out == combine_output(old(self)@, e),
    {
        match e {
            ClientSideInput::KeyDown(code) => {
                if code == KEY_LEFTCTRL {
                    self.lctrl_pressed = true;
                    e
                } else if code == KEY_LEFTALT {
                    self.lalt_pressed = true;
                    e
                } else if code == KEY_LEFTMETA {
                    self.lmeta_pressed = true;
                    e
                } else if code == KEY_Z {
                    if self.lmeta_pressed {
                        ClientSideInput::SpecialDebug { code: 1 }
                    } else {
                        e
                    }
                } else if code == KEY_X {
                    if self.lmeta_pressed {
                        ClientSideInput::SpecialDebug { code: 2 }
                    } else {
                        e
                    }
                } else {
                    e
                }
            },
            ClientSideInput::KeyUp(code) => {
                if code == KEY_LEFTCTRL {
                    self.lctrl_pressed = false;
                } else if code == KEY_LEFTALT {
                    self.lalt_pressed = false;
                } else if code == KEY_LEFTMETA {
                    self.lmeta_pressed = false;
                }
                e
            },
            _ => e,
        }
    }
}

} // verus!
