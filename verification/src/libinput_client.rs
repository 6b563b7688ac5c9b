use std::collections::HashMap;
use vstd::prelude::*;
use vstd::std_specs::hash::spec_keys_iter;
use vstd::std_specs::iter::IteratorSpec;
use vstd::utf8::{decode_utf8, valid_utf8};

use crate::event::ClientSideInput;
use crate::key_combiner::{combine_all, combine_output, combine_step, HeldModifiers, KeyCombiner, KEY_ESC};
use crate::text::{
    chars_of, contains_chars, contains_seq, decode_utf8_chars, has_whitespace_word, has_word,
};

verus! {

broadcast use {vstd::seq_lib::group_seq_properties, vstd::std_specs::hash::group_hash_axioms};

/// Mouse button names by evdev code, as the text that `button_name` returns.
pub open spec fn spec_button_name(code: u32) -> Seq<char> {
    if code == 0x110 {
        "BTN_LEFT"@
    } else if code == 0x111 {
        "BTN_RIGHT"@
    } else if code == 0x112 {
        "BTN_MIDDLE"@
    } else if code == 0x113 {
        "BTN_SIDE"@
    } else if code == 0x114 {
        "BTN_EXTRA"@
    } else {
        "BTN_?"@
    }
}

/// Button names: every code outside the five mouse buttons 0x110 to 0x114
/// is named `BTN_?`, each of the five has a name of its own (none of them
/// `BTN_?`), and every name starts with `BTN_`.
pub proof fn lemma_button_names(code: u32, other: u32)
    ensures
        (code < 0x110 || code > 0x114) ==> spec_button_name(code) == "BTN_?"@,
        0x110 <= code <= 0x114 ==> spec_button_name(code) != "BTN_?"@,
        0x110 <= code <= 0x114 && 0x110 <= other <= 0x114 && code != other ==> spec_button_name(code)
            != spec_button_name(other),
        spec_button_name(code).len() > 4 && spec_button_name(code).subrange(0, 4) == "BTN_"@,
{
    reveal_strlit("BTN_LEFT");
    reveal_strlit("BTN_RIGHT");
    reveal_strlit("BTN_MIDDLE");
    reveal_strlit("BTN_SIDE");
    reveal_strlit("BTN_EXTRA");
    reveal_strlit("BTN_?");
    reveal_strlit("BTN_");
    assert("BTN_LEFT"@.subrange(0, 4) =~= "BTN_"@);
    assert("BTN_RIGHT"@.subrange(0, 4) =~= "BTN_"@);
    assert("BTN_MIDDLE"@.subrange(0, 4) =~= "BTN_"@);
    assert("BTN_SIDE"@.subrange(0, 4) =~= "BTN_"@);
    assert("BTN_EXTRA"@.subrange(0, 4) =~= "BTN_"@);
    assert("BTN_?"@.subrange(0, 4) =~= "BTN_"@);
    assert("BTN_LEFT"@[4] != "BTN_RIGHT"@[4]);
    assert("BTN_SIDE"@[5] != "BTN_EXTRA"@[5]);
    assert("BTN_MIDDLE"@[4] != "BTN_SIDE"@[4]);
}

/// Human-readable name of an evdev mouse button code.
pub fn button_name(code: u32) -> (name: &'static str)
    ensures
        name@ == spec_button_name(code),
{
    match code {
        0x110 => "BTN_LEFT",
        0x111 => "BTN_RIGHT",
        0x112 => "BTN_MIDDLE",
        0x113 => "BTN_SIDE",
        0x114 => "BTN_EXTRA",
        _ => "BTN_?",
    }
}

/// Whether a device whose sysfs node resolves to `resolved` is a virtual
/// device (such as the WayVR virtual keyboard and mouse): its canonical path
/// passes through a `/virtual/` directory.
pub fn sysfs_path_is_virtual(resolved: &str) -> (r: bool)
    ensures
        r == contains_seq(resolved@, "/virtual/"@),
{
    let path = chars_of(resolved);
    let marker = chars_of("/virtual/");
    contains_chars(&path, &marker)
}

/// Whether the output of `id -Gn` lists the group `input` among its
/// whitespace-separated words; `None` (the command could not be run) and
/// output that is not UTF-8 count as not listed.
pub fn in_input_group(id_output: Option<Vec<u8>>) -> (r: bool)
    ensures
        r == match id_output {
            Some(bytes) => valid_utf8(bytes@) && has_word(decode_utf8(bytes@), "input"@),
            None => false,
        },
{
    match id_output {
        Some(bytes) => match decode_utf8_chars(bytes) {
            Some(text) => {
                let group = chars_of("input");
                has_whitespace_word(&text, &group)
            },
            None => false,
        },
        None => false,
    }
}

/// What the grab bookkeeping knows: the descriptors of the physical devices
/// libinput has opened, whether they are grabbed, and the sysfs names of the
/// virtual devices whose events are to be dropped.
pub struct GrabStateView {
    pub fds: Set<i32>,
    pub active: bool,
    pub virtual_sysnames: Set<Seq<char>>,
}

/// Exclusive-grab bookkeeping for the devices opened through libinput.
pub struct GrabState {
    fds: HashMap<i32, ()>,
    active: bool,
    virtual_sysnames: Vec<String>,
}

/// The text of each name in `names`.
pub open spec fn name_texts(names: Seq<String>) -> Seq<Seq<char>> {
    names.map_values(|n: String| n@)
}

impl GrabState {
    /// No virtual name occurs twice.
    #[verifier::type_invariant]
    spec fn well_formed(self) -> bool {
        name_texts(self.virtual_sysnames@).no_duplicates()
    }
}

impl View for GrabState {
    type V = GrabStateView;

    closed spec fn view(&self) -> GrabStateView {
        GrabStateView {
            fds: self.fds@.dom(),
            active: self.active,
            virtual_sysnames: name_texts(self.virtual_sysnames@).to_set(),
        }
    }
}

/// Whether `name` is one of `names`.
pub fn contains_name(names: &Vec<String>, name: &String) -> (r: bool)
    ensures
        r == name_texts(names@).contains(name@),
{
    let mut i: usize = 0;
    while i < names.len()
        invariant
            i <= names@.len(),
            forall|j: int| 0 <= j < i ==> names@[j]@ != name@,
        decreases names@.len() - i,
    {
        if names[i] == *name {
            assert(name_texts(names@)[i as int] == name@);
            return true;
        }
        i = i + 1;
    }
    assert forall|j: int| 0 <= j < name_texts(names@).len() implies name_texts(names@)[j]
        != name@ by {
        assert(name_texts(names@)[j] == names@[j]@);
    }
    false
}

/// The bookkeeping after libinput opens device `fd`: a virtual device is
/// never grabbed, and its sysfs name, when known, joins the dropped names; a
/// physical device joins the grabbed set.
pub open spec fn after_open(
    v: GrabStateView,
    fd: i32,
    sysname: Option<Seq<char>>,
    is_virtual: bool,
) -> GrabStateView {
    if is_virtual {
        GrabStateView {
            virtual_sysnames: match sysname {
                Some(name) => v.virtual_sysnames.insert(name),
                None => v.virtual_sysnames,
            },
            ..v
        }
    } else {
        GrabStateView { fds: v.fds.insert(fd), ..v }
    }
}

/// The bookkeeping after libinput closes `fd`.
pub open spec fn after_close(v: GrabStateView, fd: i32) -> GrabStateView {
    GrabStateView { fds: v.fds.remove(fd), ..v }
}

/// The bookkeeping after the grab is flipped.
pub open spec fn toggled(v: GrabStateView) -> GrabStateView {
    GrabStateView { active: !v.active, ..v }
}

/// Flipping the grab twice (Escape pressed twice) restores the bookkeeping.
pub proof fn lemma_toggle_twice(v: GrabStateView)
    ensures
        toggled(toggled(v)) == v,
{
}

/// Closing a physical device undoes its opening, and a virtual device never
/// joins the grabbed set; neither changes whether the grab is active.
pub proof fn lemma_open_close(v: GrabStateView, fd: i32, sysname: Option<Seq<char>>)
    ensures
        !v.fds.contains(fd) ==> after_close(after_open(v, fd, sysname, false), fd) == v,
        after_open(v, fd, sysname, true).fds == v.fds,
        after_open(v, fd, sysname, true).active == v.active,
        after_open(v, fd, sysname, false).active == v.active,
{
    if !v.fds.contains(fd) {
        assert(v.fds.insert(fd).remove(fd) =~= v.fds);
    }
}

/// Appending an element that is not there keeps a sequence free of duplicates.
proof fn lemma_push_no_duplicates<A>(s: Seq<A>, x: A)
    requires
        s.no_duplicates(),
        !s.contains(x),
    ensures
        s.push(x).no_duplicates(),
{
    assert forall|i: int, j: int|
        0 <= i < s.push(x).len() && 0 <= j < s.push(x).len() && i != j implies s.push(x)[i]
        != s.push(x)[j] by {
        if i == s.len() {
            assert(s[j] == s.push(x)[j]);
        } else if j == s.len() {
            assert(s[i] == s.push(x)[i]);
        }
    }
}

impl GrabState {
    /// Nothing opened, nothing grabbed.
    pub fn new() -> (st: Self)
        ensures
            st@ == (GrabStateView {
                fds: Set::<i32>::empty(),
                active: false,
                virtual_sysnames: Set::<Seq<char>>::empty(),
            }),
    {
        let st = GrabState { fds: HashMap::new(), active: false, virtual_sysnames: Vec::new() };
        proof {
            assert(st.fds@.dom() =~= Set::<i32>::empty());
            assert(name_texts(st.virtual_sysnames@) =~= Seq::<Seq<char>>::empty());
            assert(name_texts(st.virtual_sysnames@).to_set() =~= Set::<Seq<char>>::empty());
        }
        st
    }

    /// Whether the devices are grabbed.
    pub fn is_active(&self) -> (r: bool)
        ensures
            r == self@.active,
    {
        self.active
    }

    /// The descriptors of the opened physical devices, each once, in the
    /// order the map is walked.
    fn fd_list(&self) -> (fds: Vec<i32>)
        ensures
            fds@.to_set() == self@.fds,
            fds@.no_duplicates(),
    {
        let mut out: Vec<i32> = Vec::new();
        for fd in it: self.fds.keys()
            invariant
                out@ == it.seq().unref().take(it.index() as int),
                it.seq().unref().no_duplicates(),
                it.seq().unref().to_set() == self.fds@.dom(),
                it.index() == it.seq().len() ==> out@ == it.seq().unref(),
        {
            proof {
                assert(it.seq().unref().take(it.index() + 1) =~= it.seq().unref().take(
                    it.index() as int,
                ).push(*fd));
            }
            out.push(*fd);
        }
        out
    }

    /// Marks the devices grabbed and returns every descriptor to grab.
    pub fn grab_all(&mut self) -> (fds: Vec<i32>)
        ensures
            final(self)@ == (GrabStateView { active: true, ..old(self)@ }),
            fds@.to_set() == old(self)@.fds,
            fds@.no_duplicates(),
    {
        proof {
            use_type_invariant(&*self);
        }
        let fds = self.fd_list();
        self.active = true;
        fds
    }

    /// Marks the devices released and returns every descriptor to release.
    pub fn ungrab_all(&mut self) -> (fds: Vec<i32>)
        ensures
            final(self)@ == (GrabStateView { active: false, ..old(self)@ }),
            fds@.to_set() == old(self)@.fds,
            fds@.no_duplicates(),
    {
        proof {
            use_type_invariant(&*self);
        }
        let fds = self.fd_list();
        self.active = false;
        fds
    }

    /// Flips the grab: returns whether the devices are now grabbed, and every
    /// descriptor to grab or release accordingly.
    pub fn toggle_grab(&mut self) -> (r: (bool, Vec<i32>))
        ensures
            r.0 == !old(self)@.active,
            final(self)@ == toggled(old(self)@),
            r.1@.to_set() == old(self)@.fds,
            r.1@.no_duplicates(),
    {
        if self.active {
            (false, self.ungrab_all())
        } else {
            (true, self.grab_all())
        }
    }

    /// Records a device that libinput has just opened as `fd`. A virtual
    /// device is not grabbed; its sysfs name, when known, joins the names
    /// whose events are dropped. A physical device joins the grabbed set, and
    /// the result says whether it must be grabbed right away (a grab is active).
    pub fn device_opened(&mut self, fd: i32, sysname: Option<String>, is_virtual: bool) -> (grab_now: bool)
        ensures
            final(self)@ == after_open(
                old(self)@,
                fd,
                match sysname {
                    Some(name) => Some(name@),
                    None => None,
                },
                is_virtual,
            ),
            grab_now == (!is_virtual && old(self)@.active),
    {
        proof {
            use_type_invariant(&*self);
        }
        if is_virtual {
            match sysname {
                Some(name) => {
                    if !contains_name(&self.virtual_sysnames, &name) {
                        let ghost before = self.virtual_sysnames@;
                        let mut names: Vec<String> = Vec::new();
                        std::mem::swap(&mut names, &mut self.virtual_sysnames);
                        let ghost pushed = name@;
                        names.push(name);
                        proof {
                            assert(name_texts(names@) =~= name_texts(before).push(pushed));
                            lemma_push_no_duplicates(name_texts(before), pushed);
                        }
                        self.virtual_sysnames = names;
                        proof {
                            assert(name_texts(self.virtual_sysnames@) =~= name_texts(before).push(
                                name@,
                            ));
                            name_texts(before).lemma_push_to_set_commute(name@);
                            assert(name_texts(self.virtual_sysnames@).to_set() =~= name_texts(
                                before,
                            ).to_set().insert(name@));
                        }
                    } else {
                        assert(name_texts(self.virtual_sysnames@).to_set().insert(name@)
                            =~= name_texts(self.virtual_sysnames@).to_set());
                    }
                },
                None => {},
            }
            false
        } else {
            let ghost before = self.fds@;
            let mut fds: HashMap<i32, ()> = HashMap::new();
            std::mem::swap(&mut fds, &mut self.fds);
            fds.insert(fd, ());
            self.fds = fds;
            proof {
                assert(self.fds@.dom() =~= before.dom().insert(fd));
            }
            self.active
        }
    }

    /// Forgets a descriptor that libinput has closed (closing it ends its grab).
    pub fn device_closed(&mut self, fd: i32)
        ensures
            final(self)@ == after_close(old(self)@, fd),
    {
        proof {
            use_type_invariant(&*self);
        }
        let ghost before = self.fds@;
        let mut fds: HashMap<i32, ()> = HashMap::new();
        std::mem::swap(&mut fds, &mut self.fds);
        fds.remove(&fd);
        self.fds = fds;
        proof {
            assert(self.fds@.dom() =~= before.dom().remove(fd));
        }
    }

    /// The sysfs names of the virtual devices seen so far.
    pub fn virtual_sysnames(&self) -> (names: Vec<String>)
        ensures
            name_texts(names@).to_set() == self@.virtual_sysnames,
    {
        let names = self.virtual_sysnames.clone();
        assert(name_texts(names@) =~= name_texts(self.virtual_sysnames@)) by {
            assert forall|i: int| 0 <= i < names@.len() implies names@[i]@ == self.virtual_sysnames@[i]@ by {
                assert(cloned::<String>(self.virtual_sysnames[i], names[i]));
            }
        }
        names
    }
}

/// A libinput event, reduced to the values the routing reads. Deltas and
/// scroll values are `f64` bit patterns; a scroll axis the event does not
/// have is `None`.
#[derive(Clone, Copy, Debug, PartialEq, Eq)]
pub enum LibinputEvent {
    Key { key: u32, pressed: bool },
    PointerMotion { dx: u64, dy: u64 },
    PointerButton { button: u32, pressed: bool },
    ScrollWheel { horizontal: Option<u64>, vertical: Option<u64> },
    ScrollFinger { horizontal: Option<u64>, vertical: Option<u64> },
    ScrollContinuous { horizontal: Option<u64>, vertical: Option<u64> },
    Other,
}

/// What the input thread does with one libinput event.
#[derive(Clone, Copy, Debug, PartialEq, Eq)]
pub enum InputAction {
    /// Nothing is sent.
    Drop,
    /// Escape was pressed: flip the exclusive grab.
    ToggleGrab,
    /// Send this event to the consumer.
    Send(ClientSideInput),
}

/// The scroll value of an axis, zero (the bits of `0.0`) when the event lacks the axis.
pub open spec fn scroll_bits(axis: Option<u64>) -> u64 {
    match axis {
        Some(v) => v,
        None => 0,
    }
}

/// The scroll value of an axis, zero (the bits of `0.0`) when the event lacks the axis.
pub fn scroll_delta(axis: Option<u64>) -> (d: u64)
    ensures
        d == scroll_bits(axis),
        axis matches Some(v) ==> d == v,
        axis is None ==> d == 0,
{
    match axis {
        Some(v) => v,
        None => 0,
    }
}

/// The key event for a key press or release.
pub open spec fn key_event(key: u32, pressed: bool) -> ClientSideInput {
    if pressed {
        ClientSideInput::KeyDown(key)
    } else {
        ClientSideInput::KeyUp(key)
    }
}

/// What happens to event `e` when the modifiers `m` are held and the event
/// comes from a virtual device or not: events of virtual devices are dropped;
/// Escape flips the grab on press and is dropped on release; other keys go
/// through the key combiner; motion, buttons and wheel scrolling are sent;
/// finger and continuous scrolling and other events are dropped.
pub open spec fn route_action(m: HeldModifiers, from_virtual: bool, e: LibinputEvent) -> InputAction {
    if from_virtual {
        InputAction::Drop
    } else {
        match e {
            LibinputEvent::Key { key, pressed } => {
                if key == KEY_ESC {
                    if pressed {
                        InputAction::ToggleGrab
                    } else {
                        InputAction::Drop
                    }
                } else {
                    InputAction::Send(combine_output(m, key_event(key, pressed)))
                }
            },
            LibinputEvent::PointerMotion { dx, dy } => InputAction::Send(
                ClientSideInput::MouseMove { dx, dy },
            ),
            LibinputEvent::PointerButton { button, pressed } => InputAction::Send(
                if pressed {
                    ClientSideInput::MouseDown { button }
                } else {
                    ClientSideInput::MouseUp { button }
                },
            ),
            LibinputEvent::ScrollWheel { horizontal, vertical } => InputAction::Send(
                ClientSideInput::MouseScroll { dx: scroll_bits(horizontal), dy: scroll_bits(vertical) },
            ),
            _ => InputAction::Drop,
        }
    }
}

/// The modifiers held after event `e`: only keys other than Escape from
/// physical devices reach the key combiner.
pub open spec fn route_state(m: HeldModifiers, from_virtual: bool, e: LibinputEvent) -> HeldModifiers {
    match e {
        LibinputEvent::Key { key, pressed } => {
            if !from_virtual && key != KEY_ESC {
                combine_step(m, key_event(key, pressed))
            } else {
                m
            }
        },
        _ => m,
    }
}

/// The routing state of the libinput input thread: the key combiner that
/// key events pass through.
pub struct LibInputApplication {
    key_combiner: KeyCombiner,
}

impl View for LibInputApplication {
    type V = HeldModifiers;

    closed spec fn view(&self) -> HeldModifiers {
        self.key_combiner@
    }
}

impl LibInputApplication {
    /// Routing with no modifier held.
    pub fn new() -> (app: Self)
        ensures
            app@ == crate::key_combiner::no_modifiers(),
    {
        LibInputApplication { key_combiner: KeyCombiner::new() }
    }

    /// Decides what to do with one event from the device named `sysname`,
    /// given the names of the virtual devices known before the events were
    /// dispatched.
    pub fn handle_event(
        &mut self,
        virtual_sysnames: &Vec<String>,
        sysname: &String,
        event: LibinputEvent,
    ) -> (action: InputAction)
        ensures
            action == route_action(
                old(self)@,
                name_texts(virtual_sysnames@).contains(sysname@),
                event,
            ),
            final(self)@ == route_state(
                old(self)@,
                name_texts(virtual_sysnames@).contains(sysname@),
                event,
            ),
    {
        if contains_name(virtual_sysnames, sysname) {
            return InputAction::Drop;
        }
        match event {
            LibinputEvent::Key { key, pressed } => {
                if key == KEY_ESC {
                    if pressed {
                        InputAction::ToggleGrab
                    } else {
                        InputAction::Drop
                    }
                } else if pressed {
                    InputAction::Send(self.key_combiner.process(ClientSideInput::KeyDown(key)))
                } else {
                    InputAction::Send(self.key_combiner.process(ClientSideInput::KeyUp(key)))
                }
            },
            LibinputEvent::PointerMotion { dx, dy } => InputAction::Send(
                ClientSideInput::MouseMove { dx, dy },
            ),
            LibinputEvent::PointerButton { button, pressed } => {
                if pressed {
                    InputAction::Send(ClientSideInput::MouseDown { button })
                } else {
                    InputAction::Send(ClientSideInput::MouseUp { button })
                }
            },
            LibinputEvent::ScrollWheel { horizontal, vertical } => {
                let dx = scroll_delta(horizontal);
                let dy = scroll_delta(vertical);
                InputAction::Send(ClientSideInput::MouseScroll { dx, dy })
            },
            _ => InputAction::Drop,
        }
    }
}

/// Escape belongs to the grab: no press or release of it is ever sent to the
/// consumer, and events of virtual devices are never sent and leave the
/// routing state as it was.
pub proof fn lemma_escape_and_virtual_never_sent(m: HeldModifiers, from_virtual: bool, e: LibinputEvent)
    ensures
        route_action(m, from_virtual, e) != InputAction::Send(ClientSideInput::KeyDown(KEY_ESC)),
        route_action(m, from_virtual, e) != InputAction::Send(ClientSideInput::KeyUp(KEY_ESC)),
        from_virtual ==> route_action(m, from_virtual, e) == InputAction::Drop,
        from_virtual ==> route_state(m, from_virtual, e) == m,
{
}

/// An event as the input thread receives it: whether its device is one of
/// the known virtual devices, and the event itself.
pub type DeliveredEvent = (bool, LibinputEvent);

/// The modifiers held after the thread has routed `evs`, starting from `m`.
pub open spec fn route_modifiers(m: HeldModifiers, evs: Seq<DeliveredEvent>) -> HeldModifiers
    decreases evs.len(),
{
    if evs.len() == 0 {
        m
    } else {
        route_state(route_modifiers(m, evs.drop_last()), evs.last().0, evs.last().1)
    }
}

/// Whether the grab is active after the thread has routed `evs`, starting
/// with `active` and modifiers `m`: every `ToggleGrab` flips it.
pub open spec fn grab_after(active: bool, m: HeldModifiers, evs: Seq<DeliveredEvent>) -> bool
    decreases evs.len(),
{
    if evs.len() == 0 {
        active
    } else {
        let before = grab_after(active, m, evs.drop_last());
        let mods = route_modifiers(m, evs.drop_last());
        if route_action(mods, evs.last().0, evs.last().1) == InputAction::ToggleGrab {
            !before
        } else {
            before
        }
    }
}

/// The number of Escape presses from physical devices in `evs`.
pub open spec fn escape_presses(evs: Seq<DeliveredEvent>) -> nat
    decreases evs.len(),
{
    if evs.len() == 0 {
        0
    } else {
        escape_presses(evs.drop_last()) + if !evs.last().0 && evs.last().1 == (LibinputEvent::Key {
            key: KEY_ESC,
            pressed: true,
        }) {
            1nat
        } else {
            0nat
        }
    }
}

/// The events the thread sends for the key events among `evs`, in order.
pub open spec fn key_sends(m: HeldModifiers, evs: Seq<DeliveredEvent>) -> Seq<ClientSideInput>
    decreases evs.len(),
{
    if evs.len() == 0 {
        Seq::empty()
    } else {
        let earlier = key_sends(m, evs.drop_last());
        let mods = route_modifiers(m, evs.drop_last());
        match route_action(mods, evs.last().0, evs.last().1) {
            InputAction::Send(e) => if evs.last().1 is Key {
                earlier.push(e)
            } else {
                earlier
            },
            _ => earlier,
        }
    }
}

/// The non-Escape key events of physical devices among `evs`, in order, as
/// key-downs and key-ups.
pub open spec fn physical_keys(evs: Seq<DeliveredEvent>) -> Seq<ClientSideInput>
    decreases evs.len(),
{
    if evs.len() == 0 {
        Seq::empty()
    } else {
        let earlier = physical_keys(evs.drop_last());
        match evs.last().1 {
            LibinputEvent::Key { key, pressed } => if !evs.last().0 && key != KEY_ESC {
                earlier.push(key_event(key, pressed))
            } else {
                earlier
            },
            _ => earlier,
        }
    }
}

/// What one combiner, starting with modifiers `m`, returns for `keys` fed in order.
pub open spec fn combine_outputs(m: HeldModifiers, keys: Seq<ClientSideInput>) -> Seq<ClientSideInput>
    decreases keys.len(),
{
    if keys.len() == 0 {
        Seq::empty()
    } else {
        combine_outputs(m, keys.drop_last()).push(
            combine_output(combine_all(m, keys.drop_last()), keys.last()),
        )
    }
}

/// Escape parity: starting from an active grab (the thread grabs all devices
/// before its loop), after any events the grab is active exactly when the
/// number of Escape presses from physical devices among them is even.
pub proof fn lemma_grab_parity(m: HeldModifiers, evs: Seq<DeliveredEvent>)
    ensures
        grab_after(true, m, evs) == (escape_presses(evs) % 2 == 0),
    decreases evs.len(),
{
    if evs.len() > 0 {
        lemma_grab_parity(m, evs.drop_last());
    }
}

/// Key routing over a whole run: the events the thread sends for key events
/// are exactly what one combiner, created with the thread, returns when fed
/// the non-Escape keys of physical devices in order; and the routing's
/// modifiers are that combiner's state.
pub proof fn lemma_key_sends_are_one_combiner(m: HeldModifiers, evs: Seq<DeliveredEvent>)
    ensures
        key_sends(m, evs) == combine_outputs(m, physical_keys(evs)),
        route_modifiers(m, evs) == combine_all(m, physical_keys(evs)),
    decreases evs.len(),
{
    if evs.len() > 0 {
        lemma_key_sends_are_one_combiner(m, evs.drop_last());
        let pk = physical_keys(evs.drop_last());
        match evs.last().1 {
            LibinputEvent::Key { key, pressed } => {
                if !evs.last().0 && key != KEY_ESC {
                    let pk2 = pk.push(key_event(key, pressed));
                    assert(pk2.drop_last() =~= pk);
                    assert(physical_keys(evs) == pk2);
                }
            },
            _ => {},
        }
    }
}

/// Opening devices only ever adds to the bookkeeping. A virtual device with
/// a known sysfs name adds exactly that name and keeps every name recorded
/// before (so events of all virtual devices seen so far stay dropped); one
/// without a name changes nothing; a physical device adds exactly its
/// descriptor. Closing removes exactly that descriptor. No open or close
/// changes whether the grab is active.
pub proof fn lemma_open_close_effects(v: GrabStateView, fd: i32, name: Seq<char>)
    ensures
        after_open(v, fd, Some(name), true).virtual_sysnames == v.virtual_sysnames.insert(name),
        v.virtual_sysnames.subset_of(after_open(v, fd, Some(name), true).virtual_sysnames),
        after_open(v, fd, Some(name), true).virtual_sysnames.contains(name),
        after_open(v, fd, Some(name), true).fds == v.fds,
        after_open(v, fd, None, true) == v,
        after_open(v, fd, Some(name), false).fds == v.fds.insert(fd),
        after_open(v, fd, Some(name), false).virtual_sysnames == v.virtual_sysnames,
        after_open(v, fd, None, false).fds.contains(fd),
        v.fds.subset_of(after_open(v, fd, None, false).fds),
        after_close(v, fd).fds == v.fds.remove(fd),
        !after_close(v, fd).fds.contains(fd),
        after_close(v, fd).virtual_sysnames == v.virtual_sysnames,
        after_open(v, fd, Some(name), true).active == v.active,
        after_open(v, fd, Some(name), false).active == v.active,
        after_close(v, fd).active == v.active,
        toggled(v).active == !v.active,
        toggled(v).fds == v.fds,
        toggled(v).virtual_sysnames == v.virtual_sysnames,
{
    assert(v.virtual_sysnames.subset_of(v.virtual_sysnames.insert(name)));
    assert(v.fds.subset_of(v.fds.insert(fd)));
}

/// Routing of the events of physical devices: pointer motion is sent with
/// its deltas; a button is sent as a press or release of that button; a
/// wheel scroll is sent with the horizontal value as `dx` and the vertical
/// value as `dy`, each zero (the bits of `0.0`) when the event lacks that
/// axis; Escape presses flip the grab and Escape releases are dropped; any
/// other key that is not Z or X, or any key while Meta is not held, is sent
/// as the same key press or release.
pub proof fn lemma_physical_routing(m: HeldModifiers, e: LibinputEvent)
    ensures
        e matches LibinputEvent::PointerMotion { dx, dy } ==> route_action(m, false, e)
            == InputAction::Send(ClientSideInput::MouseMove { dx, dy }),
        e matches LibinputEvent::PointerButton { button, pressed } ==> route_action(m, false, e)
            == InputAction::Send(
            if pressed {
                ClientSideInput::MouseDown { button }
            } else {
                ClientSideInput::MouseUp { button }
            },
        ),
        e matches LibinputEvent::ScrollWheel { horizontal, vertical } ==> route_action(m, false, e)
            == InputAction::Send(
            ClientSideInput::MouseScroll {
                dx: match horizontal {
                    Some(x) => x,
                    None => 0u64,
                },
                dy: match vertical {
                    Some(y) => y,
                    None => 0u64,
                },
            },
        ),
        e matches LibinputEvent::Key { key, pressed } ==> (key == KEY_ESC ==> route_action(
            m,
            false,
            e,
        ) == if pressed {
            InputAction::ToggleGrab
        } else {
            InputAction::Drop
        }),
        e matches LibinputEvent::Key { key, pressed } ==> ((key != KEY_ESC && (!m.lmeta || (key
            != crate::key_combiner::KEY_Z && key != crate::key_combiner::KEY_X))) ==> route_action(
            m,
            false,
            e,
        ) == InputAction::Send(
            if pressed {
                ClientSideInput::KeyDown(key)
            } else {
                ClientSideInput::KeyUp(key)
            },
        )),
        (e is ScrollFinger || e is ScrollContinuous || e is Other) ==> route_action(m, false, e)
            == InputAction::Drop,
        !(e is Key) ==> route_state(m, false, e) == m,
{
}

} // verus!
