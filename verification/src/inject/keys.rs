//! Keyboard events: virtual keys, modifier flags and the keys a chord holds.
use vstd::prelude::*;

use crate::key_combo::{ChordModel, KeyCombo, KeyUsage};

verus! {

/// The virtual keys of the letters, in alphabetical order.
pub const LETTERS: [u16; 26] = [
    0x00, 0x0b, 0x08, 0x02, 0x0e, 0x03, 0x05, 0x04, 0x22, 0x26, 0x28, 0x25, 0x2e, 0x2d, 0x1f,
    0x23, 0x0c, 0x0f, 0x01, 0x11, 0x20, 0x09, 0x0d, 0x07, 0x10, 0x06,
];

/// The virtual keys of the digits, from one to nine and then zero.
pub const DIGITS: [u16; 10] = [
    0x12, 0x13, 0x14, 0x15, 0x17, 0x16, 0x1a, 0x1c, 0x19, 0x1d,
];

/// The virtual keys of the function keys, in order.
pub const FUNCTIONS: [u16; 20] = [
    0x7a, 0x78, 0x63, 0x76, 0x60, 0x61, 0x62, 0x64, 0x65, 0x6d, 0x67, 0x6f, 0x69, 0x6b, 0x71,
    0x6a, 0x40, 0x4f, 0x50, 0x5a,
];

/// The virtual key of a USB HID keyboard usage, if it has one.
pub open spec fn virtual_key(usage: u8) -> Option<u16> {
    match usage {
        0x04 => Some(0x00),
        0x05 => Some(0x0b),
        0x06 => Some(0x08),
        0x07 => Some(0x02),
        0x08 => Some(0x0e),
        0x09 => Some(0x03),
        0x0a => Some(0x05),
        0x0b => Some(0x04),
        0x0c => Some(0x22),
        0x0d => Some(0x26),
        0x0e => Some(0x28),
        0x0f => Some(0x25),
        0x10 => Some(0x2e),
        0x11 => Some(0x2d),
        0x12 => Some(0x1f),
        0x13 => Some(0x23),
        0x14 => Some(0x0c),
        0x15 => Some(0x0f),
        0x16 => Some(0x01),
        0x17 => Some(0x11),
        0x18 => Some(0x20),
        0x19 => Some(0x09),
        0x1a => Some(0x0d),
        0x1b => Some(0x07),
        0x1c => Some(0x10),
        0x1d => Some(0x06),
        0x1e => Some(0x12),
        0x1f => Some(0x13),
        0x20 => Some(0x14),
        0x21 => Some(0x15),
        0x22 => Some(0x17),
        0x23 => Some(0x16),
        0x24 => Some(0x1a),
        0x25 => Some(0x1c),
        0x26 => Some(0x19),
        0x27 => Some(0x1d),
        0x28 => Some(0x24),
        0x29 => Some(0x35),
        0x2a => Some(0x33),
        0x2b => Some(0x30),
        0x2c => Some(0x31),
        0x2d => Some(0x1b),
        0x2e => Some(0x18),
        0x2f => Some(0x21),
        0x30 => Some(0x1e),
        0x31 => Some(0x2a),
        0x33 => Some(0x29),
        0x34 => Some(0x27),
        0x35 => Some(0x32),
        0x36 => Some(0x2b),
        0x37 => Some(0x2f),
        0x38 => Some(0x2c),
        0x3a => Some(0x7a),
        0x3b => Some(0x78),
        0x3c => Some(0x63),
        0x3d => Some(0x76),
        0x3e => Some(0x60),
        0x3f => Some(0x61),
        0x40 => Some(0x62),
        0x41 => Some(0x64),
        0x42 => Some(0x65),
        0x43 => Some(0x6d),
        0x44 => Some(0x67),
        0x45 => Some(0x6f),
        0x4a => Some(0x73),
        0x4b => Some(0x74),
        0x4c => Some(0x75),
        0x4d => Some(0x77),
        0x4e => Some(0x79),
        0x4f => Some(0x7c),
        0x50 => Some(0x7b),
        0x51 => Some(0x7d),
        0x52 => Some(0x7e),
        0x68 => Some(0x69),
        0x69 => Some(0x6b),
        0x6a => Some(0x71),
        0x6b => Some(0x6a),
        0x6c => Some(0x40),
        0x6d => Some(0x4f),
        0x6e => Some(0x50),
        0x6f => Some(0x5a),
        _ => None,
    }
}

/// Map a USB HID keyboard usage to a virtual key.
pub fn hid_usage_to_macos(usage: u8) -> (key: Option<u16>)
    ensures
        key == virtual_key(usage),
{
    match usage {
        0x04..=0x1d => Some(LETTERS[(usage - 0x04) as usize]),
        0x1e..=0x27 => Some(DIGITS[(usage - 0x1e) as usize]),
        0x3a..=0x45 => Some(FUNCTIONS[(usage - 0x3a) as usize]),
        0x68..=0x6f => Some(FUNCTIONS[(usage - 0x68 + 12) as usize]),
        0x28 => Some(0x24),
        0x29 => Some(0x35),
        0x2a => Some(0x33),
        0x2b => Some(0x30),
        0x2c => Some(0x31),
        0x2d => Some(0x1b),
        0x2e => Some(0x18),
        0x2f => Some(0x21),
        0x30 => Some(0x1e),
        0x31 => Some(0x2a),
        0x33 => Some(0x29),
        0x34 => Some(0x27),
        0x35 => Some(0x32),
        0x36 => Some(0x2b),
        0x37 => Some(0x2f),
        0x38 => Some(0x2c),
        0x4a => Some(0x73),
        0x4b => Some(0x74),
        0x4c => Some(0x75),
        0x4d => Some(0x77),
        0x4e => Some(0x79),
        0x4f => Some(0x7c),
        0x50 => Some(0x7b),
        0x51 => Some(0x7d),
        0x52 => Some(0x7e),
        _ => None,
    }
}

/// An edge of a key.
#[derive(Clone, Copy, Debug, PartialEq, Eq, Structural)]
pub enum KeyPhase {
    Down,
    Up,
}

/// A modifier in a keyboard event's flags.
#[derive(Clone, Copy, Debug, PartialEq, Eq, Structural)]
pub enum EventFlag {
    Shift,
    Control,
    Alternate,
    Command,
}

/// The modifier flags of a keyboard event.
#[derive(Clone, Copy, Debug, PartialEq, Eq, Structural)]
pub struct EventFlags {
    pub shift: bool,
    pub control: bool,
    pub alternate: bool,
    pub command: bool,
}

impl EventFlags {
    /// Whether a modifier is set.
    pub open spec fn has(self, flag: EventFlag) -> bool {
        match flag {
            EventFlag::Shift => self.shift,
            EventFlag::Control => self.control,
            EventFlag::Alternate => self.alternate,
            EventFlag::Command => self.command,
        }
    }

    /// The flags a chord is pressed with.
    pub open spec fn of_chord(chord: ChordModel) -> EventFlags {
        EventFlags {
            shift: chord.shift,
            control: chord.control,
            alternate: chord.option,
            command: chord.command,
        }
    }

    /// The flags of the modifiers that are held.
    pub open spec fn of_held(modifiers: HeldModifiers) -> EventFlags {
        EventFlags {
            shift: modifiers.shift,
            control: modifiers.control,
            alternate: modifiers.alt,
            command: modifiers.command,
        }
    }

    /// Whether a modifier is set.
    pub fn contains(self, flag: EventFlag) -> (contains: bool)
        ensures
            contains == self.has(flag),
    {
        match flag {
            EventFlag::Shift => self.shift,
            EventFlag::Control => self.control,
            EventFlag::Alternate => self.alternate,
            EventFlag::Command => self.command,
        }
    }

    /// The flags as the system's event-flag bits: shift, control, alternate and command from bit
    /// seventeen up.
    pub fn bits(self) -> (bits: u64)
        ensures
            bits == (if self.shift {
                0x2_0000int
            } else {
                0
            }) + (if self.control {
                0x4_0000int
            } else {
                0
            }) + (if self.alternate {
                0x8_0000int
            } else {
                0
            }) + (if self.command {
                0x10_0000int
            } else {
                0
            }),
    {
        let mut bits: u64 = 0;
        if self.shift {
            bits = bits + 0x2_0000;
        }
        if self.control {
            bits = bits + 0x4_0000;
        }
        if self.alternate {
            bits = bits + 0x8_0000;
        }
        if self.command {
            bits = bits + 0x10_0000;
        }
        bits
    }
}

/// The flags a chord is pressed with.
pub fn combo_flags(combo: &KeyCombo) -> (flags: EventFlags)
    ensures
        flags == EventFlags::of_chord(combo@),
{
    EventFlags {
        shift: combo.has_shift(),
        control: combo.has_control(),
        alternate: combo.has_option(),
        command: combo.has_command(),
    }
}

/// A physical key that a chord holds.
#[derive(Clone, Copy, Debug, PartialEq, Eq, Structural)]
pub enum HeldKey {
    Command,
    Shift,
    Alt,
    Control,
    Key(KeyUsage),
}

impl HeldKey {
    /// The virtual key, if it has one. Every modifier has one.
    pub open spec fn code(self) -> Option<u16> {
        match self {
            HeldKey::Command => Some(0x37),
            HeldKey::Shift => Some(0x38),
            HeldKey::Alt => Some(0x3a),
            HeldKey::Control => Some(0x3b),
            HeldKey::Key(key) => virtual_key(key.usage),
        }
    }
}

/// The modifiers held by every chord together.
#[derive(Clone, Copy, Debug, PartialEq, Eq, Structural)]
pub struct HeldModifiers {
    pub command: bool,
    pub shift: bool,
    pub alt: bool,
    pub control: bool,
}

impl Default for HeldModifiers {
    /// Nothing held.
    fn default() -> (modifiers: Self)
        ensures
            modifiers == HeldModifiers::released(),
    {
        HeldModifiers { command: false, shift: false, alt: false, control: false }
    }
}

impl HeldModifiers {
    /// Nothing held.
    pub open spec fn released() -> Self {
        HeldModifiers { command: false, shift: false, alt: false, control: false }
    }

    /// Whether a key is among the held modifiers. A key that is no modifier never is.
    pub open spec fn has(self, key: HeldKey) -> bool {
        match key {
            HeldKey::Command => self.command,
            HeldKey::Shift => self.shift,
            HeldKey::Alt => self.alt,
            HeldKey::Control => self.control,
            HeldKey::Key(_) => false,
        }
    }

    /// The modifiers after an edge of a key. A key that is no modifier changes nothing.
    pub open spec fn after(self, key: HeldKey, held: bool) -> Self {
        match key {
            HeldKey::Command => HeldModifiers { command: held, ..self },
            HeldKey::Shift => HeldModifiers { shift: held, ..self },
            HeldKey::Alt => HeldModifiers { alt: held, ..self },
            HeldKey::Control => HeldModifiers { control: held, ..self },
            HeldKey::Key(_) => self,
        }
    }

    /// The modifiers after an edge of each of the keys, in order.
    pub open spec fn after_all(self, keys: Seq<HeldKey>, held: bool) -> Self
        decreases keys.len(),
    {
        if keys.len() == 0 {
            self
        } else {
            self.after_all(keys.drop_last(), held).after(keys.last(), held)
        }
    }

    /// Whether a key is among the held modifiers.
    pub fn contains(self, key: HeldKey) -> (contains: bool)
        ensures
            contains == self.has(key),
    {
        match key {
            HeldKey::Command => self.command,
            HeldKey::Shift => self.shift,
            HeldKey::Alt => self.alt,
            HeldKey::Control => self.control,
            HeldKey::Key(_) => false,
        }
    }

    /// Records an edge of a key.
    pub fn set(&mut self, key: HeldKey, held: bool)
        ensures
            *final(self) == old(self).after(key, held),
    {
        match key {
            HeldKey::Command => self.command = held,
            HeldKey::Shift => self.shift = held,
            HeldKey::Alt => self.alt = held,
            HeldKey::Control => self.control = held,
            HeldKey::Key(_) => {},
        }
    }
}

/// One keyboard edge to post.
#[derive(Clone, Copy, Debug, PartialEq, Eq, Structural)]
pub struct KeyEdge {
    pub key: u16,
    pub flags: EventFlags,
    pub phase: KeyPhase,
}

/// The edges to post for keys that change in order, with the modifiers held together after each.
/// A key without a virtual key posts nothing.
pub open spec fn held_edges(
    modifiers: HeldModifiers,
    keys: Seq<HeldKey>,
    phase: KeyPhase,
) -> Seq<KeyEdge>
    decreases keys.len(),
{
    if keys.len() == 0 {
        Seq::empty()
    } else {
        let before = held_edges(modifiers, keys.drop_last(), phase);
        match keys.last().code() {
            Some(key) => before.push(
                KeyEdge {
                    key,
                    flags: EventFlags::of_held(modifiers.after_all(keys, phase == KeyPhase::Down)),
                    phase,
                },
            ),
            None => before,
        }
    }
}

/// The order in which keys change: they go down in order and come up in reverse.
pub open spec fn edge_order(keys: Seq<HeldKey>, phase: KeyPhase) -> Seq<HeldKey> {
    match phase {
        KeyPhase::Down => keys,
        KeyPhase::Up => keys.reverse(),
    }
}

/// The flags of the modifiers that are held.
pub fn held_modifier_flags(modifiers: HeldModifiers) -> (flags: EventFlags)
    ensures
        flags == EventFlags::of_held(modifiers),
{
    EventFlags {
        shift: modifiers.contains(HeldKey::Shift),
        control: modifiers.contains(HeldKey::Control),
        alternate: modifiers.contains(HeldKey::Alt),
        command: modifiers.contains(HeldKey::Command),
    }
}

/// Records an edge of a key; the virtual key to post, with the modifiers held together after it.
pub fn held_key_event(key: HeldKey, phase: KeyPhase, modifiers: &mut HeldModifiers) -> (event:
    Option<(u16, EventFlags)>)
    ensures
        *final(modifiers) == old(modifiers).after(key, phase == KeyPhase::Down),
        event == (match key.code() {
            Some(code) => Some((code, EventFlags::of_held(*final(modifiers)))),
            None => None,
        }),
{
    modifiers.set(key, phase == KeyPhase::Down);
    let code: Option<u16> = match key {
        HeldKey::Command => Some(0x37),
        HeldKey::Shift => Some(0x38),
        HeldKey::Alt => Some(0x3a),
        HeldKey::Control => Some(0x3b),
        HeldKey::Key(usage) => hid_usage_to_macos(usage.code()),
    };
    match code {
        Some(code) => Some((code, held_modifier_flags(*modifiers))),
        None => None,
    }
}

/// The edges to post for the keys whose shared ownership changed, and the modifiers held together
/// afterwards.
pub fn hold_keys(keys: &[HeldKey], phase: KeyPhase, modifiers: HeldModifiers) -> (result: (
    HeldModifiers,
    Vec<KeyEdge>,
))
    ensures
        result.0 == modifiers.after_all(edge_order(keys@, phase), phase == KeyPhase::Down),
        result.1@ == held_edges(modifiers, edge_order(keys@, phase), phase),
{
    let ghost order = edge_order(keys@, phase);
    let mut held: HeldModifiers = modifiers;
    let mut edges: Vec<KeyEdge> = Vec::new();
    let mut i: usize = 0;
    while i < keys.len()
        invariant
            i <= keys.len(),
            order == edge_order(keys@, phase),
            held == modifiers.after_all(order.take(i as int), phase == KeyPhase::Down),
            edges@ == held_edges(modifiers, order.take(i as int), phase),
        decreases keys.len() - i,
    {
        let key: HeldKey = match phase {
            KeyPhase::Down => keys[i],
            KeyPhase::Up => keys[keys.len() - 1 - i],
        };
        proof {
            assert(key == order[i as int]);
            assert(order.take(i + 1).drop_last() =~= order.take(i as int));
            assert(order.take(i + 1).last() == key);
        }
        match held_key_event(key, phase, &mut held) {
            Some((code, flags)) => edges.push(KeyEdge { key: code, flags, phase }),
            None => {},
        }
        i = i + 1;
    }
    proof {
        assert(order.take(keys.len() as int) =~= order);
    }
    (held, edges)
}

/// The usage a virtual key belongs to.
spec fn usage_of(key: u16) -> u8 {
    match key {
        0x00 => 0x04,
        0x01 => 0x16,
        0x02 => 0x07,
        0x03 => 0x09,
        0x04 => 0x0b,
        0x05 => 0x0a,
        0x06 => 0x1d,
        0x07 => 0x1b,
        0x08 => 0x06,
        0x09 => 0x19,
        0x0b => 0x05,
        0x0c => 0x14,
        0x0d => 0x1a,
        0x0e => 0x08,
        0x0f => 0x15,
        0x10 => 0x1c,
        0x11 => 0x17,
        0x12 => 0x1e,
        0x13 => 0x1f,
        0x14 => 0x20,
        0x15 => 0x21,
        0x16 => 0x23,
        0x17 => 0x22,
        0x18 => 0x2e,
        0x19 => 0x26,
        0x1a => 0x24,
        0x1b => 0x2d,
        0x1c => 0x25,
        0x1d => 0x27,
        0x1e => 0x30,
        0x1f => 0x12,
        0x20 => 0x18,
        0x21 => 0x2f,
        0x22 => 0x0c,
        0x23 => 0x13,
        0x24 => 0x28,
        0x25 => 0x0f,
        0x26 => 0x0d,
        0x27 => 0x34,
        0x28 => 0x0e,
        0x29 => 0x33,
        0x2a => 0x31,
        0x2b => 0x36,
        0x2c => 0x38,
        0x2d => 0x11,
        0x2e => 0x10,
        0x2f => 0x37,
        0x30 => 0x2b,
        0x31 => 0x2c,
        0x32 => 0x35,
        0x33 => 0x2a,
        0x35 => 0x29,
        0x40 => 0x6c,
        0x4f => 0x6d,
        0x50 => 0x6e,
        0x5a => 0x6f,
        0x60 => 0x3e,
        0x61 => 0x3f,
        0x62 => 0x40,
        0x63 => 0x3c,
        0x64 => 0x41,
        0x65 => 0x42,
        0x67 => 0x44,
        0x69 => 0x68,
        0x6a => 0x6b,
        0x6b => 0x69,
        0x6d => 0x43,
        0x6f => 0x45,
        0x71 => 0x6a,
        0x73 => 0x4a,
        0x74 => 0x4b,
        0x75 => 0x4c,
        0x76 => 0x3d,
        0x77 => 0x4d,
        0x78 => 0x3b,
        0x79 => 0x4e,
        0x7a => 0x3a,
        0x7b => 0x50,
        0x7c => 0x4f,
        0x7d => 0x51,
        0x7e => 0x52,
        _ => 0,
    }
}

/// Exactly the keys that have a name can be pressed.
pub proof fn law_named_keys_can_be_pressed(usage: u8)
    ensures
        virtual_key(usage) is Some <==> crate::key_combo::is_named(usage),
{
}

/// No two keys share a virtual key.
pub proof fn law_virtual_keys_are_distinct(a: u8, b: u8)
    requires
        virtual_key(a) is Some,
        virtual_key(a) == virtual_key(b),
    ensures
        a == b,
{
    assert(usage_of(virtual_key(a)->0) == a);
    assert(usage_of(virtual_key(b)->0) == b);
}

/// An edge carries every modifier that is held after it and no other, whichever chord holds it.
pub proof fn law_edges_carry_the_aggregate(
    modifiers: HeldModifiers,
    keys: Seq<HeldKey>,
    phase: KeyPhase,
)
    requires
        keys.len() > 0,
        keys.last().code() is Some,
    ensures
        ({
            let after = modifiers.after_all(keys, phase == KeyPhase::Down);
            let flags = held_edges(modifiers, keys, phase).last().flags;
            &&& flags.command == after.has(HeldKey::Command)
            &&& flags.shift == after.has(HeldKey::Shift)
            &&& flags.control == after.has(HeldKey::Control)
            &&& flags.alternate == after.has(HeldKey::Alt)
        }),
{
}

/// Whether any of the keys is held as a modifier.
pub open spec fn holds_any(modifiers: HeldModifiers, keys: Seq<HeldKey>) -> bool {
    exists|i: int| 0 <= i < keys.len() && #[trigger] modifiers.has(keys[i])
}

/// Pressing keys that were not held and releasing them again leaves the modifiers as they were.
pub proof fn law_release_undoes_press(modifiers: HeldModifiers, keys: Seq<HeldKey>)
    requires
        !holds_any(modifiers, keys),
    ensures
        modifiers.after_all(edge_order(keys, KeyPhase::Down), true).after_all(
            edge_order(keys, KeyPhase::Up),
            false,
        ) == modifiers,
{
    let down = modifiers.after_all(keys, true);
    let up = down.after_all(keys.reverse(), false);
    assert forall|key: HeldKey| up.has(key) == modifiers.has(key) by {
        lemma_after_all(modifiers, keys, true, key);
        lemma_after_all(down, keys.reverse(), false, key);
        assert(keys.contains(key) <==> keys.reverse().contains(key)) by {
            if keys.contains(key) {
                let i = choose|i: int| 0 <= i < keys.len() && keys[i] == key;
                assert(keys.reverse()[keys.len() - 1 - i] == key);
            }
            if keys.reverse().contains(key) {
                let i = choose|i: int| 0 <= i < keys.len() && keys.reverse()[i] == key;
                assert(keys[keys.len() - 1 - i] == key);
            }
        }
        if keys.contains(key) {
            let i = choose|i: int| 0 <= i < keys.len() && keys[i] == key;
            assert(!modifiers.has(keys[i]));
        }
    }
    assert(up.has(HeldKey::Command) == modifiers.has(HeldKey::Command));
    assert(up.has(HeldKey::Shift) == modifiers.has(HeldKey::Shift));
    assert(up.has(HeldKey::Alt) == modifiers.has(HeldKey::Alt));
    assert(up.has(HeldKey::Control) == modifiers.has(HeldKey::Control));
}

/// After edges of keys, a modifier among them is as the edges left it and any other as before.
proof fn lemma_after_all(modifiers: HeldModifiers, keys: Seq<HeldKey>, held: bool, key: HeldKey)
    ensures
        modifiers.after_all(keys, held).has(key) == (if keys.contains(key) && key !is Key {
            held
        } else {
            modifiers.has(key)
        }),
    decreases keys.len(),
{
    if keys.len() > 0 {
        let rest = keys.drop_last();
        lemma_after_all(modifiers, rest, held, key);
        assert(keys.contains(key) <==> rest.contains(key) || keys.last() == key) by {
            if keys.contains(key) {
                let i = choose|i: int| 0 <= i < keys.len() && keys[i] == key;
                if i < rest.len() {
                    assert(rest[i] == key);
                }
            }
            if rest.contains(key) {
                let i = choose|i: int| 0 <= i < rest.len() && rest[i] == key;
                assert(keys[i] == key);
            }
            assert(keys[keys.len() - 1] == keys.last());
        }
    }
}

} // verus!
