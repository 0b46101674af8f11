//! Key chords: a keyboard key, named by its USB HID usage, with modifiers.
//!
//! A chord is written as its modifiers and its key joined by `+`, such as `Cmd+Shift+Z`.
use vstd::prelude::*;
use vstd::string::StringExecFns;

verus! {

/// A key, by its USB HID keyboard usage.
#[derive(Clone, Copy, Debug, PartialEq, Eq, Hash, PartialOrd, Ord, Structural)]
pub struct KeyUsage {
    pub usage: u8,
}

impl KeyUsage {
    /// The key with a usage code.
    pub fn new(usage: u8) -> (key: Self)
        ensures
            key.usage == usage,
    {
        KeyUsage { usage }
    }

    /// The usage code.
    pub fn code(self) -> (usage: u8)
        ensures
            usage == self.usage,
    {
        self.usage
    }
}

/// A key chord.
#[derive(Clone, Copy, Debug, PartialEq, Eq, Hash, PartialOrd, Ord, Structural)]
pub struct KeyCombo {
    pub command: bool,
    pub control: bool,
    pub option: bool,
    pub shift: bool,
    pub key: KeyUsage,
}

/// The name of a key; a question mark for a key without one.
pub open spec fn key_name(usage: u8) -> Seq<char> {
    match usage {
        0x04 => "A"@,
        0x05 => "B"@,
        0x06 => "C"@,
        0x07 => "D"@,
        0x08 => "E"@,
        0x09 => "F"@,
        0x0a => "G"@,
        0x0b => "H"@,
        0x0c => "I"@,
        0x0d => "J"@,
        0x0e => "K"@,
        0x0f => "L"@,
        0x10 => "M"@,
        0x11 => "N"@,
        0x12 => "O"@,
        0x13 => "P"@,
        0x14 => "Q"@,
        0x15 => "R"@,
        0x16 => "S"@,
        0x17 => "T"@,
        0x18 => "U"@,
        0x19 => "V"@,
        0x1a => "W"@,
        0x1b => "X"@,
        0x1c => "Y"@,
        0x1d => "Z"@,
        0x1e => "1"@,
        0x1f => "2"@,
        0x20 => "3"@,
        0x21 => "4"@,
        0x22 => "5"@,
        0x23 => "6"@,
        0x24 => "7"@,
        0x25 => "8"@,
        0x26 => "9"@,
        0x27 => "0"@,
        0x28 => "Return"@,
        0x29 => "Escape"@,
        0x2a => "Backspace"@,
        0x2b => "Tab"@,
        0x2c => "Space"@,
        0x2d => "-"@,
        0x2e => "="@,
        0x2f => "["@,
        0x30 => "]"@,
        0x31 => "\\"@,
        0x33 => ";"@,
        0x34 => "'"@,
        0x35 => "`"@,
        0x36 => ","@,
        0x37 => "."@,
        0x38 => "/"@,
        0x3a => "F1"@,
        0x3b => "F2"@,
        0x3c => "F3"@,
        0x3d => "F4"@,
        0x3e => "F5"@,
        0x3f => "F6"@,
        0x40 => "F7"@,
        0x41 => "F8"@,
        0x42 => "F9"@,
        0x43 => "F10"@,
        0x44 => "F11"@,
        0x45 => "F12"@,
        0x4a => "Home"@,
        0x4b => "PageUp"@,
        0x4c => "Delete"@,
        0x4d => "End"@,
        0x4e => "PageDown"@,
        0x4f => "Right"@,
        0x50 => "Left"@,
        0x51 => "Down"@,
        0x52 => "Up"@,
        0x68 => "F13"@,
        0x69 => "F14"@,
        0x6a => "F15"@,
        0x6b => "F16"@,
        0x6c => "F17"@,
        0x6d => "F18"@,
        0x6e => "F19"@,
        0x6f => "F20"@,
        _ => "?"@,
    }
}

/// Whether a key has a name.
pub open spec fn is_named(usage: u8) -> bool {
    ||| 0x04 <= usage <= 0x31
    ||| 0x33 <= usage <= 0x38
    ||| 0x3a <= usage <= 0x45
    ||| 0x4a <= usage <= 0x52
    ||| 0x68 <= usage <= 0x6f
}

/// The key a single character names; letters may be written small.
pub open spec fn key_of_char(c: char) -> Option<u8> {
    if 'A' <= c <= 'Z' {
        Some((c as u32 - 'A' as u32 + 0x04) as u8)
    } else if 'a' <= c <= 'z' {
        Some((c as u32 - 'a' as u32 + 0x04) as u8)
    } else if '1' <= c <= '9' {
        Some((c as u32 - '1' as u32 + 0x1e) as u8)
    } else if c == '0' {
        Some(0x27)
    } else if c == '-' {
        Some(0x2d)
    } else if c == '=' {
        Some(0x2e)
    } else if c == '[' {
        Some(0x2f)
    } else if c == ']' {
        Some(0x30)
    } else if c == '\\' {
        Some(0x31)
    } else if c == ';' {
        Some(0x33)
    } else if c == '\'' {
        Some(0x34)
    } else if c == '`' {
        Some(0x35)
    } else if c == ',' {
        Some(0x36)
    } else if c == '.' {
        Some(0x37)
    } else if c == '/' {
        Some(0x38)
    } else {
        None
    }
}

/// The key a word names.
pub open spec fn key_of_word(name: Seq<char>) -> Option<u8> {
    if name.len() == 0 {
        None
    } else if name == "Return"@ {
        Some(0x28)
    } else if name == "Escape"@ {
        Some(0x29)
    } else if name == "Backspace"@ {
        Some(0x2a)
    } else if name == "Tab"@ {
        Some(0x2b)
    } else if name == "Space"@ {
        Some(0x2c)
    } else if name == "Home"@ {
        Some(0x4a)
    } else if name == "PageUp"@ {
        Some(0x4b)
    } else if name == "Delete"@ {
        Some(0x4c)
    } else if name == "End"@ {
        Some(0x4d)
    } else if name == "PageDown"@ {
        Some(0x4e)
    } else if name == "Right"@ {
        Some(0x4f)
    } else if name == "Left"@ {
        Some(0x50)
    } else if name == "Down"@ {
        Some(0x51)
    } else if name == "Up"@ {
        Some(0x52)
    } else if name == "F1"@ {
        Some(0x3a)
    } else if name == "F2"@ {
        Some(0x3b)
    } else if name == "F3"@ {
        Some(0x3c)
    } else if name == "F4"@ {
        Some(0x3d)
    } else if name == "F5"@ {
        Some(0x3e)
    } else if name == "F6"@ {
        Some(0x3f)
    } else if name == "F7"@ {
        Some(0x40)
    } else if name == "F8"@ {
        Some(0x41)
    } else if name == "F9"@ {
        Some(0x42)
    } else if name == "F10"@ {
        Some(0x43)
    } else if name == "F11"@ {
        Some(0x44)
    } else if name == "F12"@ {
        Some(0x45)
    } else if name == "F13"@ {
        Some(0x68)
    } else if name == "F14"@ {
        Some(0x69)
    } else if name == "F15"@ {
        Some(0x6a)
    } else if name == "F16"@ {
        Some(0x6b)
    } else if name == "F17"@ {
        Some(0x6c)
    } else if name == "F18"@ {
        Some(0x6d)
    } else if name == "F19"@ {
        Some(0x6e)
    } else if name == "F20"@ {
        Some(0x6f)
    } else {
        None
    }
}

/// The key a name names.
pub open spec fn key_of(name: Seq<char>) -> Option<u8> {
    if name.len() == 1 {
        key_of_char(name[0])
    } else {
        key_of_word(name)
    }
}

/// A modifier of a chord.
#[derive(Clone, Copy, Debug, PartialEq, Eq, Structural)]
pub enum Modifier {
    Command,
    Control,
    Option,
    Shift,
}

impl Modifier {
    /// How the modifier is written in front of a key.
    pub open spec fn prefix(self) -> Seq<char> {
        match self {
            Modifier::Command => "Cmd+"@,
            Modifier::Control => "Ctrl+"@,
            Modifier::Option => "Alt+"@,
            Modifier::Shift => "Shift+"@,
        }
    }
}

/// The modifier a text begins with.
pub open spec fn leading_modifier(text: Seq<char>) -> Option<Modifier> {
    if "Cmd+"@.is_prefix_of(text) {
        Some(Modifier::Command)
    } else if "Ctrl+"@.is_prefix_of(text) {
        Some(Modifier::Control)
    } else if "Alt+"@.is_prefix_of(text) {
        Some(Modifier::Option)
    } else if "Shift+"@.is_prefix_of(text) {
        Some(Modifier::Shift)
    } else {
        None
    }
}

/// The usage and modifiers of a chord.
pub struct ChordModel {
    pub command: bool,
    pub control: bool,
    pub option: bool,
    pub shift: bool,
    pub usage: u8,
}

impl ChordModel {
    /// A key without modifiers.
    pub open spec fn plain(usage: u8) -> Self {
        ChordModel { command: false, control: false, option: false, shift: false, usage }
    }

    /// The chord with a modifier added.
    pub open spec fn with(self, modifier: Modifier) -> Self {
        match modifier {
            Modifier::Command => ChordModel { command: true, ..self },
            Modifier::Control => ChordModel { control: true, ..self },
            Modifier::Option => ChordModel { option: true, ..self },
            Modifier::Shift => ChordModel { shift: true, ..self },
        }
    }

    /// The chord as a value.
    pub open spec fn combo(self) -> KeyCombo {
        KeyCombo {
            command: self.command,
            control: self.control,
            option: self.option,
            shift: self.shift,
            key: KeyUsage { usage: self.usage },
        }
    }

    /// How the chord is written.
    pub open spec fn text(self) -> Seq<char> {
        let key = key_name(self.usage);
        let shifted = if self.shift {
            "Shift+"@ + key
        } else {
            key
        };
        let optioned = if self.option {
            "Alt+"@ + shifted
        } else {
            shifted
        };
        let controlled = if self.control {
            "Ctrl+"@ + optioned
        } else {
            optioned
        };
        if self.command {
            "Cmd+"@ + controlled
        } else {
            controlled
        }
    }
}

/// The chord a text spells: modifiers, then a key.
pub open spec fn chord_of(text: Seq<char>) -> Option<ChordModel>
    decreases text.len(),
{
    match leading_modifier(text) {
        Some(modifier) => {
            proof {
                lemma_prefix_lengths();
            }
            match chord_of(text.skip(modifier.prefix().len() as int)) {
                Some(chord) => Some(chord.with(modifier)),
                None => None,
            }
        },
        None => match key_of(text) {
            Some(usage) => Some(ChordModel::plain(usage)),
            None => None,
        },
    }
}

/// Every modifier is written with at least four characters.
pub proof fn lemma_prefix_lengths()
    ensures
        Modifier::Command.prefix().len() == 4,
        Modifier::Control.prefix().len() == 5,
        Modifier::Option.prefix().len() == 4,
        Modifier::Shift.prefix().len() == 6,
{
    reveal_strlit("Cmd+");
    reveal_strlit("Ctrl+");
    reveal_strlit("Alt+");
    reveal_strlit("Shift+");
}

/// A text that does not spell a chord.
#[derive(Clone, Copy, Debug, PartialEq, Eq, Structural)]
pub struct KeyComboError;

impl View for KeyCombo {
    type V = ChordModel;

    open spec fn view(&self) -> ChordModel {
        ChordModel {
            command: self.command,
            control: self.control,
            option: self.option,
            shift: self.shift,
            usage: self.key.usage,
        }
    }
}

impl KeyCombo {
    /// The key of the chord.
    pub fn key(&self) -> (key: KeyUsage)
        ensures
            key == self.key,
    {
        self.key
    }

    pub fn has_command(&self) -> (has: bool)
        ensures
            has == self.command,
    {
        self.command
    }

    pub fn has_control(&self) -> (has: bool)
        ensures
            has == self.control,
    {
        self.control
    }

    pub fn has_option(&self) -> (has: bool)
        ensures
            has == self.option,
    {
        self.option
    }

    pub fn has_shift(&self) -> (has: bool)
        ensures
            has == self.shift,
    {
        self.shift
    }

    /// Reads a chord such as `Cmd+Shift+Z`.
    pub fn parse(text: &str) -> (combo: Result<KeyCombo, KeyComboError>)
        ensures
            match chord_of(text@) {
                Some(chord) => combo is Ok && combo->Ok_0@ == chord,
                None => combo is Err,
            },
    {
        let chars: Vec<char> = characters(text);
        match parse_from(&chars, 0) {
            Some(combo) => {
                assert(chars@.skip(0) =~= chars@);
                Ok(combo)
            },
            None => {
                assert(chars@.skip(0) =~= chars@);
                Err(KeyComboError)
            },
        }
    }

    /// The chord as text.
    pub fn rendered_label(&self) -> (label: String)
        ensures
            label@ == self@.text(),
    {
        let mut label: String = String::new();
        let ghost key = key_name(self.key.usage);
        if self.command {
            label.append("Cmd+");
        }
        if self.control {
            label.append("Ctrl+");
        }
        if self.option {
            label.append("Alt+");
        }
        if self.shift {
            label.append("Shift+");
        }
        label.append(key_label(self.key.code()));
        assert(label@ =~= self@.text());
        label
    }
}

/// The characters of a text.
pub(crate) fn characters(text: &str) -> (chars: Vec<char>)
    ensures
        chars@ == text@,
{
    let mut chars: Vec<char> = Vec::new();
    let length: usize = text.unicode_len();
    let mut i: usize = 0;
    while i < length
        invariant
            i <= length,
            length == text@.len(),
            chars@ == text@.take(i as int),
        decreases length - i,
    {
        chars.push(text.get_char(i));
        assert(chars@ =~= text@.take(i as int + 1));
        i = i + 1;
    }
    assert(text@.take(i as int) =~= text@);
    chars
}

/// Whether the characters from a position on begin with a word.
fn begins(chars: &Vec<char>, from: usize, word: &str) -> (begins: bool)
    requires
        from <= chars@.len(),
    ensures
        begins == word@.is_prefix_of(chars@.skip(from as int)),
{
    let length: usize = word.unicode_len();
    let total: usize = chars.len();
    let ghost rest = chars@.skip(from as int);
    if length > total - from {
        return false;
    }
    let mut i: usize = 0;
    while i < length
        invariant
            i <= length,
            total == chars@.len(),
            length == word@.len(),
            from <= chars@.len(),
            length <= chars@.len() - from,
            rest == chars@.skip(from as int),
            forall|j: int| 0 <= j < i ==> word@[j] == rest[j],
        decreases length - i,
    {
        if word.get_char(i) != chars[from + i] {
            assert(word@[i as int] != rest[i as int]);
            assert(!(word@ =~= rest.take(length as int))) by {
                assert(rest.take(length as int)[i as int] == rest[i as int]);
            }
            return false;
        }
        i = i + 1;
    }
    assert(word@ =~= rest.take(length as int));
    true
}

/// Whether the characters from a position on are exactly a word.
fn spells(chars: &Vec<char>, from: usize, word: &str) -> (spells: bool)
    requires
        from <= chars@.len(),
    ensures
        spells == (chars@.skip(from as int) == word@),
{
    let ghost rest = chars@.skip(from as int);
    if word.unicode_len() != chars.len() - from {
        return false;
    }
    let same: bool = begins(chars, from, word);
    proof {
        assert(rest.take(rest.len() as int) =~= rest);
    }
    same
}

/// The key that the characters from a position on name.
fn key_from(chars: &Vec<char>, from: usize) -> (usage: Option<u8>)
    requires
        from <= chars@.len(),
    ensures
        usage == key_of(chars@.skip(from as int)),
{
    if chars.len() - from == 1 {
        char_key(chars[from])
    } else {
        word_key(chars, from)
    }
}

fn char_key(c: char) -> (usage: Option<u8>)
    ensures
        usage == key_of_char(c),
{
    if 'A' <= c && c <= 'Z' {
        Some((c as u32 - 'A' as u32 + 0x04) as u8)
    } else if 'a' <= c && c <= 'z' {
        Some((c as u32 - 'a' as u32 + 0x04) as u8)
    } else if '1' <= c && c <= '9' {
        Some((c as u32 - '1' as u32 + 0x1e) as u8)
    } else if c == '0' {
        Some(0x27)
    } else if c == '-' {
        Some(0x2d)
    } else if c == '=' {
        Some(0x2e)
    } else if c == '[' {
        Some(0x2f)
    } else if c == ']' {
        Some(0x30)
    } else if c == '\\' {
        Some(0x31)
    } else if c == ';' {
        Some(0x33)
    } else if c == '\'' {
        Some(0x34)
    } else if c == '`' {
        Some(0x35)
    } else if c == ',' {
        Some(0x36)
    } else if c == '.' {
        Some(0x37)
    } else if c == '/' {
        Some(0x38)
    } else {
        None
    }
}

fn word_key(chars: &Vec<char>, from: usize) -> (usage: Option<u8>)
    requires
        from <= chars@.len(),
    ensures
        usage == key_of_word(chars@.skip(from as int)),
{
    if chars.len() == from {
        None
    } else if spells(chars, from, "Return") {
        Some(0x28)
    } else if spells(chars, from, "Escape") {
        Some(0x29)
    } else if spells(chars, from, "Backspace") {
        Some(0x2a)
    } else if spells(chars, from, "Tab") {
        Some(0x2b)
    } else if spells(chars, from, "Space") {
        Some(0x2c)
    } else if spells(chars, from, "Home") {
        Some(0x4a)
    } else if spells(chars, from, "PageUp") {
        Some(0x4b)
    } else if spells(chars, from, "Delete") {
        Some(0x4c)
    } else if spells(chars, from, "End") {
        Some(0x4d)
    } else if spells(chars, from, "PageDown") {
        Some(0x4e)
    } else if spells(chars, from, "Right") {
        Some(0x4f)
    } else if spells(chars, from, "Left") {
        Some(0x50)
    } else if spells(chars, from, "Down") {
        Some(0x51)
    } else if spells(chars, from, "Up") {
        Some(0x52)
    } else if spells(chars, from, "F1") {
        Some(0x3a)
    } else if spells(chars, from, "F2") {
        Some(0x3b)
    } else if spells(chars, from, "F3") {
        Some(0x3c)
    } else if spells(chars, from, "F4") {
        Some(0x3d)
    } else if spells(chars, from, "F5") {
        Some(0x3e)
    } else if spells(chars, from, "F6") {
        Some(0x3f)
    } else if spells(chars, from, "F7") {
        Some(0x40)
    } else if spells(chars, from, "F8") {
        Some(0x41)
    } else if spells(chars, from, "F9") {
        Some(0x42)
    } else if spells(chars, from, "F10") {
        Some(0x43)
    } else if spells(chars, from, "F11") {
        Some(0x44)
    } else if spells(chars, from, "F12") {
        Some(0x45)
    } else if spells(chars, from, "F13") {
        Some(0x68)
    } else if spells(chars, from, "F14") {
        Some(0x69)
    } else if spells(chars, from, "F15") {
        Some(0x6a)
    } else if spells(chars, from, "F16") {
        Some(0x6b)
    } else if spells(chars, from, "F17") {
        Some(0x6c)
    } else if spells(chars, from, "F18") {
        Some(0x6d)
    } else if spells(chars, from, "F19") {
        Some(0x6e)
    } else if spells(chars, from, "F20") {
        Some(0x6f)
    } else {
        None
    }
}

fn parse_from(chars: &Vec<char>, from: usize) -> (combo: Option<KeyCombo>)
    requires
        from <= chars@.len(),
    ensures
        match chord_of(chars@.skip(from as int)) {
            Some(chord) => combo is Some && combo->0@ == chord,
            None => combo is None,
        },
    decreases chars@.len() - from,
{
    proof {
        lemma_prefix_lengths();
    }
    let total: usize = chars.len();
    let ghost rest = chars@.skip(from as int);
    let (modifier, length): (Modifier, usize) = if begins(chars, from, "Cmd+") {
        (Modifier::Command, 4)
    } else if begins(chars, from, "Ctrl+") {
        (Modifier::Control, 5)
    } else if begins(chars, from, "Alt+") {
        (Modifier::Option, 4)
    } else if begins(chars, from, "Shift+") {
        (Modifier::Shift, 6)
    } else {
        return match key_from(chars, from) {
            Some(usage) => Some(
                KeyCombo {
                    command: false,
                    control: false,
                    option: false,
                    shift: false,
                    key: KeyUsage::new(usage),
                },
            ),
            None => None,
        };
    };
    assert(length == modifier.prefix().len());
    assert(from + length <= total);
    assert(rest.skip(length as int) =~= chars@.skip(from + length));
    match parse_from(chars, from + length) {
        Some(combo) => Some(
            match modifier {
                Modifier::Command => KeyCombo {
                    command: true,
                    control: combo.control,
                    option: combo.option,
                    shift: combo.shift,
                    key: combo.key,
                },
                Modifier::Control => KeyCombo {
                    command: combo.command,
                    control: true,
                    option: combo.option,
                    shift: combo.shift,
                    key: combo.key,
                },
                Modifier::Option => KeyCombo {
                    command: combo.command,
                    control: combo.control,
                    option: true,
                    shift: combo.shift,
                    key: combo.key,
                },
                Modifier::Shift => KeyCombo {
                    command: combo.command,
                    control: combo.control,
                    option: combo.option,
                    shift: true,
                    key: combo.key,
                },
            },
        ),
        None => None,
    }
}

/// The name of a key.
pub fn key_label(usage: u8) -> (name: &'static str)
    ensures
        name@ == key_name(usage),
{
    match usage {
        0x04 => "A",
        0x05 => "B",
        0x06 => "C",
        0x07 => "D",
        0x08 => "E",
        0x09 => "F",
        0x0a => "G",
        0x0b => "H",
        0x0c => "I",
        0x0d => "J",
        0x0e => "K",
        0x0f => "L",
        0x10 => "M",
        0x11 => "N",
        0x12 => "O",
        0x13 => "P",
        0x14 => "Q",
        0x15 => "R",
        0x16 => "S",
        0x17 => "T",
        0x18 => "U",
        0x19 => "V",
        0x1a => "W",
        0x1b => "X",
        0x1c => "Y",
        0x1d => "Z",
        0x1e => "1",
        0x1f => "2",
        0x20 => "3",
        0x21 => "4",
        0x22 => "5",
        0x23 => "6",
        0x24 => "7",
        0x25 => "8",
        0x26 => "9",
        0x27 => "0",
        0x28 => "Return",
        0x29 => "Escape",
        0x2a => "Backspace",
        0x2b => "Tab",
        0x2c => "Space",
        0x2d => "-",
        0x2e => "=",
        0x2f => "[",
        0x30 => "]",
        0x31 => "\\",
        0x33 => ";",
        0x34 => "'",
        0x35 => "`",
        0x36 => ",",
        0x37 => ".",
        0x38 => "/",
        0x3a => "F1",
        0x3b => "F2",
        0x3c => "F3",
        0x3d => "F4",
        0x3e => "F5",
        0x3f => "F6",
        0x40 => "F7",
        0x41 => "F8",
        0x42 => "F9",
        0x43 => "F10",
        0x44 => "F11",
        0x45 => "F12",
        0x4a => "Home",
        0x4b => "PageUp",
        0x4c => "Delete",
        0x4d => "End",
        0x4e => "PageDown",
        0x4f => "Right",
        0x50 => "Left",
        0x51 => "Down",
        0x52 => "Up",
        0x68 => "F13",
        0x69 => "F14",
        0x6a => "F15",
        0x6b => "F16",
        0x6c => "F17",
        0x6d => "F18",
        0x6e => "F19",
        0x6f => "F20",
        _ => "?",
    }
}

/// Reading a key's name gives the key back.
pub proof fn law_key_names_read_back(usage: u8)
    requires
        is_named(usage),
    ensures
        key_of(key_name(usage)) == Some(usage),
        leading_modifier(key_name(usage)) is None,
{
    reveal_strlit("Cmd+");
    reveal_strlit("Ctrl+");
    reveal_strlit("Alt+");
    reveal_strlit("Shift+");
    let name = key_name(usage);
    if 0x04 <= usage <= 0x27 || 0x2d <= usage <= 0x38 {
        lemma_single_names(usage);
    } else {
        lemma_word_names(usage);
    }
    assert forall|word: Seq<char>| word.len() > name.len() implies !(#[trigger] word.is_prefix_of(
        name,
    )) by {}
    if "Cmd+"@.is_prefix_of(name) {
        assert("Cmd+"@[3] == name.take(4)[3]);
    }
    if "Ctrl+"@.is_prefix_of(name) {
        assert("Ctrl+"@[4] == name.take(5)[4]);
    }
    if "Alt+"@.is_prefix_of(name) {
        assert("Alt+"@[3] == name.take(4)[3]);
    }
    if "Shift+"@.is_prefix_of(name) {
        assert("Shift+"@[5] == name.take(6)[5]);
    }
}

proof fn lemma_single_names(usage: u8)
    requires
        0x04 <= usage <= 0x27 || 0x2d <= usage <= 0x31 || 0x33 <= usage <= 0x38,
    ensures
        key_name(usage).len() == 1,
        key_of_char(key_name(usage)[0]) == Some(usage),
{
    reveal_strlit("A");
    reveal_strlit("B");
    reveal_strlit("C");
    reveal_strlit("D");
    reveal_strlit("E");
    reveal_strlit("F");
    reveal_strlit("G");
    reveal_strlit("H");
    reveal_strlit("I");
    reveal_strlit("J");
    reveal_strlit("K");
    reveal_strlit("L");
    reveal_strlit("M");
    reveal_strlit("N");
    reveal_strlit("O");
    reveal_strlit("P");
    reveal_strlit("Q");
    reveal_strlit("R");
    reveal_strlit("S");
    reveal_strlit("T");
    reveal_strlit("U");
    reveal_strlit("V");
    reveal_strlit("W");
    reveal_strlit("X");
    reveal_strlit("Y");
    reveal_strlit("Z");
    reveal_strlit("1");
    reveal_strlit("2");
    reveal_strlit("3");
    reveal_strlit("4");
    reveal_strlit("5");
    reveal_strlit("6");
    reveal_strlit("7");
    reveal_strlit("8");
    reveal_strlit("9");
    reveal_strlit("0");
    reveal_strlit("-");
    reveal_strlit("=");
    reveal_strlit("[");
    reveal_strlit("]");
    reveal_strlit("\\");
    reveal_strlit(";");
    reveal_strlit("'");
    reveal_strlit("`");
    reveal_strlit(",");
    reveal_strlit(".");
    reveal_strlit("/");
}

proof fn lemma_word_names(usage: u8)
    requires
        is_named(usage),
        0x28 <= usage <= 0x2c || 0x3a <= usage,
    ensures
        key_name(usage).len() >= 2,
        key_of_word(key_name(usage)) == Some(usage),
        forall|i: int| 0 <= i < key_name(usage).len() ==> #[trigger] key_name(usage)[i] != '+',
{
    reveal_strlit("Return");
    reveal_strlit("Escape");
    reveal_strlit("Backspace");
    reveal_strlit("Tab");
    reveal_strlit("Space");
    reveal_strlit("Home");
    reveal_strlit("PageUp");
    reveal_strlit("Delete");
    reveal_strlit("End");
    reveal_strlit("PageDown");
    reveal_strlit("Right");
    reveal_strlit("Left");
    reveal_strlit("Down");
    reveal_strlit("Up");
    reveal_strlit("F1");
    reveal_strlit("F2");
    reveal_strlit("F3");
    reveal_strlit("F4");
    reveal_strlit("F5");
    reveal_strlit("F6");
    reveal_strlit("F7");
    reveal_strlit("F8");
    reveal_strlit("F9");
    reveal_strlit("F10");
    reveal_strlit("F11");
    reveal_strlit("F12");
    reveal_strlit("F13");
    reveal_strlit("F14");
    reveal_strlit("F15");
    reveal_strlit("F16");
    reveal_strlit("F17");
    reveal_strlit("F18");
    reveal_strlit("F19");
    reveal_strlit("F20");
    assert("Return"@[0] == 'R' && "Return"@[1] == 'e' && "Return"@[2] == 't'
        && "Return"@[3] == 'u' && "Return"@[4] == 'r' && "Return"@[5] == 'n');
    assert("Escape"@[0] == 'E' && "Escape"@[1] == 's' && "Escape"@[2] == 'c'
        && "Escape"@[3] == 'a' && "Escape"@[4] == 'p' && "Escape"@[5] == 'e');
    assert("Backspace"@[0] == 'B' && "Backspace"@[1] == 'a' && "Backspace"@[2] == 'c'
        && "Backspace"@[3] == 'k' && "Backspace"@[4] == 's' && "Backspace"@[5] == 'p'
        && "Backspace"@[6] == 'a' && "Backspace"@[7] == 'c' && "Backspace"@[8] == 'e');
    assert("Tab"@[0] == 'T' && "Tab"@[1] == 'a' && "Tab"@[2] == 'b');
    assert("Space"@[0] == 'S' && "Space"@[1] == 'p' && "Space"@[2] == 'a' && "Space"@[3] == 'c'
        && "Space"@[4] == 'e');
    assert("Home"@[0] == 'H' && "Home"@[1] == 'o' && "Home"@[2] == 'm' && "Home"@[3] == 'e');
    assert("PageUp"@[0] == 'P' && "PageUp"@[1] == 'a' && "PageUp"@[2] == 'g'
        && "PageUp"@[3] == 'e' && "PageUp"@[4] == 'U' && "PageUp"@[5] == 'p');
    assert("Delete"@[0] == 'D' && "Delete"@[1] == 'e' && "Delete"@[2] == 'l'
        && "Delete"@[3] == 'e' && "Delete"@[4] == 't' && "Delete"@[5] == 'e');
    assert("End"@[0] == 'E' && "End"@[1] == 'n' && "End"@[2] == 'd');
    assert("PageDown"@[0] == 'P' && "PageDown"@[1] == 'a' && "PageDown"@[2] == 'g'
        && "PageDown"@[3] == 'e' && "PageDown"@[4] == 'D' && "PageDown"@[5] == 'o'
        && "PageDown"@[6] == 'w' && "PageDown"@[7] == 'n');
    assert("Right"@[0] == 'R' && "Right"@[1] == 'i' && "Right"@[2] == 'g' && "Right"@[3] == 'h'
        && "Right"@[4] == 't');
    assert("Left"@[0] == 'L' && "Left"@[1] == 'e' && "Left"@[2] == 'f' && "Left"@[3] == 't');
    assert("Down"@[0] == 'D' && "Down"@[1] == 'o' && "Down"@[2] == 'w' && "Down"@[3] == 'n');
    assert("Up"@[0] == 'U' && "Up"@[1] == 'p');
    assert("F1"@[0] == 'F' && "F1"@[1] == '1');
    assert("F2"@[0] == 'F' && "F2"@[1] == '2');
    assert("F3"@[0] == 'F' && "F3"@[1] == '3');
    assert("F4"@[0] == 'F' && "F4"@[1] == '4');
    assert("F5"@[0] == 'F' && "F5"@[1] == '5');
    assert("F6"@[0] == 'F' && "F6"@[1] == '6');
    assert("F7"@[0] == 'F' && "F7"@[1] == '7');
    assert("F8"@[0] == 'F' && "F8"@[1] == '8');
    assert("F9"@[0] == 'F' && "F9"@[1] == '9');
    assert("F10"@[0] == 'F' && "F10"@[1] == '1' && "F10"@[2] == '0');
    assert("F11"@[0] == 'F' && "F11"@[1] == '1' && "F11"@[2] == '1');
    assert("F12"@[0] == 'F' && "F12"@[1] == '1' && "F12"@[2] == '2');
    assert("F13"@[0] == 'F' && "F13"@[1] == '1' && "F13"@[2] == '3');
    assert("F14"@[0] == 'F' && "F14"@[1] == '1' && "F14"@[2] == '4');
    assert("F15"@[0] == 'F' && "F15"@[1] == '1' && "F15"@[2] == '5');
    assert("F16"@[0] == 'F' && "F16"@[1] == '1' && "F16"@[2] == '6');
    assert("F17"@[0] == 'F' && "F17"@[1] == '1' && "F17"@[2] == '7');
    assert("F18"@[0] == 'F' && "F18"@[1] == '1' && "F18"@[2] == '8');
    assert("F19"@[0] == 'F' && "F19"@[1] == '1' && "F19"@[2] == '9');
    assert("F20"@[0] == 'F' && "F20"@[1] == '2' && "F20"@[2] == '0');
}

/// Reading a chord's text gives the chord back, for every chord whose key has a name.
pub proof fn law_chord_text_reads_back(chord: ChordModel)
    requires
        is_named(chord.usage),
    ensures
        chord_of(chord.text()) == Some(chord),
{
    lemma_prefix_lengths();
    law_key_names_read_back(chord.usage);
    let key = key_name(chord.usage);
    let plain = ChordModel::plain(chord.usage);
    assert(chord_of(key) == Some(plain));
    let shifted = if chord.shift {
        lemma_modifier_reads_back(Modifier::Shift, key);
        plain.with(Modifier::Shift)
    } else {
        plain
    };
    let shifted_text = if chord.shift {
        "Shift+"@ + key
    } else {
        key
    };
    assert(chord_of(shifted_text) == Some(shifted));
    let optioned = if chord.option {
        lemma_modifier_reads_back(Modifier::Option, shifted_text);
        shifted.with(Modifier::Option)
    } else {
        shifted
    };
    let optioned_text = if chord.option {
        "Alt+"@ + shifted_text
    } else {
        shifted_text
    };
    assert(chord_of(optioned_text) == Some(optioned));
    let controlled = if chord.control {
        lemma_modifier_reads_back(Modifier::Control, optioned_text);
        optioned.with(Modifier::Control)
    } else {
        optioned
    };
    let controlled_text = if chord.control {
        "Ctrl+"@ + optioned_text
    } else {
        optioned_text
    };
    assert(chord_of(controlled_text) == Some(controlled));
    if chord.command {
        lemma_modifier_reads_back(Modifier::Command, controlled_text);
    }
}

proof fn lemma_modifier_reads_back(modifier: Modifier, rest: Seq<char>)
    ensures
        leading_modifier(modifier.prefix() + rest) == Some(modifier),
        (modifier.prefix() + rest).skip(modifier.prefix().len() as int) == rest,
        chord_of(modifier.prefix() + rest) == (match chord_of(rest) {
            Some(chord) => Some(chord.with(modifier)),
            None => None,
        }),
{
    reveal_strlit("Cmd+");
    reveal_strlit("Ctrl+");
    reveal_strlit("Alt+");
    reveal_strlit("Shift+");
    let prefix = modifier.prefix();
    let text = prefix + rest;
    assert(text.take(prefix.len() as int) =~= prefix);
    assert(text.skip(prefix.len() as int) =~= rest);
    if "Cmd+"@.is_prefix_of(text) {
        assert("Cmd+"@[0] == text.take(4)[0]);
        assert(text[0] == prefix[0]);
    }
    if "Ctrl+"@.is_prefix_of(text) {
        assert("Ctrl+"@[1] == text.take(5)[1]);
        assert(text[1] == prefix[1]);
    }
    if "Alt+"@.is_prefix_of(text) {
        assert("Alt+"@[0] == text.take(4)[0]);
        assert(text[0] == prefix[0]);
    }
}

/// The name of each key, by its usage.
pub proof fn law_keys_have_these_names(usage: u8)
    ensures
        usage == 0x04 ==> key_name(usage) == "A"@,
        usage == 0x05 ==> key_name(usage) == "B"@,
        usage == 0x06 ==> key_name(usage) == "C"@,
        usage == 0x07 ==> key_name(usage) == "D"@,
        usage == 0x08 ==> key_name(usage) == "E"@,
        usage == 0x09 ==> key_name(usage) == "F"@,
        usage == 0x0a ==> key_name(usage) == "G"@,
        usage == 0x0b ==> key_name(usage) == "H"@,
        usage == 0x0c ==> key_name(usage) == "I"@,
        usage == 0x0d ==> key_name(usage) == "J"@,
        usage == 0x0e ==> key_name(usage) == "K"@,
        usage == 0x0f ==> key_name(usage) == "L"@,
        usage == 0x10 ==> key_name(usage) == "M"@,
        usage == 0x11 ==> key_name(usage) == "N"@,
        usage == 0x12 ==> key_name(usage) == "O"@,
        usage == 0x13 ==> key_name(usage) == "P"@,
        usage == 0x14 ==> key_name(usage) == "Q"@,
        usage == 0x15 ==> key_name(usage) == "R"@,
        usage == 0x16 ==> key_name(usage) == "S"@,
        usage == 0x17 ==> key_name(usage) == "T"@,
        usage == 0x18 ==> key_name(usage) == "U"@,
        usage == 0x19 ==> key_name(usage) == "V"@,
        usage == 0x1a ==> key_name(usage) == "W"@,
        usage == 0x1b ==> key_name(usage) == "X"@,
        usage == 0x1c ==> key_name(usage) == "Y"@,
        usage == 0x1d ==> key_name(usage) == "Z"@,
        usage == 0x1e ==> key_name(usage) == "1"@,
        usage == 0x1f ==> key_name(usage) == "2"@,
        usage == 0x20 ==> key_name(usage) == "3"@,
        usage == 0x21 ==> key_name(usage) == "4"@,
        usage == 0x22 ==> key_name(usage) == "5"@,
        usage == 0x23 ==> key_name(usage) == "6"@,
        usage == 0x24 ==> key_name(usage) == "7"@,
        usage == 0x25 ==> key_name(usage) == "8"@,
        usage == 0x26 ==> key_name(usage) == "9"@,
        usage == 0x27 ==> key_name(usage) == "0"@,
        usage == 0x28 ==> key_name(usage) == "Return"@,
        usage == 0x29 ==> key_name(usage) == "Escape"@,
        usage == 0x2a ==> key_name(usage) == "Backspace"@,
        usage == 0x2b ==> key_name(usage) == "Tab"@,
        usage == 0x2c ==> key_name(usage) == "Space"@,
        usage == 0x2d ==> key_name(usage) == "-"@,
        usage == 0x2e ==> key_name(usage) == "="@,
        usage == 0x2f ==> key_name(usage) == "["@,
        usage == 0x30 ==> key_name(usage) == "]"@,
        usage == 0x31 ==> key_name(usage) == "\\"@,
        usage == 0x33 ==> key_name(usage) == ";"@,
        usage == 0x34 ==> key_name(usage) == "'"@,
        usage == 0x35 ==> key_name(usage) == "`"@,
        usage == 0x36 ==> key_name(usage) == ","@,
        usage == 0x37 ==> key_name(usage) == "."@,
        usage == 0x38 ==> key_name(usage) == "/"@,
        usage == 0x3a ==> key_name(usage) == "F1"@,
        usage == 0x3b ==> key_name(usage) == "F2"@,
        usage == 0x3c ==> key_name(usage) == "F3"@,
        usage == 0x3d ==> key_name(usage) == "F4"@,
        usage == 0x3e ==> key_name(usage) == "F5"@,
        usage == 0x3f ==> key_name(usage) == "F6"@,
        usage == 0x40 ==> key_name(usage) == "F7"@,
        usage == 0x41 ==> key_name(usage) == "F8"@,
        usage == 0x42 ==> key_name(usage) == "F9"@,
        usage == 0x43 ==> key_name(usage) == "F10"@,
        usage == 0x44 ==> key_name(usage) == "F11"@,
        usage == 0x45 ==> key_name(usage) == "F12"@,
        usage == 0x4a ==> key_name(usage) == "Home"@,
        usage == 0x4b ==> key_name(usage) == "PageUp"@,
        usage == 0x4c ==> key_name(usage) == "Delete"@,
        usage == 0x4d ==> key_name(usage) == "End"@,
        usage == 0x4e ==> key_name(usage) == "PageDown"@,
        usage == 0x4f ==> key_name(usage) == "Right"@,
        usage == 0x50 ==> key_name(usage) == "Left"@,
        usage == 0x51 ==> key_name(usage) == "Down"@,
        usage == 0x52 ==> key_name(usage) == "Up"@,
        usage == 0x68 ==> key_name(usage) == "F13"@,
        usage == 0x69 ==> key_name(usage) == "F14"@,
        usage == 0x6a ==> key_name(usage) == "F15"@,
        usage == 0x6b ==> key_name(usage) == "F16"@,
        usage == 0x6c ==> key_name(usage) == "F17"@,
        usage == 0x6d ==> key_name(usage) == "F18"@,
        usage == 0x6e ==> key_name(usage) == "F19"@,
        usage == 0x6f ==> key_name(usage) == "F20"@,
        !is_named(usage) ==> key_name(usage) == "?"@,
{
}

/// Exactly these usages have a name: the letters to the backslash, the other punctuation, the
/// twenty function keys in two runs, and the keys that move.
pub proof fn law_named_usages(usage: u8)
    ensures
        usage < 0x04 ==> !is_named(usage),
        0x04 <= usage <= 0x31 ==> is_named(usage),
        usage == 0x32 ==> !is_named(usage),
        0x33 <= usage <= 0x38 ==> is_named(usage),
        usage == 0x39 ==> !is_named(usage),
        0x3a <= usage <= 0x45 ==> is_named(usage),
        0x46 <= usage <= 0x49 ==> !is_named(usage),
        0x4a <= usage <= 0x52 ==> is_named(usage),
        0x53 <= usage <= 0x67 ==> !is_named(usage),
        0x68 <= usage <= 0x6f ==> is_named(usage),
        usage > 0x6f ==> !is_named(usage),
{
}

/// A small letter names the same key as its capital.
pub proof fn law_small_letters_name_the_same_key(offset: int)
    requires
        0 <= offset < 26,
    ensures
        key_of_char((0x61 + offset) as char) == Some((0x04 + offset) as u8),
        key_of_char((0x41 + offset) as char) == Some((0x04 + offset) as u8),
{
}

/// A modifier is written in front of what it modifies: reading a text that starts with it reads the
/// rest and adds that modifier, and no other.
pub proof fn law_modifiers_are_written_in_front(rest: Seq<char>)
    ensures
        chord_of(rest) matches Some(chord) ==> {
            &&& chord_of("Cmd+"@ + rest) == Some(ChordModel { command: true, ..chord })
            &&& chord_of("Ctrl+"@ + rest) == Some(ChordModel { control: true, ..chord })
            &&& chord_of("Alt+"@ + rest) == Some(ChordModel { option: true, ..chord })
            &&& chord_of("Shift+"@ + rest) == Some(ChordModel { shift: true, ..chord })
        },
{
    if chord_of(rest) is Some {
        lemma_modifier_reads_back(Modifier::Command, rest);
        lemma_modifier_reads_back(Modifier::Control, rest);
        lemma_modifier_reads_back(Modifier::Option, rest);
        lemma_modifier_reads_back(Modifier::Shift, rest);
    }
}

/// A chord is written Command, Control, Option and Shift first, in that order, and its key last.
pub proof fn law_chords_are_written_in_order(chord: ChordModel)
    ensures
        ({
            let command = if chord.command {
                "Cmd+"@
            } else {
                Seq::empty()
            };
            let control = if chord.control {
                "Ctrl+"@
            } else {
                Seq::empty()
            };
            let option = if chord.option {
                "Alt+"@
            } else {
                Seq::empty()
            };
            let shift = if chord.shift {
                "Shift+"@
            } else {
                Seq::empty()
            };
            chord.text() == command + control + option + shift + key_name(chord.usage)
        }),
{
    let command = if chord.command {
        "Cmd+"@
    } else {
        Seq::empty()
    };
    let control = if chord.control {
        "Ctrl+"@
    } else {
        Seq::empty()
    };
    let option = if chord.option {
        "Alt+"@
    } else {
        Seq::empty()
    };
    let shift = if chord.shift {
        "Shift+"@
    } else {
        Seq::empty()
    };
    assert(chord.text() =~= command + control + option + shift + key_name(chord.usage));
}

} // verus!
