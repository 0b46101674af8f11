//! The named shortcuts and the chords they press.
use vstd::prelude::*;

use crate::key_combo::{ChordModel, KeyCombo, Modifier};

verus! {

/// A named shortcut.
#[derive(Clone, Copy, Debug, PartialEq, Eq, Structural)]
pub enum Shortcut {
    Copy,
    Paste,
    Cut,
    Undo,
    Redo,
    SelectAll,
    Find,
    Save,
    BrowserBack,
    BrowserForward,
    NewTab,
    CloseTab,
    ReopenTab,
    NextTab,
    PrevTab,
    ReloadPage,
    ZoomIn,
    ZoomOut,
}

impl Shortcut {
    /// Every shortcut.
    pub const ALL: [Shortcut; 18] = [
        Shortcut::Copy,
        Shortcut::Paste,
        Shortcut::Cut,
        Shortcut::Undo,
        Shortcut::Redo,
        Shortcut::SelectAll,
        Shortcut::Find,
        Shortcut::Save,
        Shortcut::BrowserBack,
        Shortcut::BrowserForward,
        Shortcut::NewTab,
        Shortcut::CloseTab,
        Shortcut::ReopenTab,
        Shortcut::NextTab,
        Shortcut::PrevTab,
        Shortcut::ReloadPage,
        Shortcut::ZoomIn,
        Shortcut::ZoomOut,
    ];

    /// The chord as text. The browser chords are the fallback for browsers whose navigation
    /// buttons cannot be pressed directly.
    pub open spec fn text(self) -> Seq<char> {
        match self {
            Shortcut::Copy => "Cmd+C"@,
            Shortcut::Paste => "Cmd+V"@,
            Shortcut::Cut => "Cmd+X"@,
            Shortcut::Undo => "Cmd+Z"@,
            Shortcut::Redo => "Cmd+Shift+Z"@,
            Shortcut::SelectAll => "Cmd+A"@,
            Shortcut::Find => "Cmd+F"@,
            Shortcut::Save => "Cmd+S"@,
            Shortcut::BrowserBack => "Cmd+["@,
            Shortcut::BrowserForward => "Cmd+]"@,
            Shortcut::NewTab => "Cmd+T"@,
            Shortcut::CloseTab => "Cmd+W"@,
            Shortcut::ReopenTab => "Cmd+Shift+T"@,
            Shortcut::NextTab => "Ctrl+Tab"@,
            Shortcut::PrevTab => "Ctrl+Shift+Tab"@,
            Shortcut::ReloadPage => "Cmd+R"@,
            Shortcut::ZoomIn => "Cmd+="@,
            Shortcut::ZoomOut => "Cmd+-"@,
        }
    }

    /// The chord.
    pub open spec fn chord(self) -> ChordModel {
        match self {
            Shortcut::Copy => ChordModel::plain(0x06).with(Modifier::Command),
            Shortcut::Paste => ChordModel::plain(0x19).with(Modifier::Command),
            Shortcut::Cut => ChordModel::plain(0x1b).with(Modifier::Command),
            Shortcut::Undo => ChordModel::plain(0x1d).with(Modifier::Command),
            Shortcut::Redo => ChordModel::plain(0x1d).with(Modifier::Shift).with(
                Modifier::Command,
            ),
            Shortcut::SelectAll => ChordModel::plain(0x04).with(Modifier::Command),
            Shortcut::Find => ChordModel::plain(0x09).with(Modifier::Command),
            Shortcut::Save => ChordModel::plain(0x16).with(Modifier::Command),
            Shortcut::BrowserBack => ChordModel::plain(0x2f).with(Modifier::Command),
            Shortcut::BrowserForward => ChordModel::plain(0x30).with(Modifier::Command),
            Shortcut::NewTab => ChordModel::plain(0x17).with(Modifier::Command),
            Shortcut::CloseTab => ChordModel::plain(0x1a).with(Modifier::Command),
            Shortcut::ReopenTab => ChordModel::plain(0x17).with(Modifier::Shift).with(
                Modifier::Command,
            ),
            Shortcut::NextTab => ChordModel::plain(0x2b).with(Modifier::Control),
            Shortcut::PrevTab => ChordModel::plain(0x2b).with(Modifier::Shift).with(
                Modifier::Control,
            ),
            Shortcut::ReloadPage => ChordModel::plain(0x15).with(Modifier::Command),
            Shortcut::ZoomIn => ChordModel::plain(0x2e).with(Modifier::Command),
            Shortcut::ZoomOut => ChordModel::plain(0x2d).with(Modifier::Command),
        }
    }
}

/// The chord of a shortcut, read from its text.
pub fn combo(shortcut: Shortcut) -> (combo: KeyCombo)
    ensures
        combo@ == shortcut.chord(),
        crate::key_combo::chord_of(shortcut.text()) == Some(combo@),
{
    let text: &str = match shortcut {
        Shortcut::Copy => "Cmd+C",
        Shortcut::Paste => "Cmd+V",
        Shortcut::Cut => "Cmd+X",
        Shortcut::Undo => "Cmd+Z",
        Shortcut::Redo => "Cmd+Shift+Z",
        Shortcut::SelectAll => "Cmd+A",
        Shortcut::Find => "Cmd+F",
        Shortcut::Save => "Cmd+S",
        Shortcut::BrowserBack => "Cmd+[",
        Shortcut::BrowserForward => "Cmd+]",
        Shortcut::NewTab => "Cmd+T",
        Shortcut::CloseTab => "Cmd+W",
        Shortcut::ReopenTab => "Cmd+Shift+T",
        Shortcut::NextTab => "Ctrl+Tab",
        Shortcut::PrevTab => "Ctrl+Shift+Tab",
        Shortcut::ReloadPage => "Cmd+R",
        Shortcut::ZoomIn => "Cmd+=",
        Shortcut::ZoomOut => "Cmd+-",
    };
    proof {
        law_shortcuts_are_chords(shortcut);
    }
    match KeyCombo::parse(text) {
        Ok(combo) => combo,
        Err(_) => vstd::pervasive::unreached(),
    }
}

/// Every shortcut's text reads as its chord, and the chord is written as that text.
pub proof fn law_shortcuts_are_chords(shortcut: Shortcut)
    ensures
        crate::key_combo::chord_of(shortcut.text()) == Some(shortcut.chord()),
        shortcut.chord().text() == shortcut.text(),
{
    let chord = shortcut.chord();
    crate::key_combo::law_chord_text_reads_back(chord);
    reveal_strlit("Cmd+");
    reveal_strlit("Ctrl+");
    reveal_strlit("Shift+");
    reveal_strlit("-");
    reveal_strlit("=");
    reveal_strlit("A");
    reveal_strlit("C");
    reveal_strlit("F");
    reveal_strlit("R");
    reveal_strlit("S");
    reveal_strlit("T");
    reveal_strlit("Tab");
    reveal_strlit("V");
    reveal_strlit("W");
    reveal_strlit("X");
    reveal_strlit("Z");
    reveal_strlit("[");
    reveal_strlit("]");
    reveal_strlit("Cmd+C");
    reveal_strlit("Cmd+V");
    reveal_strlit("Cmd+X");
    reveal_strlit("Cmd+Z");
    reveal_strlit("Cmd+Shift+Z");
    reveal_strlit("Cmd+A");
    reveal_strlit("Cmd+F");
    reveal_strlit("Cmd+S");
    reveal_strlit("Cmd+[");
    reveal_strlit("Cmd+]");
    reveal_strlit("Cmd+T");
    reveal_strlit("Cmd+W");
    reveal_strlit("Cmd+Shift+T");
    reveal_strlit("Ctrl+Tab");
    reveal_strlit("Ctrl+Shift+Tab");
    reveal_strlit("Cmd+R");
    reveal_strlit("Cmd+=");
    reveal_strlit("Cmd+-");
    assert(chord.text() =~= shortcut.text());
}

/// Every shortcut has a key that can be pressed.
pub proof fn law_shortcuts_can_be_pressed(shortcut: Shortcut)
    ensures
        crate::inject::keys::virtual_key(shortcut.chord().usage) is Some,
{
}

/// The list of shortcuts misses none.
pub proof fn law_all_lists_every_shortcut(shortcut: Shortcut)
    ensures
        exists|i: int| 0 <= i < 18 && #[trigger] Shortcut::ALL[i] == shortcut,
{
    let at: int = match shortcut {
        Shortcut::Copy => 0,
        Shortcut::Paste => 1,
        Shortcut::Cut => 2,
        Shortcut::Undo => 3,
        Shortcut::Redo => 4,
        Shortcut::SelectAll => 5,
        Shortcut::Find => 6,
        Shortcut::Save => 7,
        Shortcut::BrowserBack => 8,
        Shortcut::BrowserForward => 9,
        Shortcut::NewTab => 10,
        Shortcut::CloseTab => 11,
        Shortcut::ReopenTab => 12,
        Shortcut::NextTab => 13,
        Shortcut::PrevTab => 14,
        Shortcut::ReloadPage => 15,
        Shortcut::ZoomIn => 16,
        Shortcut::ZoomOut => 17,
    };
    assert(Shortcut::ALL[at] == shortcut);
}

} // verus!
