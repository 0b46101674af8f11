//! Pressing the key the user has configured for a symbolic hotkey.
//!
//! The system only acts on a hotkey that is enabled, so a disabled one is enabled for the press and
//! disabled again afterwards. [`HotkeyPress`] decides what to ask of the system next; the answer is
//! handed back.
use vstd::prelude::*;

verus! {

/// Where a press has got to.
#[derive(Clone, Copy, Debug, PartialEq, Eq, Structural)]
pub enum HotkeyStage {
    /// Reading the configured key.
    Read,
    /// Finding out whether the hotkey is enabled.
    Check { key: u16, modifiers: u32 },
    /// Enabling it for the press.
    Enable { key: u16, modifiers: u32 },
    /// Pressing the key, to disable the hotkey afterwards or not.
    Press { key: u16, modifiers: u32, restore: bool },
    /// Disabling it again.
    Restore,
    Finished,
}

/// What to ask of the system.
#[derive(Clone, Copy, Debug, PartialEq, Eq, Structural)]
pub enum HotkeyAction {
    ReadValue { hotkey: u32 },
    ReadEnabled { hotkey: u32 },
    SetEnabled { hotkey: u32, enabled: bool },
    PressKey { key: u16, modifiers: u32 },
    Finished,
}

/// What the system answered. A status of zero is success.
#[derive(Clone, Copy, Debug, PartialEq, Eq, Structural)]
pub enum HotkeyAnswer {
    Value { status: i32, key: u16, modifiers: u32 },
    Enabled { enabled: bool },
    Switched { status: i32 },
    Pressed,
}

impl HotkeyStage {
    /// What to ask of the system at this stage.
    pub open spec fn asks(self, hotkey: u32) -> HotkeyAction {
        match self {
            HotkeyStage::Read => HotkeyAction::ReadValue { hotkey },
            HotkeyStage::Check { .. } => HotkeyAction::ReadEnabled { hotkey },
            HotkeyStage::Enable { .. } => HotkeyAction::SetEnabled { hotkey, enabled: true },
            HotkeyStage::Press { key, modifiers, .. } => HotkeyAction::PressKey { key, modifiers },
            HotkeyStage::Restore => HotkeyAction::SetEnabled { hotkey, enabled: false },
            HotkeyStage::Finished => HotkeyAction::Finished,
        }
    }

    /// The stage after an answer. An answer to another question changes nothing. The hotkey is
    /// restored even where enabling it reported an error: it may have been enabled all the same.
    pub open spec fn after(self, answer: HotkeyAnswer) -> HotkeyStage {
        match (self, answer) {
            (HotkeyStage::Read, HotkeyAnswer::Value { status, key, modifiers }) => if status == 0 {
                HotkeyStage::Check { key, modifiers }
            } else {
                HotkeyStage::Finished
            },
            (HotkeyStage::Check { key, modifiers }, HotkeyAnswer::Enabled { enabled }) =>
                if enabled {
                HotkeyStage::Press { key, modifiers, restore: false }
            } else {
                HotkeyStage::Enable { key, modifiers }
            },
            (HotkeyStage::Enable { key, modifiers }, HotkeyAnswer::Switched { .. }) =>
                HotkeyStage::Press { key, modifiers, restore: true },
            (HotkeyStage::Press { restore, .. }, HotkeyAnswer::Pressed) => if restore {
                HotkeyStage::Restore
            } else {
                HotkeyStage::Finished
            },
            (HotkeyStage::Restore, HotkeyAnswer::Switched { .. }) => HotkeyStage::Finished,
            _ => self,
        }
    }
}

/// A press of a symbolic hotkey.
#[derive(Clone, Copy, Debug, PartialEq, Eq, Structural)]
pub struct HotkeyPress {
    pub hotkey: u32,
    pub stage: HotkeyStage,
}

impl HotkeyPress {
    /// A press that has not begun.
    pub fn new(hotkey: u32) -> (press: Self)
        ensures
            press.hotkey == hotkey,
            press.stage == HotkeyStage::Read,
    {
        HotkeyPress { hotkey, stage: HotkeyStage::Read }
    }

    /// What to ask of the system next.
    pub fn action(&self) -> (action: HotkeyAction)
        ensures
            action == self.stage.asks(self.hotkey),
    {
        let hotkey: u32 = self.hotkey;
        match self.stage {
            HotkeyStage::Read => HotkeyAction::ReadValue { hotkey },
            HotkeyStage::Check { .. } => HotkeyAction::ReadEnabled { hotkey },
            HotkeyStage::Enable { .. } => HotkeyAction::SetEnabled { hotkey, enabled: true },
            HotkeyStage::Press { key, modifiers, .. } => HotkeyAction::PressKey { key, modifiers },
            HotkeyStage::Restore => HotkeyAction::SetEnabled { hotkey, enabled: false },
            HotkeyStage::Finished => HotkeyAction::Finished,
        }
    }

    /// Takes the system's answer.
    pub fn answer(&mut self, answer: HotkeyAnswer)
        ensures
            final(self).stage == old(self).stage.after(answer),
            final(self).hotkey == old(self).hotkey,
    {
        self.stage = match (self.stage, answer) {
            (HotkeyStage::Read, HotkeyAnswer::Value { status, key, modifiers }) => if status == 0 {
                HotkeyStage::Check { key, modifiers }
            } else {
                HotkeyStage::Finished
            },
            (HotkeyStage::Check { key, modifiers }, HotkeyAnswer::Enabled { enabled }) =>
                if enabled {
                HotkeyStage::Press { key, modifiers, restore: false }
            } else {
                HotkeyStage::Enable { key, modifiers }
            },
            (HotkeyStage::Enable { key, modifiers }, HotkeyAnswer::Switched { .. }) =>
                HotkeyStage::Press { key, modifiers, restore: true },
            (HotkeyStage::Press { restore, .. }, HotkeyAnswer::Pressed) => if restore {
                HotkeyStage::Restore
            } else {
                HotkeyStage::Finished
            },
            (HotkeyStage::Restore, HotkeyAnswer::Switched { .. }) => HotkeyStage::Finished,
            (stage, _) => stage,
        };
    }
}

/// A hotkey that was disabled is enabled, pressed, disabled again and then left alone, whatever
/// enabling and disabling it report.
pub proof fn law_temporary_enable_is_restored(
    hotkey: u32,
    key: u16,
    modifiers: u32,
    enable_status: i32,
    restore_status: i32,
)
    ensures
        ({
            let value = HotkeyAnswer::Value { status: 0, key, modifiers };
            let checked = HotkeyStage::Read.after(value).after(
                HotkeyAnswer::Enabled { enabled: false },
            );
            let pressing = checked.after(HotkeyAnswer::Switched { status: enable_status });
            let restoring = pressing.after(HotkeyAnswer::Pressed);
            let finished = restoring.after(HotkeyAnswer::Switched { status: restore_status });
            &&& checked.asks(hotkey) == (HotkeyAction::SetEnabled { hotkey, enabled: true })
            &&& pressing.asks(hotkey) == (HotkeyAction::PressKey { key, modifiers })
            &&& restoring.asks(hotkey) == (HotkeyAction::SetEnabled { hotkey, enabled: false })
            &&& finished.asks(hotkey) == HotkeyAction::Finished
        }),
{
}

/// A hotkey that is enabled is pressed and never switched.
pub proof fn law_enabled_hotkey_is_not_switched(hotkey: u32, key: u16, modifiers: u32)
    ensures
        ({
            let value = HotkeyAnswer::Value { status: 0, key, modifiers };
            let pressing = HotkeyStage::Read.after(value).after(
                HotkeyAnswer::Enabled { enabled: true },
            );
            &&& pressing.asks(hotkey) == (HotkeyAction::PressKey { key, modifiers })
            &&& pressing.after(HotkeyAnswer::Pressed).asks(hotkey) == HotkeyAction::Finished
        }),
{
}

/// A press first reads the hotkey's key, asks whether the hotkey is enabled where that worked, and
/// gives up where it did not.
pub proof fn law_press_reads_the_hotkey_first(hotkey: u32, status: i32, key: u16, modifiers: u32)
    ensures
        ({
            let read = HotkeyStage::Read.after(HotkeyAnswer::Value { status, key, modifiers });
            &&& HotkeyStage::Read.asks(hotkey) == (HotkeyAction::ReadValue { hotkey })
            &&& status == 0 ==> read.asks(hotkey) == (HotkeyAction::ReadEnabled { hotkey })
            &&& status != 0 ==> read.asks(hotkey) == HotkeyAction::Finished
        }),
{
}

/// An answer to a question that was not asked changes nothing, and a finished press stays finished.
pub proof fn law_unasked_answers_change_nothing(
    hotkey: u32,
    stage: HotkeyStage,
    answer: HotkeyAnswer,
)
    ensures
        stage.asks(hotkey) is ReadValue && !(answer is Value) ==> stage.after(answer) == stage,
        stage.asks(hotkey) is ReadEnabled && !(answer is Enabled) ==> stage.after(answer) == stage,
        stage.asks(hotkey) is SetEnabled && !(answer is Switched) ==> stage.after(answer) == stage,
        stage.asks(hotkey) is PressKey && !(answer is Pressed) ==> stage.after(answer) == stage,
        stage.asks(hotkey) is Finished ==> stage.after(answer) == stage,
{
}

} // verus!
