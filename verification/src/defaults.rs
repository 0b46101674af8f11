//! Default bindings for a fresh device and its gesture maps.
use vstd::prelude::*;

use crate::binding::{Action, Binding, ButtonId, GestureDirection, GestureMap};
use crate::key_combo::KeyCombo;
use crate::touchpad::gesture::TouchpadGestureId;

verus! {

/// The action a fresh device gives each control.
///
/// The thumb wheel's tap is deliberately inert: the firmware reports a tap from incidental thumb
/// contact. The wheel's tilt and rotation scroll horizontally, keyboard keys stay on their native
/// function, and a touchpad trigger has the default of its gesture.
pub open spec fn default_action(button: ButtonId) -> Action {
    match button {
        ButtonId::LeftClick => Action::LeftClick,
        ButtonId::RightClick => Action::RightClick,
        ButtonId::MiddleClick => Action::MiddleClick,
        ButtonId::WheelTiltLeft => Action::HorizontalScrollLeft,
        ButtonId::WheelTiltRight => Action::HorizontalScrollRight,
        ButtonId::Back => Action::BrowserBack,
        ButtonId::Forward => Action::BrowserForward,
        ButtonId::DpiToggle => Action::CycleDpiPresets,
        ButtonId::Thumbwheel => Action::Nothing,
        ButtonId::ThumbwheelScrollUp => Action::HorizontalScrollRight,
        ButtonId::ThumbwheelScrollDown => Action::HorizontalScrollLeft,
        ButtonId::GestureButton => Action::MissionControl,
        ButtonId::HapticPanel => Action::ShowActionsRing,
        ButtonId::TouchpadThreeFingerSwipeUp => Action::MissionControl,
        ButtonId::TouchpadThreeFingerSwipeDown => Action::AppExpose,
        ButtonId::TouchpadThreeFingerSwipeLeft => Action::PreviousDesktop,
        ButtonId::TouchpadThreeFingerSwipeRight => Action::NextDesktop,
        ButtonId::TouchpadTwoFingerPinchOut => chord_action("Cmd+="@),
        ButtonId::TouchpadTwoFingerPinchIn => chord_action("Cmd+-"@),
        ButtonId::TouchpadFourFingerPinchOut => Action::LaunchpadShow,
        ButtonId::TouchpadFourFingerPinchIn => Action::ShowDesktop,
        _ => Action::Nothing,
    }
}

/// The action of pressing a chord given as text.
pub open spec fn chord_action(text: Seq<char>) -> Action {
    match crate::key_combo::chord_of(text) {
        Some(chord) => Action::CustomShortcut(chord.combo()),
        None => Action::Nothing,
    }
}

/// The action a fresh gesture button gives each direction.
pub open spec fn default_gesture_action(direction: GestureDirection) -> Action {
    match direction {
        GestureDirection::Up => Action::MissionControl,
        GestureDirection::Down => Action::ShowDesktop,
        GestureDirection::Left => Action::PrevTab,
        GestureDirection::Right => Action::NextTab,
        GestureDirection::Click => Action::AppExpose,
    }
}

/// Sensible defaults for a fresh device.
#[must_use]
pub fn default_binding(button: ButtonId) -> (action: Action)
    ensures
        action == default_action(button),
{
    match button {
        ButtonId::LeftClick => Action::LeftClick,
        ButtonId::RightClick => Action::RightClick,
        ButtonId::MiddleClick => Action::MiddleClick,
        ButtonId::WheelTiltLeft => Action::HorizontalScrollLeft,
        ButtonId::WheelTiltRight => Action::HorizontalScrollRight,
        ButtonId::Back => Action::BrowserBack,
        ButtonId::Forward => Action::BrowserForward,
        ButtonId::DpiToggle => Action::CycleDpiPresets,
        ButtonId::Thumbwheel => Action::Nothing,
        ButtonId::ThumbwheelScrollUp => Action::HorizontalScrollRight,
        ButtonId::ThumbwheelScrollDown => Action::HorizontalScrollLeft,
        ButtonId::GestureButton => Action::MissionControl,
        ButtonId::HapticPanel => Action::ShowActionsRing,
        ButtonId::KeySearch
        | ButtonId::KeyDictation
        | ButtonId::KeyEmoji
        | ButtonId::KeyScreenCapture
        | ButtonId::KeyMicMute
        | ButtonId::KeyPlayPause
        | ButtonId::KeyMute
        | ButtonId::KeyVolumeDown
        | ButtonId::KeyVolumeUp => Action::Nothing,
        _ => match TouchpadGestureId::from_trigger(button) {
            Some(gesture) => default_touchpad_gesture(gesture),
            None => Action::Nothing,
        },
    }
}

/// Per-direction defaults for the gesture button.
#[must_use]
pub fn default_gesture_binding(direction: GestureDirection) -> (action: Action)
    ensures
        action == default_gesture_action(direction),
{
    match direction {
        GestureDirection::Up => Action::MissionControl,
        GestureDirection::Down => Action::ShowDesktop,
        GestureDirection::Left => Action::PrevTab,
        GestureDirection::Right => Action::NextTab,
        GestureDirection::Click => Action::AppExpose,
    }
}

/// The default [`Binding`] for a fresh button.
///
/// The gesture button starts in gesture mode with a full direction map, so that its click never
/// projects to nothing; every other button has its single default action.
#[must_use]
pub fn default_binding_for(button: ButtonId) -> (binding: Binding)
    ensures
        button == ButtonId::GestureButton ==> binding is Gesture && forall|d: GestureDirection|
            #[trigger]
            binding->Gesture_0.at(d) == Some(default_gesture_action(d)),
        button != ButtonId::GestureButton ==> binding == Binding::Single(default_action(button)),
{
    match button {
        ButtonId::GestureButton => {
            let mut map: GestureMap = GestureMap::new();
            map.insert(GestureDirection::Up, default_gesture_binding(GestureDirection::Up));
            map.insert(GestureDirection::Down, default_gesture_binding(GestureDirection::Down));
            map.insert(GestureDirection::Left, default_gesture_binding(GestureDirection::Left));
            map.insert(GestureDirection::Right, default_gesture_binding(GestureDirection::Right));
            map.insert(GestureDirection::Click, default_gesture_binding(GestureDirection::Click));
            Binding::Gesture(map)
        },
        other => Binding::Single(default_binding(other)),
    }
}

/// Default bindings for the touchpad gesture map.
///
/// The taps deliberately stay inert: the pad's firmware already owns the touch baseline, and
/// classifying a tap on top would double-fire.
#[must_use]
pub fn default_touchpad_gesture(gesture: TouchpadGestureId) -> (action: Action)
    ensures
        action == default_action(gesture.trigger_of()),
{
    match gesture {
        TouchpadGestureId::TwoFingerTap
        | TouchpadGestureId::ThreeFingerTap
        | TouchpadGestureId::FourFingerTap => Action::Nothing,
        TouchpadGestureId::ThreeFingerSwipeUp => Action::MissionControl,
        TouchpadGestureId::ThreeFingerSwipeDown => Action::AppExpose,
        TouchpadGestureId::ThreeFingerSwipeLeft => Action::PreviousDesktop,
        TouchpadGestureId::ThreeFingerSwipeRight => Action::NextDesktop,
        TouchpadGestureId::FourFingerSwipeUp
        | TouchpadGestureId::FourFingerSwipeDown
        | TouchpadGestureId::FourFingerSwipeLeft
        | TouchpadGestureId::FourFingerSwipeRight => Action::Nothing,
        TouchpadGestureId::TwoFingerPinchOut => zoom_chord("Cmd+="),
        TouchpadGestureId::TwoFingerPinchIn => zoom_chord("Cmd+-"),
        TouchpadGestureId::FourFingerPinchOut => Action::LaunchpadShow,
        TouchpadGestureId::FourFingerPinchIn => Action::ShowDesktop,
    }
}

/// The chord behind a pinch default.
fn zoom_chord(chord: &str) -> (action: Action)
    ensures
        action == chord_action(chord@),
{
    match KeyCombo::parse(chord) {
        Ok(combo) => Action::CustomShortcut(combo),
        Err(_) => Action::Nothing,
    }
}

/// The pinch defaults are real chords: command with the plus and the minus key.
pub proof fn law_pinch_defaults_are_chords()
    ensures
        default_action(ButtonId::TouchpadTwoFingerPinchOut) == Action::CustomShortcut(
            (crate::key_combo::ChordModel {
                command: true,
                ..crate::key_combo::ChordModel::plain(0x2e)
            }).combo(),
        ),
        default_action(ButtonId::TouchpadTwoFingerPinchIn) == Action::CustomShortcut(
            (crate::key_combo::ChordModel {
                command: true,
                ..crate::key_combo::ChordModel::plain(0x2d)
            }).combo(),
        ),
{
    let zoom_in = crate::key_combo::ChordModel {
        command: true,
        ..crate::key_combo::ChordModel::plain(0x2e)
    };
    let zoom_out = crate::key_combo::ChordModel {
        command: true,
        ..crate::key_combo::ChordModel::plain(0x2d)
    };
    crate::key_combo::law_chord_text_reads_back(zoom_in);
    crate::key_combo::law_chord_text_reads_back(zoom_out);
    reveal_strlit("Cmd+");
    reveal_strlit("=");
    reveal_strlit("-");
    reveal_strlit("Cmd+=");
    reveal_strlit("Cmd+-");
    assert(zoom_in.text() =~= "Cmd+="@);
    assert(zoom_out.text() =~= "Cmd+-"@);
}

/// No tap and no four-finger swipe does anything unless the user binds it.
pub proof fn law_firmware_owned_gestures_are_inert(gesture: TouchpadGestureId)
    requires
        gesture is TwoFingerTap || gesture is ThreeFingerTap || gesture is FourFingerTap
            || gesture is FourFingerSwipeUp || gesture is FourFingerSwipeDown
            || gesture is FourFingerSwipeLeft || gesture is FourFingerSwipeRight,
    ensures
        default_action(gesture.trigger_of()) == Action::Nothing,
{
}

/// What each control does on a fresh device, control by control. The two-finger pinches press
/// Command with the key of the plus sign and of the minus sign.
pub proof fn law_fresh_controls_do_these_actions(button: ButtonId)
    ensures
        button is LeftClick ==> default_action(button) is LeftClick,
        button is RightClick ==> default_action(button) is RightClick,
        button is MiddleClick ==> default_action(button) is MiddleClick,
        button is WheelTiltLeft ==> default_action(button) is HorizontalScrollLeft,
        button is WheelTiltRight ==> default_action(button) is HorizontalScrollRight,
        button is Back ==> default_action(button) is BrowserBack,
        button is Forward ==> default_action(button) is BrowserForward,
        button is DpiToggle ==> default_action(button) is CycleDpiPresets,
        button is Thumbwheel ==> default_action(button) is Nothing,
        button is ThumbwheelScrollUp ==> default_action(button) is HorizontalScrollRight,
        button is ThumbwheelScrollDown ==> default_action(button) is HorizontalScrollLeft,
        button is GestureButton ==> default_action(button) is MissionControl,
        button is HapticPanel ==> default_action(button) is ShowActionsRing,
        button is TouchpadThreeFingerSwipeUp ==> default_action(button) is MissionControl,
        button is TouchpadThreeFingerSwipeDown ==> default_action(button) is AppExpose,
        button is TouchpadThreeFingerSwipeLeft ==> default_action(button) is PreviousDesktop,
        button is TouchpadThreeFingerSwipeRight ==> default_action(button) is NextDesktop,
        button is TouchpadFourFingerPinchOut ==> default_action(button) is LaunchpadShow,
        button is TouchpadFourFingerPinchIn ==> default_action(button) is ShowDesktop,
        button is KeySearch ==> default_action(button) is Nothing,
        button is KeyDictation ==> default_action(button) is Nothing,
        button is KeyEmoji ==> default_action(button) is Nothing,
        button is KeyScreenCapture ==> default_action(button) is Nothing,
        button is KeyMicMute ==> default_action(button) is Nothing,
        button is KeyPlayPause ==> default_action(button) is Nothing,
        button is KeyMute ==> default_action(button) is Nothing,
        button is KeyVolumeDown ==> default_action(button) is Nothing,
        button is KeyVolumeUp ==> default_action(button) is Nothing,
        button is TouchpadTwoFingerTap ==> default_action(button) is Nothing,
        button is TouchpadThreeFingerTap ==> default_action(button) is Nothing,
        button is TouchpadFourFingerTap ==> default_action(button) is Nothing,
        button is TouchpadFourFingerSwipeUp ==> default_action(button) is Nothing,
        button is TouchpadFourFingerSwipeDown ==> default_action(button) is Nothing,
        button is TouchpadFourFingerSwipeLeft ==> default_action(button) is Nothing,
        button is TouchpadFourFingerSwipeRight ==> default_action(button) is Nothing,
        button is TouchpadTwoFingerPinchOut ==> (default_action(button)
            matches Action::CustomShortcut(combo) && combo.command && !combo.control
            && !combo.option && !combo.shift && combo.key.usage == 0x2e),
        button is TouchpadTwoFingerPinchIn ==> (default_action(button)
            matches Action::CustomShortcut(combo) && combo.command && !combo.control
            && !combo.option && !combo.shift && combo.key.usage == 0x2d),
{
    law_pinch_defaults_are_chords();
}

/// What each direction of a fresh gesture button does.
pub proof fn law_fresh_gesture_button_does_these_actions(direction: GestureDirection)
    ensures
        direction is Up ==> default_gesture_action(direction) is MissionControl,
        direction is Down ==> default_gesture_action(direction) is ShowDesktop,
        direction is Left ==> default_gesture_action(direction) is PrevTab,
        direction is Right ==> default_gesture_action(direction) is NextTab,
        direction is Click ==> default_gesture_action(direction) is AppExpose,
{
}

} // verus!
