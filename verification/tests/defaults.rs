//! Default bindings, gesture names and key chords.
use openlogi_touchpad::binding::{Action, Binding, ButtonId, GestureDirection};
use openlogi_touchpad::defaults::{
    default_binding, default_binding_for, default_gesture_binding, default_touchpad_gesture,
};
use openlogi_touchpad::key_combo::{key_label, KeyCombo, KeyComboError};
use openlogi_touchpad::touchpad::gesture::TouchpadGestureId;

#[test]
fn pinch_default_chords_parse() {
    for gesture in [
        TouchpadGestureId::TwoFingerPinchOut,
        TouchpadGestureId::TwoFingerPinchIn,
    ] {
        assert!(
            matches!(default_touchpad_gesture(gesture), Action::CustomShortcut(_)),
            "{}'s default must be a real chord",
            gesture.label()
        );
    }
}

#[test]
fn pinch_defaults_zoom() {
    let Action::CustomShortcut(zoom_in) =
        default_touchpad_gesture(TouchpadGestureId::TwoFingerPinchOut)
    else {
        panic!("a chord");
    };
    assert_eq!(zoom_in.rendered_label(), "Cmd+=");
    let Action::CustomShortcut(zoom_out) =
        default_touchpad_gesture(TouchpadGestureId::TwoFingerPinchIn)
    else {
        panic!("a chord");
    };
    assert_eq!(zoom_out.rendered_label(), "Cmd+-");
}

#[test]
fn fresh_devices_have_sensible_bindings() {
    assert_eq!(default_binding(ButtonId::Back), Action::BrowserBack);
    assert_eq!(default_binding(ButtonId::Thumbwheel), Action::Nothing);
    assert_eq!(default_binding(ButtonId::KeyMute), Action::Nothing);
    assert_eq!(
        default_binding(ButtonId::TouchpadThreeFingerSwipeUp),
        Action::MissionControl
    );
    assert_eq!(default_binding(ButtonId::ThumbwheelScrollUp), Action::HorizontalScrollRight);
    assert_eq!(default_gesture_binding(GestureDirection::Left), Action::PrevTab);
    assert_eq!(
        default_binding_for(ButtonId::Back),
        Binding::Single(Action::BrowserBack)
    );
    let Binding::Gesture(map) = default_binding_for(ButtonId::GestureButton) else {
        panic!("the gesture button starts in gesture mode");
    };
    for direction in GestureDirection::ALL {
        assert_eq!(map.get(direction), Some(default_gesture_binding(direction)));
    }
}

#[test]
fn taps_and_four_finger_swipes_are_inert_by_default() {
    for gesture in TouchpadGestureId::ALL {
        let label = gesture.label();
        let inert = label.ends_with("tap") || label.starts_with("Four-finger swipe");
        assert_eq!(default_touchpad_gesture(gesture) == Action::Nothing, inert, "{label}");
    }
}

#[test]
fn triggers_and_gestures_correspond() {
    for trigger in ButtonId::TOUCHPAD {
        let gesture = TouchpadGestureId::from_trigger(trigger).expect("a touchpad trigger");
        assert_eq!(default_binding(trigger), default_touchpad_gesture(gesture));
    }
    assert_eq!(TouchpadGestureId::from_trigger(ButtonId::Back), None);
    assert_eq!(TouchpadGestureId::ThreeFingerSwipeUp.label(), "Three-finger swipe up");
}

#[test]
fn chords_read_back_as_written() {
    for text in ["Cmd+Shift+Z", "Ctrl+Tab", "Cmd+Ctrl+Alt+Shift+F20", "A", "Alt+Backspace", "/"] {
        let combo = KeyCombo::parse(text).expect("a chord");
        assert_eq!(combo.rendered_label(), text);
    }
    let combo = KeyCombo::parse("Shift+Cmd+a").expect("modifiers in any order, keys in any case");
    assert_eq!(combo.rendered_label(), "Cmd+Shift+A");
    assert!(combo.has_command() && combo.has_shift());
    assert!(!combo.has_control() && !combo.has_option());
    assert_eq!(combo.key().code(), 0x04);
    assert_eq!(key_label(0x52), "Up");
}

#[test]
fn what_is_no_chord_is_refused() {
    for text in ["", "Cmd+", "Hyper+A", "Cmd+Nothing", "Cmd++"] {
        assert_eq!(KeyCombo::parse(text), Err(KeyComboError));
    }
}
