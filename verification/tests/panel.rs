//! The touchpad settings.
use openlogi_touchpad::binding::{Action, ButtonId};
use openlogi_touchpad::panel::{
    action_picker, gesture_group, gesture_label, gesture_panel, GestureRow, SliderInput,
    SliderStep, StateEvent, TouchpadScrollPanel,
};
use openlogi_touchpad::plan::TouchpadScrollSensitivity;
use openlogi_touchpad::table::Table;

fn level(value: u8) -> TouchpadScrollSensitivity {
    TouchpadScrollSensitivity::try_new(value).expect("a sensitivity")
}

#[test]
fn rows_show_the_binding_or_the_default() {
    let mut bindings = Table::new();
    bindings.insert(ButtonId::TouchpadThreeFingerSwipeUp, Action::Copy);
    let rows = gesture_group(&ButtonId::TOUCHPAD_THREE_FINGER, &bindings);
    assert_eq!(rows.len(), 5);
    assert_eq!(
        rows[0],
        GestureRow {
            trigger: ButtonId::TouchpadThreeFingerTap,
            action: Action::Nothing,
            divided: false
        }
    );
    assert_eq!(
        rows[1],
        GestureRow {
            trigger: ButtonId::TouchpadThreeFingerSwipeUp,
            action: Action::Copy,
            divided: true
        }
    );
    assert_eq!(rows[2].action, Action::AppExpose);
}

#[test]
fn gestures_are_named_within_their_group() {
    let names = |triggers: &[ButtonId]| {
        triggers.iter().map(|trigger| gesture_label(*trigger)).collect::<Vec<_>>()
    };
    assert_eq!(names(&ButtonId::TOUCHPAD_TWO_FINGER), ["Tap", "Pinch Out", "Pinch In"]);
    assert_eq!(
        names(&ButtonId::TOUCHPAD_FOUR_FINGER),
        ["Tap", "Swipe Up", "Swipe Down", "Swipe Left", "Swipe Right", "Pinch Out", "Pinch In"]
    );
}

#[test]
fn every_trigger_stands_in_one_group() {
    for trigger in ButtonId::TOUCHPAD {
        let groups = usize::from(ButtonId::TOUCHPAD_TWO_FINGER.contains(&trigger))
            + usize::from(ButtonId::TOUCHPAD_THREE_FINGER.contains(&trigger))
            + usize::from(ButtonId::TOUCHPAD_FOUR_FINGER.contains(&trigger));
        assert_eq!(groups, 1);
    }
}

#[test]
fn only_the_selected_device_concerns_the_slider() {
    let selected = "pad".to_string();
    let relevant = |event: StateEvent, key: Option<&String>| {
        TouchpadScrollPanel::is_relevant(&event, key)
    };
    assert!(relevant(StateEvent::InventoryChanged, None));
    assert!(relevant(StateEvent::DeviceSelected, Some(&selected)));
    assert!(relevant(StateEvent::DeviceConfigChanged("pad".to_string()), Some(&selected)));
    assert!(!relevant(StateEvent::DeviceConfigChanged("mouse".to_string()), Some(&selected)));
    assert!(!relevant(StateEvent::DeviceConfigChanged("pad".to_string()), None));
    assert!(!relevant(StateEvent::Other, Some(&selected)));
}

#[test]
fn the_slider_follows_the_configuration_but_not_during_a_drag() {
    let mut panel = TouchpadScrollPanel::new();
    assert_eq!(
        panel.ensure_slider("pad", level(14), None),
        SliderStep::Create { value: level(14) }
    );
    assert_eq!(panel.ensure_slider("pad", level(14), Some(level(14))), SliderStep::Keep);
    assert_eq!(
        panel.ensure_slider("pad", level(20), Some(level(14))),
        SliderStep::Reseat { value: level(20) }
    );
    assert_eq!(panel.slider_input(SliderInput::Change), None);
    assert_eq!(panel.ensure_slider("pad", level(20), Some(level(30))), SliderStep::Keep);
    assert_eq!(
        panel.slider_input(SliderInput::Release { value: level(30) }),
        Some(level(30))
    );
    assert_eq!(
        panel.ensure_slider("pad", level(20), Some(level(30))),
        SliderStep::Reseat { value: level(20) }
    );
    assert_eq!(
        panel.ensure_slider("other", level(20), Some(level(20))),
        SliderStep::Create { value: level(20) }
    );
}

#[test]
fn widgets_of_the_gesture_list_have_identities_of_their_own() {
    let picker = action_picker(ButtonId::TouchpadThreeFingerSwipeUp);
    assert_eq!(picker.popover, "touchpad-action-TouchpadThreeFingerSwipeUp");
    assert_eq!(picker.button, "touchpad-action-TouchpadThreeFingerSwipeUp-trigger");
    assert_eq!(picker.list, "touchpad-action-list-TouchpadThreeFingerSwipeUp");
    let mut identities = Vec::new();
    for trigger in ButtonId::TOUCHPAD {
        let picker = action_picker(trigger);
        assert_eq!(picker.popover, format!("touchpad-action-{trigger:?}"));
        assert_eq!(picker.list, format!("touchpad-action-list-{trigger:?}"));
        identities.extend([picker.popover, picker.button, picker.list]);
    }
    identities.sort();
    identities.dedup();
    assert_eq!(identities.len(), 3 * ButtonId::TOUCHPAD.len());
}

#[test]
fn the_gesture_list_shows_the_configuration() {
    let mut bindings = Table::new();
    bindings.insert(ButtonId::TouchpadFourFingerTap, Action::Paste);
    let panel = gesture_panel(Some((true, &bindings)));
    assert!(panel.enabled);
    assert_eq!(panel.switch, "On");
    assert_eq!(panel.two_finger.title, "2-finger gestures");
    assert_eq!(panel.three_finger.title, "3-finger gestures");
    assert_eq!(panel.four_finger.title, "4-finger gestures");
    assert_eq!(panel.four_finger.rows[0].action, Action::Paste);
    let before = gesture_panel(None);
    assert!(!before.enabled);
    assert_eq!(before.switch, "Off");
    assert_eq!(
        before.four_finger.rows,
        gesture_group(&ButtonId::TOUCHPAD_FOUR_FINGER, &Table::new())
    );
}

#[test]
fn only_a_scrolling_device_has_a_slider() {
    let mut panel = TouchpadScrollPanel::new();
    assert_eq!(panel.render(false, Some("pad"), level(14), None), None);
    assert_eq!(panel.render(true, None, level(14), None), None);
    assert_eq!(
        panel.render(true, Some("pad"), level(14), None),
        Some(SliderStep::Create { value: level(14) })
    );
    assert_eq!(
        panel.render(true, Some("pad"), level(14), Some(level(14))),
        Some(SliderStep::Keep)
    );
}

#[test]
fn thumb_positions_become_sensitivities() {
    assert_eq!(TouchpadScrollSensitivity::nearest(-3), level(1));
    assert_eq!(TouchpadScrollSensitivity::nearest(14), level(14));
    assert_eq!(TouchpadScrollSensitivity::nearest(250), level(100));
    assert_eq!(TouchpadScrollSensitivity::try_new(0), None);
    assert_eq!(TouchpadScrollSensitivity::try_new(101), None);
}
