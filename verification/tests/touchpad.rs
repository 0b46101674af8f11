//! The stroke recognizer over physical touch frames, in micrometres.
use openlogi_touchpad::binding::ButtonId;
use openlogi_touchpad::touchpad::{
    GestureRecognition, TouchContact, TouchFrame, TouchFrameError, TouchpadGestureRecognizer,
};

fn contact(id: u8, x_um: u32, y_um: u32) -> TouchContact {
    TouchContact { id, x_um, y_um }
}

fn frame(timestamp_us: u64, contacts: &[TouchContact]) -> TouchFrame {
    TouchFrame::new(timestamp_us, false, contacts.to_vec()).expect("distinct ids")
}

/// A row of fingers, shifted.
fn row(timestamp_us: u64, fingers: u8, dx: u32, dy: u32) -> TouchFrame {
    let contacts: Vec<TouchContact> = (0..fingers)
        .map(|i| contact(i, 20_000 + u32::from(i) * 15_000 + dx, 30_000 + dy))
        .collect();
    frame(timestamp_us, &contacts)
}

#[test]
fn contacts_are_sorted_and_ids_distinct() {
    let frame = frame(5, &[contact(3, 1, 1), contact(1, 2, 2), contact(2, 3, 3)]);
    let ids: Vec<u8> = frame.contacts().iter().map(|c| c.id).collect();
    assert_eq!(ids, vec![1, 2, 3]);
    let error = TouchFrame::new(5, false, vec![contact(1, 1, 1), contact(1, 2, 2)])
        .expect_err("two contacts share an id");
    assert_eq!(error, TouchFrameError::DuplicateContactId);
    assert_eq!(error.message(), "touchpad frame contains a duplicate contact id");
}

#[test]
fn quick_touches_are_taps() {
    let taps = [
        (2, ButtonId::TouchpadTwoFingerTap),
        (3, ButtonId::TouchpadThreeFingerTap),
        (4, ButtonId::TouchpadFourFingerTap),
    ];
    for (fingers, tap) in taps {
        let mut recognizer = TouchpadGestureRecognizer::default();
        assert_eq!(recognizer.update(&row(0, fingers, 0, 0)), GestureRecognition::Pending);
        assert_eq!(recognizer.update(&row(100_000, fingers, 0, 0)), GestureRecognition::Pending);
        assert_eq!(recognizer.end(), Some(tap));
        assert_eq!(recognizer.end(), None);
    }
}

#[test]
fn a_long_or_wandering_touch_is_no_tap() {
    let mut long = TouchpadGestureRecognizer::default();
    long.update(&row(0, 3, 0, 0));
    long.update(&row(250_001, 3, 0, 0));
    assert_eq!(long.end(), None);
    let mut wandering = TouchpadGestureRecognizer::default();
    wandering.update(&row(0, 3, 0, 0));
    wandering.update(&row(10_000, 3, 3_001, 0));
    assert_eq!(wandering.end(), None);
}

fn first_gesture(mut step: impl FnMut(u32) -> TouchFrame) -> (Option<ButtonId>, usize) {
    let mut recognizer = TouchpadGestureRecognizer::default();
    let mut fired = Vec::new();
    for i in 0..20 {
        if let GestureRecognition::Gesture(trigger) = recognizer.update(&step(i)) {
            fired.push(trigger);
        }
    }
    assert_eq!(recognizer.end(), None);
    (fired.first().copied(), fired.len())
}

#[test]
fn swipes_fire_once_in_their_direction() {
    let at = |i: u32| u64::from(i) * 20_000;
    assert_eq!(
        first_gesture(|i| row(at(i), 3, i * 3_000, 0)),
        (Some(ButtonId::TouchpadThreeFingerSwipeRight), 1)
    );
    assert_eq!(
        first_gesture(|i| row(at(i), 3, 60_000 - i * 3_000, 0)),
        (Some(ButtonId::TouchpadThreeFingerSwipeLeft), 1)
    );
    assert_eq!(
        first_gesture(|i| row(at(i), 4, 0, 60_000 - i * 3_000)),
        (Some(ButtonId::TouchpadFourFingerSwipeUp), 1)
    );
    assert_eq!(
        first_gesture(|i| row(at(i), 4, 0, i * 3_000)),
        (Some(ButtonId::TouchpadFourFingerSwipeDown), 1)
    );
}

#[test]
fn spreading_and_closing_two_fingers_pinch() {
    let at = |i: u32| u64::from(i) * 20_000;
    assert_eq!(
        first_gesture(|i| frame(
            at(i),
            &[contact(1, 60_000 - i * 2_000, 40_000), contact(2, 70_000 + i * 2_000, 40_000)]
        )),
        (Some(ButtonId::TouchpadTwoFingerPinchOut), 1)
    );
    assert_eq!(
        first_gesture(|i| frame(
            at(i),
            &[contact(1, 10_000 + i * 2_000, 40_000), contact(2, 120_000 - i * 2_000, 40_000)]
        )),
        (Some(ButtonId::TouchpadTwoFingerPinchIn), 1)
    );
}

#[test]
fn two_fingers_together_scroll_by_their_travel() {
    let mut recognizer = TouchpadGestureRecognizer::default();
    let mut travel = (0, 0);
    let mut scrolled = 0;
    for i in 0..10_u32 {
        let moved = row(u64::from(i) * 10_000, 2, i * 1_000, i * 500);
        match recognizer.update(&moved) {
            GestureRecognition::Scroll { dx_um, dy_um } => {
                travel = (travel.0 + dx_um, travel.1 + dy_um);
                scrolled += 1;
            }
            GestureRecognition::Pending => assert_eq!(scrolled, 0, "a claimed scroll goes on"),
            GestureRecognition::Gesture(trigger) => panic!("no gesture: {trigger:?}"),
        }
    }
    // Each step's travel comes through; the travel that claimed the stroke does not.
    assert!(scrolled > 0);
    assert_eq!(travel, (1_000 * scrolled, 500 * scrolled));
}

#[test]
fn one_finger_and_five_fingers_do_nothing() {
    let at = |i: u32| u64::from(i) * 20_000;
    assert_eq!(first_gesture(|i| row(at(i), 1, i * 3_000, 0)), (None, 0));
    assert_eq!(first_gesture(|i| row(at(i), 5, i * 3_000, 0)), (None, 0));
}

#[test]
fn a_cancelled_stroke_stays_silent_until_the_fingers_lift() {
    let mut recognizer = TouchpadGestureRecognizer::default();
    recognizer.update(&row(0, 3, 0, 0));
    recognizer.cancel();
    for i in 1..20_u32 {
        assert_eq!(
            recognizer.update(&row(u64::from(i) * 20_000, 3, i * 3_000, 0)),
            GestureRecognition::Pending
        );
    }
    assert_eq!(recognizer.end(), None);
    recognizer.update(&row(0, 3, 0, 0));
    assert_eq!(recognizer.end(), Some(ButtonId::TouchpadThreeFingerTap));
}

#[test]
fn a_claimed_stroke_scrolls_even_where_its_fingers_spread() {
    let mut recognizer = TouchpadGestureRecognizer::default();
    recognizer.update(&row(0, 2, 0, 0));
    let claimed = recognizer.update(&row(10_000, 2, 0, 4_000));
    assert_eq!(claimed, GestureRecognition::Scroll { dx_um: 0, dy_um: 4_000 });
    // A spread that would be a pinch at the start of a stroke, then no motion at all.
    let spread = [contact(0, 5_000, 34_000), contact(1, 65_000, 34_000)];
    assert_eq!(
        recognizer.update(&frame(20_000, &spread)),
        GestureRecognition::Scroll { dx_um: 35_000 - 27_500, dy_um: 0 }
    );
    assert_eq!(
        recognizer.update(&frame(30_000, &spread)),
        GestureRecognition::Scroll { dx_um: 0, dy_um: 0 }
    );
    let mut fresh = TouchpadGestureRecognizer::default();
    fresh.update(&row(0, 2, 0, 0));
    assert_eq!(
        fresh.update(&frame(10_000, &spread)),
        GestureRecognition::Gesture(ButtonId::TouchpadTwoFingerPinchOut)
    );
}

#[test]
fn landing_fingers_begin_the_stroke_anew() {
    let mut joined = TouchpadGestureRecognizer::default();
    joined.update(&row(0, 2, 0, 0));
    joined.update(&row(200_000, 2, 0, 2_900));
    let mut fresh = TouchpadGestureRecognizer::default();
    for (at, dx) in [(300_000, 0), (320_000, 4_000), (340_000, 9_000), (360_000, 16_000)] {
        let next = row(at, 3, dx, 0);
        let recognition = joined.update(&next);
        assert_eq!(recognition, fresh.update(&next));
        if dx == 0 {
            assert_eq!(recognition, GestureRecognition::Pending);
        }
    }
    let mut tapped = TouchpadGestureRecognizer::default();
    tapped.update(&row(0, 2, 0, 0));
    tapped.update(&row(200_000, 3, 0, 0));
    tapped.update(&row(400_000, 3, 0, 0));
    assert_eq!(tapped.end(), Some(ButtonId::TouchpadThreeFingerTap));
}
