//! Classifier behaviour over synthetic frame sequences: the gestures a touchpad reports, spelled as
//! coordinates. The geometry is a real pad's (2775 by 1786 units, 0.1 ms ticks), so that the swipe
//! minimum is 462 by 297 units, the pinch minimum 346, and a tap may wander 111 units for 2500
//! ticks.
use openlogi_touchpad::touchpad::classify::{swipe_id, SwipeDirection, TouchpadClassifier};
use openlogi_touchpad::touchpad::frame::{TouchContact, TouchFrame};
use openlogi_touchpad::touchpad::gesture::TouchpadGestureId as G;

const X: u16 = 2775;
const Y: u16 = 1786;
const TAP_TICKS: u16 = 2500;

fn classifier() -> TouchpadClassifier {
    TouchpadClassifier::new(X, Y, TAP_TICKS)
}

fn contact(id: u8, x: u16, y: u16) -> TouchContact {
    TouchContact { finger_id: id, x, y }
}

fn frame(ts: u16, contacts: &[TouchContact]) -> TouchFrame {
    TouchFrame { timestamp: ts, contacts: contacts.to_vec() }
}

/// A vertical column of fingers around the pad centre.
fn fingers_at(n: u8, x: u16, ts: u16) -> TouchFrame {
    let base = 800;
    let contacts = (0..n).map(|i| contact(i, x, base + u16::from(i) * 90)).collect();
    TouchFrame { timestamp: ts, contacts }
}

/// Feeds a whole stroke with its lift, collecting gestures.
fn run(mut moves: Vec<TouchFrame>) -> Vec<G> {
    let mut classifier = classifier();
    let mut fired = Vec::new();
    let last_ts = moves.last().map_or(0, |f| f.timestamp);
    for frame in moves.drain(..) {
        if let Some(g) = classifier.push(&frame) {
            fired.push(g);
        }
    }
    if let Some(g) = classifier.push(&frame(last_ts, &[])) {
        fired.push(g);
    }
    fired
}

#[test]
fn three_finger_swipe_commits_mid_stroke_exactly_once() {
    let mut classifier = classifier();
    classifier.push(&fingers_at(3, 600, 100));
    classifier.push(&fingers_at(3, 900, 200));
    assert_eq!(
        classifier.push(&fingers_at(3, 1070, 300)),
        Some(G::ThreeFingerSwipeRight)
    );
    // The rest of the stroke stays silent, its lift among it.
    assert_eq!(classifier.push(&fingers_at(3, 1400, 400)), None);
    assert_eq!(classifier.push(&frame(500, &[])), None);
}

#[test]
fn swipe_below_threshold_never_fires_and_is_no_tap() {
    assert_eq!(
        run(vec![
            fingers_at(3, 600, 100),
            fingers_at(3, 1000, 200),
            fingers_at(3, 1000, 300),
        ]),
        Vec::<G>::new()
    );
}

#[test]
fn vertical_swipe_direction_follows_the_dominant_axis() {
    let up = |y: u16, ts: u16| {
        frame(
            ts,
            &[contact(0, 1000, y), contact(1, 1060, y + 60), contact(2, 1120, y + 120)],
        )
    };
    let mut classifier = classifier();
    classifier.push(&up(1500, 100));
    assert_eq!(classifier.push(&up(1200, 500)), Some(G::ThreeFingerSwipeUp));
    assert_eq!(classifier.push(&up(800, 900)), None);
}

#[test]
fn diagonal_swipe_is_rejected() {
    let diagonal = |x: u16, y: u16, ts: u16| {
        frame(
            ts,
            &[contact(0, x, y), contact(1, x + 40, y + 40), contact(2, x + 80, y + 80)],
        )
    };
    let mut classifier = classifier();
    classifier.push(&diagonal(600, 400, 100));
    assert_eq!(classifier.push(&diagonal(1200, 800, 300)), None);
}

#[test]
fn two_finger_drag_is_never_classified() {
    assert_eq!(
        run(vec![
            fingers_at(2, 300, 100),
            fingers_at(2, 1500, 200),
            fingers_at(2, 2600, 300),
        ]),
        Vec::<G>::new()
    );
}

#[test]
fn straggler_finger_blocks_the_swipe() {
    let split = |x_right: u16, x_left: u16, ts: u16| {
        frame(
            ts,
            &[
                contact(0, x_right, 800),
                contact(1, x_right + 80, 890),
                contact(2, x_left, 980),
            ],
        )
    };
    let mut classifier = classifier();
    classifier.push(&split(800, 1400, 100));
    assert_eq!(classifier.push(&split(1800, 400, 300)), None);
}

#[test]
fn four_finger_swipe_commits() {
    let mut classifier = classifier();
    classifier.push(&fingers_at(4, 700, 100));
    assert_eq!(
        classifier.push(&fingers_at(4, 1300, 300)),
        Some(G::FourFingerSwipeRight)
    );
}

#[test]
fn tap_fires_at_lift_once() {
    let mut classifier = classifier();
    classifier.push(&fingers_at(3, 1000, 100));
    assert_eq!(classifier.push(&fingers_at(3, 1050, 1500)), None);
    assert_eq!(classifier.push(&frame(2000, &[])), Some(G::ThreeFingerTap));
}

#[test]
fn slow_press_is_not_a_tap() {
    let mut classifier = classifier();
    classifier.push(&fingers_at(2, 1000, 100));
    assert_eq!(classifier.push(&frame(2700, &[])), None);
}

#[test]
fn wandering_press_is_not_a_tap() {
    let mut classifier = classifier();
    classifier.push(&fingers_at(3, 1000, 100));
    let drifted = frame(
        800,
        &[contact(0, 1000, 800), contact(1, 1200, 890), contact(2, 1000, 980)],
    );
    classifier.push(&drifted);
    assert_eq!(classifier.push(&frame(1000, &[])), None);
}

#[test]
fn single_finger_strokes_are_native() {
    assert_eq!(
        run(vec![
            fingers_at(1, 1000, 100),
            fingers_at(1, 1800, 500),
            fingers_at(1, 1800, 900),
        ]),
        Vec::<G>::new()
    );
}

#[test]
fn tap_window_survives_the_timestamp_wrap() {
    let mut classifier = classifier();
    classifier.push(&fingers_at(3, 1000, 65000));
    assert_eq!(classifier.push(&frame(300, &[])), Some(G::ThreeFingerTap));
}

#[test]
fn two_finger_pinch_out_and_in() {
    let mut spreader = classifier();
    spreader.push(&frame(100, &[contact(0, 1100, 900), contact(1, 1200, 900)]));
    assert_eq!(
        spreader.push(&frame(300, &[contact(0, 700, 900), contact(1, 1600, 900)])),
        Some(G::TwoFingerPinchOut)
    );
    let mut closer = classifier();
    closer.push(&frame(100, &[contact(0, 600, 900), contact(1, 2200, 900)]));
    assert_eq!(
        closer.push(&frame(300, &[contact(0, 1300, 900), contact(1, 1400, 900)])),
        Some(G::TwoFingerPinchIn)
    );
}

#[test]
fn small_spread_change_does_not_pinch() {
    let mut classifier = classifier();
    classifier.push(&frame(100, &[contact(0, 1100, 900), contact(1, 1200, 900)]));
    assert_eq!(
        classifier.push(&frame(300, &[contact(0, 950, 900), contact(1, 1350, 900)])),
        None
    );
}

#[test]
fn four_finger_pinch_in_recognized_by_spread_from_centroid() {
    let wide = |scale: u16, ts: u16| {
        let (cx, cy) = (1400_i32, 900_i32);
        let d = i32::from(scale);
        let pts = [(cx - d, cy - d), (cx + d, cy - d), (cx - d, cy + d), (cx + d, cy + d)];
        TouchFrame {
            timestamp: ts,
            contacts: pts
                .iter()
                .enumerate()
                .map(|(i, &(x, y))| TouchContact {
                    finger_id: i as u8,
                    x: x.clamp(0, i32::from(X) - 1) as u16,
                    y: y.clamp(0, i32::from(Y) - 1) as u16,
                })
                .collect(),
        }
    };
    let mut classifier = classifier();
    classifier.push(&wide(600, 100));
    assert_eq!(classifier.push(&wide(50, 300)), Some(G::FourFingerPinchIn));
}

#[test]
fn a_fresh_stroke_after_a_committed_one_classifies_again() {
    let mut classifier = classifier();
    classifier.push(&fingers_at(3, 600, 100));
    classifier.push(&fingers_at(3, 1200, 300));
    assert!(classifier.push(&frame(400, &[])).is_none());
    classifier.push(&fingers_at(3, 1000, 500));
    assert_eq!(classifier.push(&frame(1500, &[])), Some(G::ThreeFingerTap));
}

#[test]
fn idle_frame_repeats_are_inert() {
    let mut classifier = classifier();
    for ts in [100_u16, 177, 254, 331] {
        classifier.push(&fingers_at(3, 1000, ts));
    }
    assert_eq!(classifier.push(&frame(500, &[])), Some(G::ThreeFingerTap));
}

#[test]
fn finger_landing_mid_stroke_joins_the_tracked_set() {
    let mut classifier = classifier();
    classifier.push(&fingers_at(2, 800, 100));
    classifier.push(&fingers_at(3, 800, 150));
    assert_eq!(
        classifier.push(&fingers_at(3, 1500, 400)),
        Some(G::ThreeFingerSwipeRight)
    );
}

#[test]
fn classifier_survives_coordinates_at_the_extremes() {
    let edge = |x: u16, ts: u16| {
        frame(ts, &[contact(0, x, 0), contact(1, x, Y - 1), contact(2, x, 900)])
    };
    let mut classifier = classifier();
    classifier.push(&edge(0, 100));
    assert_eq!(
        classifier.push(&edge(X - 1, 400)),
        Some(G::ThreeFingerSwipeRight)
    );
}

#[test]
fn every_swipe_direction_has_its_gesture() {
    let mut left = classifier();
    left.push(&fingers_at(3, 1500, 100));
    assert_eq!(
        left.push(&fingers_at(3, 900, 700)),
        Some(G::ThreeFingerSwipeLeft)
    );
    let column = |y: u16, ts: u16| {
        frame(
            ts,
            &[
                contact(0, 1000, y),
                contact(1, 1060, y),
                contact(2, 1120, y),
                contact(3, 1180, y),
            ],
        )
    };
    let mut down = classifier();
    down.push(&column(300, 100));
    assert_eq!(down.push(&column(900, 700)), Some(G::FourFingerSwipeDown));
    let mut up = classifier();
    up.push(&column(900, 100));
    assert_eq!(up.push(&column(300, 700)), Some(G::FourFingerSwipeUp));
}

#[test]
fn a_lift_starts_the_classifier_over() {
    // After a lift, a classifier answers as a fresh one does.
    let mut used = classifier();
    used.push(&fingers_at(4, 700, 100));
    used.push(&fingers_at(4, 1300, 300));
    used.push(&frame(400, &[]));
    let mut fresh = classifier();
    for moved in [fingers_at(3, 600, 1000), fingers_at(3, 900, 1100), fingers_at(3, 1070, 1200)] {
        assert_eq!(used.push(&moved), fresh.push(&moved));
    }
}

#[test]
fn four_fingers_open_into_a_pinch_out() {
    let square = |d: u16, ts: u16| {
        frame(
            ts,
            &[
                contact(0, 1400 - d, 900 - d),
                contact(1, 1400 + d, 900 - d),
                contact(2, 1400 - d, 900 + d),
                contact(3, 1400 + d, 900 + d),
            ],
        )
    };
    let mut classifier = classifier();
    classifier.push(&square(50, 100));
    assert_eq!(classifier.push(&square(600, 300)), Some(G::FourFingerPinchOut));
}

#[test]
fn swipes_of_different_counts_or_directions_are_different_gestures() {
    let swept = |fingers: u8, from: (u16, u16), to: (u16, u16)| {
        let hand = |(x, y): (u16, u16), ts: u16| {
            let contacts: Vec<_> =
                (0..fingers).map(|i| contact(i, x + u16::from(i) * 60, y)).collect();
            frame(ts, &contacts)
        };
        let mut classifier = classifier();
        classifier.push(&hand(from, 100));
        classifier.push(&hand(to, 700)).expect("a swipe")
    };
    let mut gestures = Vec::new();
    for fingers in [3, 4] {
        gestures.push(swept(fingers, (600, 900), (1300, 900)));
        gestures.push(swept(fingers, (1300, 900), (600, 900)));
        gestures.push(swept(fingers, (1000, 300), (1000, 900)));
        gestures.push(swept(fingers, (1000, 900), (1000, 300)));
    }
    assert_eq!(
        gestures,
        [
            G::ThreeFingerSwipeRight,
            G::ThreeFingerSwipeLeft,
            G::ThreeFingerSwipeDown,
            G::ThreeFingerSwipeUp,
            G::FourFingerSwipeRight,
            G::FourFingerSwipeLeft,
            G::FourFingerSwipeDown,
            G::FourFingerSwipeUp,
        ]
    );
    let directions =
        [SwipeDirection::Right, SwipeDirection::Left, SwipeDirection::Down, SwipeDirection::Up];
    for (i, gesture) in gestures.into_iter().enumerate() {
        assert_eq!(swipe_id(3 + i / 4, directions[i % 4]), gesture);
    }
}

#[test]
fn pinches_and_taps_begin_and_end_at_their_limits() {
    let spread = |to: u16| {
        let mut classifier = classifier();
        classifier.push(&frame(100, &[contact(0, 1100, 900), contact(1, 1200, 900)]));
        classifier.push(&frame(300, &[contact(0, 1100, 900), contact(1, 1200 + to, 900)]))
    };
    assert_eq!(spread(345), None);
    assert_eq!(spread(346), Some(G::TwoFingerPinchOut));
    let wandered = |by: u16| {
        let mut classifier = classifier();
        classifier.push(&frame(100, &[contact(0, 1000, 900), contact(1, 1400, 900)]));
        classifier.push(&frame(300, &[contact(0, 1000, 900), contact(1, 1400 + by, 900)]));
        classifier.push(&frame(400, &[]))
    };
    assert_eq!(wandered(111), Some(G::TwoFingerTap));
    assert_eq!(wandered(112), None);
}
