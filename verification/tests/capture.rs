//! Raw reports into frames, and frames into gestures.
use openlogi_touchpad::capture::{
    group_open, same_contact, tap_max_ticks, DualXyData, LogicalFrameAssembler, TouchPoint,
    TouchpadCaptureState,
};
use openlogi_touchpad::touchpad::frame::TouchContact;
use openlogi_touchpad::touchpad::gesture::TouchpadGestureId;

fn touch(id: u8, x: u16, y: u16) -> TouchPoint {
    TouchPoint { contact_type: 0, contact_status: 1, x, y, finger_id: id, z: 0, area: 0 }
}

fn part(ts: u16, slot1: TouchPoint, slot2: TouchPoint, fingers: u8, end: bool) -> DualXyData {
    DualXyData {
        timestamp: ts,
        touch1: slot1,
        touch2: slot2,
        button: false,
        end_of_frame: end,
        finger_count: fingers,
    }
}

fn hover(touch: TouchPoint) -> TouchPoint {
    TouchPoint { contact_status: 0, ..touch }
}

#[test]
fn split_frame_events_assemble_into_one_logical_frame() {
    let mut assembler = LogicalFrameAssembler::default();
    assert_eq!(
        assembler.push(part(100, touch(0, 500, 800), touch(1, 600, 800), 4, false)),
        None,
        "an unterminated group must not commit"
    );
    assert_eq!(
        assembler.push(part(100, touch(2, 700, 800), touch(3, 800, 800), 4, true)),
        None,
        "the closing part itself does not commit — the next event does"
    );
    let frame = assembler.flush().expect("flush hands the closed group over");
    assert_eq!(frame.timestamp, 100);
    assert_eq!(frame.contacts.len(), 4);
    assert_eq!(frame.contacts[2].finger_id, 2);
}

#[test]
fn resting_hand_resends_are_dropped_whole() {
    let mut assembler = LogicalFrameAssembler::default();
    assembler.push(part(100, touch(0, 500, 800), touch(1, 600, 800), 2, true));
    assert!(
        assembler
            .push(part(177, touch(0, 500, 800), touch(1, 600, 800), 2, true))
            .is_some(),
        "the first physical frame commits when the re-send arrives"
    );
    assert!(
        assembler
            .push(part(254, touch(0, 500, 800), touch(1, 600, 800), 2, true))
            .is_none(),
        "an unchanged hand re-sent at report rate must be suppressed"
    );
    assert!(
        assembler
            .push(part(331, touch(0, 520, 800), touch(1, 620, 800), 2, true))
            .is_none(),
        "the still-resting group before the move suppresses too"
    );
    assert!(
        assembler
            .push(part(408, touch(0, 520, 800), touch(1, 620, 800), 2, true))
            .is_some(),
        "the moved frame comes through one event later (lazy commit)"
    );
}

#[test]
fn hover_contacts_do_not_reach_the_frame() {
    let mut assembler = LogicalFrameAssembler::default();
    assembler.push(part(100, touch(0, 500, 800), hover(touch(1, 600, 800)), 1, true));
    let frame = assembler.flush().expect("flush commits the single-event frame");
    assert_eq!(
        frame.contacts,
        vec![TouchContact { finger_id: 0, x: 500, y: 800 }],
        "a hover contact must be filtered before classification"
    );
}

#[test]
fn end_to_end_three_finger_swipe_through_the_capture_state() {
    let empty = |ts: u16| part(ts, hover(touch(0, 0, 0)), hover(touch(0, 0, 0)), 0, true);
    let mut state = TouchpadCaptureState::new(2775, 1786, 1);
    assert_eq!(
        state.feed(part(100, touch(0, 600, 800), touch(1, 620, 860), 3, false)),
        None
    );
    assert_eq!(
        state.feed(part(100, touch(2, 640, 920), hover(touch(0, 0, 0)), 3, true)),
        None,
        "the landing frame must not commit anything"
    );
    assert_eq!(
        state.feed(part(400, touch(0, 1100, 800), touch(1, 1120, 860), 3, false)),
        None
    );
    assert_eq!(
        state.feed(part(400, touch(2, 1140, 920), hover(touch(0, 0, 0)), 3, true)),
        None,
        "the crossing frame itself is still pending"
    );
    assert_eq!(
        state.feed(empty(700)),
        Some(TouchpadGestureId::ThreeFingerSwipeRight)
    );
}

#[test]
fn tap_window_converts_timestamp_units_to_ticks() {
    assert_eq!(tap_max_ticks(1), 2500);
    assert_eq!(tap_max_ticks(2), 1250);
    assert_eq!(tap_max_ticks(10), 250);
    assert_eq!(tap_max_ticks(0), 2500);
}

#[test]
fn a_group_is_open_until_its_last_part() {
    assert!(group_open(&[]));
    let open = part(1, touch(0, 1, 1), touch(1, 2, 2), 4, false);
    let last = part(1, touch(2, 3, 3), touch(3, 4, 4), 4, true);
    assert!(group_open(&[open]));
    assert!(!group_open(&[open, last]));
}

#[test]
fn only_the_timestamp_may_differ_in_a_repeat() {
    let first = part(1, touch(0, 1, 1), touch(1, 2, 2), 2, true);
    let later = DualXyData { timestamp: 9, ..first };
    assert!(same_contact(&first, &later));
    assert!(!same_contact(&first, &DualXyData { button: true, ..later }));
    assert!(!same_contact(&first, &DualXyData { finger_count: 3, ..later }));
    assert!(!same_contact(&first, &DualXyData { touch2: touch(1, 2, 3), ..later }));
}

#[test]
fn other_contact_types_do_not_reach_the_frame() {
    let mut assembler = LogicalFrameAssembler::default();
    let palm = TouchPoint { contact_type: 1, ..touch(3, 10, 10) };
    assembler.push(part(100, palm, touch(1, 600, 800), 1, true));
    let frame = assembler.flush().expect("the pending group");
    assert_eq!(frame.contacts, vec![TouchContact { finger_id: 1, x: 600, y: 800 }]);
    assert_eq!(assembler.flush(), None);
}

#[test]
fn a_tap_is_classified_when_the_capture_is_flushed() {
    let mut state = TouchpadCaptureState::new(2775, 1786, 1);
    let empty = part(900, hover(touch(0, 0, 0)), hover(touch(0, 0, 0)), 0, true);
    assert_eq!(state.feed(part(100, touch(0, 600, 800), touch(1, 700, 800), 2, true)), None);
    assert_eq!(state.feed(empty), None);
    assert_eq!(state.flush(), Some(TouchpadGestureId::TwoFingerTap));
}

#[test]
fn a_flush_does_not_bring_a_resting_hand_back() {
    let mut assembler = LogicalFrameAssembler::default();
    let resting = |ts: u16| part(ts, touch(0, 500, 800), touch(1, 600, 800), 2, true);
    assembler.push(resting(100));
    assert!(assembler.flush().is_some());
    assembler.push(resting(177));
    assert_eq!(assembler.flush(), None);
    assert_eq!(assembler.push(resting(254)), None);
    assert_eq!(assembler.push(resting(331)), None);
    assembler.push(part(408, touch(0, 520, 800), touch(1, 620, 800), 2, true));
    let moved = assembler.flush().expect("a moved hand is news");
    assert_eq!(moved.contacts[0].x, 520);
}
