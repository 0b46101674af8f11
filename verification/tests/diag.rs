//! The touchpad diagnosis as text.
use openlogi_touchpad::capture::{DualXyData, TouchPoint};
use openlogi_touchpad::diag::{
    frame_line, print_report, raw_flags_label, summarize, touch_line, ContactRange,
    RawReportFlags, SampleSummary, TouchpadArgs, TouchpadInfo, TouchpadReport,
};
use openlogi_touchpad::text::decimal_text;

fn point(id: u8, status: u8, x: u16, y: u16) -> TouchPoint {
    TouchPoint { contact_type: 0, contact_status: status, x, y, finger_id: id, z: 7, area: 9 }
}

fn sample(timestamp: u16, x: u16, end_of_frame: bool) -> DualXyData {
    DualXyData {
        timestamp,
        touch1: point(1, 1, x, 40),
        touch2: point(2, 0, 0, 0),
        button: x == 100,
        end_of_frame,
        finger_count: 1,
    }
}

fn report(frames: Vec<DualXyData>) -> TouchpadReport {
    TouchpadReport {
        feature_version: 1,
        info: TouchpadInfo {
            x_size: 2775,
            y_size: 1786,
            dpi: 600,
            origin: "UpperLeft".to_string(),
            max_finger_count: 4,
            z_data_range: 0x0f,
            area_data_range: 0xff,
            timestamp_units: 1,
            raw_report_mapping_version: 2,
            pen_support: false,
        },
        state_before: RawReportFlags { bits: 0 },
        state_after_set: Some(RawReportFlags { bits: 1 }),
        frames,
        frames_received: 12,
        state_restored: Some(RawReportFlags { bits: 0 }),
    }
}

#[test]
fn modes_are_named() {
    let label = |bits: u8| raw_flags_label(RawReportFlags { bits });
    assert_eq!(label(0), "off");
    assert_eq!(label(1), "raw");
    assert_eq!(label(0b0000_0101), "raw+enhanced");
    assert_eq!(label(0b0111_1111), "raw+force+enhanced+w/h+native-gest+maj/min+w/h8");
    assert_eq!(label(0b1000_0000), "");
}

#[test]
fn frames_print_on_one_line() {
    assert_eq!(touch_line(&point(3, 1, 12, 34)), "id3 c1 x=12 y=34 z=7 a=9");
    assert_eq!(
        frame_line(&sample(77, 100, true)),
        "ts=   77 fc=1 t1=[id1 c1 x=100 y=40 z=7 a=9] t2=[id2 c0 x=0 y=0 z=7 a=9] btn eof"
    );
    assert_eq!(
        frame_line(&sample(65535, 5, false)),
        "ts=65535 fc=1 t1=[id1 c1 x=5 y=40 z=7 a=9] t2=[id2 c0 x=0 y=0 z=7 a=9]"
    );
}

#[test]
fn samples_are_summed_up() {
    assert_eq!(
        summarize(&[sample(1, 100, true), sample(2, 300, false), sample(3, 200, true)]),
        SampleSummary {
            frames: 3,
            end_of_frames: 2,
            max_fingers: 1,
            button_frames: 1,
            range: Some(ContactRange { x_min: 100, x_max: 300, y_min: 40, y_max: 40 }),
        }
    );
    let hovering = DualXyData { touch1: point(1, 0, 0, 0), ..sample(1, 1, true) };
    assert_eq!(summarize(&[hovering]).range, None);
    assert_eq!(summarize(&[]).frames, 0);
}

#[test]
fn reports_print_line_by_line() {
    let head = [
        "feature 0x6100 TouchpadRawXy v1",
        "  pad 2775x1786 units, sensor 600 dpi, origin UpperLeft, max 4 fingers",
        "  z_range=0x0f area_range=0xff ts_unit=1 (0.1 ms) mapping=v2 pen=no",
        "  raw report mode: 0x00 (off)",
    ];
    let unsampled = print_report(&report(vec![]), None);
    assert_eq!(unsampled[..4], head);
    assert_eq!(unsampled[4..], ["  (pass --seconds N to sample raw touch frames)"]);
    let empty = print_report(&report(vec![]), Some(5));
    assert_eq!(
        empty[4..],
        [
            "  raw mode requested 0x01, device confirmed 0x01 (raw)",
            "  sampled 5s: 12 frames received — touch the pad while sampling",
            "  raw mode restored → 0x00 (off)",
        ]
    );
    let frames: Vec<DualXyData> = (0..10).map(|i| sample(i, 10 + i, true)).collect();
    let mut sampled = report(frames);
    sampled.state_after_set = None;
    sampled.state_restored = None;
    let lines = print_report(&sampled, Some(5));
    assert_eq!(
        lines[4..8],
        [
            "  raw mode was already on — sampling without touching it",
            "  sampled 5s: 12 frames received, 10 distinct logical frames (10 end-of-frame), \
             max fingers 1, button in 0",
            "  x observed 10..19 of 2775, y observed 40..40 of 1786",
            "  first frames:",
        ]
    );
    assert_eq!(lines.len(), 16);
    assert_eq!(lines[8], format!("    {}", frame_line(&sample(0, 10, true))));
}

#[test]
fn numbers_are_written_in_decimal() {
    for n in [0_u64, 7, 10, 99, 100, 65_535, u64::MAX] {
        assert_eq!(decimal_text(n), n.to_string());
    }
}

#[test]
fn arguments_hold_what_was_asked_for() {
    let args = TouchpadArgs { seconds: Some(3), device: Some("casa".to_string()) };
    assert_eq!(args.seconds, Some(3));
    assert_eq!(args.device.as_deref(), Some("casa"));
}
