//! The touchpad diagnosis: what a probe of a device's raw touch reports found, as text.
use vstd::prelude::*;
use vstd::string::StringExecFns;

use crate::capture::{DualXyData, TouchPoint};
use crate::text::{append_aligned, append_decimal, append_hex};

verus! {

/// How many leading frames are printed after a sampled window.
pub const PRINTED_FRAMES: usize = 8;

/// What to diagnose.
#[derive(Debug)]
pub struct TouchpadArgs {
    /// Sample raw touch frames for this many seconds.
    pub seconds: Option<u64>,
    /// Run against the device whose name contains this text instead of choosing one.
    pub device: Option<String>,
}

/// The raw-report mode of a touchpad.
#[derive(Clone, Copy, Debug, PartialEq, Eq, Structural)]
pub struct RawReportFlags {
    pub bits: u8,
}

/// The pad a device describes.
#[derive(Debug)]
pub struct TouchpadInfo {
    pub x_size: u16,
    pub y_size: u16,
    pub dpi: u16,
    pub origin: String,
    pub max_finger_count: u8,
    pub z_data_range: u8,
    pub area_data_range: u8,
    pub timestamp_units: u8,
    pub raw_report_mapping_version: u8,
    pub pen_support: bool,
}

/// What a probe found.
#[derive(Debug)]
pub struct TouchpadReport {
    pub feature_version: u8,
    pub info: TouchpadInfo,
    pub state_before: RawReportFlags,
    /// The mode the device confirmed, where it had to be switched.
    pub state_after_set: Option<RawReportFlags>,
    pub frames: Vec<DualXyData>,
    pub frames_received: usize,
    /// The mode that was restored, where it had been switched.
    pub state_restored: Option<RawReportFlags>,
}

/// The place value of a flag.
pub open spec fn flag_weight(flag: u8) -> u8 {
    match flag {
        0 => 1,
        1 => 2,
        2 => 4,
        3 => 8,
        4 => 16,
        5 => 32,
        _ => 64,
    }
}

/// The name of a flag.
pub open spec fn flag_name(flag: u8) -> Seq<char> {
    match flag {
        0 => "raw"@,
        1 => "force"@,
        2 => "enhanced"@,
        3 => "w/h"@,
        4 => "native-gest"@,
        5 => "maj/min"@,
        _ => "w/h8"@,
    }
}

impl RawReportFlags {
    /// Whether a flag is set.
    pub open spec fn has(self, flag: u8) -> bool {
        (self.bits / flag_weight(flag)) % 2 == 1
    }

    /// Whether a flag below another is set.
    pub open spec fn has_below(self, flag: nat) -> bool {
        exists|i: u8| i < flag && #[trigger] self.has(i)
    }

    /// The names of the flags below one, joined by plus signs.
    pub open spec fn names_below(self, flag: nat) -> Seq<char>
        decreases flag,
    {
        if flag == 0 {
            ""@
        } else {
            let before = (flag - 1) as nat;
            if !self.has(before as u8) {
                self.names_below(before)
            } else if self.has_below(before) {
                self.names_below(before) + "+"@ + flag_name(before as u8)
            } else {
                self.names_below(before) + flag_name(before as u8)
            }
        }
    }

    /// The mode in words.
    pub open spec fn label_text(self) -> Seq<char> {
        if self.bits == 0 {
            "off"@
        } else {
            self.names_below(7)
        }
    }
}

/// The weight and the name of a flag.
fn flag_of(flag: u8) -> (result: (u8, &'static str))
    requires
        flag < 7,
    ensures
        result.0 == flag_weight(flag),
        result.0 > 0,
        result.1@ == flag_name(flag),
{
    match flag {
        0 => (1, "raw"),
        1 => (2, "force"),
        2 => (4, "enhanced"),
        3 => (8, "w/h"),
        4 => (16, "native-gest"),
        5 => (32, "maj/min"),
        _ => (64, "w/h8"),
    }
}

/// The raw-report mode in words.
pub fn raw_flags_label(flags: RawReportFlags) -> (label: String)
    ensures
        label@ == flags.label_text(),
{
    if flags.bits == 0 {
        return String::from_str("off");
    }
    let mut any: bool = false;
    let mut label: String = String::from_str("");
    let mut flag: u8 = 0;
    while flag < 7
        invariant
            flag <= 7,
            label@ == flags.names_below(flag as nat),
            any == flags.has_below(flag as nat),
        decreases 7 - flag,
    {
        let (weight, name): (u8, &'static str) = flag_of(flag);
        let ghost before = any;
        if (flags.bits / weight) % 2 == 1 {
            if any {
                label.append("+");
            }
            label.append(name);
            any = true;
            assert(flags.has(flag));
        }
        proof {
            assert(any == flags.has_below((flag + 1) as nat)) by {
                if flags.has_below((flag + 1) as nat) && !before {
                    let i = choose|i: u8| i < flag + 1 && #[trigger] flags.has(i);
                    assert(i == flag);
                }
                if before {
                    let i = choose|i: u8| i < flag && #[trigger] flags.has(i);
                    assert(i < flag + 1 && flags.has(i));
                }
            }
        }
        flag = flag + 1;
    }
    label
}

/// A touch slot as text.
pub open spec fn touch_text(point: TouchPoint) -> Seq<char> {
    "id"@ + crate::text::decimal(point.finger_id as nat) + " c"@ + crate::text::decimal(
        point.contact_status as nat,
    ) + " x="@ + crate::text::decimal(point.x as nat) + " y="@ + crate::text::decimal(
        point.y as nat,
    ) + " z="@ + crate::text::decimal(point.z as nat) + " a="@ + crate::text::decimal(
        point.area as nat,
    )
}

/// A frame as one line: timestamp, finger count and both slots as they were reported.
pub open spec fn frame_text(frame: DualXyData) -> Seq<char> {
    "ts="@ + crate::text::right_aligned(crate::text::decimal(frame.timestamp as nat), 5) + " fc="@
        + crate::text::decimal(frame.finger_count as nat) + " t1=["@ + touch_text(frame.touch1)
        + "] t2=["@ + touch_text(frame.touch2) + "]"@ + (if frame.button {
        " btn"@
    } else {
        ""@
    }) + (if frame.end_of_frame {
        " eof"@
    } else {
        ""@
    })
}

/// A touch slot as text.
pub fn touch_line(point: &TouchPoint) -> (line: String)
    ensures
        line@ == touch_text(*point),
{
    let mut line: String = String::from_str("id");
    append_decimal(&mut line, point.finger_id as u64);
    line.append(" c");
    append_decimal(&mut line, point.contact_status as u64);
    line.append(" x=");
    append_decimal(&mut line, point.x as u64);
    line.append(" y=");
    append_decimal(&mut line, point.y as u64);
    line.append(" z=");
    append_decimal(&mut line, point.z as u64);
    line.append(" a=");
    append_decimal(&mut line, point.area as u64);
    line
}

/// A frame as one line.
pub fn frame_line(frame: &DualXyData) -> (line: String)
    ensures
        line@ == frame_text(*frame),
{
    let mut line: String = String::from_str("ts=");
    append_aligned(&mut line, frame.timestamp as u64, 5);
    line.append(" fc=");
    append_decimal(&mut line, frame.finger_count as u64);
    line.append(" t1=[");
    let first: String = touch_line(&frame.touch1);
    line.append(first.as_str());
    line.append("] t2=[");
    let second: String = touch_line(&frame.touch2);
    line.append(second.as_str());
    line.append("]");
    line.append(if frame.button {
        " btn"
    } else {
        ""
    });
    line.append(if frame.end_of_frame {
        " eof"
    } else {
        ""
    });
    line
}

/// Where fingers touched the pad.
#[derive(Clone, Copy, Debug, PartialEq, Eq, Structural)]
pub struct ContactRange {
    pub x_min: u16,
    pub x_max: u16,
    pub y_min: u16,
    pub y_max: u16,
}

/// A range that also covers a slot, if the slot is in contact. A slot that is not in use is an
/// empty hover placeholder and says nothing about where fingers were.
pub open spec fn covering(range: Option<ContactRange>, point: TouchPoint) -> Option<ContactRange> {
    if point.contact_status != 1 {
        range
    } else {
        match range {
            None => Some(
                ContactRange { x_min: point.x, x_max: point.x, y_min: point.y, y_max: point.y },
            ),
            Some(r) => Some(
                ContactRange {
                    x_min: crate::math::lesser(r.x_min as int, point.x as int) as u16,
                    x_max: crate::math::greater(r.x_max as int, point.x as int) as u16,
                    y_min: crate::math::lesser(r.y_min as int, point.y as int) as u16,
                    y_max: crate::math::greater(r.y_max as int, point.y as int) as u16,
                },
            ),
        }
    }
}

/// What sampled frames held.
#[derive(Clone, Copy, Debug, PartialEq, Eq, Structural)]
pub struct SampleSummary {
    pub frames: usize,
    pub end_of_frames: usize,
    pub max_fingers: u8,
    pub button_frames: usize,
    pub range: Option<ContactRange>,
}

/// How many frames end a logical frame.
pub open spec fn count_ends(frames: Seq<DualXyData>) -> nat
    decreases frames.len(),
{
    if frames.len() == 0 {
        0
    } else {
        count_ends(frames.drop_last()) + if frames.last().end_of_frame {
            1nat
        } else {
            0
        }
    }
}

/// In how many frames the button was down.
pub open spec fn count_buttons(frames: Seq<DualXyData>) -> nat
    decreases frames.len(),
{
    if frames.len() == 0 {
        0
    } else {
        count_buttons(frames.drop_last()) + if frames.last().button {
            1nat
        } else {
            0
        }
    }
}

/// The most fingers a frame counted.
pub open spec fn most_fingers(frames: Seq<DualXyData>) -> int
    decreases frames.len(),
{
    if frames.len() == 0 {
        0
    } else {
        crate::math::greater(most_fingers(frames.drop_last()), frames.last().finger_count as int)
    }
}

/// Where fingers touched the pad, if any did.
pub open spec fn touched_range(frames: Seq<DualXyData>) -> Option<ContactRange>
    decreases frames.len(),
{
    if frames.len() == 0 {
        None
    } else {
        covering(
            covering(touched_range(frames.drop_last()), frames.last().touch1),
            frames.last().touch2,
        )
    }
}

impl SampleSummary {
    /// Whether this is what the frames held.
    pub open spec fn sums_up(self, frames: Seq<DualXyData>) -> bool {
        &&& self.frames == frames.len()
        &&& self.end_of_frames == count_ends(frames)
        &&& self.max_fingers == most_fingers(frames)
        &&& self.button_frames == count_buttons(frames)
        &&& self.range == touched_range(frames)
    }
}

fn cover(range: Option<ContactRange>, point: &TouchPoint) -> (result: Option<ContactRange>)
    ensures
        result == covering(range, *point),
{
    if point.contact_status != 1 {
        return range;
    }
    match range {
        None => Some(
            ContactRange { x_min: point.x, x_max: point.x, y_min: point.y, y_max: point.y },
        ),
        Some(r) => Some(
            ContactRange {
                x_min: if r.x_min <= point.x {
                    r.x_min
                } else {
                    point.x
                },
                x_max: if r.x_max >= point.x {
                    r.x_max
                } else {
                    point.x
                },
                y_min: if r.y_min <= point.y {
                    r.y_min
                } else {
                    point.y
                },
                y_max: if r.y_max >= point.y {
                    r.y_max
                } else {
                    point.y
                },
            },
        ),
    }
}

/// What sampled frames held.
pub fn summarize(frames: &[DualXyData]) -> (summary: SampleSummary)
    ensures
        summary.sums_up(frames@),
{
    let mut end_of_frames: usize = 0;
    let mut max_fingers: u8 = 0;
    let mut button_frames: usize = 0;
    let mut range: Option<ContactRange> = None;
    let mut i: usize = 0;
    while i < frames.len()
        invariant
            i <= frames.len(),
            end_of_frames <= i,
            button_frames <= i,
            end_of_frames == count_ends(frames@.take(i as int)),
            max_fingers == most_fingers(frames@.take(i as int)),
            button_frames == count_buttons(frames@.take(i as int)),
            range == touched_range(frames@.take(i as int)),
        decreases frames.len() - i,
    {
        let frame: DualXyData = frames[i];
        proof {
            assert(frames@.take(i + 1).drop_last() =~= frames@.take(i as int));
            assert(frames@.take(i + 1).last() == frame);
        }
        if frame.end_of_frame {
            end_of_frames = end_of_frames + 1;
        }
        if frame.button {
            button_frames = button_frames + 1;
        }
        if frame.finger_count > max_fingers {
            max_fingers = frame.finger_count;
        }
        range = cover(cover(range, &frame.touch1), &frame.touch2);
        i = i + 1;
    }
    proof {
        assert(frames@.take(frames@.len() as int) =~= frames@);
    }
    SampleSummary { frames: frames.len(), end_of_frames, max_fingers, button_frames, range }
}

/// The views of lines.
pub open spec fn line_views(lines: Seq<String>) -> Seq<Seq<char>> {
    lines.map_values(|line: String| line@)
}

/// Appends a line.
fn push_line(lines: &mut Vec<String>, line: String)
    ensures
        line_views(final(lines)@) == line_views(old(lines)@).push(line@),
{
    lines.push(line);
    proof {
        assert(line_views(lines@) =~= line_views(old(lines)@).push(line@));
    }
}

/// The pad's size, resolution, origin and finger count.
pub open spec fn pad_text(info: TouchpadInfo) -> Seq<char> {
    "  pad "@ + crate::text::decimal(info.x_size as nat) + "x"@ + crate::text::decimal(
        info.y_size as nat,
    ) + " units, sensor "@ + crate::text::decimal(info.dpi as nat) + " dpi, origin "@ + info.origin@
        + ", max "@ + crate::text::decimal(info.max_finger_count as nat) + " fingers"@
}

/// The pad's value ranges, timestamp unit, report mapping and pen support.
pub open spec fn mapping_text(info: TouchpadInfo) -> Seq<char> {
    "  z_range=0x"@ + crate::text::hex(info.z_data_range) + " area_range=0x"@ + crate::text::hex(
        info.area_data_range,
    ) + " ts_unit="@ + crate::text::decimal(info.timestamp_units as nat) + " (0.1 ms) mapping=v"@
        + crate::text::decimal(info.raw_report_mapping_version as nat) + " pen="@ + (
    if info.pen_support {
        "yes"@
    } else {
        "no"@
    })
}

/// A mode in digits and words, after a prefix.
pub open spec fn mode_text(prefix: Seq<char>, flags: RawReportFlags) -> Seq<char> {
    prefix + crate::text::hex(flags.bits) + " ("@ + flags.label_text() + ")"@
}

/// How long was sampled and how many frames came.
pub open spec fn sampled_text(seconds: u64, received: usize) -> Seq<char> {
    "  sampled "@ + crate::text::decimal(seconds as nat) + "s: "@ + crate::text::decimal(
        received as nat,
    ) + " frames received"@
}

/// What the sampled frames held, in one line.
pub open spec fn summary_text(seconds: u64, received: usize, frames: Seq<DualXyData>) -> Seq<char> {
    sampled_text(seconds, received) + ", "@ + crate::text::decimal(frames.len())
        + " distinct logical frames ("@ + crate::text::decimal(count_ends(frames))
        + " end-of-frame), max fingers "@ + crate::text::decimal(most_fingers(frames) as nat)
        + ", button in "@ + crate::text::decimal(count_buttons(frames))
}

/// Where fingers touched the pad, in one line.
pub open spec fn range_text(range: Option<ContactRange>, info: TouchpadInfo) -> Seq<char> {
    match range {
        None => "  no in-contact samples — every slot hovered"@,
        Some(r) => "  x observed "@ + crate::text::decimal(r.x_min as nat) + ".."@
            + crate::text::decimal(r.x_max as nat) + " of "@ + crate::text::decimal(
            info.x_size as nat,
        ) + ", y observed "@ + crate::text::decimal(r.y_min as nat) + ".."@ + crate::text::decimal(
            r.y_max as nat,
        ) + " of "@ + crate::text::decimal(info.y_size as nat),
    }
}

/// The lines of leading frames.
pub open spec fn first_frames(frames: Seq<DualXyData>, count: nat) -> Seq<Seq<char>>
    decreases count,
{
    if count == 0 {
        Seq::empty()
    } else {
        first_frames(frames, (count - 1) as nat).push("    "@ + frame_text(frames[count - 1]))
    }
}

/// The lines on the sampled frames.
pub open spec fn sample_lines(report: TouchpadReport, seconds: u64) -> Seq<Seq<char>> {
    let frames = report.frames@;
    if frames.len() == 0 {
        seq![
            sampled_text(seconds, report.frames_received)
                + " — touch the pad while sampling"@,
        ]
    } else {
        seq![
            summary_text(seconds, report.frames_received, frames),
            range_text(touched_range(frames), report.info),
            "  first frames:"@,
        ] + first_frames(
            frames,
            crate::math::lesser(frames.len() as int, PRINTED_FRAMES as int) as nat,
        )
    }
}

/// The lines on what the probe found, before sampling.
pub open spec fn state_lines(report: TouchpadReport) -> Seq<Seq<char>> {
    seq![
        "feature 0x6100 TouchpadRawXy v"@ + crate::text::decimal(report.feature_version as nat),
        pad_text(report.info),
        mapping_text(report.info),
        mode_text("  raw report mode: 0x"@, report.state_before),
    ]
}

/// The line on switching the mode.
pub open spec fn switched_text(report: TouchpadReport) -> Seq<char> {
    match report.state_after_set {
        Some(confirmed) => mode_text(
            "  raw mode requested 0x01, device confirmed 0x"@,
            confirmed,
        ),
        None => "  raw mode was already on — sampling without touching it"@,
    }
}

/// The lines of the whole report.
pub open spec fn report_lines(report: TouchpadReport, seconds: Option<u64>) -> Seq<Seq<char>> {
    match seconds {
        None => state_lines(report).push("  (pass --seconds N to sample raw touch frames)"@),
        Some(seconds) => {
            let sampled = state_lines(report).push(switched_text(report)) + sample_lines(
                report,
                seconds,
            );
            match report.state_restored {
                Some(restored) => sampled.push(
                    mode_text("  raw mode restored → 0x"@, restored),
                ),
                None => sampled,
            }
        },
    }
}

/// A mode in digits and words, after a prefix.
fn mode_line(prefix: &str, flags: RawReportFlags) -> (line: String)
    ensures
        line@ == mode_text(prefix@, flags),
{
    let mut line: String = String::from_str(prefix);
    append_hex(&mut line, flags.bits);
    line.append(" (");
    let label: String = raw_flags_label(flags);
    line.append(label.as_str());
    line.append(")");
    line
}

/// Appends the lines on the pad a device describes.
fn print_info(lines: &mut Vec<String>, info: &TouchpadInfo)
    ensures
        line_views(final(lines)@) == line_views(old(lines)@).push(pad_text(*info)).push(
            mapping_text(*info),
        ),
{
    let mut pad: String = String::from_str("  pad ");
    append_decimal(&mut pad, info.x_size as u64);
    pad.append("x");
    append_decimal(&mut pad, info.y_size as u64);
    pad.append(" units, sensor ");
    append_decimal(&mut pad, info.dpi as u64);
    pad.append(" dpi, origin ");
    pad.append(info.origin.as_str());
    pad.append(", max ");
    append_decimal(&mut pad, info.max_finger_count as u64);
    pad.append(" fingers");
    let mut mapping: String = String::from_str("  z_range=0x");
    append_hex(&mut mapping, info.z_data_range);
    mapping.append(" area_range=0x");
    append_hex(&mut mapping, info.area_data_range);
    mapping.append(" ts_unit=");
    append_decimal(&mut mapping, info.timestamp_units as u64);
    mapping.append(" (0.1 ms) mapping=v");
    append_decimal(&mut mapping, info.raw_report_mapping_version as u64);
    mapping.append(" pen=");
    mapping.append(if info.pen_support {
        "yes"
    } else {
        "no"
    });
    push_line(lines, pad);
    push_line(lines, mapping);
}

/// How long was sampled and how many frames came.
fn sampled_line(seconds: u64, received: usize) -> (line: String)
    ensures
        line@ == sampled_text(seconds, received),
{
    let mut line: String = String::from_str("  sampled ");
    append_decimal(&mut line, seconds);
    line.append("s: ");
    append_decimal(&mut line, received as u64);
    line.append(" frames received");
    line
}

/// Where fingers touched the pad.
fn range_line(range: Option<ContactRange>, info: &TouchpadInfo) -> (line: String)
    ensures
        line@ == range_text(range, *info),
{
    match range {
        None => String::from_str("  no in-contact samples — every slot hovered"),
        Some(r) => {
            let mut line: String = String::from_str("  x observed ");
            append_decimal(&mut line, r.x_min as u64);
            line.append("..");
            append_decimal(&mut line, r.x_max as u64);
            line.append(" of ");
            append_decimal(&mut line, info.x_size as u64);
            line.append(", y observed ");
            append_decimal(&mut line, r.y_min as u64);
            line.append("..");
            append_decimal(&mut line, r.y_max as u64);
            line.append(" of ");
            append_decimal(&mut line, info.y_size as u64);
            line
        },
    }
}

/// What the sampled frames held.
fn summary_line(
    seconds: u64,
    received: usize,
    frames: &[DualXyData],
    summary: &SampleSummary,
) -> (line: String)
    requires
        summary.sums_up(frames@),
    ensures
        line@ == summary_text(seconds, received, frames@),
{
    let mut line: String = sampled_line(seconds, received);
    line.append(", ");
    append_decimal(&mut line, summary.frames as u64);
    line.append(" distinct logical frames (");
    append_decimal(&mut line, summary.end_of_frames as u64);
    line.append(" end-of-frame), max fingers ");
    append_decimal(&mut line, summary.max_fingers as u64);
    line.append(", button in ");
    append_decimal(&mut line, summary.button_frames as u64);
    line
}

/// Appends the lines of leading frames.
fn push_first_frames(lines: &mut Vec<String>, frames: &[DualXyData], count: usize)
    requires
        count <= frames@.len(),
    ensures
        line_views(final(lines)@) == line_views(old(lines)@) + first_frames(frames@, count as nat),
{
    let ghost head = line_views(lines@);
    let mut i: usize = 0;
    proof {
        assert(head + first_frames(frames@, 0) =~= head);
    }
    while i < count
        invariant
            i <= count <= frames@.len(),
            line_views(lines@) == head + first_frames(frames@, i as nat),
        decreases count - i,
    {
        let mut line: String = String::from_str("    ");
        let text: String = frame_line(&frames[i]);
        line.append(text.as_str());
        push_line(lines, line);
        proof {
            assert(line_views(lines@) =~= head + first_frames(frames@, (i + 1) as nat));
        }
        i = i + 1;
    }
}

/// Appends the lines on the sampled frames.
fn print_frames(lines: &mut Vec<String>, report: &TouchpadReport, seconds: u64)
    ensures
        line_views(final(lines)@) == line_views(old(lines)@) + sample_lines(*report, seconds),
{
    let frames: &[DualXyData] = report.frames.as_slice();
    if frames.len() == 0 {
        let mut line: String = sampled_line(seconds, report.frames_received);
        line.append(" — touch the pad while sampling");
        push_line(lines, line);
    } else {
        let summary: SampleSummary = summarize(frames);
        push_line(lines, summary_line(seconds, report.frames_received, frames, &summary));
        push_line(lines, range_line(summary.range, &report.info));
        push_line(lines, String::from_str("  first frames:"));
        let count: usize = if frames.len() <= PRINTED_FRAMES {
            frames.len()
        } else {
            PRINTED_FRAMES
        };
        push_first_frames(lines, frames, count);
    }
    proof {
        assert(line_views(lines@) =~= line_views(old(lines)@) + sample_lines(*report, seconds));
    }
}

/// The lines of the whole report.
pub fn print_report(report: &TouchpadReport, seconds: Option<u64>) -> (lines: Vec<String>)
    ensures
        line_views(lines@) == report_lines(*report, seconds),
{
    let mut lines: Vec<String> = Vec::new();
    let mut feature: String = String::from_str("feature 0x6100 TouchpadRawXy v");
    append_decimal(&mut feature, report.feature_version as u64);
    push_line(&mut lines, feature);
    print_info(&mut lines, &report.info);
    push_line(&mut lines, mode_line("  raw report mode: 0x", report.state_before));
    proof {
        assert(line_views(lines@) =~= state_lines(*report));
    }
    let seconds: u64 = match seconds {
        Some(seconds) => seconds,
        None => {
            push_line(
                &mut lines,
                String::from_str("  (pass --seconds N to sample raw touch frames)"),
            );
            return lines;
        },
    };
    match report.state_after_set {
        Some(confirmed) => push_line(
            &mut lines,
            mode_line("  raw mode requested 0x01, device confirmed 0x", confirmed),
        ),
        None => push_line(
            &mut lines,
            String::from_str("  raw mode was already on — sampling without touching it"),
        ),
    }
    print_frames(&mut lines, report, seconds);
    match report.state_restored {
        Some(restored) => push_line(&mut lines, mode_line("  raw mode restored → 0x", restored)),
        None => {},
    }
    lines
}

/// Whether a slot of the frames is in contact at a place.
pub open spec fn touched_at(frames: Seq<DualXyData>, x: u16, y: u16) -> bool {
    exists|i: int| #![trigger frames[i]]
        0 <= i < frames.len() && (is_touch(frames[i].touch1, x, y) || is_touch(
            frames[i].touch2,
            x,
            y,
        ))
}

/// Whether a slot is in contact at a place.
pub open spec fn is_touch(point: TouchPoint, x: u16, y: u16) -> bool {
    point.contact_status == 1 && point.x == x && point.y == y
}

/// The range of touches covers every touch: no finger was outside it, and there is a range as soon
/// as a finger touched the pad.
pub proof fn law_range_covers_every_touch(frames: Seq<DualXyData>, x: u16, y: u16)
    requires
        touched_at(frames, x, y),
    ensures
        touched_range(frames) matches Some(r) && r.x_min <= x <= r.x_max && r.y_min <= y
            <= r.y_max,
    decreases frames.len(),
{
    let rest = frames.drop_last();
    let i = choose|i: int| #![trigger frames[i]]
        0 <= i < frames.len() && (is_touch(frames[i].touch1, x, y) || is_touch(
            frames[i].touch2,
            x,
            y,
        ));
    if i < rest.len() {
        assert(rest[i] == frames[i]);
        law_range_covers_every_touch(rest, x, y);
    }
}

/// Whether a touch lies on every edge of a range.
pub open spec fn edges_touched(frames: Seq<DualXyData>, range: Option<ContactRange>) -> bool {
    range matches Some(r) ==> {
        &&& exists|y: u16| #[trigger] touched_at(frames, r.x_min, y)
        &&& exists|y: u16| #[trigger] touched_at(frames, r.x_max, y)
        &&& exists|x: u16| #[trigger] touched_at(frames, x, r.y_min)
        &&& exists|x: u16| #[trigger] touched_at(frames, x, r.y_max)
    }
}

/// Every edge of the range was touched: the range is no larger than the touches.
pub proof fn law_range_edges_were_touched(frames: Seq<DualXyData>)
    ensures
        edges_touched(frames, touched_range(frames)),
    decreases frames.len(),
{
    if frames.len() > 0 {
        let rest = frames.drop_last();
        let last = frames.last();
        law_range_edges_were_touched(rest);
        assert(frames[frames.len() - 1] == last);
        assert forall|x: u16, y: u16| #[trigger] touched_at(rest, x, y) implies touched_at(
            frames,
            x,
            y,
        ) by {
            let i = choose|i: int| #![trigger rest[i]]
                0 <= i < rest.len() && (is_touch(rest[i].touch1, x, y) || is_touch(
                    rest[i].touch2,
                    x,
                    y,
                ));
            assert(frames[i] == rest[i]);
        }
        assert(edges_touched(frames, touched_range(rest)));
        lemma_covering_keeps_edges(frames, touched_range(rest), last.touch1);
        lemma_covering_keeps_edges(frames, covering(touched_range(rest), last.touch1), last.touch2);
    }
}

proof fn lemma_covering_keeps_edges(
    frames: Seq<DualXyData>,
    range: Option<ContactRange>,
    point: TouchPoint,
)
    requires
        edges_touched(frames, range),
        point.contact_status == 1 ==> touched_at(frames, point.x, point.y),
    ensures
        edges_touched(frames, covering(range, point)),
{
    if point.contact_status == 1 {
        let (x, y) = (point.x, point.y);
        let wider = covering(range, point)->0;
        assert(touched_at(frames, x, y));
        if range is Some {
            let r = range->0;
            let a = choose|v: u16| #[trigger] touched_at(frames, r.x_min, v);
            let b = choose|v: u16| #[trigger] touched_at(frames, r.x_max, v);
            let c = choose|v: u16| #[trigger] touched_at(frames, v, r.y_min);
            let d = choose|v: u16| #[trigger] touched_at(frames, v, r.y_max);
            assert(touched_at(frames, wider.x_min, a) || touched_at(frames, wider.x_min, y));
            assert(touched_at(frames, wider.x_max, b) || touched_at(frames, wider.x_max, y));
            assert(touched_at(frames, c, wider.y_min) || touched_at(frames, x, wider.y_min));
            assert(touched_at(frames, d, wider.y_max) || touched_at(frames, x, wider.y_max));
        } else {
            assert(touched_at(frames, wider.x_min, y) && touched_at(frames, wider.x_max, y));
            assert(touched_at(frames, x, wider.y_min) && touched_at(frames, x, wider.y_max));
        }
    }
}

/// Each flag is the bit of its own number and has its own name.
pub proof fn law_flags_are_these_bits(flags: RawReportFlags)
    ensures
        flags.has(0) <==> flags.bits % 2 == 1,
        flags.has(1) <==> (flags.bits / 2) % 2 == 1,
        flags.has(2) <==> (flags.bits / 4) % 2 == 1,
        flags.has(3) <==> (flags.bits / 8) % 2 == 1,
        flags.has(4) <==> (flags.bits / 16) % 2 == 1,
        flags.has(5) <==> (flags.bits / 32) % 2 == 1,
        flags.has(6) <==> (flags.bits / 64) % 2 == 1,
        flag_name(0) == "raw"@,
        flag_name(1) == "force"@,
        flag_name(2) == "enhanced"@,
        flag_name(3) == "w/h"@,
        flag_name(4) == "native-gest"@,
        flag_name(5) == "maj/min"@,
        flag_name(6) == "w/h8"@,
{
}

/// A mode without a flag is off. One with a single flag is called by it, and one with two by both,
/// the lower first, with a plus sign between.
pub proof fn law_modes_are_called_by_their_flags(flags: RawReportFlags, i: u8, j: u8)
    requires
        i < 7,
        j < 7,
        forall|k: u8| k < 7 ==> (#[trigger] flags.has(k) <==> k == i || k == j),
    ensures
        i == j ==> flags.label_text() == flag_name(i),
        i < j ==> flags.label_text() == flag_name(i) + "+"@ + flag_name(j),
        (RawReportFlags { bits: 0 }).label_text() == "off"@,
{
    assert(flags.has(i));
    assert(flags.bits != 0);
    if i <= j {
        lemma_names_of_two(flags, i, j, 7);
    }
}

proof fn lemma_names_of_two(flags: RawReportFlags, i: u8, j: u8, upto: nat)
    requires
        i <= j < 7,
        upto <= 7,
        forall|k: u8| k < 7 ==> (#[trigger] flags.has(k) <==> k == i || k == j),
    ensures
        upto <= i ==> flags.names_below(upto) == Seq::<char>::empty(),
        i < upto <= j ==> flags.names_below(upto) == flag_name(i),
        j < upto && i == j ==> flags.names_below(upto) == flag_name(i),
        j < upto && i < j ==> flags.names_below(upto) == flag_name(i) + "+"@ + flag_name(j),
    decreases upto,
{
    reveal_strlit("");
    if upto == 0 {
        assert(flags.names_below(0) =~= Seq::<char>::empty());
    } else {
        let before = (upto - 1) as nat;
        lemma_names_of_two(flags, i, j, before);
        assert(flags.has(i) && flags.has(j));
        if before == i {
            assert(!flags.has_below(before));
            assert(Seq::<char>::empty() + flag_name(i) =~= flag_name(i));
        } else if before == j {
            assert(flags.has_below(before));
        } else {
            assert(!flags.has(before as u8));
        }
    }
}

/// The counts of sampled frames go frame by frame: each counts once where it ends a logical frame,
/// once where its button is down, and raises the most fingers to its own where it has more.
pub proof fn law_samples_are_counted_frame_by_frame(frames: Seq<DualXyData>, next: DualXyData)
    ensures
        ({
            let after = frames.push(next);
            &&& next.end_of_frame ==> count_ends(after) == count_ends(frames) + 1
            &&& !next.end_of_frame ==> count_ends(after) == count_ends(frames)
            &&& next.button ==> count_buttons(after) == count_buttons(frames) + 1
            &&& !next.button ==> count_buttons(after) == count_buttons(frames)
            &&& next.finger_count > most_fingers(frames) ==> most_fingers(after)
                == next.finger_count
            &&& next.finger_count <= most_fingers(frames) ==> most_fingers(after) == most_fingers(
                frames,
            )
        }),
        count_ends(Seq::empty()) == 0,
        count_buttons(Seq::empty()) == 0,
        most_fingers(Seq::empty()) == 0,
{
    assert(frames.push(next).drop_last() =~= frames);
}

/// A sampled report lists its first eight frames, each on a line of its own, in order, after three
/// lines that sum the frames up.
pub proof fn law_first_eight_frames_are_listed(report: TouchpadReport, seconds: u64, i: int)
    requires
        report.frames@.len() > 0,
    ensures
        ({
            let lines = sample_lines(report, seconds);
            let frames = report.frames@;
            &&& frames.len() >= 8 ==> lines.len() == 11
            &&& frames.len() < 8 ==> lines.len() == 3 + frames.len()
            &&& lines[2] == "  first frames:"@
            &&& 0 <= i < frames.len() && i < 8 ==> lines[3 + i] == "    "@ + frame_text(frames[i])
        }),
{
    let frames = report.frames@;
    let count = crate::math::lesser(frames.len() as int, PRINTED_FRAMES as int) as nat;
    lemma_first_frames(frames, count, i);
    lemma_after_three(
        summary_text(seconds, report.frames_received, frames),
        range_text(touched_range(frames), report.info),
        "  first frames:"@,
        first_frames(frames, count),
        i,
    );
}

proof fn lemma_after_three(
    a: Seq<char>,
    b: Seq<char>,
    c: Seq<char>,
    rest: Seq<Seq<char>>,
    i: int,
)
    ensures
        (seq![a, b, c] + rest).len() == 3 + rest.len(),
        (seq![a, b, c] + rest)[2] == c,
        0 <= i < rest.len() ==> (seq![a, b, c] + rest)[3 + i] == rest[i],
{
}

proof fn lemma_first_frames(frames: Seq<DualXyData>, count: nat, i: int)
    ensures
        first_frames(frames, count).len() == count,
        0 <= i < count ==> first_frames(frames, count)[i] == "    "@ + frame_text(frames[i]),
    decreases count,
{
    if count > 0 {
        lemma_first_frames(frames, (count - 1) as nat, i);
    }
}

/// Labelled numbers in a row: each label followed by its number in decimal.
pub open spec fn labelled(labels: Seq<Seq<char>>, numbers: Seq<nat>) -> Seq<char>
    decreases labels.len(),
{
    if labels.len() == 0 {
        Seq::empty()
    } else {
        labelled(labels.drop_last(), numbers.drop_last()) + labels.last() + crate::text::decimal(
            numbers.last(),
        )
    }
}

/// Whether a text is labelled numbers in a row.
pub open spec fn tells(text: Seq<char>, labels: Seq<Seq<char>>, numbers: Seq<nat>) -> bool {
    text == labelled(labels, numbers)
}

proof fn lemma_tells_one_more(
    rest: Seq<char>,
    labels: Seq<Seq<char>>,
    numbers: Seq<nat>,
    label: Seq<char>,
    number: nat,
)
    requires
        tells(rest, labels, numbers),
    ensures
        tells(
            rest + label + crate::text::decimal(number),
            labels.push(label),
            numbers.push(number),
        ),
{
    assert(labels.push(label).drop_last() =~= labels);
    assert(numbers.push(number).drop_last() =~= numbers);
}

/// The line on touches tells the smallest and the largest place that was touched on each axis, and
/// the pad's size on that axis.
pub proof fn law_range_line_tells_the_edges(range: ContactRange, info: TouchpadInfo)
    ensures
        tells(
            range_text(Some(range), info),
            seq![
                "  x observed "@,
                ".."@,
                " of "@,
                ", y observed "@,
                ".."@,
                " of "@,
            ],
            seq![
                range.x_min as nat,
                range.x_max as nat,
                info.x_size as nat,
                range.y_min as nat,
                range.y_max as nat,
                info.y_size as nat,
            ],
        ),
        range_text(None, info) == "  no in-contact samples — every slot hovered"@,
{
    let none = Seq::<Seq<char>>::empty();
    let zero = Seq::<nat>::empty();
    let start = Seq::<char>::empty();
    let (a, b, c) = (range.x_min as nat, range.x_max as nat, info.x_size as nat);
    let (d, e, f) = (range.y_min as nat, range.y_max as nat, info.y_size as nat);
    lemma_tells_one_more(start, none, zero, "  x observed "@, a);
    let t1 = start + "  x observed "@ + crate::text::decimal(a);
    let (l1, n1) = (none.push("  x observed "@), zero.push(a));
    lemma_tells_one_more(t1, l1, n1, ".."@, b);
    let t2 = t1 + ".."@ + crate::text::decimal(b);
    let (l2, n2) = (l1.push(".."@), n1.push(b));
    lemma_tells_one_more(t2, l2, n2, " of "@, c);
    let t3 = t2 + " of "@ + crate::text::decimal(c);
    let (l3, n3) = (l2.push(" of "@), n2.push(c));
    lemma_tells_one_more(t3, l3, n3, ", y observed "@, d);
    let t4 = t3 + ", y observed "@ + crate::text::decimal(d);
    let (l4, n4) = (l3.push(", y observed "@), n3.push(d));
    lemma_tells_one_more(t4, l4, n4, ".."@, e);
    let t5 = t4 + ".."@ + crate::text::decimal(e);
    let (l5, n5) = (l4.push(".."@), n4.push(e));
    lemma_tells_one_more(t5, l5, n5, " of "@, f);
    let t6 = t5 + " of "@ + crate::text::decimal(f);
    assert(start + "  x observed "@ =~= "  x observed "@);
    assert(t6 == range_text(Some(range), info));
    assert(l5.push(" of "@) =~= seq![
        "  x observed "@,
        ".."@,
        " of "@,
        ", y observed "@,
        ".."@,
        " of "@,
    ]);
    assert(n5.push(f) =~= seq![a, b, c, d, e, f]);
}

/// A slot's text tells its finger, whether it touches, where it is, its depth and its area.
pub proof fn law_slot_text_tells_the_slot(point: TouchPoint)
    ensures
        tells(
            touch_text(point),
            seq!["id"@, " c"@, " x="@, " y="@, " z="@, " a="@],
            seq![
                point.finger_id as nat,
                point.contact_status as nat,
                point.x as nat,
                point.y as nat,
                point.z as nat,
                point.area as nat,
            ],
        ),
{
    let none = Seq::<Seq<char>>::empty();
    let zero = Seq::<nat>::empty();
    let start = Seq::<char>::empty();
    let (a, b, c) = (point.finger_id as nat, point.contact_status as nat, point.x as nat);
    let (d, e, f) = (point.y as nat, point.z as nat, point.area as nat);
    lemma_tells_one_more(start, none, zero, "id"@, a);
    let t1 = start + "id"@ + crate::text::decimal(a);
    let (l1, n1) = (none.push("id"@), zero.push(a));
    lemma_tells_one_more(t1, l1, n1, " c"@, b);
    let t2 = t1 + " c"@ + crate::text::decimal(b);
    let (l2, n2) = (l1.push(" c"@), n1.push(b));
    lemma_tells_one_more(t2, l2, n2, " x="@, c);
    let t3 = t2 + " x="@ + crate::text::decimal(c);
    let (l3, n3) = (l2.push(" x="@), n2.push(c));
    lemma_tells_one_more(t3, l3, n3, " y="@, d);
    let t4 = t3 + " y="@ + crate::text::decimal(d);
    let (l4, n4) = (l3.push(" y="@), n3.push(d));
    lemma_tells_one_more(t4, l4, n4, " z="@, e);
    let t5 = t4 + " z="@ + crate::text::decimal(e);
    let (l5, n5) = (l4.push(" z="@), n4.push(e));
    lemma_tells_one_more(t5, l5, n5, " a="@, f);
    let t6 = t5 + " a="@ + crate::text::decimal(f);
    assert(start + "id"@ =~= "id"@);
    assert(t6 == touch_text(point));
    assert(l5.push(" a="@) =~= seq!["id"@, " c"@, " x="@, " y="@, " z="@, " a="@]);
    assert(n5.push(f) =~= seq![a, b, c, d, e, f]);
}

/// The summary tells how long was sampled, how many frames came, how many of them differed, how many
/// ended a logical frame, the most fingers of one, and in how many the button was down.
pub proof fn law_summary_line_tells_the_counts(
    seconds: u64,
    received: usize,
    frames: Seq<DualXyData>,
)
    ensures
        tells(
            summary_text(seconds, received, frames),
            seq![
                "  sampled "@,
                "s: "@,
                " frames received, "@,
                " distinct logical frames ("@,
                " end-of-frame), max fingers "@,
                ", button in "@,
            ],
            seq![
                seconds as nat,
                received as nat,
                frames.len(),
                count_ends(frames),
                most_fingers(frames) as nat,
                count_buttons(frames),
            ],
        ),
{
    let none = Seq::<Seq<char>>::empty();
    let zero = Seq::<nat>::empty();
    let start = Seq::<char>::empty();
    let (a, b, c) = (seconds as nat, received as nat, frames.len());
    let (d, e, f) = (count_ends(frames), most_fingers(frames) as nat, count_buttons(frames));
    lemma_tells_one_more(start, none, zero, "  sampled "@, a);
    let t1 = start + "  sampled "@ + crate::text::decimal(a);
    let (l1, n1) = (none.push("  sampled "@), zero.push(a));
    lemma_tells_one_more(t1, l1, n1, "s: "@, b);
    let t2 = t1 + "s: "@ + crate::text::decimal(b);
    let (l2, n2) = (l1.push("s: "@), n1.push(b));
    lemma_tells_one_more(t2, l2, n2, " frames received, "@, c);
    let t3 = t2 + " frames received, "@ + crate::text::decimal(c);
    let (l3, n3) = (l2.push(" frames received, "@), n2.push(c));
    lemma_tells_one_more(t3, l3, n3, " distinct logical frames ("@, d);
    let t4 = t3 + " distinct logical frames ("@ + crate::text::decimal(d);
    let (l4, n4) = (l3.push(" distinct logical frames ("@), n3.push(d));
    lemma_tells_one_more(t4, l4, n4, " end-of-frame), max fingers "@, e);
    let t5 = t4 + " end-of-frame), max fingers "@ + crate::text::decimal(e);
    let (l5, n5) = (l4.push(" end-of-frame), max fingers "@), n4.push(e));
    lemma_tells_one_more(t5, l5, n5, ", button in "@, f);
    let t6 = t5 + ", button in "@ + crate::text::decimal(f);
    assert(start + "  sampled "@ =~= "  sampled "@);
    reveal_strlit(" frames received, ");
    reveal_strlit(" frames received");
    reveal_strlit(", ");
    assert(" frames received, "@ =~= " frames received"@ + ", "@);
    assert(t2 + " frames received, "@ =~= t2 + " frames received"@ + ", "@);
    assert(t6 == summary_text(seconds, received, frames));
    assert(l5.push(", button in "@) =~= seq![
        "  sampled "@,
        "s: "@,
        " frames received, "@,
        " distinct logical frames ("@,
        " end-of-frame), max fingers "@,
        ", button in "@,
    ]);
    assert(n5.push(f) =~= seq![a, b, c, d, e, f]);
}

/// A frame's line starts with its time and ends with what its button and its end say.
pub proof fn law_frame_line_ends_with_its_marks(frame: DualXyData)
    ensures
        ({
            let bare = frame_text(DualXyData { button: false, end_of_frame: false, ..frame });
            &&& frame.button && frame.end_of_frame ==> frame_text(frame) == bare + " btn eof"@
            &&& frame.button && !frame.end_of_frame ==> frame_text(frame) == bare + " btn"@
            &&& !frame.button && frame.end_of_frame ==> frame_text(frame) == bare + " eof"@
            &&& bare == "ts="@ + crate::text::right_aligned(
                crate::text::decimal(frame.timestamp as nat),
                5,
            ) + " fc="@ + crate::text::decimal(frame.finger_count as nat) + " t1=["@ + touch_text(
                frame.touch1,
            ) + "] t2=["@ + touch_text(frame.touch2) + "]"@
        }),
{
    reveal_strlit("");
    reveal_strlit(" btn");
    reveal_strlit(" eof");
    reveal_strlit(" btn eof");
    let line = "ts="@ + crate::text::right_aligned(
        crate::text::decimal(frame.timestamp as nat),
        5,
    ) + " fc="@ + crate::text::decimal(frame.finger_count as nat) + " t1=["@ + touch_text(
        frame.touch1,
    ) + "] t2=["@ + touch_text(frame.touch2) + "]"@;
    lemma_marks(line);
}

proof fn lemma_marks(line: Seq<char>)
    ensures
        line + ""@ + ""@ == line,
        line + " btn"@ + ""@ == line + " btn"@,
        line + ""@ + " eof"@ == line + " eof"@,
        line + " btn"@ + " eof"@ == line + " btn eof"@,
{
    reveal_strlit("");
    reveal_strlit(" btn");
    reveal_strlit(" eof");
    reveal_strlit(" btn eof");
    assert(line + ""@ + ""@ =~= line);
    assert(line + " btn"@ + ""@ =~= line + " btn"@);
    assert(line + ""@ + " eof"@ =~= line + " eof"@);
    assert(line + " btn"@ + " eof"@ =~= line + " btn eof"@);
}

/// A report says first what the probe found, in four lines. Without sampling it ends with how to
/// sample; with it, it goes on with the switch of the mode, the sample, and the mode that was
/// restored, where one was.
pub proof fn law_report_goes_in_order(report: TouchpadReport, seconds: u64)
    ensures
        ({
            let head = state_lines(report);
            let plain = report_lines(report, None);
            let sampled = report_lines(report, Some(seconds));
            let sample = sample_lines(report, seconds);
            &&& head.len() == 4
            &&& plain == head.push("  (pass --seconds N to sample raw touch frames)"@)
            &&& sampled.take(4) == head
            &&& sampled[4] == switched_text(report)
            &&& sampled.subrange(5, 5 + sample.len() as int) == sample
            &&& report.state_restored is None ==> sampled.len() == 5 + sample.len()
            &&& report.state_restored matches Some(restored) ==> sampled.len() == 6 + sample.len()
                && sampled.last() == mode_text("  raw mode restored → 0x"@, restored)
        }),
{
    let sample = sample_lines(report, seconds);
    let sampled = report_lines(report, Some(seconds));
    let body = state_lines(report).push(switched_text(report)) + sample;
    assert(sampled.take(5 + sample.len() as int) =~= body);
    lemma_report_parts(state_lines(report), switched_text(report), sample, sampled);
}

proof fn lemma_report_parts(
    head: Seq<Seq<char>>,
    switched: Seq<char>,
    sample: Seq<Seq<char>>,
    all: Seq<Seq<char>>,
)
    requires
        head.len() == 4,
        all.len() >= 5 + sample.len(),
        all.take(5 + sample.len() as int) == head.push(switched) + sample,
    ensures
        all.take(4) == head,
        all[4] == switched,
        all.subrange(5, 5 + sample.len() as int) == sample,
{
    let body = head.push(switched) + sample;
    assert forall|i: int| 0 <= i < body.len() implies all[i] == body[i] by {
        assert(all.take(5 + sample.len() as int)[i] == all[i]);
    }
    assert(all.take(4) =~= head);
    assert(all.subrange(5, 5 + sample.len() as int) =~= sample);
}

/// The line on the pad's ranges ends with whether it knows a pen, and begins with its two ranges in
/// hexadecimal, depth first.
pub proof fn law_mapping_line_tells_the_ranges(info: TouchpadInfo)
    ensures
        ({
            let ranges = "  z_range=0x"@ + crate::text::hex(info.z_data_range) + " area_range=0x"@
                + crate::text::hex(info.area_data_range);
            let pen = if info.pen_support {
                " pen=yes"@
            } else {
                " pen=no"@
            };
            mapping_text(info) == ranges + labelled(
                seq![" ts_unit="@, " (0.1 ms) mapping=v"@],
                seq![info.timestamp_units as nat, info.raw_report_mapping_version as nat],
            ) + pen
        }),
{
    let ranges = "  z_range=0x"@ + crate::text::hex(info.z_data_range) + " area_range=0x"@
        + crate::text::hex(info.area_data_range);
    let (unit, version) = (info.timestamp_units as nat, info.raw_report_mapping_version as nat);
    let start = Seq::<char>::empty();
    let none = Seq::<Seq<char>>::empty();
    let zero = Seq::<nat>::empty();
    lemma_tells_one_more(start, none, zero, " ts_unit="@, unit);
    let first = start + " ts_unit="@ + crate::text::decimal(unit);
    lemma_tells_one_more(
        first,
        none.push(" ts_unit="@),
        zero.push(unit),
        " (0.1 ms) mapping=v"@,
        version,
    );
    assert(none.push(" ts_unit="@).push(" (0.1 ms) mapping=v"@) =~= seq![
        " ts_unit="@,
        " (0.1 ms) mapping=v"@,
    ]);
    assert(zero.push(unit).push(version) =~= seq![unit, version]);
    reveal_strlit(" pen=");
    reveal_strlit(" pen=yes");
    reveal_strlit(" pen=no");
    reveal_strlit("yes");
    reveal_strlit("no");
    let numbers = first + " (0.1 ms) mapping=v"@ + crate::text::decimal(version);
    if info.pen_support {
        assert(" pen=yes"@ =~= " pen="@ + "yes"@);
        assert(mapping_text(info) =~= ranges + numbers + " pen=yes"@);
    } else {
        assert(" pen=no"@ =~= " pen="@ + "no"@);
        assert(mapping_text(info) =~= ranges + numbers + " pen=no"@);
    }
}

/// The line on the pad tells its width, its height, its resolution, its origin and how many fingers
/// it can tell apart, in this order.
pub proof fn law_pad_line_tells_the_pad(info: TouchpadInfo)
    ensures
        pad_text(info) == labelled(
            seq!["  pad "@, "x"@, " units, sensor "@],
            seq![info.x_size as nat, info.y_size as nat, info.dpi as nat],
        ) + " dpi, origin "@ + info.origin@ + labelled(
            seq![", max "@],
            seq![info.max_finger_count as nat],
        ) + " fingers"@,
{
    let (x, y, dpi) = (info.x_size as nat, info.y_size as nat, info.dpi as nat);
    let most = info.max_finger_count as nat;
    let start = Seq::<char>::empty();
    let none = Seq::<Seq<char>>::empty();
    let zero = Seq::<nat>::empty();
    lemma_tells_one_more(start, none, zero, "  pad "@, x);
    let t1 = start + "  pad "@ + crate::text::decimal(x);
    lemma_tells_one_more(t1, none.push("  pad "@), zero.push(x), "x"@, y);
    let t2 = t1 + "x"@ + crate::text::decimal(y);
    lemma_tells_one_more(
        t2,
        none.push("  pad "@).push("x"@),
        zero.push(x).push(y),
        " units, sensor "@,
        dpi,
    );
    lemma_tells_one_more(start, none, zero, ", max "@, most);
    assert(none.push("  pad "@).push("x"@).push(" units, sensor "@) =~= seq![
        "  pad "@,
        "x"@,
        " units, sensor "@,
    ]);
    assert(zero.push(x).push(y).push(dpi) =~= seq![x, y, dpi]);
    assert(none.push(", max "@) =~= seq![", max "@]);
    assert(zero.push(most) =~= seq![most]);
    let t3 = t2 + " units, sensor "@ + crate::text::decimal(dpi);
    let fingers = start + ", max "@ + crate::text::decimal(most);
    assert(pad_text(info) =~= t3 + " dpi, origin "@ + info.origin@ + fingers + " fingers"@);
}

/// A mode is told in hexadecimal and, in brackets, in words; switching it is told with the mode the
/// device confirmed, and not switching it as such.
pub proof fn law_modes_are_told_in_digits_and_words(
    report: TouchpadReport,
    prefix: Seq<char>,
    flags: RawReportFlags,
)
    ensures
        mode_text(prefix, flags) == prefix + crate::text::hex(flags.bits) + " ("@
            + flags.label_text() + ")"@,
        report.state_after_set matches Some(confirmed) ==> switched_text(report) == mode_text(
            "  raw mode requested 0x01, device confirmed 0x"@,
            confirmed,
        ),
        report.state_after_set is None ==> switched_text(report)
            == "  raw mode was already on — sampling without touching it"@,
{
}

} // verus!
