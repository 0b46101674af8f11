//! Classifies touchpad gestures from logical [`TouchFrame`]s.
//!
//! One [`TouchpadClassifier`] per capture session tracks fingers by id across frames. Swipes
//! commit mid-stroke, either on velocity consistency (a run of consecutive co-directed frames past
//! a small travel floor) or on plain displacement (every finger swept the same way across a sixth
//! of the pad). Pinches commit mid-stroke on a change of spread, and taps commit at lift-off. A
//! committed gesture latches until every finger lifts, so one physical stroke fires at most one
//! gesture.
//!
//! Distances are fractions of the pad's reported size. Mean positions and the distance of two
//! fingers are exact: means are kept in twelfths of a pad unit, which two, three and four fingers
//! all divide. The mean radius of four fingers is compared in fixed point with forty fractional
//! bits.
//!
//! The stroke unit is the all-fingers-lift boundary: while any finger stays down the stroke
//! continues, and the first empty frame ends it.
use vstd::prelude::*;

use super::frame::{TouchContact, TouchFrame};
use super::gesture::TouchpadGestureId;
use crate::math::isqrt_wide;

verus! {

/// Consecutive co-directed frames before a steady swipe may commit.
pub const SWIPE_MIN_FRAMES: u32 = 5;

/// Swipe tracking window in milliseconds.
pub const SWIPE_MIN_MS: u32 = 50;

/// Minimum accumulated mean travel of a swipe run, as the denominator of the pad width.
pub const SWIPE_TRAVEL_DENOM: u16 = 100;

/// Cross-axis span between fingers a swipe run tolerates, as a fraction of that axis.
pub const CROSS_SPAN_NUM: u32 = 2;

pub const CROSS_SPAN_DENOM: u32 = 5;

/// Per-frame mean motion, in pad units, below which nothing is learned. A mean motion of exactly
/// this much is not below it, whatever fraction the two means have.
pub const FRAME_DEADZONE: i64 = 3;

/// Frames of a flick, which substitutes speed for time.
pub const FLICK_FRAMES: u32 = 3;

/// Travel of a flick, in travel floors.
pub const FLICK_TRAVEL_MULT: i64 = 8;

/// How much further the average finger may move than the group's mean motion before a frame reads
/// as converging or spreading: five halves.
pub const CO_MOTION_NUM: i64 = 5;

pub const CO_MOTION_DENOM: i64 = 2;

/// Displacement from landing that commits a swipe outright, as the denominator of the pad size
/// along the swipe.
pub const SWEEP_DENOM: u16 = 6;

/// Change in inter-finger spread before a pinch commits, as the denominator of the pad width.
pub const PINCH_DENOM: u16 = 8;

/// How far any finger may wander for a lift to still count as a tap, as the denominator of the pad
/// width.
pub const TAP_TRAVEL_DENOM: u16 = 25;

/// Tap time window in milliseconds; the session converts it to the pad's frame ticks.
pub const TAP_MAX_MS: u32 = 250;

/// Subdivisions of a pad unit that mean positions are kept in.
pub const MEAN_SCALE: i64 = 12;

/// One finger followed from its landing point.
#[derive(Clone, Copy, Debug, PartialEq, Eq, Structural)]
pub struct TrackedFinger {
    pub id: u8,
    pub start_x: u16,
    pub start_y: u16,
    pub x: u16,
    pub y: u16,
    pub prev_x: u16,
    pub prev_y: u16,
}

impl TrackedFinger {
    /// A finger where it lands.
    pub open spec fn landed(contact: TouchContact) -> Self {
        TrackedFinger {
            id: contact.finger_id,
            start_x: contact.x,
            start_y: contact.y,
            x: contact.x,
            y: contact.y,
            prev_x: contact.x,
            prev_y: contact.y,
        }
    }

    /// The finger after its next contact.
    pub open spec fn moved(self, contact: TouchContact) -> Self {
        TrackedFinger {
            prev_x: self.x,
            prev_y: self.y,
            x: contact.x,
            y: contact.y,
            ..self
        }
    }

    /// Largest coordinate difference from the landing point.
    pub open spec fn wander(self) -> int {
        crate::math::greater(
            crate::math::magnitude(self.x - self.start_x) as int,
            crate::math::magnitude(self.y - self.start_y) as int,
        )
    }

    /// Largest coordinate difference from the previous frame.
    pub open spec fn speed(self) -> int {
        crate::math::greater(
            crate::math::magnitude(self.x - self.prev_x) as int,
            crate::math::magnitude(self.y - self.prev_y) as int,
        )
    }

    fn landing(contact: TouchContact) -> (finger: Self)
        ensures
            finger == TrackedFinger::landed(contact),
    {
        TrackedFinger {
            id: contact.finger_id,
            start_x: contact.x,
            start_y: contact.y,
            x: contact.x,
            y: contact.y,
            prev_x: contact.x,
            prev_y: contact.y,
        }
    }

    fn travel(&self) -> (travel: u16)
        ensures
            travel == self.wander(),
    {
        let dx: u16 = apart(self.x, self.start_x);
        let dy: u16 = apart(self.y, self.start_y);
        if dx >= dy {
            dx
        } else {
            dy
        }
    }

    fn frame_travel(&self) -> (travel: u16)
        ensures
            travel == self.speed(),
    {
        let dx: u16 = apart(self.x, self.prev_x);
        let dy: u16 = apart(self.y, self.prev_y);
        if dx >= dy {
            dx
        } else {
            dy
        }
    }
}

/// How far apart two coordinates are.
fn apart(a: u16, b: u16) -> (distance: u16)
    ensures
        distance == crate::math::magnitude(a - b),
{
    if a >= b {
        a - b
    } else {
        b - a
    }
}

/// The axis and sign of a swipe.
#[derive(Clone, Copy, Debug, PartialEq, Eq, Structural)]
pub enum SwipeDirection {
    Right,
    Left,
    Down,
    Up,
}

impl SwipeDirection {
    /// Whether the swipe runs along the pad's width.
    pub open spec fn is_horizontal(self) -> bool {
        self == SwipeDirection::Right || self == SwipeDirection::Left
    }

    /// Component of a displacement along the direction.
    pub open spec fn progress(self, d: (int, int)) -> int {
        match self {
            SwipeDirection::Right => d.0,
            SwipeDirection::Left => -d.0,
            SwipeDirection::Down => d.1,
            SwipeDirection::Up => -d.1,
        }
    }

    /// Component of a displacement across the direction.
    pub open spec fn across(self, d: (int, int)) -> int {
        if self.is_horizontal() {
            d.1
        } else {
            d.0
        }
    }

    fn horizontal(self) -> (horizontal: bool)
        ensures
            horizontal == self.is_horizontal(),
    {
        match self {
            SwipeDirection::Right | SwipeDirection::Left => true,
            SwipeDirection::Down | SwipeDirection::Up => false,
        }
    }
}

/// The gesture a swipe with a number of fingers is.
pub open spec fn swipe_gesture(fingers: nat, direction: SwipeDirection) -> TouchpadGestureId {
    match direction {
        SwipeDirection::Right => if fingers == 3 {
            TouchpadGestureId::ThreeFingerSwipeRight
        } else {
            TouchpadGestureId::FourFingerSwipeRight
        },
        SwipeDirection::Left => if fingers == 3 {
            TouchpadGestureId::ThreeFingerSwipeLeft
        } else {
            TouchpadGestureId::FourFingerSwipeLeft
        },
        SwipeDirection::Down => if fingers == 3 {
            TouchpadGestureId::ThreeFingerSwipeDown
        } else {
            TouchpadGestureId::FourFingerSwipeDown
        },
        SwipeDirection::Up => if fingers == 3 {
            TouchpadGestureId::ThreeFingerSwipeUp
        } else {
            TouchpadGestureId::FourFingerSwipeUp
        },
    }
}

/// The gesture a swipe with a number of fingers is.
pub fn swipe_id(fingers: usize, direction: SwipeDirection) -> (gesture: TouchpadGestureId)
    ensures
        gesture == swipe_gesture(fingers as nat, direction),
{
    let three: bool = fingers == 3;
    match direction {
        SwipeDirection::Right => {
            if three {
                TouchpadGestureId::ThreeFingerSwipeRight
            } else {
                TouchpadGestureId::FourFingerSwipeRight
            }
        },
        SwipeDirection::Left => {
            if three {
                TouchpadGestureId::ThreeFingerSwipeLeft
            } else {
                TouchpadGestureId::FourFingerSwipeLeft
            }
        },
        SwipeDirection::Down => {
            if three {
                TouchpadGestureId::ThreeFingerSwipeDown
            } else {
                TouchpadGestureId::FourFingerSwipeDown
            }
        },
        SwipeDirection::Up => {
            if three {
                TouchpadGestureId::ThreeFingerSwipeUp
            } else {
                TouchpadGestureId::FourFingerSwipeUp
            }
        },
    }
}

/// The pad a classifier is tuned to.
#[derive(Clone, Copy, Debug, PartialEq, Eq, Structural)]
pub struct Pad {
    /// Width in native units, at least one.
    pub width: u16,
    /// Height in native units, at least one.
    pub height: u16,
    /// Tap time window in frame ticks.
    pub tap_max_ticks: u16,
}

impl Pad {
    /// The pad of a reported size.
    pub open spec fn sized(x_size: u16, y_size: u16, tap_max_ticks: u16) -> Self {
        Pad {
            width: if x_size == 0 {
                1
            } else {
                x_size
            },
            height: if y_size == 0 {
                1
            } else {
                y_size
            },
            tap_max_ticks,
        }
    }

    /// Minimum accumulated mean travel of a swipe run.
    pub open spec fn swipe_travel_floor(self) -> int {
        self.width as int / SWIPE_TRAVEL_DENOM as int
    }

    /// Cross-axis span between fingers a swipe run tolerates.
    pub open spec fn cross_span_max(self, direction: SwipeDirection) -> int {
        if direction.is_horizontal() {
            self.height as int * CROSS_SPAN_NUM as int / CROSS_SPAN_DENOM as int
        } else {
            self.width as int * CROSS_SPAN_NUM as int / CROSS_SPAN_DENOM as int
        }
    }

    /// Minimum spread change of a pinch.
    pub open spec fn pinch_min(self) -> int {
        self.width as int / PINCH_DENOM as int
    }

    /// Maximum wander of a tap.
    pub open spec fn tap_travel_max(self) -> int {
        self.width as int / TAP_TRAVEL_DENOM as int
    }

    /// Swipe time gate in frame ticks: the swipe window's share of the tap window, at least one.
    pub open spec fn swipe_min_ticks(self) -> int {
        crate::math::greater(
            self.tap_max_ticks as int * SWIPE_MIN_MS as int / TAP_MAX_MS as int,
            1,
        )
    }

    /// Displacement that commits a swipe outright: a sixth of the pad, and never less than the
    /// dead zone.
    pub open spec fn sweep_min(self, horizontal: bool) -> int {
        crate::math::greater(
            if horizontal {
                self.width as int
            } else {
                self.height as int
            } / SWEEP_DENOM as int,
            FRAME_DEADZONE as int,
        )
    }
}

/// A run of consecutive co-directed frames.
///
/// Tracks the per-frame mean displacement, not displacement from each finger's landing: a finger
/// dragging backwards shifts the mean a little but never vetoes.
pub struct SwipeModel {
    /// The run's direction, once motion is unambiguous.
    pub locked: Option<SwipeDirection>,
    /// Consecutive frames that agreed with it.
    pub frames: nat,
    /// Timestamp of the run's first frame.
    pub start_ts: u16,
    /// Accumulated mean displacement of the run, in twelfths of a unit.
    pub acc: (int, int),
    /// Mean position of the previous frame, in twelfths of a unit; `None` for one frame after the
    /// set of fingers changes.
    pub last_mean: Option<(int, int)>,
}

impl SwipeModel {
    /// No run and no position.
    pub open spec fn fresh() -> Self {
        SwipeModel { locked: None, frames: 0, start_ts: 0, acc: (0, 0), last_mean: None }
    }

    /// The run forgotten, the position kept.
    pub open spec fn restarted(self) -> Self {
        SwipeModel { last_mean: self.last_mean, ..SwipeModel::fresh() }
    }

    /// The position forgotten, the run kept.
    pub open spec fn rebased(self) -> Self {
        SwipeModel { last_mean: None, ..self }
    }

    /// A run begun by a frame that moved by `d`.
    pub open spec fn begun(self, direction: SwipeDirection, ts: u16, d: (int, int)) -> Self {
        SwipeModel {
            locked: Some(direction),
            frames: 1,
            start_ts: ts,
            acc: d,
            last_mean: self.last_mean,
        }
    }

    /// The run continued by a frame that moved by `d`.
    pub open spec fn continued(self, d: (int, int)) -> Self {
        SwipeModel {
            frames: self.frames + 1,
            acc: (self.acc.0 + d.0, self.acc.1 + d.1),
            ..self
        }
    }

    /// Length of the run along a direction's axis, in twelfths of a unit.
    pub open spec fn travel(self, direction: SwipeDirection) -> nat {
        if direction.is_horizontal() {
            crate::math::magnitude(self.acc.0)
        } else {
            crate::math::magnitude(self.acc.1)
        }
    }

    /// Whether the run has enough frames, time and travel.
    pub open spec fn steady(self, pad: Pad, direction: SwipeDirection, ts: u16) -> bool {
        &&& self.frames >= SWIPE_MIN_FRAMES
        &&& crate::math::ticks_between(self.start_ts, ts) >= pad.swipe_min_ticks()
        &&& self.travel(direction) >= MEAN_SCALE * pad.swipe_travel_floor()
    }

    /// What every run satisfies that has not committed: it advanced by more than the dead zone in
    /// every frame, never more across than along, and not as far as a flick.
    pub open spec fn uncommitted(self, pad: Pad) -> bool {
        self.locked matches Some(direction) ==> {
            let progress = direction.progress(self.acc);
            &&& self.frames >= 1
            &&& progress >= FRAME_DEADZONE * MEAN_SCALE * self.frames
            &&& crate::math::magnitude(direction.across(self.acc)) <= progress
            &&& (self.frames < FLICK_FRAMES && progress <= self.frames * (MEAN_SCALE * u16::MAX))
                || progress < FLICK_TRAVEL_MULT * (MEAN_SCALE * pad.swipe_travel_floor())
        }
    }

    /// Whether the run has so much travel that time does not matter.
    pub open spec fn flicked(self, pad: Pad, direction: SwipeDirection) -> bool {
        &&& self.frames >= FLICK_FRAMES
        &&& self.travel(direction) >= FLICK_TRAVEL_MULT * (MEAN_SCALE * pad.swipe_travel_floor())
    }
}

/// Sums over the fingers.
pub open spec fn sum_position(fingers: Seq<TrackedFinger>) -> (int, int)
    decreases fingers.len(),
{
    if fingers.len() == 0 {
        (0, 0)
    } else {
        let rest = sum_position(fingers.drop_last());
        (rest.0 + fingers.last().x, rest.1 + fingers.last().y)
    }
}

/// Sum of the fingers' displacements from landing.
pub open spec fn sum_displacement(fingers: Seq<TrackedFinger>) -> (int, int)
    decreases fingers.len(),
{
    if fingers.len() == 0 {
        (0, 0)
    } else {
        let rest = sum_displacement(fingers.drop_last());
        let finger = fingers.last();
        (rest.0 + finger.x - finger.start_x, rest.1 + finger.y - finger.start_y)
    }
}

/// Sum of the fingers' speeds.
pub open spec fn sum_speed(fingers: Seq<TrackedFinger>) -> int
    decreases fingers.len(),
{
    if fingers.len() == 0 {
        0
    } else {
        sum_speed(fingers.drop_last()) + fingers.last().speed()
    }
}

/// Widest wander of any finger.
pub open spec fn widest(fingers: Seq<TrackedFinger>) -> int
    decreases fingers.len(),
{
    if fingers.len() == 0 {
        0
    } else {
        crate::math::greater(widest(fingers.drop_last()), fingers.last().wander())
    }
}

/// Mean position in twelfths of a unit, for two to four fingers.
pub open spec fn mean_position(fingers: Seq<TrackedFinger>) -> (int, int) {
    let share = MEAN_SCALE as int / fingers.len() as int;
    (sum_position(fingers).0 * share, sum_position(fingers).1 * share)
}

/// The coordinate of a finger across a swipe direction.
pub open spec fn cross_coordinate(finger: TrackedFinger, horizontal: bool) -> int {
    if horizontal {
        finger.y as int
    } else {
        finger.x as int
    }
}

/// Whether the fingers stay close enough to each other across a swipe direction.
pub open spec fn cross_span_within(
    fingers: Seq<TrackedFinger>,
    pad: Pad,
    direction: SwipeDirection,
) -> bool {
    forall|i: int, j: int|
        0 <= i < fingers.len() && 0 <= j < fingers.len() ==> cross_coordinate(
            #[trigger] fingers[i],
            direction.is_horizontal(),
        ) - cross_coordinate(#[trigger] fingers[j], direction.is_horizontal())
            <= pad.cross_span_max(direction)
}

/// The direction of one frame's mean motion `d`, in twelfths of a unit; `None` inside the dead
/// zone.
pub open spec fn heading(d: (int, int)) -> Option<SwipeDirection> {
    let x = crate::math::magnitude(d.0);
    let y = crate::math::magnitude(d.1);
    if crate::math::greater(x as int, y as int) < FRAME_DEADZONE * MEAN_SCALE {
        None
    } else if x >= y {
        Some(
            if d.0 > 0 {
                SwipeDirection::Right
            } else {
                SwipeDirection::Left
            },
        )
    } else {
        Some(
            if d.1 > 0 {
                SwipeDirection::Down
            } else {
                SwipeDirection::Up
            },
        )
    }
}

/// Whether the fingers translate together: their mean speed is at most five halves of the larger
/// component of the mean motion `d`.
pub open spec fn co_moving(fingers: Seq<TrackedFinger>, d: (int, int)) -> bool {
    let dominant = crate::math::greater(
        crate::math::magnitude(d.0) as int,
        crate::math::magnitude(d.1) as int,
    );
    sum_speed(fingers) * (MEAN_SCALE * CO_MOTION_DENOM) <= dominant * CO_MOTION_NUM
        * fingers.len() as int
}

/// Whether no finger's displacement from landing points against `total` along an axis.
pub open spec fn none_against(fingers: Seq<TrackedFinger>, horizontal: bool, total: int) -> bool {
    forall|i: int|
        0 <= i < fingers.len() ==> {
            let finger = #[trigger] fingers[i];
            let own = if horizontal {
                finger.x - finger.start_x
            } else {
                finger.y - finger.start_y
            };
            (total > 0 ==> own >= 0) && (total < 0 ==> own <= 0)
        }
}

/// Squared distance between two fingers' positions.
pub open spec fn pair_square(ax: int, ay: int, bx: int, by: int) -> int {
    (ax - bx) * (ax - bx) + (ay - by) * (ay - by)
}

/// Whether the square root of `larger` exceeds that of `smaller` by at least `gap`, for
/// non-negative arguments.
pub open spec fn roots_apart(larger: int, smaller: int, gap: int) -> bool {
    let excess = larger - smaller - gap * gap;
    excess >= 0 && excess * excess >= 4 * (gap * gap) * smaller
}

/// Distance of a point from the centroid of four points summing to `sum`, in quarter units with
/// forty fractional bits.
pub open spec fn fixed_radius(x: int, y: int, sum: (int, int)) -> nat {
    let dx = 4 * x - sum.0;
    let dy = 4 * y - sum.1;
    crate::math::floor_sqrt(((dx * dx + dy * dy) * 0x1_0000_0000_0000_0000_0000) as nat)
}

/// Sum of the four fingers' current distances from their centroid.
pub open spec fn current_radius(t: Seq<TrackedFinger>) -> nat {
    let sum = (t[0].x + t[1].x + t[2].x + t[3].x, t[0].y + t[1].y + t[2].y + t[3].y);
    fixed_radius(t[0].x as int, t[0].y as int, sum) + fixed_radius(
        t[1].x as int,
        t[1].y as int,
        sum,
    ) + fixed_radius(t[2].x as int, t[2].y as int, sum) + fixed_radius(
        t[3].x as int,
        t[3].y as int,
        sum,
    )
}

/// Sum of the four fingers' distances from their centroid at landing.
pub open spec fn start_radius(t: Seq<TrackedFinger>) -> nat {
    let sum = (
        t[0].start_x + t[1].start_x + t[2].start_x + t[3].start_x,
        t[0].start_y + t[1].start_y + t[2].start_y + t[3].start_y,
    );
    fixed_radius(t[0].start_x as int, t[0].start_y as int, sum) + fixed_radius(
        t[1].start_x as int,
        t[1].start_y as int,
        sum,
    ) + fixed_radius(t[2].start_x as int, t[2].start_y as int, sum) + fixed_radius(
        t[3].start_x as int,
        t[3].start_y as int,
        sum,
    )
}

/// The pinch two fingers have made: the distance between them changed by at least the minimum.
pub open spec fn pair_pinch(t: Seq<TrackedFinger>, pad: Pad) -> Option<TouchpadGestureId> {
    let now = pair_square(t[0].x as int, t[0].y as int, t[1].x as int, t[1].y as int);
    let start = pair_square(
        t[0].start_x as int,
        t[0].start_y as int,
        t[1].start_x as int,
        t[1].start_y as int,
    );
    if now > start {
        if roots_apart(now, start, pad.pinch_min()) {
            Some(TouchpadGestureId::TwoFingerPinchOut)
        } else {
            None
        }
    } else {
        if roots_apart(start, now, pad.pinch_min()) {
            Some(TouchpadGestureId::TwoFingerPinchIn)
        } else {
            None
        }
    }
}

/// The pinch four fingers have made: their mean distance from their centroid changed by at least
/// the minimum. The sums are four times the mean, in quarter units with forty fractional bits.
pub open spec fn group_pinch(t: Seq<TrackedFinger>, pad: Pad) -> Option<TouchpadGestureId> {
    let change = current_radius(t) - start_radius(t);
    if crate::math::magnitude(change) < pad.pinch_min() * 16 * 0x100_0000_0000 {
        None
    } else if change > 0 {
        Some(TouchpadGestureId::FourFingerPinchOut)
    } else {
        Some(TouchpadGestureId::FourFingerPinchIn)
    }
}

/// Position of the finger carrying `id`, or the length where there is none.
pub open spec fn position_of(fingers: Seq<TrackedFinger>, id: u8) -> nat
    decreases fingers.len(),
{
    if fingers.len() == 0 {
        0
    } else {
        let at = position_of(fingers.drop_last(), id);
        if at < fingers.len() - 1 || fingers.last().id == id {
            at
        } else {
            fingers.len()
        }
    }
}

/// Whether a contact carries `id`.
pub open spec fn reports(contacts: Seq<TouchContact>, id: u8) -> bool {
    exists|i: int| 0 <= i < contacts.len() && (#[trigger] contacts[i]).finger_id == id
}

/// The fingers that the contacts still report.
pub open spec fn still_down(fingers: Seq<TrackedFinger>, contacts: Seq<TouchContact>) -> Seq<
    TrackedFinger,
>
    decreases fingers.len(),
{
    if fingers.len() == 0 {
        Seq::empty()
    } else {
        let rest = still_down(fingers.drop_last(), contacts);
        if reports(contacts, fingers.last().id) {
            rest.push(fingers.last())
        } else {
            rest
        }
    }
}

/// Whether no two fingers share an id.
pub open spec fn distinct_fingers(fingers: Seq<TrackedFinger>) -> bool {
    forall|i: int, j: int|
        0 <= i < j < fingers.len() ==> (#[trigger] fingers[i]).id != (#[trigger] fingers[j]).id
}

/// Whether two lists of fingers carry the same ids in the same order.
pub open spec fn same_fingers(a: Seq<TrackedFinger>, b: Seq<TrackedFinger>) -> bool {
    a.len() == b.len() && forall|i: int| 0 <= i < a.len() ==> (#[trigger] a[i]).id == b[i].id
}

/// Where a classifier stands.
pub struct ClassifierModel {
    pub pad: Pad,
    /// Fingers currently down, in landing order.
    pub fingers: Seq<TrackedFinger>,
    /// Highest simultaneous finger count of the stroke in progress.
    pub stroke_fingers: nat,
    /// Timestamp of the stroke's first touch.
    pub stroke_start_ts: u16,
    /// Widest wander seen during the stroke.
    pub max_wander: int,
    /// The gesture this stroke already committed.
    pub fired: Option<TouchpadGestureId>,
    pub swipe: SwipeModel,
}

impl ClassifierModel {
    /// A classifier between strokes.
    pub open spec fn idle(pad: Pad) -> Self {
        ClassifierModel {
            pad,
            fingers: Seq::empty(),
            stroke_fingers: 0,
            stroke_start_ts: 0,
            max_wander: 0,
            fired: None,
            swipe: SwipeModel::fresh(),
        }
    }

    /// What every classifier satisfies.
    pub open spec fn valid(self) -> bool {
        &&& self.fired is None ==> self.swipe.uncommitted(self.pad)
        &&& self.swipe.last_mean matches Some(mean) ==> {
            &&& 0 <= mean.0 <= MEAN_SCALE * u16::MAX
            &&& 0 <= mean.1 <= MEAN_SCALE * u16::MAX
        }
        &&& distinct_fingers(self.fingers)
    }

    /// The classifier with one contact taken in: a known finger moves, a new one lands, and the
    /// first finger to land begins a stroke.
    pub open spec fn with_contact(self, contact: TouchContact, ts: u16) -> Self {
        let at = position_of(self.fingers, contact.finger_id);
        if at < self.fingers.len() {
            ClassifierModel {
                fingers: self.fingers.update(
                    at as int,
                    self.fingers[at as int].moved(contact),
                ),
                ..self
            }
        } else {
            let begun = if self.fingers.len() == 0 {
                ClassifierModel {
                    stroke_start_ts: ts,
                    fired: None,
                    stroke_fingers: 0,
                    max_wander: 0,
                    swipe: self.swipe.restarted(),
                    ..self
                }
            } else {
                self
            };
            ClassifierModel {
                fingers: begun.fingers.push(TrackedFinger::landed(contact)),
                ..begun
            }
        }
    }

    /// The classifier with a list of contacts taken in.
    pub open spec fn with_contacts(self, contacts: Seq<TouchContact>, ts: u16) -> Self
        decreases contacts.len(),
    {
        if contacts.len() == 0 {
            self
        } else {
            self.with_contacts(contacts.drop_last(), ts).with_contact(contacts.last(), ts)
        }
    }

    /// The classifier after a touching frame moved, landed and lifted its fingers, before any
    /// gesture is looked for.
    pub open spec fn tracking(self, contacts: Seq<TouchContact>, ts: u16) -> Self {
        let seen = self.with_contacts(contacts, ts);
        let down = still_down(seen.fingers, contacts);
        let swipe = if same_fingers(self.fingers, down) {
            seen.swipe
        } else if down.len() > self.fingers.len() {
            seen.swipe.restarted().rebased()
        } else {
            seen.swipe.rebased()
        };
        ClassifierModel {
            fingers: down,
            swipe,
            stroke_fingers: crate::math::greater(
                seen.stroke_fingers as int,
                down.len() as int,
            ) as nat,
            max_wander: crate::math::greater(seen.max_wander, widest(down)),
            ..seen
        }
    }

    /// Whether the stroke can be a swipe: it peaked at three or four fingers, and at least two
    /// remain down.
    pub open spec fn may_swipe(self) -> bool {
        self.fingers.len() >= 2 && 3 <= self.stroke_fingers <= 4
    }

    /// The swipe run after this frame, and the direction it committed.
    pub open spec fn run_step(self, ts: u16) -> (SwipeModel, Option<SwipeDirection>) {
        let mean = mean_position(self.fingers);
        let noted = SwipeModel { last_mean: Some(mean), ..self.swipe };
        if !self.may_swipe() {
            (self.swipe, None)
        } else {
            match self.swipe.last_mean {
                None => (noted, None),
                Some(last) => {
                    let d = (mean.0 - last.0, mean.1 - last.1);
                    match heading(d) {
                        None => (noted, None),
                        Some(direction) => if co_moving(self.fingers, d) {
                            self.followed(noted, direction, d, ts)
                        } else {
                            (noted, None)
                        },
                    }
                },
            }
        }
    }

    /// The run after a frame that clearly moved by `d` in a direction.
    pub open spec fn followed(
        self,
        run: SwipeModel,
        direction: SwipeDirection,
        d: (int, int),
        ts: u16,
    ) -> (SwipeModel, Option<SwipeDirection>) {
        let within = cross_span_within(self.fingers, self.pad, direction);
        match run.locked {
            Some(locked) => if locked == direction {
                let longer = run.continued(d);
                if !within {
                    (longer.restarted(), None)
                } else if longer.steady(self.pad, direction, ts) || longer.flicked(
                    self.pad,
                    direction,
                ) {
                    (longer, Some(direction))
                } else {
                    (longer, None)
                }
            } else {
                (run.begun(direction, ts, d), None)
            },
            None => if within {
                (run.begun(direction, ts, d), None)
            } else {
                (run, None)
            },
        }
    }

    /// The direction in which all fingers of the stroke have swept across the pad.
    pub open spec fn swept(self) -> Option<SwipeDirection> {
        let total = sum_displacement(self.fingers);
        let x = crate::math::magnitude(total.0);
        let y = crate::math::magnitude(total.1);
        let horizontal = x >= y;
        let along = if horizontal {
            total.0
        } else {
            total.1
        };
        let dominant = crate::math::greater(x as int, y as int);
        let cross = crate::math::lesser(x as int, y as int);
        if self.may_swipe() && self.fingers.len() == self.stroke_fingers && dominant
            >= self.fingers.len() * self.pad.sweep_min(horizontal) && cross * 2 <= dominant
            && none_against(self.fingers, horizontal, along) {
            Some(
                if horizontal {
                    if along > 0 {
                        SwipeDirection::Right
                    } else {
                        SwipeDirection::Left
                    }
                } else {
                    if along > 0 {
                        SwipeDirection::Down
                    } else {
                        SwipeDirection::Up
                    }
                },
            )
        } else {
            None
        }
    }

    /// The pinch the fingers have made.
    pub open spec fn pinched(self) -> Option<TouchpadGestureId> {
        if self.fingers.len() == 2 {
            pair_pinch(self.fingers, self.pad)
        } else if self.fingers.len() == 4 {
            group_pinch(self.fingers, self.pad)
        } else {
            None
        }
    }

    /// The gesture a touching frame commits in a stroke that has committed none: a swipe before a
    /// pinch.
    pub open spec fn committed(self, ts: u16) -> Option<TouchpadGestureId> {
        match self.run_step(ts).1 {
            Some(direction) => Some(swipe_gesture(self.stroke_fingers, direction)),
            None => match self.swept() {
                Some(direction) => Some(swipe_gesture(self.stroke_fingers, direction)),
                None => self.pinched(),
            },
        }
    }

    /// The tap that lifting the last finger at `ts` makes.
    pub open spec fn tapped(self, ts: u16) -> Option<TouchpadGestureId> {
        if self.fingers.len() > 0 && self.fired is None && crate::math::ticks_between(
            self.stroke_start_ts,
            ts,
        ) <= self.pad.tap_max_ticks && self.max_wander <= self.pad.tap_travel_max() {
            if self.stroke_fingers == 2 {
                Some(TouchpadGestureId::TwoFingerTap)
            } else if self.stroke_fingers == 3 {
                Some(TouchpadGestureId::ThreeFingerTap)
            } else if self.stroke_fingers == 4 {
                Some(TouchpadGestureId::FourFingerTap)
            } else {
                None
            }
        } else {
            None
        }
    }

    /// The classifier after one frame, and the gesture the frame committed.
    pub open spec fn step(self, ts: u16, contacts: Seq<TouchContact>) -> (
        ClassifierModel,
        Option<TouchpadGestureId>,
    ) {
        if contacts.len() == 0 {
            if self.fingers.len() == 0 {
                (self, None)
            } else {
                (ClassifierModel::idle(self.pad), self.tapped(ts))
            }
        } else {
            let now = self.tracking(contacts, ts);
            if now.fired is Some {
                (now, None)
            } else {
                let gesture = now.committed(ts);
                (
                    ClassifierModel { swipe: now.run_step(ts).0, fired: gesture, ..now },
                    gesture,
                )
            }
        }
    }
}

/// One step of a forward walk over the fingers.
proof fn lemma_prefix_step(fingers: Seq<TrackedFinger>, i: int)
    requires
        0 <= i < fingers.len(),
    ensures
        fingers.take(i + 1).drop_last() == fingers.take(i),
        fingers.take(i + 1).last() == fingers[i],
{
    assert(fingers.take(i + 1).drop_last() =~= fingers.take(i));
}

/// A position found in a prefix is the position in the whole.
proof fn lemma_position_in_prefix(fingers: Seq<TrackedFinger>, i: int, id: u8)
    requires
        0 <= i <= fingers.len(),
        position_of(fingers.take(i), id) < i,
    ensures
        position_of(fingers, id) == position_of(fingers.take(i), id),
    decreases fingers.len() - i,
{
    if i < fingers.len() {
        lemma_prefix_step(fingers, i);
        lemma_position_in_prefix(fingers, i + 1, id);
    } else {
        assert(fingers.take(i) =~= fingers);
    }
}

/// What a position says.
pub proof fn lemma_position(fingers: Seq<TrackedFinger>, id: u8)
    ensures
        position_of(fingers, id) <= fingers.len(),
        position_of(fingers, id) < fingers.len() ==> fingers[position_of(
            fingers,
            id,
        ) as int].id == id,
        position_of(fingers, id) == fingers.len() ==> forall|i: int|
            0 <= i < fingers.len() ==> (#[trigger] fingers[i]).id != id,
    decreases fingers.len(),
{
    if fingers.len() > 0 {
        lemma_position(fingers.drop_last(), id);
        let rest = fingers.drop_last();
        if position_of(fingers, id) == fingers.len() {
            assert forall|i: int| 0 <= i < fingers.len() implies (#[trigger] fingers[i]).id
                != id by {
                if i < rest.len() {
                    assert(rest[i].id != id);
                }
            }
        }
    }
}

fn finger_position(fingers: &Vec<TrackedFinger>, id: u8) -> (at: usize)
    ensures
        at == position_of(fingers@, id),
{
    let mut i: usize = 0;
    while i < fingers.len()
        invariant
            i <= fingers@.len(),
            position_of(fingers@.take(i as int), id) == i,
        decreases fingers@.len() - i,
    {
        proof {
            lemma_prefix_step(fingers@, i as int);
        }
        if fingers[i].id == id {
            proof {
                lemma_position_in_prefix(fingers@, i as int + 1, id);
            }
            return i;
        }
        i = i + 1;
    }
    assert(fingers@.take(i as int) =~= fingers@);
    i
}

fn is_reported(contacts: &Vec<TouchContact>, id: u8) -> (reported: bool)
    ensures
        reported == reports(contacts@, id),
{
    let mut i: usize = 0;
    while i < contacts.len()
        invariant
            i <= contacts@.len(),
            forall|j: int| 0 <= j < i ==> (#[trigger] contacts@[j]).finger_id != id,
        decreases contacts@.len() - i,
    {
        if contacts[i].finger_id == id {
            assert(contacts@[i as int].finger_id == id);
            return true;
        }
        i = i + 1;
    }
    false
}

/// The fingers that the contacts still report.
fn retain_reported(fingers: &Vec<TrackedFinger>, contacts: &Vec<TouchContact>) -> (down: Vec<
    TrackedFinger,
>)
    ensures
        down@ == still_down(fingers@, contacts@),
{
    let mut down: Vec<TrackedFinger> = Vec::new();
    let mut i: usize = 0;
    while i < fingers.len()
        invariant
            i <= fingers@.len(),
            down@ == still_down(fingers@.take(i as int), contacts@),
        decreases fingers@.len() - i,
    {
        proof {
            lemma_prefix_step(fingers@, i as int);
        }
        if is_reported(contacts, fingers[i].id) {
            down.push(fingers[i]);
        }
        i = i + 1;
    }
    assert(fingers@.take(i as int) =~= fingers@);
    down
}

/// The ids of the fingers.
fn finger_ids(fingers: &Vec<TrackedFinger>) -> (ids: Vec<u8>)
    ensures
        ids@.len() == fingers@.len(),
        forall|i: int| 0 <= i < ids@.len() ==> #[trigger] ids@[i] == fingers@[i].id,
{
    let mut ids: Vec<u8> = Vec::new();
    let mut i: usize = 0;
    while i < fingers.len()
        invariant
            i <= fingers@.len(),
            ids@.len() == i,
            forall|j: int| 0 <= j < i ==> #[trigger] ids@[j] == fingers@[j].id,
        decreases fingers@.len() - i,
    {
        ids.push(fingers[i].id);
        i = i + 1;
    }
    ids
}

/// Whether the fingers carry exactly these ids.
fn carry_ids(ids: &Vec<u8>, fingers: &Vec<TrackedFinger>) -> (same: bool)
    ensures
        same == (ids@.len() == fingers@.len() && forall|i: int|
            0 <= i < ids@.len() ==> #[trigger] ids@[i] == fingers@[i].id),
{
    if ids.len() != fingers.len() {
        return false;
    }
    let mut i: usize = 0;
    while i < ids.len()
        invariant
            i <= ids@.len(),
            ids@.len() == fingers@.len(),
            forall|j: int| 0 <= j < i ==> #[trigger] ids@[j] == fingers@[j].id,
        decreases ids@.len() - i,
    {
        if ids[i] != fingers[i].id {
            assert(ids@[i as int] != fingers@[i as int].id);
            return false;
        }
        i = i + 1;
    }
    true
}

fn widest_travel(fingers: &Vec<TrackedFinger>) -> (travel: u16)
    ensures
        travel == widest(fingers@),
{
    let mut travel: u16 = 0;
    let mut i: usize = 0;
    while i < fingers.len()
        invariant
            i <= fingers@.len(),
            travel == widest(fingers@.take(i as int)),
        decreases fingers@.len() - i,
    {
        proof {
            lemma_prefix_step(fingers@, i as int);
        }
        let own: u16 = fingers[i].travel();
        if own > travel {
            travel = own;
        }
        i = i + 1;
    }
    assert(fingers@.take(i as int) =~= fingers@);
    travel
}

/// Mean position of two to four fingers, in twelfths of a unit.
fn mean_of(fingers: &Vec<TrackedFinger>) -> (mean: (i64, i64))
    requires
        2 <= fingers@.len() <= 4,
    ensures
        (mean.0 as int, mean.1 as int) == mean_position(fingers@),
        0 <= mean.0 <= MEAN_SCALE * u16::MAX,
        0 <= mean.1 <= MEAN_SCALE * u16::MAX,
{
    let mut x: i64 = 0;
    let mut y: i64 = 0;
    let mut i: usize = 0;
    while i < fingers.len()
        invariant
            i <= fingers@.len() <= 4,
            (x as int, y as int) == sum_position(fingers@.take(i as int)),
            0 <= x <= i * u16::MAX,
            0 <= y <= i * u16::MAX,
        decreases fingers@.len() - i,
    {
        proof {
            lemma_prefix_step(fingers@, i as int);
        }
        x = x + fingers[i].x as i64;
        y = y + fingers[i].y as i64;
        i = i + 1;
    }
    assert(fingers@.take(i as int) =~= fingers@);
    let share: i64 = match fingers.len() {
        2 => 6,
        3 => 4,
        _ => 3,
    };
    proof {
        let count = fingers@.len() as int;
        assert(MEAN_SCALE as int / count == share) by {
            if count == 2 {
                assert(MEAN_SCALE as int / 2 == 6);
            } else if count == 3 {
                assert(MEAN_SCALE as int / 3 == 4);
            } else {
                assert(MEAN_SCALE as int / 4 == 3);
            }
        }
        assert(0 <= x * share <= MEAN_SCALE * u16::MAX) by (nonlinear_arith)
            requires
                0 <= x <= count * u16::MAX,
                share >= 0,
                count * share == MEAN_SCALE,
        ;
        assert(0 <= y * share <= MEAN_SCALE * u16::MAX) by (nonlinear_arith)
            requires
                0 <= y <= count * u16::MAX,
                share >= 0,
                count * share == MEAN_SCALE,
        ;
    }
    (x * share, y * share)
}

/// Sum of the fingers' displacements from landing.
fn displacement_of(fingers: &Vec<TrackedFinger>) -> (sum: (i64, i64))
    requires
        fingers@.len() <= 4,
    ensures
        (sum.0 as int, sum.1 as int) == sum_displacement(fingers@),
        -4 * u16::MAX <= sum.0 <= 4 * u16::MAX,
        -4 * u16::MAX <= sum.1 <= 4 * u16::MAX,
{
    let mut x: i64 = 0;
    let mut y: i64 = 0;
    let mut i: usize = 0;
    while i < fingers.len()
        invariant
            i <= fingers@.len() <= 4,
            (x as int, y as int) == sum_displacement(fingers@.take(i as int)),
            -(i * u16::MAX) <= x <= i * u16::MAX,
            -(i * u16::MAX) <= y <= i * u16::MAX,
        decreases fingers@.len() - i,
    {
        proof {
            lemma_prefix_step(fingers@, i as int);
        }
        let finger: TrackedFinger = fingers[i];
        x = x + finger.x as i64 - finger.start_x as i64;
        y = y + finger.y as i64 - finger.start_y as i64;
        i = i + 1;
    }
    assert(fingers@.take(i as int) =~= fingers@);
    (x, y)
}

/// Sum of the fingers' speeds.
fn speed_of(fingers: &Vec<TrackedFinger>) -> (sum: i64)
    requires
        fingers@.len() <= 4,
    ensures
        sum == sum_speed(fingers@),
        0 <= sum <= 4 * u16::MAX,
{
    let mut sum: i64 = 0;
    let mut i: usize = 0;
    while i < fingers.len()
        invariant
            i <= fingers@.len() <= 4,
            sum == sum_speed(fingers@.take(i as int)),
            0 <= sum <= i * u16::MAX,
        decreases fingers@.len() - i,
    {
        proof {
            lemma_prefix_step(fingers@, i as int);
        }
        sum = sum + fingers[i].frame_travel() as i64;
        i = i + 1;
    }
    assert(fingers@.take(i as int) =~= fingers@);
    sum
}

fn magnitude_of(v: i64) -> (m: i64)
    requires
        v > i64::MIN,
    ensures
        m == crate::math::magnitude(v as int),
{
    if v < 0 {
        -v
    } else {
        v
    }
}

/// The direction of one frame's mean motion.
fn heading_of(dx: i64, dy: i64) -> (direction: Option<SwipeDirection>)
    requires
        dx > i64::MIN,
        dy > i64::MIN,
    ensures
        direction == heading((dx as int, dy as int)),
{
    let x: i64 = magnitude_of(dx);
    let y: i64 = magnitude_of(dy);
    if x < FRAME_DEADZONE * MEAN_SCALE && y < FRAME_DEADZONE * MEAN_SCALE {
        // Jitter in an otherwise still hand: hold the run, learn nothing.
        None
    } else if x >= y {
        if dx > 0 {
            Some(SwipeDirection::Right)
        } else {
            Some(SwipeDirection::Left)
        }
    } else if dy > 0 {
        Some(SwipeDirection::Down)
    } else {
        Some(SwipeDirection::Up)
    }
}

/// Whether no finger moved against the group along an axis.
fn together(fingers: &Vec<TrackedFinger>, horizontal: bool, total: i64) -> (none: bool)
    ensures
        none == none_against(fingers@, horizontal, total as int),
{
    let mut i: usize = 0;
    while i < fingers.len()
        invariant
            i <= fingers@.len(),
            none_against(fingers@.take(i as int), horizontal, total as int),
        decreases fingers@.len() - i,
    {
        let finger: TrackedFinger = fingers[i];
        let own: i64 = if horizontal {
            finger.x as i64 - finger.start_x as i64
        } else {
            finger.y as i64 - finger.start_y as i64
        };
        if (total > 0 && own < 0) || (total < 0 && own > 0) {
            assert(fingers@[i as int] == finger);
            return false;
        }
        proof {
            let longer = fingers@.take(i as int + 1);
            assert forall|j: int| 0 <= j < longer.len() implies {
                let f = #[trigger] longer[j];
                let own = if horizontal {
                    f.x - f.start_x
                } else {
                    f.y - f.start_y
                };
                (total > 0 ==> own >= 0) && (total < 0 ==> own <= 0)
            } by {
                if j < i {
                    assert(fingers@.take(i as int)[j] == longer[j]);
                }
            }
        }
        i = i + 1;
    }
    assert(fingers@.take(i as int) =~= fingers@);
    true
}

/// Squared distance between two points.
fn square_of(ax: u16, ay: u16, bx: u16, by: u16) -> (square: i128)
    ensures
        square == pair_square(ax as int, ay as int, bx as int, by as int),
        0 <= square <= 2 * u16::MAX * u16::MAX,
{
    let dx: i128 = ax as i128 - bx as i128;
    let dy: i128 = ay as i128 - by as i128;
    assert(0 <= dx * dx <= u16::MAX * u16::MAX) by (nonlinear_arith)
        requires
            -u16::MAX <= dx <= u16::MAX,
    ;
    assert(0 <= dy * dy <= u16::MAX * u16::MAX) by (nonlinear_arith)
        requires
            -u16::MAX <= dy <= u16::MAX,
    ;
    dx * dx + dy * dy
}

/// Whether two distances, given by their squares, differ by at least `gap`.
fn distances_apart(larger: i128, smaller: i128, gap: i128) -> (far: bool)
    requires
        0 <= smaller <= larger <= 2 * u16::MAX * u16::MAX,
        0 <= gap <= u16::MAX,
    ensures
        far == roots_apart(larger as int, smaller as int, gap as int),
{
    assert(0 <= gap * gap <= u16::MAX * u16::MAX) by (nonlinear_arith)
        requires
            0 <= gap <= u16::MAX,
    ;
    let excess: i128 = larger - smaller - gap * gap;
    if excess < 0 {
        return false;
    }
    assert(0 <= excess * excess <= 0x10_0000_0000_0000_0000) by (nonlinear_arith)
        requires
            0 <= excess <= 2 * u16::MAX * u16::MAX,
    ;
    assert(0 <= 4 * (gap * gap) * smaller <= 0x10_0000_0000_0000_0000) by (nonlinear_arith)
        requires
            0 <= gap * gap <= u16::MAX * u16::MAX,
            0 <= smaller <= 2 * u16::MAX * u16::MAX,
    ;
    excess * excess >= 4 * (gap * gap) * smaller
}

/// Distance of a point from the centroid of four points summing to `sum_x`, `sum_y`.
fn radius_of(x: u16, y: u16, sum_x: i128, sum_y: i128) -> (radius: u64)
    requires
        0 <= sum_x <= 4 * u16::MAX,
        0 <= sum_y <= 4 * u16::MAX,
    ensures
        radius == fixed_radius(x as int, y as int, (sum_x as int, sum_y as int)),
        radius <= 0x0800_0000_0000_0000,
{
    let dx: i128 = 4 * x as i128 - sum_x;
    let dy: i128 = 4 * y as i128 - sum_y;
    assert(0 <= dx * dx <= 0x10_0000_0000) by (nonlinear_arith)
        requires
            -4 * u16::MAX <= dx <= 4 * u16::MAX,
    ;
    assert(0 <= dy * dy <= 0x10_0000_0000) by (nonlinear_arith)
        requires
            -4 * u16::MAX <= dy <= 4 * u16::MAX,
    ;
    let square: u128 = (dx * dx + dy * dy) as u128;
    let scaled: u128 = square * 0x1_0000_0000_0000_0000_0000;
    let radius: u64 = isqrt_wide(scaled);
    proof {
        crate::math::lemma_floor_sqrt_exists(scaled as nat);
        assert(radius <= 0x0800_0000_0000_0000) by (nonlinear_arith)
            requires
                radius * radius <= scaled,
                scaled <= 0x20_0000_0000 * 0x1_0000_0000_0000_0000_0000,
                radius >= 0,
        ;
    }
    radius
}

/// Mid-stroke swipe state: a run of consecutive co-directed frames.
#[derive(Debug)]
struct SwipeTracker {
    locked: Option<SwipeDirection>,
    frames: u32,
    start_ts: u16,
    acc: (i64, i64),
    last_mean: Option<(i64, i64)>,
}

impl View for SwipeTracker {
    type V = SwipeModel;

    closed spec fn view(&self) -> SwipeModel {
        SwipeModel {
            locked: self.locked,
            frames: self.frames as nat,
            start_ts: self.start_ts,
            acc: (self.acc.0 as int, self.acc.1 as int),
            last_mean: match self.last_mean {
                Some(mean) => Some((mean.0 as int, mean.1 as int)),
                None => None,
            },
        }
    }
}

impl SwipeTracker {
    fn fresh() -> (tracker: Self)
        ensures
            tracker@ == SwipeModel::fresh(),
    {
        SwipeTracker { locked: None, frames: 0, start_ts: 0, acc: (0, 0), last_mean: None }
    }

    /// Full reset: the cross span was exceeded, or a finger landed whose motion cannot be
    /// attributed yet.
    fn restart(&mut self)
        ensures
            final(self)@ == old(self)@.restarted(),
    {
        self.locked = None;
        self.frames = 0;
        self.start_ts = 0;
        self.acc = (0, 0);
    }

    /// Soft rebase after a finger lifted: the mean jumps by the departed finger's offset, so skip
    /// exactly one frame's delta but keep the run.
    fn rebase(&mut self)
        ensures
            final(self)@ == old(self)@.rebased(),
    {
        self.last_mean = None;
    }

    fn begin(&mut self, direction: SwipeDirection, ts: u16, dx: i64, dy: i64)
        ensures
            final(self)@ == old(self)@.begun(direction, ts, (dx as int, dy as int)),
    {
        self.locked = Some(direction);
        self.frames = 1;
        self.start_ts = ts;
        self.acc = (dx, dy);
    }
}

/// The stroke state of a classifier.
#[derive(Debug)]
struct StrokeTracker {
    pad: Pad,
    fingers: Vec<TrackedFinger>,
    stroke_fingers: usize,
    stroke_start_ts: u16,
    max_wander: u16,
    fired: Option<TouchpadGestureId>,
    swipe: SwipeTracker,
}

impl View for StrokeTracker {
    type V = ClassifierModel;

    closed spec fn view(&self) -> ClassifierModel {
        ClassifierModel {
            pad: self.pad,
            fingers: self.fingers@,
            stroke_fingers: self.stroke_fingers as nat,
            stroke_start_ts: self.stroke_start_ts,
            max_wander: self.max_wander as int,
            fired: self.fired,
            swipe: self.swipe@,
        }
    }
}

impl StrokeTracker {
    fn idle(pad: Pad) -> (tracker: Self)
        ensures
            tracker@ == ClassifierModel::idle(pad),
            tracker@.valid(),
    {
        StrokeTracker {
            pad,
            fingers: Vec::new(),
            stroke_fingers: 0,
            stroke_start_ts: 0,
            max_wander: 0,
            fired: None,
            swipe: SwipeTracker::fresh(),
        }
    }

    fn take_contact(&mut self, contact: TouchContact, ts: u16)
        requires
            old(self)@.valid(),
        ensures
            final(self)@ == old(self)@.with_contact(contact, ts),
            final(self)@.valid(),
    {
        let at: usize = finger_position(&self.fingers, contact.finger_id);
        proof {
            lemma_position(self.fingers@, contact.finger_id);
        }
        if at < self.fingers.len() {
            let finger: TrackedFinger = self.fingers[at];
            let moved: TrackedFinger = TrackedFinger {
                id: finger.id,
                start_x: finger.start_x,
                start_y: finger.start_y,
                x: contact.x,
                y: contact.y,
                prev_x: finger.x,
                prev_y: finger.y,
            };
            self.fingers.set(at, moved);
        } else {
            if self.fingers.len() == 0 {
                // A fresh stroke begins; clearing the latch keeps a stream that skipped the empty
                // frame from carrying it across strokes.
                self.stroke_start_ts = ts;
                self.fired = None;
                self.stroke_fingers = 0;
                self.max_wander = 0;
                self.swipe.restart();
            }
            self.fingers.push(TrackedFinger::landing(contact));
        }
    }

    fn take_contacts(&mut self, contacts: &Vec<TouchContact>, ts: u16)
        requires
            old(self)@.valid(),
        ensures
            final(self)@ == old(self)@.with_contacts(contacts@, ts),
            final(self)@.valid(),
    {
        let mut i: usize = 0;
        assert(contacts@.take(0) =~= Seq::empty());
        while i < contacts.len()
            invariant
                i <= contacts@.len(),
                self@.valid(),
                self@ == old(self)@.with_contacts(contacts@.take(i as int), ts),
            decreases contacts@.len() - i,
        {
            proof {
                assert(contacts@.take(i as int + 1).drop_last() =~= contacts@.take(i as int));
            }
            self.take_contact(contacts[i], ts);
            i = i + 1;
        }
        assert(contacts@.take(i as int) =~= contacts@);
    }

    fn track(&mut self, contacts: &Vec<TouchContact>, ts: u16)
        requires
            old(self)@.valid(),
        ensures
            final(self)@ == old(self)@.tracking(contacts@, ts),
            final(self)@.valid(),
            final(self)@.fingers.len() <= final(self)@.stroke_fingers,
    {
        let before: Vec<u8> = finger_ids(&self.fingers);
        let ghost first = self.fingers@;
        self.take_contacts(contacts, ts);
        let down: Vec<TrackedFinger> = retain_reported(&self.fingers, contacts);
        proof {
            lemma_still_down(self.fingers@, contacts@);
        }
        let unchanged: bool = carry_ids(&before, &down);
        proof {
            assert(unchanged == same_fingers(first, down@)) by {
                if unchanged {
                    assert forall|i: int| 0 <= i < first.len() implies (#[trigger] first[i]).id
                        == down@[i].id by {
                        assert(before@[i] == down@[i].id);
                    }
                }
                if same_fingers(first, down@) {
                    assert forall|i: int| 0 <= i < before@.len() implies #[trigger] before@[i]
                        == down@[i].id by {
                        assert(first[i].id == down@[i].id);
                    }
                }
            }
        }
        if !unchanged {
            // A lift re-bases the mean for one frame and keeps the run; a landing restarts it.
            if down.len() > before.len() {
                self.swipe.restart();
            }
            self.swipe.rebase();
        }
        self.fingers = down;
        if self.fingers.len() > self.stroke_fingers {
            self.stroke_fingers = self.fingers.len();
        }
        let travel: u16 = widest_travel(&self.fingers);
        if travel > self.max_wander {
            self.max_wander = travel;
        }
    }

    /// One frame: returns the gesture it committed.
    fn push(&mut self, ts: u16, contacts: &Vec<TouchContact>) -> (gesture: Option<
        TouchpadGestureId,
    >)
        requires
            old(self)@.valid(),
        ensures
            (final(self)@, gesture) == old(self)@.step(ts, contacts@),
            final(self)@.valid(),
    {
        if contacts.len() == 0 {
            return self.end_stroke(ts);
        }
        self.track(contacts, ts);
        if self.fired.is_some() {
            return None;
        }
        let ghost now = self@;
        let committed: Option<SwipeDirection> = self.follow_run(ts);
        let direction: Option<SwipeDirection> = match committed {
            Some(direction) => Some(direction),
            None => self.try_swipe(),
        };
        let gesture: Option<TouchpadGestureId> = match direction {
            Some(direction) => Some(swipe_id(self.stroke_fingers, direction)),
            None => self.try_pinch(),
        };
        self.fired = gesture;
        gesture
    }

    /// The stroke's last finger lifted: classify a tap if the stroke earned nothing mid-motion,
    /// then reset for the next stroke.
    fn end_stroke(&mut self, lift_ts: u16) -> (gesture: Option<TouchpadGestureId>)
        requires
            old(self)@.valid(),
        ensures
            (final(self)@, gesture) == old(self)@.step(lift_ts, Seq::empty()),
            final(self)@.valid(),
    {
        if self.fingers.len() == 0 {
            return None;
        }
        let gesture: Option<TouchpadGestureId> = if self.fired.is_none() {
            self.tap(lift_ts)
        } else {
            None
        };
        *self = StrokeTracker::idle(self.pad);
        gesture
    }

    /// Whether this stroke's lift is a tap: short window, no finger wandered far, and a
    /// two-to-four-finger count.
    fn tap(&self, lift_ts: u16) -> (gesture: Option<TouchpadGestureId>)
        requires
            self@.fingers.len() > 0,
            self@.fired is None,
        ensures
            gesture == self@.tapped(lift_ts),
    {
        let id: TouchpadGestureId = match self.stroke_fingers {
            2 => TouchpadGestureId::TwoFingerTap,
            3 => TouchpadGestureId::ThreeFingerTap,
            4 => TouchpadGestureId::FourFingerTap,
            _ => return None,
        };
        // Wrapping subtraction keeps the window honest across the counter's wrap.
        if lift_ts.wrapping_sub(self.stroke_start_ts) > self.pad.tap_max_ticks {
            return None;
        }
        if self.max_wander > self.pad.width / TAP_TRAVEL_DENOM {
            return None;
        }
        Some(id)
    }

    /// Feeds the swipe run one frame; returns the direction the frame committed.
    fn follow_run(&mut self, ts: u16) -> (committed: Option<SwipeDirection>)
        requires
            old(self)@.valid(),
            old(self)@.fired is None,
            old(self)@.fingers.len() <= old(self)@.stroke_fingers,
        ensures
            final(self)@ == (ClassifierModel { swipe: old(self)@.run_step(ts).0, ..old(self)@ }),
            committed == old(self)@.run_step(ts).1,
            committed is None ==> final(self)@.valid(),
            final(self)@.swipe.last_mean matches Some(mean) ==> {
                &&& 0 <= mean.0 <= MEAN_SCALE * u16::MAX
                &&& 0 <= mean.1 <= MEAN_SCALE * u16::MAX
            },
    {
        if self.fingers.len() < 2 || self.stroke_fingers < 3 || self.stroke_fingers > 4 {
            return None;
        }
        let mean: (i64, i64) = mean_of(&self.fingers);
        let last: Option<(i64, i64)> = self.swipe.last_mean;
        self.swipe.last_mean = Some(mean);
        let (dx, dy): (i64, i64) = match last {
            Some(last) => (mean.0 - last.0, mean.1 - last.1),
            // First frame after a rebase: no honest delta.
            None => return None,
        };
        let direction: SwipeDirection = match heading_of(dx, dy) {
            Some(direction) => direction,
            None => return None,
        };
        if !self.co_motion(dx, dy) {
            return None;
        }
        self.follow_direction(direction, dx, dy, ts)
    }

    /// Extends, replaces or begins the run with a frame that clearly moved in a direction.
    fn follow_direction(&mut self, direction: SwipeDirection, dx: i64, dy: i64, ts: u16) -> (
        committed: Option<SwipeDirection>)
        requires
            old(self)@.valid(),
            old(self)@.fired is None,
            -MEAN_SCALE * u16::MAX <= dx <= MEAN_SCALE * u16::MAX,
            -MEAN_SCALE * u16::MAX <= dy <= MEAN_SCALE * u16::MAX,
            heading((dx as int, dy as int)) == Some(direction),
        ensures
            final(self)@ == (ClassifierModel {
                swipe: old(self)@.followed(
                    old(self)@.swipe,
                    direction,
                    (dx as int, dy as int),
                    ts,
                ).0,
                ..old(self)@
            }),
            committed == old(self)@.followed(
                old(self)@.swipe,
                direction,
                (dx as int, dy as int),
                ts,
            ).1,
            committed is None ==> final(self)@.valid(),
            final(self)@.swipe.last_mean == old(self)@.swipe.last_mean,
    {
        let within: bool = self.cross_span_ok(direction);
        match self.swipe.locked {
            Some(locked) => {
                if locked != direction {
                    // Direction flipped or the dominant axis swung: start over.
                    self.swipe.begin(direction, ts, dx, dy);
                    return None;
                }
            },
            None => {
                if within {
                    self.swipe.begin(direction, ts, dx, dy);
                }
                return None;
            },
        }
        let ghost before = self@.swipe;
        proof {
            lemma_run_bounds(before, self@.pad, direction);
        }
        self.swipe.frames = self.swipe.frames + 1;
        self.swipe.acc = (self.swipe.acc.0 + dx, self.swipe.acc.1 + dy);
        if !within {
            self.swipe.restart();
            return None;
        }
        let travel: i64 = if direction.horizontal() {
            magnitude_of(self.swipe.acc.0)
        } else {
            magnitude_of(self.swipe.acc.1)
        };
        let held: u16 = ts.wrapping_sub(self.swipe.start_ts);
        let floor: i64 = MEAN_SCALE * (self.pad.width / SWIPE_TRAVEL_DENOM) as i64;
        let share: u32 = self.pad.tap_max_ticks as u32 * SWIPE_MIN_MS / TAP_MAX_MS;
        let min_ticks: u32 = if share > 1 {
            share
        } else {
            1
        };
        // The ordinary gate is frames, time and floor; a flick substitutes speed for time.
        let steady: bool = self.swipe.frames >= SWIPE_MIN_FRAMES && held as u32 >= min_ticks
            && travel >= floor;
        let flick: bool = self.swipe.frames >= FLICK_FRAMES && travel >= FLICK_TRAVEL_MULT * floor;
        if steady || flick {
            Some(direction)
        } else {
            proof {
                lemma_run_grows(before, self@.pad, direction, (dx as int, dy as int), ts);
            }
            None
        }
    }

    /// A horizontal sweep keeps its fingers within two fifths of the pad's height, a vertical one
    /// within two fifths of its width, measured between the outermost fingers.
    fn cross_span_ok(&self, direction: SwipeDirection) -> (within: bool)
        ensures
            within == cross_span_within(self@.fingers, self@.pad, direction),
    {
        let horizontal: bool = direction.horizontal();
        let limit: u32 = if horizontal {
            self.pad.height as u32 * CROSS_SPAN_NUM / CROSS_SPAN_DENOM
        } else {
            self.pad.width as u32 * CROSS_SPAN_NUM / CROSS_SPAN_DENOM
        };
        let mut low: u16 = u16::MAX;
        let mut high: u16 = 0;
        let ghost mut lowest: int = 0;
        let ghost mut highest: int = 0;
        let mut i: usize = 0;
        while i < self.fingers.len()
            invariant
                i <= self.fingers@.len(),
                horizontal == direction.is_horizontal(),
                i == 0 ==> low == u16::MAX && high == 0,
                i > 0 ==> 0 <= lowest < i && cross_coordinate(self.fingers@[lowest], horizontal)
                    == low,
                i > 0 ==> 0 <= highest < i && cross_coordinate(self.fingers@[highest], horizontal)
                    == high,
                forall|j: int|
                    0 <= j < i ==> low <= cross_coordinate(#[trigger] self.fingers@[j], horizontal)
                        <= high,
            decreases self.fingers@.len() - i,
        {
            let at: u16 = if horizontal {
                self.fingers[i].y
            } else {
                self.fingers[i].x
            };
            if i == 0 || at < low {
                low = at;
                proof {
                    lowest = i as int;
                }
            }
            if i == 0 || at > high {
                high = at;
                proof {
                    highest = i as int;
                }
            }
            i = i + 1;
        }
        if self.fingers.len() == 0 {
            return true;
        }
        assert(low <= cross_coordinate(self.fingers@[highest], horizontal));
        let within: bool = (high - low) as u32 <= limit;
        assert(within ==> cross_span_within(self@.fingers, self@.pad, direction));
        assert(!within ==> !cross_span_within(self@.fingers, self@.pad, direction)) by {
            assert(cross_coordinate(self.fingers@[highest], horizontal) - cross_coordinate(
                self.fingers@[lowest],
                horizontal,
            ) > self.pad.cross_span_max(direction) || within);
        }
        within
    }

    /// A swipe translates its fingers together, so their speeds average barely more than the
    /// group's mean speed; fingers moving much further are converging or spreading.
    fn co_motion(&self, dx: i64, dy: i64) -> (together: bool)
        requires
            2 <= self@.fingers.len() <= 4,
            -MEAN_SCALE * u16::MAX <= dx <= MEAN_SCALE * u16::MAX,
            -MEAN_SCALE * u16::MAX <= dy <= MEAN_SCALE * u16::MAX,
        ensures
            together == co_moving(self@.fingers, (dx as int, dy as int)),
    {
        let x: i64 = magnitude_of(dx);
        let y: i64 = magnitude_of(dy);
        let dominant: i64 = if x >= y {
            x
        } else {
            y
        };
        let count: i64 = self.fingers.len() as i64;
        let limit: i64 = dominant * CO_MOTION_NUM;
        assert(0 <= limit * count <= 4 * limit) by (nonlinear_arith)
            requires
                0 <= limit,
                2 <= count <= 4,
        ;
        let speed: i64 = speed_of(&self.fingers);
        let weight: i64 = MEAN_SCALE * CO_MOTION_DENOM;
        assert(0 <= speed * weight <= 24 * 4 * u16::MAX) by (nonlinear_arith)
            requires
                0 <= speed <= 4 * u16::MAX,
                weight == 24,
        ;
        speed * weight <= limit * count
    }

    /// The direction in which every finger of the stroke has swept across the pad.
    fn try_swipe(&self) -> (direction: Option<SwipeDirection>)
        ensures
            direction == self@.swept(),
    {
        if self.fingers.len() < 2 || self.stroke_fingers < 3 || self.stroke_fingers > 4
            || self.fingers.len() != self.stroke_fingers {
            return None;
        }
        let (dx, dy): (i64, i64) = displacement_of(&self.fingers);
        let x: i64 = magnitude_of(dx);
        let y: i64 = magnitude_of(dy);
        let horizontal: bool = x >= y;
        let (along, dominant, cross): (i64, i64, i64) = if horizontal {
            (dx, x, y)
        } else {
            (dy, y, x)
        };
        let share: i64 = if horizontal {
            (self.pad.width / SWEEP_DENOM) as i64
        } else {
            (self.pad.height / SWEEP_DENOM) as i64
        };
        let least: i64 = if share > FRAME_DEADZONE {
            share
        } else {
            FRAME_DEADZONE
        };
        let count: i64 = self.fingers.len() as i64;
        assert(0 <= count * least <= 4 * least) by (nonlinear_arith)
            requires
                0 <= count <= 4,
                0 <= least,
        ;
        if dominant < count * least || cross * 2 > dominant || !together(
            &self.fingers,
            horizontal,
            along,
        ) {
            return None;
        }
        if horizontal {
            if along > 0 {
                Some(SwipeDirection::Right)
            } else {
                Some(SwipeDirection::Left)
            }
        } else if along > 0 {
            Some(SwipeDirection::Down)
        } else {
            Some(SwipeDirection::Up)
        }
    }

    /// Whether the fingers' spread has committed a pinch: two-finger spread by pair distance,
    /// four-finger spread by mean distance from the group's centroid.
    fn try_pinch(&self) -> (gesture: Option<TouchpadGestureId>)
        ensures
            gesture == self@.pinched(),
    {
        let pinch_min: u16 = self.pad.width / PINCH_DENOM;
        if self.fingers.len() == 2 {
            let a: TrackedFinger = self.fingers[0];
            let b: TrackedFinger = self.fingers[1];
            let now: i128 = square_of(a.x, a.y, b.x, b.y);
            let start: i128 = square_of(a.start_x, a.start_y, b.start_x, b.start_y);
            if now > start {
                if distances_apart(now, start, pinch_min as i128) {
                    Some(TouchpadGestureId::TwoFingerPinchOut)
                } else {
                    None
                }
            } else if distances_apart(start, now, pinch_min as i128) {
                Some(TouchpadGestureId::TwoFingerPinchIn)
            } else {
                None
            }
        } else if self.fingers.len() == 4 {
            let now: i128 = self.radius_now();
            let start: i128 = self.radius_at_landing();
            let change: i128 = now - start;
            let least: i128 = pinch_min as i128 * 16 * 0x100_0000_0000;
            if change > -least && change < least {
                None
            } else if change > 0 {
                Some(TouchpadGestureId::FourFingerPinchOut)
            } else {
                Some(TouchpadGestureId::FourFingerPinchIn)
            }
        } else {
            None
        }
    }

    /// Sum of the four fingers' distances from their centroid.
    fn radius_now(&self) -> (sum: i128)
        requires
            self@.fingers.len() == 4,
        ensures
            sum == current_radius(self@.fingers),
            0 <= sum <= 0x2000_0000_0000_0000,
    {
        let a: TrackedFinger = self.fingers[0];
        let b: TrackedFinger = self.fingers[1];
        let c: TrackedFinger = self.fingers[2];
        let d: TrackedFinger = self.fingers[3];
        let x: i128 = a.x as i128 + b.x as i128 + c.x as i128 + d.x as i128;
        let y: i128 = a.y as i128 + b.y as i128 + c.y as i128 + d.y as i128;
        radius_of(a.x, a.y, x, y) as i128 + radius_of(b.x, b.y, x, y) as i128 + radius_of(
            c.x,
            c.y,
            x,
            y,
        ) as i128 + radius_of(d.x, d.y, x, y) as i128
    }

    /// Sum of the four fingers' distances from their centroid when they landed.
    fn radius_at_landing(&self) -> (sum: i128)
        requires
            self@.fingers.len() == 4,
        ensures
            sum == start_radius(self@.fingers),
            0 <= sum <= 0x2000_0000_0000_0000,
    {
        let a: TrackedFinger = self.fingers[0];
        let b: TrackedFinger = self.fingers[1];
        let c: TrackedFinger = self.fingers[2];
        let d: TrackedFinger = self.fingers[3];
        let x: i128 = a.start_x as i128 + b.start_x as i128 + c.start_x as i128 + d.start_x as i128;
        let y: i128 = a.start_y as i128 + b.start_y as i128 + c.start_y as i128 + d.start_y as i128;
        radius_of(a.start_x, a.start_y, x, y) as i128 + radius_of(
            b.start_x,
            b.start_y,
            x,
            y,
        ) as i128 + radius_of(c.start_x, c.start_y, x, y) as i128 + radius_of(
            d.start_x,
            d.start_y,
            x,
            y,
        ) as i128
    }
}

/// Host-side gesture classifier over logical touch frames.
///
/// Feed every frame the pad reports, idle repeats included; each recognized gesture is returned
/// exactly once, from the frame that committed it.
#[derive(Debug)]
pub struct TouchpadClassifier {
    stroke: StrokeTracker,
}

impl View for TouchpadClassifier {
    type V = ClassifierModel;

    closed spec fn view(&self) -> ClassifierModel {
        self.stroke@
    }
}

impl TouchpadClassifier {
    #[verifier::type_invariant]
    spec fn inv(self) -> bool {
        self.stroke@.valid()
    }

    /// Builds a classifier for a pad of `x_size` × `y_size` native units whose frame timestamps
    /// tick `tap_max_ticks` times per the [`TAP_MAX_MS`] window.
    #[must_use]
    pub fn new(x_size: u16, y_size: u16, tap_max_ticks: u16) -> (classifier: Self)
        ensures
            classifier@ == ClassifierModel::idle(Pad::sized(x_size, y_size, tap_max_ticks)),
            classifier@.valid(),
    {
        let pad: Pad = Pad {
            width: if x_size == 0 {
                1
            } else {
                x_size
            },
            height: if y_size == 0 {
                1
            } else {
                y_size
            },
            tap_max_ticks,
        };
        TouchpadClassifier { stroke: StrokeTracker::idle(pad) }
    }

    /// Feeds one logical frame; returns the gesture it committed, if any.
    ///
    /// Swipes and pinches commit mid-stroke, the frame their gates pass; taps commit on the empty
    /// frame that lifts the last finger.
    pub fn push(&mut self, frame: &TouchFrame) -> (gesture: Option<TouchpadGestureId>)
        ensures
            (final(self)@, gesture) == old(self)@.step(frame.timestamp, frame.contacts@),
            final(self)@.valid(),
    {
        proof {
            use_type_invariant(&*self);
        }
        let mut stroke: StrokeTracker = StrokeTracker::idle(self.stroke.pad);
        core::mem::swap(&mut stroke, &mut self.stroke);
        let gesture: Option<TouchpadGestureId> = stroke.push(frame.timestamp, &frame.contacts);
        self.stroke = stroke;
        gesture
    }
}

/// A run that has not committed is short.
proof fn lemma_run_bounds(run: SwipeModel, pad: Pad, direction: SwipeDirection)
    requires
        run.uncommitted(pad),
        run.locked == Some(direction),
    ensures
        -1_572_840 <= run.acc.0 <= 1_572_840,
        -1_572_840 <= run.acc.1 <= 1_572_840,
        run.frames <= 1_572_840,
{
    let progress = direction.progress(run.acc);
    assert(MEAN_SCALE * u16::MAX == 786_420);
    assert(FRAME_DEADZONE * MEAN_SCALE * run.frames == 36 * run.frames) by (nonlinear_arith)
        requires
            FRAME_DEADZONE * MEAN_SCALE == 36,
    ;
    assert(0 <= pad.swipe_travel_floor() <= 655);
    if run.frames < FLICK_FRAMES {
        assert(run.frames * 786_420 <= 2 * 786_420);
    }
}

/// A run that continues without committing stays within what an uncommitted run satisfies.
proof fn lemma_run_grows(
    run: SwipeModel,
    pad: Pad,
    direction: SwipeDirection,
    d: (int, int),
    ts: u16,
)
    requires
        run.uncommitted(pad),
        run.locked == Some(direction),
        heading(d) == Some(direction),
        -MEAN_SCALE * u16::MAX <= d.0 <= MEAN_SCALE * u16::MAX,
        -MEAN_SCALE * u16::MAX <= d.1 <= MEAN_SCALE * u16::MAX,
        !run.continued(d).flicked(pad, direction),
    ensures
        run.continued(d).uncommitted(pad),
{
    let next = run.continued(d);
    lemma_run_bounds(run, pad, direction);
    assert(MEAN_SCALE * u16::MAX == 786_420);
    assert(FRAME_DEADZONE * MEAN_SCALE == 36);
    assert(36 * run.frames + 36 == 36 * next.frames);
    assert(direction.progress(d) >= 36);
    assert(direction.progress(next.acc) == direction.progress(run.acc) + direction.progress(d));
    assert(next.travel(direction) == direction.progress(next.acc));
    if next.frames < FLICK_FRAMES {
        assert(run.frames * 786_420 + 786_420 == next.frames * 786_420);
        assert(pad.swipe_travel_floor() <= 655);
    }
}

/// Lifting fingers keeps the rest apart, in order, and reported.
pub proof fn lemma_still_down(fingers: Seq<TrackedFinger>, contacts: Seq<TouchContact>)
    requires
        distinct_fingers(fingers),
    ensures
        distinct_fingers(still_down(fingers, contacts)),
        forall|i: int|
            0 <= i < still_down(fingers, contacts).len() ==> fingers.contains(
                #[trigger] still_down(fingers, contacts)[i],
            ) && reports(contacts, still_down(fingers, contacts)[i].id),
    decreases fingers.len(),
{
    if fingers.len() > 0 {
        let init = fingers.drop_last();
        let rest = still_down(init, contacts);
        let down = still_down(fingers, contacts);
        lemma_still_down(init, contacts);
        assert forall|i: int| 0 <= i < down.len() implies fingers.contains(#[trigger] down[i])
            && reports(contacts, down[i].id) by {
            if i < rest.len() {
                assert(rest[i] == down[i]);
                let k = choose|k: int| 0 <= k < init.len() && init[k] == rest[i];
                assert(fingers[k] == down[i]);
            } else {
                assert(fingers[fingers.len() - 1] == down[i]);
            }
        }
        assert forall|i: int, j: int| 0 <= i < j < down.len() implies (#[trigger] down[i]).id != (
        #[trigger] down[j]).id by {
            assert(rest[i] == down[i]);
            if j < rest.len() {
                assert(rest[j] == down[j]);
            } else {
                let k = choose|k: int| 0 <= k < init.len() && init[k] == rest[i];
                assert(fingers[k].id != fingers[fingers.len() - 1].id);
            }
        }
    }
}

} // verus!
