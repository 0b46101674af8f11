//! Platform-free raw-touchpad frames and gesture recognition.
//!
//! The recognizer consumes integer micrometres and microseconds only, so its thresholds are
//! independent of a touchpad's native coordinate range. Its behaviour is given by a mathematical
//! model, [`RecognizerModel`], whose [`RecognizerModel::step`] says what one frame does.
use vstd::prelude::*;

use crate::binding::ButtonId;
use crate::math::{divide, saturating_product, unsigned_magnitude};
use self::geometry::{
    centroid, contact_ids_equal, has_all, max_travel, spread, total_travel, vector_length, Point,
};

pub mod classify;
pub mod classify_laws;
pub mod classify_motion_laws;
pub mod classify_run_laws;
pub mod frame;
pub mod geometry;
pub mod gesture;
pub mod laws;
pub mod motion_laws;

verus! {

/// Longest stroke that still counts as a tap.
pub const TAP_MAX_DURATION_US: u64 = 250_000;

/// Farthest a finger may move during a tap.
pub const TAP_MAX_TRAVEL_UM: u64 = 3_000;

/// Shortest mean travel of a swipe.
pub const SWIPE_MIN_DISTANCE_UM: u64 = 10_000;

/// Slowest mean speed of a swipe.
pub const SWIPE_MIN_SPEED_UM_PER_SECOND: u64 = 50_000;

/// How long a horizontal swipe has to last unless it is a flick.
pub const HORIZONTAL_SWIPE_MIN_DURATION_US: u64 = 50_000;

/// How long a vertical swipe has to last unless it is a flick.
pub const VERTICAL_SWIPE_MIN_DURATION_US: u64 = 35_000;

/// Frames of motion a flick needs.
pub const FLICK_MIN_MOTION_FRAMES: u8 = 3;

/// Travel a flick needs.
pub const FLICK_MIN_DISTANCE_UM: u64 = 15_000;

/// Cross-axis travel every swipe may have.
pub const SWIPE_CROSS_AXIS_FLOOR_UM: u64 = 3_000;

/// Smallest change of spread of a pinch.
pub const PINCH_MIN_SPREAD_CHANGE_UM: u64 = 8_000;

/// Smallest change of spread of a pinch, in percent of the spread at landing.
pub const PINCH_MIN_SPREAD_PERCENT: u64 = 8;

// Real swipes keep the spread nearly constant while pinching hands drift the centroid past the
// spread change itself, so only two-finger pinches need the dominance gate.
pub const MOTION_DOMINANCE_NUMERATOR: u64 = 3;

pub const MOTION_DOMINANCE_DENOMINATOR: u64 = 2;

/// One normalized touch contact.
#[derive(Clone, Copy, Debug, PartialEq, Eq, Hash, Structural)]
pub struct TouchContact {
    /// Controller-assigned contact identifier.
    pub id: u8,
    /// Horizontal position from the left edge, in micrometres.
    pub x_um: u32,
    /// Vertical position from the top edge, in micrometres.
    pub y_um: u32,
}

/// One complete, normalized touchpad frame.
#[derive(Debug, PartialEq, Eq)]
pub struct TouchFrame {
    /// Monotonic frame time, in microseconds.
    pub timestamp_us: u64,
    /// Whether the physical switch beneath the surface is pressed.
    pub button: bool,
    contacts: Vec<TouchContact>,
}

/// What a [`TouchFrame`] says.
pub struct FrameModel {
    pub timestamp_us: nat,
    pub button: bool,
    pub contacts: Seq<TouchContact>,
}

/// Invalid normalized frame input.
#[derive(Clone, Copy, Debug, PartialEq, Eq, Structural)]
pub enum TouchFrameError {
    /// Two contacts in one frame carried the same controller id.
    DuplicateContactId,
}

impl TouchFrameError {
    /// The message shown to a user.
    pub fn message(self) -> (text: &'static str)
        ensures
            text@ == "touchpad frame contains a duplicate contact id"@,
    {
        "touchpad frame contains a duplicate contact id"
    }
}

/// Whether no two contacts share an id.
pub open spec fn distinct_ids(contacts: Seq<TouchContact>) -> bool {
    forall|i: int, j: int|
        0 <= i < j < contacts.len() ==> (#[trigger] contacts[i]).id != (#[trigger] contacts[j]).id
}

/// Whether the contacts are in strictly increasing id order.
pub open spec fn ascending_ids(contacts: Seq<TouchContact>) -> bool {
    forall|i: int, j: int|
        0 <= i < j < contacts.len() ==> (#[trigger] contacts[i]).id < (#[trigger] contacts[j]).id
}

impl View for TouchFrame {
    type V = FrameModel;

    closed spec fn view(&self) -> FrameModel {
        FrameModel {
            timestamp_us: self.timestamp_us as nat,
            button: self.button,
            contacts: self.contacts@,
        }
    }
}

impl TouchFrame {
    /// Builds a frame, sorting contacts by id and rejecting duplicate ids.
    pub fn new(timestamp_us: u64, button: bool, contacts: Vec<TouchContact>) -> (frame: Result<
        Self,
        TouchFrameError,
    >)
        ensures
            frame is Ok <==> distinct_ids(contacts@),
            frame matches Ok(f) ==> {
                &&& f@.timestamp_us == timestamp_us
                &&& f@.button == button
                &&& ascending_ids(f@.contacts)
                &&& f@.contacts.to_multiset() == contacts@.to_multiset()
            },
            frame matches Err(e) ==> e == TouchFrameError::DuplicateContactId,
    {
        let mut sorted: Vec<TouchContact> = Vec::new();
        let mut i: usize = 0;
        assert(contacts@.take(0) =~= sorted@);
        while i < contacts.len()
            invariant
                i <= contacts@.len(),
                distinct_ids(contacts@.take(i as int)),
                ascending_ids(sorted@),
                sorted@.len() == i,
                sorted@.to_multiset() == contacts@.take(i as int).to_multiset(),
                forall|k: int|
                    0 <= k < i ==> sorted@.contains(#[trigger] contacts@[k]),
                forall|k: int|
                    0 <= k < sorted@.len() ==> contacts@.take(i as int).contains(
                        #[trigger] sorted@[k],
                    ),
            decreases contacts@.len() - i,
        {
            let contact: TouchContact = contacts[i];
            let mut at: usize = 0;
            while at < sorted.len() && sorted[at].id < contact.id
                invariant
                    at <= sorted@.len(),
                    forall|k: int| 0 <= k < at ==> (#[trigger] sorted@[k]).id < contact.id,
                decreases sorted@.len() - at,
            {
                at = at + 1;
            }
            if at < sorted.len() && sorted[at].id == contact.id {
                proof {
                    let before = contacts@.take(i as int);
                    assert(before.contains(sorted@[at as int]));
                    let k = choose|k: int| 0 <= k < before.len() && before[k] == sorted@[at as int];
                    assert(contacts@[k].id == contacts@[i as int].id);
                }
                return Err(TouchFrameError::DuplicateContactId);
            }
            proof {
                lemma_insert_sorted(contacts@, i as int, sorted@, at as int);
            }
            sorted.insert(at, contact);
            i = i + 1;
        }
        assert(contacts@.take(i as int) =~= contacts@);
        Ok(TouchFrame { timestamp_us, button, contacts: sorted })
    }

    /// Contacts in stable finger-id order.
    #[must_use]
    pub fn contacts(&self) -> (contacts: &[TouchContact])
        ensures
            contacts@ == self@.contacts,
    {
        self.contacts.as_slice()
    }

    /// The frame time.
    pub(crate) fn time_us(&self) -> (at: u64)
        ensures
            at == self@.timestamp_us,
    {
        self.timestamp_us
    }

    /// The contacts as a vector.
    pub(crate) fn contact_list(&self) -> (contacts: &Vec<TouchContact>)
        ensures
            contacts@ == self@.contacts,
    {
        &self.contacts
    }
}

impl Clone for TouchFrame {
    fn clone(&self) -> (copy: Self)
        ensures
            copy@ == self@,
    {
        TouchFrame {
            timestamp_us: self.timestamp_us,
            button: self.button,
            contacts: copy_contacts(&self.contacts),
        }
    }
}

/// Placing the `i`-th contact before the first one with a greater id keeps the prefix sorted.
proof fn lemma_insert_sorted(
    contacts: Seq<TouchContact>,
    i: int,
    sorted: Seq<TouchContact>,
    at: int,
)
    requires
        0 <= i < contacts.len(),
        distinct_ids(contacts.take(i)),
        ascending_ids(sorted),
        sorted.len() == i,
        sorted.to_multiset() == contacts.take(i).to_multiset(),
        forall|k: int| 0 <= k < i ==> sorted.contains(#[trigger] contacts[k]),
        forall|k: int| 0 <= k < sorted.len() ==> contacts.take(i).contains(#[trigger] sorted[k]),
        0 <= at <= sorted.len(),
        forall|k: int| 0 <= k < at ==> (#[trigger] sorted[k]).id < contacts[i].id,
        at < sorted.len() ==> sorted[at].id > contacts[i].id,
    ensures
        distinct_ids(contacts.take(i + 1)),
        ascending_ids(sorted.insert(at, contacts[i])),
        sorted.insert(at, contacts[i]).to_multiset() == contacts.take(i + 1).to_multiset(),
        forall|k: int|
            0 <= k < i + 1 ==> sorted.insert(at, contacts[i]).contains(#[trigger] contacts[k]),
        forall|k: int|
            0 <= k < i + 1 ==> contacts.take(i + 1).contains(
                #[trigger] sorted.insert(at, contacts[i])[k],
            ),
{
    broadcast use vstd::seq_lib::group_to_multiset_ensures;

    let contact = contacts[i];
    let next = sorted.insert(at, contact);
    let before = contacts.take(i);
    let after = contacts.take(i + 1);
    assert(after =~= before.push(contact));
    assert(forall|k: int| 0 <= k < i ==> (#[trigger] sorted[k]).id != contact.id);
    assert forall|a: int, b: int| 0 <= a < b < after.len() implies (#[trigger] after[a]).id != (
    #[trigger] after[b]).id by {
        if b == i {
            assert(sorted.contains(contacts[a]));
            let k = choose|k: int| 0 <= k < sorted.len() && sorted[k] == contacts[a];
            assert(sorted[k].id != contact.id);
        } else {
            assert(before[a].id != before[b].id);
        }
    }
    vstd::seq_lib::to_multiset_insert(sorted, at, contact);
    assert forall|k: int| 0 <= k < i + 1 implies next.contains(#[trigger] contacts[k]) by {
        if k == i {
            assert(next[at] == contact);
        } else {
            let m = choose|m: int| 0 <= m < sorted.len() && sorted[m] == contacts[k];
            if m < at {
                assert(next[m] == contacts[k]);
            } else {
                assert(next[m + 1] == contacts[k]);
            }
        }
    }
    assert forall|k: int| 0 <= k < i + 1 implies after.contains(#[trigger] next[k]) by {
        if k == at {
            assert(after[i] == next[k]);
        } else {
            let m = if k < at {
                k
            } else {
                k - 1
            };
            assert(next[k] == sorted[m]);
            let n = choose|n: int| 0 <= n < before.len() && before[n] == sorted[m];
            assert(after[n] == next[k]);
        }
    }
}

/// Observable result of feeding one frame to [`TouchpadGestureRecognizer`].
#[derive(Clone, Copy, Debug, PartialEq, Eq, Structural)]
pub enum GestureRecognition {
    /// No gesture has committed yet.
    Pending,
    /// A custom gesture committed as its binding trigger and should fire once.
    Gesture(ButtonId),
    /// One frame of two-finger scrolling: the centroid's travel since the previous frame, in
    /// micrometres. The first `Scroll` of a stroke follows the activation travel, never includes
    /// it.
    Scroll {
        /// Centroid travel to the right, in micrometres.
        dx_um: i64,
        /// Centroid travel towards the bottom edge, in micrometres.
        dy_um: i64,
    },
}

/// One stroke in progress.
pub struct StrokeModel {
    /// Contacts of the frame the stroke landed with.
    pub starts: Seq<TouchContact>,
    /// Contacts of the latest frame.
    pub latest: Seq<TouchContact>,
    pub started_at_us: nat,
    pub last_at_us: nat,
    /// Spread of the starts.
    pub start_spread_um: nat,
    /// Farthest any finger has been from its start.
    pub max_contact_travel_um: nat,
    /// Frames since landing that kept the contacts, up to 255.
    pub motion_frames: nat,
    pub previous_centroid: (int, int),
    /// Whether the stroke has been claimed for scrolling.
    pub scrolling: bool,
}

/// Mean motion and spread of a stroke.
pub struct GeometryModel {
    pub dx: int,
    pub dy: int,
    pub spread_um: nat,
}

/// Whether one motion clearly outweighs another.
pub open spec fn outweighs(candidate: nat, other: nat) -> bool {
    candidate * MOTION_DOMINANCE_DENOMINATOR > other * MOTION_DOMINANCE_NUMERATOR
}

impl StrokeModel {
    /// The stroke a frame begins.
    pub open spec fn landing(frame: FrameModel) -> Self {
        StrokeModel {
            starts: frame.contacts,
            latest: frame.contacts,
            started_at_us: frame.timestamp_us,
            last_at_us: frame.timestamp_us,
            start_spread_um: geometry::spread_of(frame.contacts),
            max_contact_travel_um: 0,
            motion_frames: 0,
            previous_centroid: geometry::centroid_of(frame.contacts),
            scrolling: false,
        }
    }

    /// The stroke with `frame` as its latest frame.
    pub open spec fn recorded(self, frame: FrameModel) -> Self {
        StrokeModel {
            last_at_us: frame.timestamp_us,
            max_contact_travel_um: crate::math::greater(
                self.max_contact_travel_um as int,
                geometry::farthest_travel(self.starts, frame.contacts) as int,
            ) as nat,
            latest: frame.contacts,
            ..self
        }
    }

    /// Whether `frame` adds fingers to a stroke none of whose fingers has lifted.
    pub open spec fn landed_more(self, frame: FrameModel) -> bool {
        &&& self.latest.len() == self.starts.len()
        &&& frame.contacts.len() > self.latest.len()
        &&& geometry::ids_within(self.latest, frame.contacts)
    }

    /// Whether `frame` only lifts fingers.
    pub open spec fn lifted_some(self, frame: FrameModel) -> bool {
        &&& frame.contacts.len() < self.latest.len()
        &&& geometry::ids_within(frame.contacts, self.latest)
    }

    /// Mean travel of the remaining fingers, rounded toward zero, and their spread.
    pub open spec fn motion(self) -> GeometryModel {
        let sum = geometry::sum_travel(self.starts, self.latest);
        let count = self.latest.len() as int;
        GeometryModel {
            dx: crate::math::trunc_div(sum.0, count),
            dy: crate::math::trunc_div(sum.1, count),
            spread_um: geometry::spread_of(self.latest),
        }
    }

    /// Length of the mean travel.
    pub open spec fn centroid_distance(self) -> nat {
        geometry::length_of(self.motion().dx, self.motion().dy)
    }

    /// How much the spread differs from the one at landing.
    pub open spec fn spread_change(self) -> nat {
        crate::math::magnitude(self.motion().spread_um - self.start_spread_um)
    }

    /// Whether the stroke is a two-finger one with both fingers down.
    pub open spec fn two_fingers(self) -> bool {
        self.starts.len() == 2 && self.latest.len() == 2
    }

    /// Whether this frame scrolls: the stroke has scrolled before, or its travel passes the tap
    /// limit and outweighs the change of spread.
    pub open spec fn scrolls(self) -> bool {
        &&& self.two_fingers()
        &&& self.scrolling || (self.centroid_distance() > TAP_MAX_TRAVEL_UM && outweighs(
            self.centroid_distance(),
            self.spread_change(),
        ))
    }

    /// The stroke after the scroll decision on its latest frame.
    pub open spec fn after_scroll_decision(self) -> Self {
        if self.two_fingers() {
            StrokeModel {
                previous_centroid: geometry::centroid_of(self.latest),
                scrolling: self.scrolling || self.scrolls(),
                ..self
            }
        } else {
            self
        }
    }

    /// Smallest change of spread that makes this stroke a pinch.
    pub open spec fn pinch_threshold(self) -> int {
        crate::math::greater(
            PINCH_MIN_SPREAD_CHANGE_UM as int,
            self.start_spread_um as int * PINCH_MIN_SPREAD_PERCENT as int / 100,
        )
    }

    /// Whether the stroke is a pinch.
    pub open spec fn pinches(self) -> bool {
        &&& !self.scrolling
        &&& self.latest.len() == self.starts.len()
        &&& self.starts.len() == 2 || self.starts.len() == 4
        &&& self.spread_change() >= self.pinch_threshold()
        &&& self.starts.len() == 4 || outweighs(self.spread_change(), self.centroid_distance())
    }

    /// The trigger of a pinch.
    pub open spec fn pinch(self) -> ButtonId {
        let outward = self.motion().spread_um >= self.start_spread_um;
        if self.starts.len() == 2 {
            if outward {
                ButtonId::TouchpadTwoFingerPinchOut
            } else {
                ButtonId::TouchpadTwoFingerPinchIn
            }
        } else {
            if outward {
                ButtonId::TouchpadFourFingerPinchOut
            } else {
                ButtonId::TouchpadFourFingerPinchIn
            }
        }
    }

    /// How long the stroke has lasted.
    pub open spec fn duration(self) -> int {
        crate::math::greater(self.last_at_us - self.started_at_us, 0)
    }

    /// Whether a mean travel of `dx`, `dy` makes the stroke a swipe.
    pub open spec fn swipes(self, dx: int, dy: int) -> bool {
        let horizontal = crate::math::magnitude(dx) > crate::math::magnitude(dy);
        let dominant = if horizontal {
            crate::math::magnitude(dx)
        } else {
            crate::math::magnitude(dy)
        };
        let cross = if horizontal {
            crate::math::magnitude(dy)
        } else {
            crate::math::magnitude(dx)
        };
        let lasted = self.duration() >= if horizontal {
            HORIZONTAL_SWIPE_MIN_DURATION_US
        } else {
            VERTICAL_SWIPE_MIN_DURATION_US
        };
        let flicked = self.motion_frames >= FLICK_MIN_MOTION_FRAMES && dominant
            >= FLICK_MIN_DISTANCE_UM;
        &&& dominant >= SWIPE_MIN_DISTANCE_UM
        &&& cross <= crate::math::greater(
            SWIPE_CROSS_AXIS_FLOOR_UM as int,
            dominant as int * 40 / 100,
        )
        &&& lasted || flicked
        &&& dominant * 1_000_000 >= SWIPE_MIN_SPEED_UM_PER_SECOND * self.duration()
    }

    /// The trigger of a swipe along a mean travel of `dx`, `dy`.
    pub open spec fn swipe(self, dx: int, dy: int) -> ButtonId {
        let three = self.starts.len() == 3;
        if crate::math::magnitude(dx) > crate::math::magnitude(dy) {
            if dx > 0 {
                if three {
                    ButtonId::TouchpadThreeFingerSwipeRight
                } else {
                    ButtonId::TouchpadFourFingerSwipeRight
                }
            } else {
                if three {
                    ButtonId::TouchpadThreeFingerSwipeLeft
                } else {
                    ButtonId::TouchpadFourFingerSwipeLeft
                }
            }
        } else {
            if dy > 0 {
                if three {
                    ButtonId::TouchpadThreeFingerSwipeDown
                } else {
                    ButtonId::TouchpadFourFingerSwipeDown
                }
            } else {
                if three {
                    ButtonId::TouchpadThreeFingerSwipeUp
                } else {
                    ButtonId::TouchpadFourFingerSwipeUp
                }
            }
        }
    }

    /// The gesture the stroke has become, if any.
    pub open spec fn classified(self) -> Option<ButtonId> {
        if self.latest.len() < 2 {
            None
        } else if self.pinches() {
            Some(self.pinch())
        } else if (self.starts.len() == 3 || self.starts.len() == 4) && self.swipes(
            self.motion().dx,
            self.motion().dy,
        ) {
            Some(self.swipe(self.motion().dx, self.motion().dy))
        } else {
            None
        }
    }

    /// Whether lifting now makes the stroke a tap.
    pub open spec fn is_tap(self) -> bool {
        self.duration() <= TAP_MAX_DURATION_US && self.max_contact_travel_um <= TAP_MAX_TRAVEL_UM
    }

    /// The trigger of a tap.
    pub open spec fn tap(self) -> Option<ButtonId> {
        if self.starts.len() == 2 {
            Some(ButtonId::TouchpadTwoFingerTap)
        } else if self.starts.len() == 3 {
            Some(ButtonId::TouchpadThreeFingerTap)
        } else if self.starts.len() == 4 {
            Some(ButtonId::TouchpadFourFingerTap)
        } else {
            None
        }
    }

    /// What every stroke in progress satisfies: its previous centroid is that of its latest
    /// frame while it can scroll.
    pub open spec fn valid(self) -> bool {
        &&& self.consistent()
        &&& self.two_fingers() ==> self.previous_centroid == geometry::centroid_of(self.latest)
    }

    /// Whether the recorded travel covers the latest frame.
    pub open spec fn travel_recorded(self) -> bool {
        self.max_contact_travel_um >= geometry::farthest_travel(self.starts, self.latest)
    }

    /// What a stroke satisfies before the scroll decision on its latest frame too.
    pub open spec fn consistent(self) -> bool {
        &&& 2 <= self.starts.len() <= 4
        &&& 1 <= self.latest.len() <= self.starts.len()
        &&& geometry::ids_within(self.latest, self.starts)
        &&& self.start_spread_um == geometry::spread_of(self.starts)
        &&& self.motion_frames <= 255
        &&& self.scrolling ==> self.starts.len() == 2 && self.max_contact_travel_um
            > TAP_MAX_TRAVEL_UM
        &&& 0 <= self.previous_centroid.0 <= u32::MAX
        &&& 0 <= self.previous_centroid.1 <= u32::MAX
    }

    /// What one frame makes of the stroke.
    #[verifier::opaque]
    pub open spec fn step(self, frame: FrameModel) -> (RecognizerModel, GestureRecognition) {
        if geometry::same_ids(frame.contacts, self.latest) {
            let moved = StrokeModel {
                motion_frames: crate::math::lesser(self.motion_frames as int + 1, 255) as nat,
                ..self.recorded(frame)
            };
            let decided = moved.after_scroll_decision();
            if moved.scrolls() {
                let centre = geometry::centroid_of(moved.latest);
                (
                    RecognizerModel::Tracking(decided),
                    GestureRecognition::Scroll {
                        dx_um: (centre.0 - moved.previous_centroid.0) as i64,
                        dy_um: (centre.1 - moved.previous_centroid.1) as i64,
                    },
                )
            } else {
                match decided.classified() {
                    Some(trigger) => (
                        RecognizerModel::Committed,
                        GestureRecognition::Gesture(trigger),
                    ),
                    None => (RecognizerModel::Tracking(decided), GestureRecognition::Pending),
                }
            }
        } else if self.landed_more(frame) {
            (
                RecognizerModel::Tracking(StrokeModel::landing(frame)),
                GestureRecognition::Pending,
            )
        } else if self.lifted_some(frame) {
            (RecognizerModel::Tracking(self.recorded(frame)), GestureRecognition::Pending)
        } else {
            (RecognizerModel::Cancelled, GestureRecognition::Pending)
        }
    }
}

/// Where a recognizer stands.
pub enum RecognizerModel {
    /// No fingers down that could make a gesture.
    Idle,
    /// A stroke is in progress.
    Tracking(StrokeModel),
    /// The stroke has committed its gesture.
    Committed,
    /// The stroke cannot become a gesture any more.
    Cancelled,
}

impl RecognizerModel {
    /// What every recognizer satisfies.
    pub open spec fn valid(self) -> bool {
        self matches RecognizerModel::Tracking(stroke) ==> stroke.valid()
    }

    /// The state after one frame, and what the frame is recognized as.
    pub open spec fn step(self, frame: FrameModel) -> (RecognizerModel, GestureRecognition) {
        if frame.contacts.len() == 0 {
            (RecognizerModel::Idle, GestureRecognition::Pending)
        } else if frame.contacts.len() > 4 {
            (RecognizerModel::Cancelled, GestureRecognition::Pending)
        } else {
            match self {
                RecognizerModel::Idle => if frame.contacts.len() >= 2 {
                    (
                        RecognizerModel::Tracking(StrokeModel::landing(frame)),
                        GestureRecognition::Pending,
                    )
                } else {
                    (RecognizerModel::Idle, GestureRecognition::Pending)
                },
                RecognizerModel::Tracking(stroke) => stroke.step(frame),
                _ => (self, GestureRecognition::Pending),
            }
        }
    }

    /// The tap that ending the stroke now yields.
    pub open spec fn tap_on_end(self) -> Option<ButtonId> {
        match self {
            RecognizerModel::Tracking(stroke) => if stroke.is_tap() {
                stroke.tap()
            } else {
                None
            },
            _ => None,
        }
    }

    /// The state after a whole stream of frames.
    pub open spec fn run(self, frames: Seq<FrameModel>) -> RecognizerModel
        decreases frames.len(),
    {
        if frames.len() == 0 {
            self
        } else {
            self.run(frames.drop_last()).step(frames.last()).0
        }
    }
}

/// Pure recognizer for one touchpad stream.
#[derive(Debug)]
pub struct TouchpadGestureRecognizer {
    state: StrokeState,
}

#[derive(Debug)]
enum StrokeState {
    Idle,
    Tracking(Stroke),
    Committed,
    Cancelled,
}

#[derive(Debug)]
struct Stroke {
    starts: Vec<TouchContact>,
    latest: Vec<TouchContact>,
    started_at_us: u64,
    last_at_us: u64,
    start_spread_um: u64,
    max_contact_travel_um: u64,
    motion_frames: u8,
    previous_centroid: Point,
    scrolling: bool,
}

#[derive(Clone, Copy, Debug, PartialEq, Eq, Structural)]
enum ContactUpdate {
    Stable,
    Rebased,
}

impl View for Stroke {
    type V = StrokeModel;

    closed spec fn view(&self) -> StrokeModel {
        StrokeModel {
            starts: self.starts@,
            latest: self.latest@,
            started_at_us: self.started_at_us as nat,
            last_at_us: self.last_at_us as nat,
            start_spread_um: self.start_spread_um as nat,
            max_contact_travel_um: self.max_contact_travel_um as nat,
            motion_frames: self.motion_frames as nat,
            previous_centroid: (self.previous_centroid.x as int, self.previous_centroid.y as int),
            scrolling: self.scrolling,
        }
    }
}

impl View for StrokeState {
    type V = RecognizerModel;

    closed spec fn view(&self) -> RecognizerModel {
        match self {
            StrokeState::Idle => RecognizerModel::Idle,
            StrokeState::Tracking(stroke) => RecognizerModel::Tracking(stroke@),
            StrokeState::Committed => RecognizerModel::Committed,
            StrokeState::Cancelled => RecognizerModel::Cancelled,
        }
    }
}

impl View for TouchpadGestureRecognizer {
    type V = RecognizerModel;

    closed spec fn view(&self) -> RecognizerModel {
        self.state@
    }
}

impl Default for TouchpadGestureRecognizer {
    fn default() -> (recognizer: Self)
        ensures
            recognizer@ == RecognizerModel::Idle,
            recognizer@.valid(),
    {
        TouchpadGestureRecognizer { state: StrokeState::Idle }
    }
}

impl TouchpadGestureRecognizer {
    #[verifier::type_invariant]
    spec fn inv(self) -> bool {
        self.state.inv()
    }

    /// Feeds one complete frame. A gesture is returned at most once per stroke.
    pub fn update(&mut self, frame: &TouchFrame) -> (recognition: GestureRecognition)
        ensures
            (final(self)@, recognition) == old(self)@.step(frame@),
            final(self)@.valid(),
    {
        proof {
            use_type_invariant(&*self);
        }
        let count: usize = frame.contacts.len();
        if count == 0 {
            let _ = self.end();
            return GestureRecognition::Pending;
        }
        if count > 4 {
            self.state = StrokeState::Cancelled;
            return GestureRecognition::Pending;
        }
        let mut state: StrokeState = StrokeState::Idle;
        core::mem::swap(&mut state, &mut self.state);
        let (next, recognition) = match state {
            StrokeState::Idle => {
                if count >= 2 {
                    (StrokeState::Tracking(Stroke::new(frame)), GestureRecognition::Pending)
                } else {
                    (StrokeState::Idle, GestureRecognition::Pending)
                }
            },
            StrokeState::Tracking(stroke) => stroke.update(frame),
            StrokeState::Committed => (StrokeState::Committed, GestureRecognition::Pending),
            StrokeState::Cancelled => (StrokeState::Cancelled, GestureRecognition::Pending),
        };
        self.state = next;
        recognition
    }

    /// Ends the current stroke, returning a tap when it stayed short and still.
    pub fn end(&mut self) -> (tap: Option<ButtonId>)
        ensures
            tap == old(self)@.tap_on_end(),
            final(self)@ == RecognizerModel::Idle,
            final(self)@.valid(),
    {
        let mut state: StrokeState = StrokeState::Idle;
        core::mem::swap(&mut state, &mut self.state);
        match state {
            StrokeState::Tracking(stroke) => {
                if stroke.is_tap() {
                    stroke.tap_gesture()
                } else {
                    None
                }
            },
            StrokeState::Idle | StrokeState::Committed | StrokeState::Cancelled => None,
        }
    }

    /// Cancels the current stroke without producing a tap.
    pub fn cancel(&mut self)
        ensures
            final(self)@ == RecognizerModel::Cancelled,
            final(self)@.valid(),
    {
        self.state = StrokeState::Cancelled;
    }
}

impl StrokeState {
    spec fn inv(self) -> bool {
        self matches StrokeState::Tracking(stroke) ==> stroke.inv()
    }
}

#[derive(Clone, Copy)]
struct Geometry {
    dx: i64,
    dy: i64,
    spread_um: u64,
}

impl Stroke {
    spec fn inv(self) -> bool {
        self@.valid() && self.bounded()
    }

    spec fn bounded(self) -> bool {
        &&& self@.consistent()
        &&& self.start_spread_um <= 0xffff_ffff
        &&& self.max_contact_travel_um <= 0xffff_ffff
    }

    fn new(frame: &TouchFrame) -> (stroke: Self)
        requires
            2 <= frame@.contacts.len() <= 4,
        ensures
            stroke@ == StrokeModel::landing(frame@),
            stroke.inv(),
    {
        proof {
            assert forall|i: int| 0 <= i < frame@.contacts.len() implies geometry::contact_with(
                frame@.contacts,
                (#[trigger] frame@.contacts[i]).id,
            ) is Some by {
                geometry::lemma_present(frame@.contacts, i);
            }
        }
        let centre: Point = centroid(&frame.contacts);
        Stroke {
            starts: copy_contacts(&frame.contacts),
            latest: copy_contacts(&frame.contacts),
            started_at_us: frame.timestamp_us,
            last_at_us: frame.timestamp_us,
            start_spread_um: spread(&frame.contacts, centre),
            max_contact_travel_um: 0,
            motion_frames: 0,
            previous_centroid: centre,
            scrolling: false,
        }
    }

    /// One frame of a stroke in progress.
    fn update(self, frame: &TouchFrame) -> (outcome: (StrokeState, GestureRecognition))
        requires
            self.inv(),
            1 <= frame@.contacts.len() <= 4,
        ensures
            outcome.0.inv(),
            (outcome.0@, outcome.1) == self@.step(frame@),
    {
        proof {
            reveal(StrokeModel::step);
        }
        let mut stroke: Stroke = self;
        match stroke.advance(frame) {
            None => (StrokeState::Cancelled, GestureRecognition::Pending),
            Some(ContactUpdate::Rebased) => (
                StrokeState::Tracking(stroke),
                GestureRecognition::Pending,
            ),
            Some(ContactUpdate::Stable) => {
                if let Some((dx_um, dy_um)) = stroke.scroll_delta() {
                    return (
                        StrokeState::Tracking(stroke),
                        GestureRecognition::Scroll { dx_um, dy_um },
                    );
                }
                match stroke.classify() {
                    Some(trigger) => (StrokeState::Committed, GestureRecognition::Gesture(trigger)),
                    None => (StrokeState::Tracking(stroke), GestureRecognition::Pending),
                }
            },
        }
    }

    fn advance(&mut self, frame: &TouchFrame) -> (update: Option<ContactUpdate>)
        requires
            old(self).inv(),
            1 <= frame@.contacts.len() <= 4,
        ensures
            update is Some ==> final(self).bounded(),
            update == Some(ContactUpdate::Rebased) ==> final(self).inv(),
            update == (if geometry::same_ids(frame@.contacts, old(self)@.latest) {
                Some(ContactUpdate::Stable)
            } else if old(self)@.landed_more(frame@) || old(self)@.lifted_some(frame@) {
                Some(ContactUpdate::Rebased)
            } else {
                None
            }),
            update == Some(ContactUpdate::Stable) ==> final(self)@ == (StrokeModel {
                motion_frames: crate::math::lesser(old(self)@.motion_frames as int + 1, 255) as nat,
                ..old(self)@.recorded(frame@)
            }),
            update == Some(ContactUpdate::Rebased) ==> final(self)@ == (if old(self)@.landed_more(
                frame@,
            ) {
                StrokeModel::landing(frame@)
            } else {
                old(self)@.recorded(frame@)
            }),
    {
        if contact_ids_equal(&frame.contacts, &self.latest) {
            self.record(frame);
            self.motion_frames = self.motion_frames.saturating_add(1);
            return Some(ContactUpdate::Stable);
        }
        let fingers_landed: bool = self.latest.len() == self.starts.len() && frame.contacts.len()
            > self.latest.len() && has_all(&self.latest, &frame.contacts);
        if fingers_landed {
            *self = Stroke::new(frame);
            return Some(ContactUpdate::Rebased);
        }
        let fingers_lifted: bool = frame.contacts.len() < self.latest.len() && has_all(
            &frame.contacts,
            &self.latest,
        );
        if !fingers_lifted {
            return None;
        }
        self.record(frame);
        Some(ContactUpdate::Rebased)
    }

    fn record(&mut self, frame: &TouchFrame)
        requires
            old(self).bounded(),
            1 <= frame@.contacts.len() <= old(self)@.latest.len(),
            geometry::same_ids(frame@.contacts, old(self)@.latest) || geometry::ids_within(
                frame@.contacts,
                old(self)@.latest,
            ),
        ensures
            final(self)@ == old(self)@.recorded(frame@),
            final(self).bounded(),
    {
        proof {
            geometry::lemma_ids_within(frame@.contacts, self@.latest, self@.starts);
        }
        self.last_at_us = frame.timestamp_us;
        let travel: u64 = max_travel(&self.starts, &frame.contacts);
        if travel > self.max_contact_travel_um {
            self.max_contact_travel_um = travel;
        }
        self.latest = copy_contacts(&frame.contacts);
    }

    /// Streams the centroid delta of one frame once this stroke scrolls.
    ///
    /// Scrolling claims the stroke when centroid travel passes the tap limit and dominates the
    /// spread change. The claim is sticky: a stroke that scrolled never becomes a pinch.
    fn scroll_delta(&mut self) -> (delta: Option<(i64, i64)>)
        requires
            old(self).bounded(),
            old(self)@.travel_recorded(),
        ensures
            final(self).inv(),
            final(self)@ == old(self)@.after_scroll_decision(),
            delta is Some <==> old(self)@.scrolls(),
            delta matches Some(d) ==> {
                let centre = geometry::centroid_of(old(self)@.latest);
                &&& d.0 == centre.0 - old(self)@.previous_centroid.0
                &&& d.1 == centre.1 - old(self)@.previous_centroid.1
            },
    {
        if self.starts.len() != 2 || self.latest.len() != 2 {
            return None;
        }
        let current: Point = centroid(&self.latest);
        if !self.scrolling {
            let geometry: Geometry = self.current_geometry();
            let centroid_distance: u64 = vector_length(geometry.dx, geometry.dy);
            let spread_change: u64 = difference(geometry.spread_um, self.start_spread_um);
            if centroid_distance <= TAP_MAX_TRAVEL_UM || !dominates(
                centroid_distance,
                spread_change,
            ) {
                self.previous_centroid = current;
                return None;
            }
            proof {
                laws::lemma_scrolling_travels(self@);
            }
            self.scrolling = true;
        }
        let delta: (i64, i64) = (
            current.x - self.previous_centroid.x,
            current.y - self.previous_centroid.y,
        );
        self.previous_centroid = current;
        Some(delta)
    }

    fn classify(&self) -> (trigger: Option<ButtonId>)
        requires
            self.bounded(),
        ensures
            trigger == self@.classified(),
    {
        if self.latest.len() < 2 {
            return None;
        }
        let current: Geometry = self.current_geometry();
        let centroid_distance: u64 = vector_length(current.dx, current.dy);
        let spread_change: u64 = difference(current.spread_um, self.start_spread_um);
        let finger_count: usize = self.starts.len();
        if !self.scrolling && self.latest.len() == finger_count && (finger_count == 2
            || finger_count == 4) && spread_change >= self.pinch_threshold() && (finger_count == 4
            || dominates(spread_change, centroid_distance)) {
            return Some(self.pinch_gesture(current.spread_um >= self.start_spread_um));
        }
        if finger_count == 3 || finger_count == 4 {
            self.swipe_gesture(current.dx, current.dy)
        } else {
            None
        }
    }

    fn current_geometry(&self) -> (geometry: Geometry)
        requires
            self.bounded(),
        ensures
            geometry.dx == self@.motion().dx,
            geometry.dy == self@.motion().dy,
            geometry.spread_um == self@.motion().spread_um,
            geometry.spread_um <= 0xffff_ffff,
            -0x4_0000_0000 <= geometry.dx <= 0x4_0000_0000,
            -0x4_0000_0000 <= geometry.dy <= 0x4_0000_0000,
    {
        let count: i64 = self.latest.len() as i64;
        let (dx, dy): (i64, i64) = total_travel(&self.starts, &self.latest);
        let centre: Point = centroid(&self.latest);
        Geometry {
            dx: divide(dx, count),
            dy: divide(dy, count),
            spread_um: spread(&self.latest, centre),
        }
    }

    fn pinch_threshold(&self) -> (threshold: u64)
        requires
            self.bounded(),
        ensures
            threshold == self@.pinch_threshold(),
    {
        let relative: u64 = saturating_product(self.start_spread_um, PINCH_MIN_SPREAD_PERCENT)
            / 100;
        if relative > PINCH_MIN_SPREAD_CHANGE_UM {
            relative
        } else {
            PINCH_MIN_SPREAD_CHANGE_UM
        }
    }

    fn pinch_gesture(&self, outward: bool) -> (trigger: ButtonId)
        requires
            self.bounded(),
            outward == (self@.motion().spread_um >= self@.start_spread_um),
        ensures
            trigger == self@.pinch(),
    {
        if self.starts.len() == 2 {
            if outward {
                ButtonId::TouchpadTwoFingerPinchOut
            } else {
                ButtonId::TouchpadTwoFingerPinchIn
            }
        } else if outward {
            ButtonId::TouchpadFourFingerPinchOut
        } else {
            ButtonId::TouchpadFourFingerPinchIn
        }
    }

    fn swipe_gesture(&self, dx: i64, dy: i64) -> (trigger: Option<ButtonId>)
        requires
            self.bounded(),
            self@.starts.len() == 3 || self@.starts.len() == 4,
            -0x4_0000_0000 <= dx <= 0x4_0000_0000,
            -0x4_0000_0000 <= dy <= 0x4_0000_0000,
        ensures
            trigger == (if self@.swipes(dx as int, dy as int) {
                Some(self@.swipe(dx as int, dy as int))
            } else {
                None
            }),
    {
        let abs_x: u64 = unsigned_magnitude(dx);
        let abs_y: u64 = unsigned_magnitude(dy);
        let horizontal: bool = abs_x > abs_y;
        let (dominant, cross, min_duration): (u64, u64, u64) = if horizontal {
            (abs_x, abs_y, HORIZONTAL_SWIPE_MIN_DURATION_US)
        } else {
            (abs_y, abs_x, VERTICAL_SWIPE_MIN_DURATION_US)
        };
        let duration: u64 = self.last_at_us.saturating_sub(self.started_at_us);
        let relative: u64 = saturating_product(dominant, 40) / 100;
        let cross_limit: u64 = if relative > SWIPE_CROSS_AXIS_FLOOR_UM {
            relative
        } else {
            SWIPE_CROSS_AXIS_FLOOR_UM
        };
        let duration_met: bool = duration >= min_duration;
        let flick: bool = self.motion_frames >= FLICK_MIN_MOTION_FRAMES && dominant
            >= FLICK_MIN_DISTANCE_UM;
        if dominant < SWIPE_MIN_DISTANCE_UM || cross > cross_limit || !(duration_met || flick)
            || saturating_product(dominant, 1_000_000) < saturating_product(
            SWIPE_MIN_SPEED_UM_PER_SECOND,
            duration,
        ) {
            return None;
        }
        let three: bool = self.starts.len() == 3;
        Some(
            if horizontal {
                if dx > 0 {
                    if three {
                        ButtonId::TouchpadThreeFingerSwipeRight
                    } else {
                        ButtonId::TouchpadFourFingerSwipeRight
                    }
                } else if three {
                    ButtonId::TouchpadThreeFingerSwipeLeft
                } else {
                    ButtonId::TouchpadFourFingerSwipeLeft
                }
            } else if dy > 0 {
                if three {
                    ButtonId::TouchpadThreeFingerSwipeDown
                } else {
                    ButtonId::TouchpadFourFingerSwipeDown
                }
            } else if three {
                ButtonId::TouchpadThreeFingerSwipeUp
            } else {
                ButtonId::TouchpadFourFingerSwipeUp
            },
        )
    }

    fn is_tap(&self) -> (tap: bool)
        ensures
            tap == self@.is_tap(),
    {
        self.last_at_us.saturating_sub(self.started_at_us) <= TAP_MAX_DURATION_US
            && self.max_contact_travel_um <= TAP_MAX_TRAVEL_UM
    }

    fn tap_gesture(&self) -> (trigger: Option<ButtonId>)
        ensures
            trigger == self@.tap(),
    {
        match self.starts.len() {
            2 => Some(ButtonId::TouchpadTwoFingerTap),
            3 => Some(ButtonId::TouchpadThreeFingerTap),
            4 => Some(ButtonId::TouchpadFourFingerTap),
            _ => None,
        }
    }
}

/// Copies a list of contacts.
pub(crate) fn copy_contacts(contacts: &Vec<TouchContact>) -> (copy: Vec<TouchContact>)
    ensures
        copy@ == contacts@,
{
    let mut copy: Vec<TouchContact> = Vec::new();
    let mut i: usize = 0;
    while i < contacts.len()
        invariant
            i <= contacts@.len(),
            copy@ == contacts@.take(i as int),
        decreases contacts@.len() - i,
    {
        copy.push(contacts[i]);
        i = i + 1;
    }
    copy
}

/// How far apart two values are.
fn difference(a: u64, b: u64) -> (apart: u64)
    ensures
        apart == crate::math::magnitude(a - b),
{
    if a >= b {
        a - b
    } else {
        b - a
    }
}

fn dominates(candidate: u64, other: u64) -> (clear: bool)
    requires
        candidate <= 0xffff_ffff,
        other <= 0xffff_ffff,
    ensures
        clear == outweighs(candidate as nat, other as nat),
{
    saturating_product(candidate, MOTION_DOMINANCE_DENOMINATOR) > saturating_product(
        other,
        MOTION_DOMINANCE_NUMERATOR,
    )
}

} // verus!
