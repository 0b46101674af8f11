//! Turns raw touch reports into gestures.
//!
//! A frame with more than two fingers arrives as several [`DualXyData`] events sharing a timestamp,
//! the last carrying `end_of_frame`, and a resting hand re-sends the whole group at report rate.
//! [`LogicalFrameAssembler`] folds both behaviours away, so that the classifier sees one frame per
//! distinct physical frame. [`TouchpadCaptureState`] is the two glued together.
use vstd::prelude::*;

use crate::touchpad::classify::{TouchpadClassifier, TAP_MAX_MS};
use crate::touchpad::frame::{copy_contacts, TouchContact, TouchFrame};
use crate::touchpad::gesture::TouchpadGestureId;

verus! {

/// One touch slot of a raw report.
#[derive(Clone, Copy, Debug, PartialEq, Eq, Structural)]
pub struct TouchPoint {
    /// Zero for a finger.
    pub contact_type: u8,
    /// One while touching, zero while hovering.
    pub contact_status: u8,
    pub x: u16,
    pub y: u16,
    pub finger_id: u8,
    pub z: u8,
    pub area: u8,
}

impl TouchPoint {
    /// Whether the slot holds a finger that touches the pad.
    pub open spec fn touches(self) -> bool {
        self.contact_type == 0 && self.contact_status == 1
    }

    /// The contact the slot reports.
    pub open spec fn contact(self) -> TouchContact {
        TouchContact { finger_id: self.finger_id, x: self.x, y: self.y }
    }
}

/// One raw report: two touch slots of a frame.
#[derive(Clone, Copy, Debug, PartialEq, Eq, Structural)]
pub struct DualXyData {
    pub timestamp: u16,
    pub touch1: TouchPoint,
    pub touch2: TouchPoint,
    pub button: bool,
    /// Whether this is the frame's last report.
    pub end_of_frame: bool,
    pub finger_count: u8,
}

/// Whether a pending group still accepts more events.
pub open spec fn is_open(parts: Seq<DualXyData>) -> bool {
    parts.len() == 0 || !parts.last().end_of_frame
}

/// Whether a pending group still accepts more events: it runs until the part that carries
/// `end_of_frame`.
pub fn group_open(parts: &[DualXyData]) -> (open: bool)
    ensures
        open == is_open(parts@),
{
    parts.len() == 0 || !parts[parts.len() - 1].end_of_frame
}

/// Whether two raw events repeat the same contact state, up to the running timestamp.
pub fn same_contact(a: &DualXyData, b: &DualXyData) -> (same: bool)
    ensures
        same == (*b == DualXyData { timestamp: b.timestamp, ..*a }),
{
    a.touch1 == b.touch1 && a.touch2 == b.touch2 && a.button == b.button && a.finger_count
        == b.finger_count && a.end_of_frame == b.end_of_frame
}

/// The touching fingers one report carries, in slot order.
pub open spec fn part_contacts(part: DualXyData) -> Seq<TouchContact> {
    if part.touch1.touches() && part.touch2.touches() {
        seq![part.touch1.contact(), part.touch2.contact()]
    } else if part.touch1.touches() {
        seq![part.touch1.contact()]
    } else if part.touch2.touches() {
        seq![part.touch2.contact()]
    } else {
        Seq::empty()
    }
}

/// The touching fingers a group of reports carries, in report order.
pub open spec fn group_contacts(parts: Seq<DualXyData>) -> Seq<TouchContact>
    decreases parts.len(),
{
    if parts.len() == 0 {
        Seq::empty()
    } else {
        group_contacts(parts.drop_last()) + part_contacts(parts.last())
    }
}

/// A logical frame as the assembler hands it over.
#[verifier::ext_equal]
pub struct AssembledFrame {
    pub timestamp: u16,
    pub contacts: Seq<TouchContact>,
}

/// Where an assembler stands.
#[verifier::ext_equal]
pub struct AssemblerModel {
    /// Timestamp of the pending group.
    pub pending_ts: Option<u16>,
    /// Reports of the pending group.
    pub pending: Seq<DualXyData>,
    /// Contacts of the last frame handed over.
    pub last: Option<Seq<TouchContact>>,
}

impl AssemblerModel {
    /// Nothing seen yet.
    pub open spec fn empty() -> Self {
        AssemblerModel { pending_ts: None, pending: Seq::empty(), last: None }
    }

    /// Whether an event proves the pending group finished: its timestamp moved on, or the group
    /// already ended.
    pub open spec fn completed_by(self, event: DualXyData) -> bool {
        self.pending.len() > 0 && (self.pending_ts != Some(event.timestamp) || !is_open(
            self.pending,
        ))
    }

    /// Whether the pending group holds a frame that the one before it does not repeat.
    pub open spec fn holds_news(self) -> bool {
        self.pending.len() > 0 && self.last != Some(group_contacts(self.pending))
    }

    /// The frame the pending group is handed over as.
    pub open spec fn pending_frame(self) -> AssembledFrame {
        AssembledFrame {
            timestamp: match self.pending_ts {
                Some(ts) => ts,
                None => 0,
            },
            contacts: group_contacts(self.pending),
        }
    }

    /// The assembler with its pending group handed over, and the frame that was; a group that
    /// repeats the frame before it is dropped whole.
    pub open spec fn committed(self) -> (AssemblerModel, Option<AssembledFrame>) {
        if self.holds_news() {
            (
                AssemblerModel {
                    pending: Seq::empty(),
                    last: Some(group_contacts(self.pending)),
                    ..self
                },
                Some(self.pending_frame()),
            )
        } else {
            (AssemblerModel { pending: Seq::empty(), ..self }, None)
        }
    }

    /// The assembler after one event, and the frame the event proved finished.
    pub open spec fn pushed(self, event: DualXyData) -> (AssemblerModel, Option<AssembledFrame>) {
        let (before, frame) = if self.completed_by(event) {
            self.committed()
        } else {
            (self, None)
        };
        (
            AssemblerModel {
                pending_ts: Some(event.timestamp),
                pending: before.pending.push(event),
                ..before
            },
            frame,
        )
    }

    /// The assembler after a stream of events.
    pub open spec fn fed(self, events: Seq<DualXyData>) -> AssemblerModel
        decreases events.len(),
    {
        if events.len() == 0 {
            self
        } else {
            self.fed(events.drop_last()).pushed(events.last()).0
        }
    }

    /// The frames a stream of events yields.
    pub open spec fn frames(self, events: Seq<DualXyData>) -> Seq<AssembledFrame>
        decreases events.len(),
    {
        if events.len() == 0 {
            Seq::empty()
        } else {
            let rest = self.frames(events.drop_last());
            match self.fed(events.drop_last()).pushed(events.last()).1 {
                Some(frame) => rest.push(frame),
                None => rest,
            }
        }
    }
}

/// What an assembler is given: a raw event, or the request to hand over what is pending.
pub enum AssemblerInput {
    Event(DualXyData),
    Flush,
}

impl AssemblerModel {
    /// The assembler after one input, and the frame handed over.
    pub open spec fn given(self, input: AssemblerInput) -> (
        AssemblerModel,
        Option<AssembledFrame>,
    ) {
        match input {
            AssemblerInput::Event(event) => self.pushed(event),
            AssemblerInput::Flush => self.committed(),
        }
    }

    /// The assembler after a stream of events and flushes.
    pub open spec fn driven(self, inputs: Seq<AssemblerInput>) -> AssemblerModel
        decreases inputs.len(),
    {
        if inputs.len() == 0 {
            self
        } else {
            self.driven(inputs.drop_last()).given(inputs.last()).0
        }
    }

    /// The frames a stream of events and flushes yields.
    pub open spec fn frames_driven(self, inputs: Seq<AssemblerInput>) -> Seq<AssembledFrame>
        decreases inputs.len(),
    {
        if inputs.len() == 0 {
            Seq::empty()
        } else {
            let rest = self.frames_driven(inputs.drop_last());
            match self.driven(inputs.drop_last()).given(inputs.last()).1 {
                Some(frame) => rest.push(frame),
                None => rest,
            }
        }
    }
}

/// What an optional frame says.
pub open spec fn frame_model(frame: Option<TouchFrame>) -> Option<AssembledFrame> {
    match frame {
        Some(frame) => Some(
            AssembledFrame { timestamp: frame.timestamp, contacts: frame.contacts@ },
        ),
        None => None,
    }
}

/// Assembles raw [`DualXyData`] events into logical [`TouchFrame`]s.
///
/// A fresh group starts whenever the timestamp moves on or the previous group already ended in an
/// `end_of_frame`; otherwise the event continues the pending group. A group that repeats the
/// contact state of the frame before it is dropped whole.
pub struct LogicalFrameAssembler {
    pending_ts: Option<u16>,
    pending: Vec<DualXyData>,
    last: Option<Vec<TouchContact>>,
}

impl View for LogicalFrameAssembler {
    type V = AssemblerModel;

    closed spec fn view(&self) -> AssemblerModel {
        AssemblerModel {
            pending_ts: self.pending_ts,
            pending: self.pending@,
            last: match self.last {
                Some(contacts) => Some(contacts@),
                None => None,
            },
        }
    }
}

impl Default for LogicalFrameAssembler {
    fn default() -> (assembler: Self)
        ensures
            assembler@ == AssemblerModel::empty(),
    {
        LogicalFrameAssembler { pending_ts: None, pending: Vec::new(), last: None }
    }
}

impl LogicalFrameAssembler {
    /// Feeds one raw event; returns a completed logical frame when this event proved the previous
    /// group finished. A group ends at its `end_of_frame`, but only the next event, or
    /// [`Self::flush`], hands it over.
    pub fn push(&mut self, event: DualXyData) -> (frame: Option<TouchFrame>)
        ensures
            (final(self)@, frame_model(frame)) == old(self)@.pushed(event),
    {
        let same_ts: bool = match self.pending_ts {
            Some(ts) => ts == event.timestamp,
            None => false,
        };
        let frame: Option<TouchFrame> = if self.pending.len() > 0 && (!same_ts || !group_open(
            self.pending.as_slice(),
        )) {
            self.commit()
        } else {
            None
        };
        self.pending_ts = Some(event.timestamp);
        self.pending.push(event);
        frame
    }

    /// Commits whatever group is still open; `None` when nothing was pending.
    pub fn flush(&mut self) -> (frame: Option<TouchFrame>)
        ensures
            (final(self)@, frame_model(frame)) == old(self)@.committed(),
    {
        self.commit()
    }

    fn commit(&mut self) -> (frame: Option<TouchFrame>)
        ensures
            (final(self)@, frame_model(frame)) == old(self)@.committed(),
    {
        if self.pending.len() == 0 {
            assert(self.pending@ =~= Seq::empty());
            return None;
        }
        let contacts: Vec<TouchContact> = collect_contacts(&self.pending);
        let timestamp: u16 = match self.pending_ts {
            Some(ts) => ts,
            None => 0,
        };
        self.pending.clear();
        let repeated: bool = match &self.last {
            Some(last) => contacts_equal(last, &contacts),
            None => false,
        };
        if repeated {
            return None;
        }
        self.last = Some(copy_contacts(&contacts));
        Some(TouchFrame { timestamp, contacts })
    }
}

/// The touching fingers of a group: hover contacts, non-finger contact types and empty slots drop
/// out here.
fn collect_contacts(parts: &Vec<DualXyData>) -> (contacts: Vec<TouchContact>)
    ensures
        contacts@ == group_contacts(parts@),
{
    let mut contacts: Vec<TouchContact> = Vec::new();
    let mut i: usize = 0;
    while i < parts.len()
        invariant
            i <= parts@.len(),
            contacts@ == group_contacts(parts@.take(i as int)),
        decreases parts@.len() - i,
    {
        let part: DualXyData = parts[i];
        proof {
            assert(parts@.take(i as int + 1).drop_last() =~= parts@.take(i as int));
        }
        let ghost before = contacts@;
        if let Some(contact) = touching(part.touch1) {
            contacts.push(contact);
        }
        if let Some(contact) = touching(part.touch2) {
            contacts.push(contact);
        }
        assert(contacts@ =~= before + part_contacts(part));
        i = i + 1;
    }
    assert(parts@.take(i as int) =~= parts@);
    contacts
}

fn touching(touch: TouchPoint) -> (contact: Option<TouchContact>)
    ensures
        contact == (if touch.touches() {
            Some(touch.contact())
        } else {
            None
        }),
{
    if touch.contact_type == 0 && touch.contact_status == 1 {
        Some(TouchContact { finger_id: touch.finger_id, x: touch.x, y: touch.y })
    } else {
        None
    }
}

fn contacts_equal(a: &Vec<TouchContact>, b: &Vec<TouchContact>) -> (same: bool)
    ensures
        same == (a@ == b@),
{
    if a.len() != b.len() {
        return false;
    }
    let mut i: usize = 0;
    while i < a.len()
        invariant
            i <= a@.len(),
            a@.len() == b@.len(),
            forall|j: int| 0 <= j < i ==> a@[j] == b@[j],
        decreases a@.len() - i,
    {
        if a[i] != b[i] {
            return false;
        }
        i = i + 1;
    }
    assert(a@ =~= b@);
    true
}

/// The tap window in a pad's own frame-timestamp ticks: one tick is `timestamp_units` tenths of a
/// millisecond. A zero unit counts as one.
pub open spec fn tap_window(timestamp_units: u8) -> int {
    TAP_MAX_MS as int * 10 / if timestamp_units == 0 {
        1
    } else {
        timestamp_units as int
    }
}

/// The tap window expressed in the pad's own frame-timestamp ticks.
pub fn tap_max_ticks(timestamp_units: u8) -> (ticks: u16)
    ensures
        ticks == tap_window(timestamp_units),
{
    let units: u32 = if timestamp_units == 0 {
        1
    } else {
        timestamp_units as u32
    };
    let ticks: u32 = TAP_MAX_MS * 10 / units;
    assert(ticks <= TAP_MAX_MS * 10) by (nonlinear_arith)
        requires
            units >= 1,
            ticks == (TAP_MAX_MS * 10) as int / units as int,
    ;
    ticks as u16
}

/// Assembler and classifier for one capture session: feed raw events, take recognized gestures.
pub struct TouchpadCaptureState {
    assembler: LogicalFrameAssembler,
    classifier: TouchpadClassifier,
}

/// Where a capture session stands.
pub struct CaptureModel {
    pub assembler: AssemblerModel,
    pub classifier: crate::touchpad::classify::ClassifierModel,
}

impl CaptureModel {
    /// The session after the assembler handed over a frame, if it did, and the gesture the frame
    /// committed.
    pub open spec fn classified(
        self,
        assembled: (AssemblerModel, Option<AssembledFrame>),
    ) -> (CaptureModel, Option<TouchpadGestureId>) {
        match assembled.1 {
            Some(frame) => {
                let (classifier, gesture) = self.classifier.step(frame.timestamp, frame.contacts);
                (CaptureModel { assembler: assembled.0, classifier }, gesture)
            },
            None => (CaptureModel { assembler: assembled.0, ..self }, None),
        }
    }
}

impl View for TouchpadCaptureState {
    type V = CaptureModel;

    closed spec fn view(&self) -> CaptureModel {
        CaptureModel { assembler: self.assembler@, classifier: self.classifier@ }
    }
}

impl TouchpadCaptureState {
    /// Builds the capture state for an armed pad: its sensor geometry and its frame-timestamp unit
    /// in tenths of a millisecond.
    #[must_use]
    pub fn new(x_size: u16, y_size: u16, timestamp_units: u8) -> (state: Self)
        ensures
            state@.assembler == AssemblerModel::empty(),
            state@.classifier == crate::touchpad::classify::ClassifierModel::idle(
                crate::touchpad::classify::Pad::sized(
                    x_size,
                    y_size,
                    tap_window(timestamp_units) as u16,
                ),
            ),
    {
        TouchpadCaptureState {
            assembler: LogicalFrameAssembler::default(),
            classifier: TouchpadClassifier::new(x_size, y_size, tap_max_ticks(timestamp_units)),
        }
    }

    /// Feeds one raw event; returns the gesture it committed, if any.
    pub fn feed(&mut self, event: DualXyData) -> (gesture: Option<TouchpadGestureId>)
        ensures
            (final(self)@, gesture) == old(self)@.classified(old(self)@.assembler.pushed(event)),
    {
        match self.assembler.push(event) {
            Some(frame) => self.classifier.push(&frame),
            None => None,
        }
    }

    /// Flushes a still-open frame group at shutdown and classifies it.
    pub fn flush(&mut self) -> (gesture: Option<TouchpadGestureId>)
        ensures
            (final(self)@, gesture) == old(self)@.classified(old(self)@.assembler.committed()),
    {
        match self.assembler.flush() {
            Some(frame) => self.classifier.push(&frame),
            None => None,
        }
    }
}

/// Resting hands are silent: no frame handed over repeats the contacts of the one before it.
pub proof fn law_frames_never_repeat(events: Seq<DualXyData>, i: int)
    requires
        0 <= i,
        i + 1 < AssemblerModel::empty().frames(events).len(),
    ensures
        AssemblerModel::empty().frames(events)[i].contacts != AssemblerModel::empty().frames(
            events,
        )[i + 1].contacts,
    decreases events.len(),
{
    let start = AssemblerModel::empty();
    let before = events.drop_last();
    lemma_last_is_latest_frame(before);
    if i + 1 < start.frames(before).len() {
        law_frames_never_repeat(before, i);
    }
}

/// The assembler remembers the contacts of the frame it handed over last.
proof fn lemma_last_is_latest_frame(events: Seq<DualXyData>)
    ensures
        ({
            let frames = AssemblerModel::empty().frames(events);
            AssemblerModel::empty().fed(events).last == if frames.len() == 0 {
                None
            } else {
                Some(frames.last().contacts)
            }
        }),
    decreases events.len(),
{
    if events.len() > 0 {
        lemma_last_is_latest_frame(events.drop_last());
    }
}

/// Flushing does not bring a resting hand back: wherever flushes stand between the events, no frame
/// handed over repeats the contacts of the one before it.
pub proof fn law_flushed_frames_never_repeat(inputs: Seq<AssemblerInput>, i: int)
    requires
        0 <= i,
        i + 1 < AssemblerModel::empty().frames_driven(inputs).len(),
    ensures
        AssemblerModel::empty().frames_driven(inputs)[i].contacts
            != AssemblerModel::empty().frames_driven(inputs)[i + 1].contacts,
    decreases inputs.len(),
{
    let start = AssemblerModel::empty();
    let before = inputs.drop_last();
    lemma_last_is_latest_driven(before);
    if i + 1 < start.frames_driven(before).len() {
        law_flushed_frames_never_repeat(before, i);
    }
}

/// With flushes too, the assembler remembers the contacts of the frame it handed over last.
proof fn lemma_last_is_latest_driven(inputs: Seq<AssemblerInput>)
    ensures
        ({
            let frames = AssemblerModel::empty().frames_driven(inputs);
            AssemblerModel::empty().driven(inputs).last == if frames.len() == 0 {
                None
            } else {
                Some(frames.last().contacts)
            }
        }),
    decreases inputs.len(),
{
    if inputs.len() > 0 {
        lemma_last_is_latest_driven(inputs.drop_last());
    }
}

/// The reports of one physical frame become one logical frame: while they share a timestamp and
/// none but the last ends the frame, nothing is handed over, and all of them are pending at the
/// end, so that the frame then handed over carries every touching finger in report order.
pub proof fn law_split_frame_assembles_whole(state: AssemblerModel, parts: Seq<DualXyData>)
    requires
        state.pending.len() == 0,
        parts.len() > 0,
        forall|i: int|
            0 <= i < parts.len() ==> (#[trigger] parts[i]).timestamp == parts[0].timestamp,
        forall|i: int| 0 <= i < parts.len() - 1 ==> !(#[trigger] parts[i]).end_of_frame,
    ensures
        state.frames(parts).len() == 0,
        state.fed(parts).pending == parts,
        state.fed(parts).last == state.last,
        state.fed(parts).pending_frame() == (AssembledFrame {
            timestamp: parts[0].timestamp,
            contacts: group_contacts(parts),
        }),
    decreases parts.len(),
{
    let before = parts.drop_last();
    if before.len() > 0 {
        assert forall|i: int| 0 <= i < before.len() implies (#[trigger] before[i]).timestamp
            == before[0].timestamp by {
            assert(parts[i].timestamp == parts[0].timestamp);
        }
        assert forall|i: int| 0 <= i < before.len() - 1 implies !(
        #[trigger] before[i]).end_of_frame by {
            assert(!parts[i].end_of_frame);
        }
        law_split_frame_assembles_whole(state, before);
        assert(!parts[parts.len() - 2].end_of_frame);
        assert(parts[parts.len() - 1].timestamp == parts[0].timestamp);
        assert(before.push(parts.last()) =~= parts);
    } else {
        assert(state.fed(before) == state);
        assert(state.frames(before) =~= Seq::empty());
        assert(state.pending.push(parts.last()) =~= parts);
    }
}

/// No report is dropped on arrival: the event joins the pending group, whatever was handed over.
pub proof fn law_event_always_joins(state: AssemblerModel, event: DualXyData)
    ensures
        state.pushed(event).0.pending.len() > 0,
        state.pushed(event).0.pending.last() == event,
{
}

/// Only touching fingers reach a frame.
pub proof fn law_frames_hold_touching_fingers(parts: Seq<DualXyData>, i: int)
    requires
        0 <= i < group_contacts(parts).len(),
    ensures
        exists|k: int|
            0 <= k < parts.len() && {
                let part = #[trigger] parts[k];
                ||| part.touch1.touches() && part.touch1.contact() == group_contacts(parts)[i]
                ||| part.touch2.touches() && part.touch2.contact() == group_contacts(parts)[i]
            },
    decreases parts.len(),
{
    if parts.len() > 0 {
        let before = parts.drop_last();
        if i < group_contacts(before).len() {
            law_frames_hold_touching_fingers(before, i);
            let k = choose|k: int|
                0 <= k < before.len() && {
                    let part = #[trigger] before[k];
                    ||| part.touch1.touches() && part.touch1.contact() == group_contacts(before)[i]
                    ||| part.touch2.touches() && part.touch2.contact() == group_contacts(before)[i]
                };
            assert(parts[k] == before[k]);
        } else {
            assert(parts[parts.len() - 1] == parts.last());
        }
    }
}

/// A slot counts as a finger exactly where it is of the finger type and touches; the contact is the
/// slot's own finger at the slot's own place.
pub proof fn law_slots_report_their_finger(point: TouchPoint)
    ensures
        point.contact_type == 0 && point.contact_status == 1 ==> point.touches(),
        point.contact_type != 0 ==> !point.touches(),
        point.contact_status != 1 ==> !point.touches(),
        point.contact().finger_id == point.finger_id,
        point.contact().x == point.x,
        point.contact().y == point.y,
{
}

/// A report adds its touching fingers to a frame, the first slot's before the second's and after
/// all that came before, and nothing else.
pub proof fn law_reports_add_their_touching_fingers(parts: Seq<DualXyData>, part: DualXyData)
    ensures
        ({
            let before = group_contacts(parts);
            let after = group_contacts(parts.push(part));
            let (one, two) = (part.touch1, part.touch2);
            &&& one.touches() && two.touches() ==> after == before.push(one.contact()).push(
                two.contact(),
            )
            &&& one.touches() && !two.touches() ==> after == before.push(one.contact())
            &&& !one.touches() && two.touches() ==> after == before.push(two.contact())
            &&& !one.touches() && !two.touches() ==> after == before
        }),
{
    assert(parts.push(part).drop_last() =~= parts);
    let before = group_contacts(parts);
    let after = group_contacts(parts.push(part));
    assert(after == before + part_contacts(part));
    if part.touch1.touches() && part.touch2.touches() {
        assert(after =~= before.push(part.touch1.contact()).push(part.touch2.contact()));
    } else if part.touch1.touches() {
        assert(after =~= before.push(part.touch1.contact()));
    } else if part.touch2.touches() {
        assert(after =~= before.push(part.touch2.contact()));
    } else {
        assert(after =~= before);
    }
}

/// A pending frame is handed over by the event that shows it to be over: one with another time, or
/// any after the report that ends the frame. It then has its own time and its own fingers, and the
/// event starts the next frame. Any other event joins the pending frame, and nothing is handed over.
pub proof fn law_frame_is_handed_over_when_it_is_over(state: AssemblerModel, event: DualXyData)
    requires
        state.pending.len() > 0,
        state.pending_ts is Some,
    ensures
        ({
            let (after, frame) = state.pushed(event);
            let over = event.timestamp != state.pending_ts->0 || state.pending.last().end_of_frame;
            let fingers = group_contacts(state.pending);
            &&& over && state.last != Some(fingers) ==> frame == Some(
                AssembledFrame { timestamp: state.pending_ts->0, contacts: fingers },
            ) && after.last == Some(fingers)
            &&& over && state.last == Some(fingers) ==> frame is None && after.last == state.last
            &&& over ==> after.pending == seq![event]
            &&& !over ==> frame is None && after.pending == state.pending.push(event) && after.last
                == state.last
            &&& after.pending_ts == Some(event.timestamp)
        }),
{
    let (after, frame) = state.pushed(event);
    if state.completed_by(event) {
        assert(after.pending =~= seq![event]);
    }
}

/// Handing over what is pending gives the pending fingers at the pending time, unless they repeat
/// the frame before, and leaves nothing pending.
pub proof fn law_flush_hands_over_what_is_pending(state: AssemblerModel)
    ensures
        ({
            let (after, frame) = state.committed();
            let fingers = group_contacts(state.pending);
            &&& after.pending.len() == 0
            &&& state.pending.len() == 0 ==> frame is None && after.last == state.last
            &&& state.pending.len() > 0 && state.last == Some(fingers) ==> frame is None
            &&& state.pending.len() > 0 && state.last != Some(fingers) ==> {
                &&& frame matches Some(handed) && handed.contacts == fingers
                &&& state.pending_ts matches Some(ts) ==> frame->0.timestamp == ts
                &&& after.last == Some(fingers)
            }
        }),
{
}

/// Frames go to the classifier as they were assembled, and the gesture is what it makes of them.
pub proof fn law_assembled_frames_are_classified(
    state: CaptureModel,
    assembled: AssemblerModel,
    frame: AssembledFrame,
)
    ensures
        ({
            let (after, gesture) = state.classified((assembled, Some(frame)));
            let (classifier, expected) = state.classifier.step(frame.timestamp, frame.contacts);
            &&& after.assembler == assembled
            &&& after.classifier == classifier
            &&& gesture == expected
        }),
        ({
            let (after, gesture) = state.classified((assembled, None));
            &&& after.assembler == assembled
            &&& after.classifier == state.classifier
            &&& gesture is None
        }),
{
}

/// The tap window is a quarter of a second in the pad's ticks: the most whole ticks that take no
/// longer, with a tick of as many tenths of a millisecond as the pad says, and of one where it says
/// none.
pub proof fn law_tap_window_is_a_quarter_second(timestamp_units: u8)
    ensures
        timestamp_units == 0 ==> tap_window(timestamp_units) == 2_500,
        timestamp_units > 0 ==> tap_window(timestamp_units) * timestamp_units <= 2_500,
        timestamp_units > 0 ==> (tap_window(timestamp_units) + 1) * timestamp_units > 2_500,
{
    if timestamp_units > 0 {
        let units = timestamp_units as int;
        let ticks = 2_500int / units;
        vstd::arithmetic::div_mod::lemma_fundamental_div_mod(2_500, units);
        assert(ticks * units <= 2_500 && (ticks + 1) * units > 2_500) by (nonlinear_arith)
            requires
                2_500 == units * ticks + 2_500int % units,
                0 <= 2_500int % units < units,
        ;
    }
}

} // verus!
