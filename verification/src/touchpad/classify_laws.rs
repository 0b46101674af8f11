//! What holds of every stream of frames a [`super::classify::TouchpadClassifier`] sees.
use vstd::prelude::*;

use super::classify::{ClassifierModel, Pad, SwipeDirection, TrackedFinger};
use super::frame::TouchContact;
use super::gesture::TouchpadGestureId;

verus! {

/// One frame of a stream: its timestamp and contacts.
pub struct StreamFrame {
    pub ts: u16,
    pub contacts: Seq<TouchContact>,
}

/// The classifier after a stream of frames.
pub open spec fn fed(state: ClassifierModel, frames: Seq<StreamFrame>) -> ClassifierModel
    decreases frames.len(),
{
    if frames.len() == 0 {
        state
    } else {
        fed(state, frames.drop_last()).step(frames.last().ts, frames.last().contacts).0
    }
}

/// Swipes of different finger counts or directions are different gestures.
pub proof fn law_swipes_are_distinct(a: nat, d: SwipeDirection, b: nat, e: SwipeDirection)
    requires
        a == 3 || a == 4,
        b == 3 || b == 4,
        super::classify::swipe_gesture(a, d) == super::classify::swipe_gesture(b, e),
    ensures
        a == b,
        d == e,
{
}

/// Whether every frame of a stream has a finger down.
pub open spec fn all_touching(frames: Seq<StreamFrame>) -> bool {
    forall|i: int| 0 <= i < frames.len() ==> (#[trigger] frames[i]).contacts.len() > 0
}

/// Whether no frame of a stream has more than two fingers down.
pub open spec fn at_most_two_fingers(frames: Seq<StreamFrame>) -> bool {
    forall|i: int| 0 <= i < frames.len() ==> (#[trigger] frames[i]).contacts.len() <= 2
}

/// Whether the contacts repeat the fingers' positions, finger by finger.
pub open spec fn repeats(fingers: Seq<TrackedFinger>, contacts: Seq<TouchContact>) -> bool {
    &&& fingers.len() == contacts.len()
    &&& forall|i: int|
        0 <= i < fingers.len() ==> {
            &&& (#[trigger] fingers[i]).id == contacts[i].finger_id
            &&& fingers[i].x == contacts[i].x
            &&& fingers[i].y == contacts[i].y
        }
}

/// One physical stroke fires at most one gesture: after a touching frame committed one, nothing
/// fires until the last finger has lifted, the lift included.
pub proof fn law_one_gesture_per_stroke(
    state: ClassifierModel,
    frame: StreamFrame,
    later: Seq<StreamFrame>,
    next: StreamFrame,
)
    requires
        frame.contacts.len() > 0,
        state.step(frame.ts, frame.contacts).1 is Some,
        all_touching(later),
    ensures
        fed(state.step(frame.ts, frame.contacts).0, later).step(next.ts, next.contacts).1 is None,
{
    let after = state.step(frame.ts, frame.contacts).0;
    lemma_touching_tracks(state, frame.contacts, frame.ts);
    lemma_latched(after, later);
    let reached = fed(after, later);
    if next.contacts.len() > 0 {
        lemma_latch_step(reached, next);
    }
}

proof fn lemma_latched(state: ClassifierModel, later: Seq<StreamFrame>)
    requires
        state.fired is Some,
        state.fingers.len() > 0,
        all_touching(later),
    ensures
        fed(state, later).fired is Some,
        fed(state, later).fingers.len() > 0,
    decreases later.len(),
{
    if later.len() > 0 {
        let before = later.drop_last();
        assert forall|i: int| 0 <= i < before.len() implies (
        #[trigger] before[i]).contacts.len() > 0 by {
            assert(later[i].contacts.len() > 0);
        }
        assert(later[later.len() - 1].contacts.len() > 0);
        lemma_latched(state, before);
        lemma_latch_step(fed(state, before), later.last());
    }
}

pub(crate) proof fn lemma_latch_step(state: ClassifierModel, next: StreamFrame)
    requires
        state.fired is Some,
        state.fingers.len() > 0,
        next.contacts.len() > 0,
    ensures
        state.step(next.ts, next.contacts).0.fired is Some,
        state.step(next.ts, next.contacts).0.fingers.len() > 0,
        state.step(next.ts, next.contacts).1 is None,
{
    lemma_touching_tracks(state, next.contacts, next.ts);
    lemma_contacts_keep_latch(state, next.contacts, next.ts);
}

proof fn lemma_contacts_keep_latch(
    state: ClassifierModel,
    contacts: Seq<TouchContact>,
    ts: u16,
)
    requires
        state.fingers.len() > 0,
    ensures
        state.with_contacts(contacts, ts).fingers.len() >= state.fingers.len(),
        state.with_contacts(contacts, ts).fired == state.fired,
    decreases contacts.len(),
{
    if contacts.len() > 0 {
        lemma_contacts_keep_latch(state, contacts.drop_last(), ts);
    }
}

/// Every contact taken in belongs to a finger.
proof fn lemma_contacts_have_fingers(
    state: ClassifierModel,
    contacts: Seq<TouchContact>,
    ts: u16,
    i: int,
)
    requires
        0 <= i < contacts.len(),
    ensures
        exists|k: int|
            0 <= k < state.with_contacts(contacts, ts).fingers.len() && (
            #[trigger] state.with_contacts(contacts, ts).fingers[k]).id == contacts[i].finger_id,
    decreases contacts.len(),
{
    let before = state.with_contacts(contacts.drop_last(), ts);
    let after = state.with_contacts(contacts, ts);
    let last = contacts.last();
    super::classify::lemma_position(before.fingers, last.finger_id);
    let at = super::classify::position_of(before.fingers, last.finger_id);
    if i == contacts.len() - 1 {
        assert(after.fingers[at as int].id == last.finger_id);
    } else {
        lemma_contacts_have_fingers(state, contacts.drop_last(), ts, i);
        let k = choose|k: int|
            0 <= k < before.fingers.len() && (#[trigger] before.fingers[k]).id
                == contacts.drop_last()[i].finger_id;
        assert(after.fingers[k].id == contacts[i].finger_id);
    }
}

/// A finger that is still reported stays.
proof fn lemma_reported_stays(
    fingers: Seq<TrackedFinger>,
    contacts: Seq<TouchContact>,
    k: int,
)
    requires
        0 <= k < fingers.len(),
        super::classify::reports(contacts, fingers[k].id),
    ensures
        super::classify::still_down(fingers, contacts).len() > 0,
    decreases fingers.len(),
{
    if k < fingers.len() - 1 {
        lemma_reported_stays(fingers.drop_last(), contacts, k);
    }
}

/// A touching frame leaves fingers down.
pub(crate) proof fn lemma_touching_tracks(state: ClassifierModel, contacts: Seq<TouchContact>, ts: u16)
    requires
        contacts.len() > 0,
    ensures
        state.tracking(contacts, ts).fingers.len() > 0,
        state.tracking(contacts, ts).stroke_fingers > 0,
{
    lemma_contacts_have_fingers(state, contacts, ts, 0);
    let seen = state.with_contacts(contacts, ts);
    let k = choose|k: int|
        0 <= k < seen.fingers.len() && (#[trigger] seen.fingers[k]).id == contacts[0].finger_id;
    assert(super::classify::reports(contacts, seen.fingers[k].id));
    lemma_reported_stays(seen.fingers, contacts, k);
}

/// The empty frame ends the stroke for good: whatever was fed before, the classifier is as new.
pub proof fn law_empty_frame_starts_over(pad: Pad, frames: Seq<StreamFrame>, ts: u16)
    ensures
        fed(ClassifierModel::idle(pad), frames).step(ts, Seq::empty()).0
            == ClassifierModel::idle(pad),
{
    lemma_untouched_is_idle(pad, frames);
}

proof fn lemma_untouched_is_idle(pad: Pad, frames: Seq<StreamFrame>)
    ensures
        fed(ClassifierModel::idle(pad), frames).pad == pad,
        fed(ClassifierModel::idle(pad), frames).fingers.len() == 0 ==> fed(
            ClassifierModel::idle(pad),
            frames,
        ) == ClassifierModel::idle(pad),
    decreases frames.len(),
{
    if frames.len() > 0 {
        lemma_untouched_is_idle(pad, frames.drop_last());
        let before = fed(ClassifierModel::idle(pad), frames.drop_last());
        lemma_contacts_keep_pad(before, frames.last().contacts, frames.last().ts);
        if frames.last().contacts.len() > 0 {
            lemma_touching_tracks(before, frames.last().contacts, frames.last().ts);
        }
    }
}

proof fn lemma_contacts_keep_pad(state: ClassifierModel, contacts: Seq<TouchContact>, ts: u16)
    ensures
        state.with_contacts(contacts, ts).pad == state.pad,
    decreases contacts.len(),
{
    if contacts.len() > 0 {
        lemma_contacts_keep_pad(state, contacts.drop_last(), ts);
    }
}

/// Two-finger strokes are never swipes: they yield pinches and two-finger taps only.
pub proof fn law_two_fingers_never_swipe(pad: Pad, frames: Seq<StreamFrame>, next: StreamFrame)
    requires
        at_most_two_fingers(frames),
        next.contacts.len() <= 2,
    ensures
        fed(ClassifierModel::idle(pad), frames).step(next.ts, next.contacts).1 matches Some(
            gesture,
        ) ==> {
            ||| gesture == TouchpadGestureId::TwoFingerTap
            ||| gesture == TouchpadGestureId::TwoFingerPinchIn
            ||| gesture == TouchpadGestureId::TwoFingerPinchOut
        },
{
    lemma_two_fingers(pad, frames);
    lemma_two_fingers_step(fed(ClassifierModel::idle(pad), frames), next);
}

proof fn lemma_two_fingers(pad: Pad, frames: Seq<StreamFrame>)
    requires
        at_most_two_fingers(frames),
    ensures
        fed(ClassifierModel::idle(pad), frames).stroke_fingers <= 2,
        super::classify::distinct_fingers(fed(ClassifierModel::idle(pad), frames).fingers),
    decreases frames.len(),
{
    if frames.len() > 0 {
        let before = frames.drop_last();
        assert forall|i: int| 0 <= i < before.len() implies (
        #[trigger] before[i]).contacts.len() <= 2 by {
            assert(frames[i].contacts.len() <= 2);
        }
        assert(frames[frames.len() - 1].contacts.len() <= 2);
        lemma_two_fingers(pad, before);
        lemma_two_fingers_step(fed(ClassifierModel::idle(pad), before), frames.last());
    }
}

proof fn lemma_two_fingers_step(state: ClassifierModel, next: StreamFrame)
    requires
        state.stroke_fingers <= 2,
        super::classify::distinct_fingers(state.fingers),
        next.contacts.len() <= 2,
    ensures
        state.step(next.ts, next.contacts).0.stroke_fingers <= 2,
        super::classify::distinct_fingers(state.step(next.ts, next.contacts).0.fingers),
        state.step(next.ts, next.contacts).1 matches Some(gesture) ==> {
            ||| gesture == TouchpadGestureId::TwoFingerTap
            ||| gesture == TouchpadGestureId::TwoFingerPinchIn
            ||| gesture == TouchpadGestureId::TwoFingerPinchOut
        },
{
    let contacts = next.contacts;
    if contacts.len() > 0 {
        lemma_contacts_keep_distinct(state, contacts, next.ts);
        let seen = state.with_contacts(contacts, next.ts);
        super::classify::lemma_still_down(seen.fingers, contacts);
        let down = super::classify::still_down(seen.fingers, contacts);
        if down.len() > 2 {
            let (a, b, c) = (down[0], down[1], down[2]);
            assert(super::classify::reports(contacts, a.id));
            assert(super::classify::reports(contacts, b.id));
            assert(super::classify::reports(contacts, c.id));
            let i = choose|i: int| 0 <= i < contacts.len() && contacts[i].finger_id == a.id;
            let j = choose|j: int| 0 <= j < contacts.len() && contacts[j].finger_id == b.id;
            let k = choose|k: int| 0 <= k < contacts.len() && contacts[k].finger_id == c.id;
            assert(i == j || i == k || j == k);
            assert(false);
        }
    }
}

proof fn lemma_contacts_keep_distinct(
    state: ClassifierModel,
    contacts: Seq<TouchContact>,
    ts: u16,
)
    requires
        super::classify::distinct_fingers(state.fingers),
    ensures
        super::classify::distinct_fingers(state.with_contacts(contacts, ts).fingers),
        state.with_contacts(contacts, ts).stroke_fingers <= state.stroke_fingers,
    decreases contacts.len(),
{
    if contacts.len() > 0 {
        lemma_contacts_keep_distinct(state, contacts.drop_last(), ts);
        let before = state.with_contacts(contacts.drop_last(), ts);
        super::classify::lemma_position(before.fingers, contacts.last().finger_id);
    }
}

/// The tap window survives the wrap of the timestamp counter: only the ticks between landing and
/// lift count.
pub proof fn law_tap_window_survives_wrap(
    state: ClassifierModel,
    shifted: ClassifierModel,
    lift: u16,
    shifted_lift: u16,
)
    requires
        shifted == (ClassifierModel { stroke_start_ts: shifted.stroke_start_ts, ..state }),
        (shifted.stroke_start_ts - state.stroke_start_ts) % 0x1_0000 == (shifted_lift - lift)
            % 0x1_0000,
    ensures
        shifted.tapped(shifted_lift) == state.tapped(lift),
{
    assert(crate::math::ticks_between(shifted.stroke_start_ts, shifted_lift)
        == crate::math::ticks_between(state.stroke_start_ts, lift)) by (nonlinear_arith)
        requires
            0 <= shifted.stroke_start_ts < 0x1_0000,
            0 <= state.stroke_start_ts < 0x1_0000,
            0 <= shifted_lift < 0x1_0000,
            0 <= lift < 0x1_0000,
            (shifted.stroke_start_ts - state.stroke_start_ts) % 0x1_0000 == (shifted_lift - lift)
                % 0x1_0000,
    ;
}

/// Idle repeats hold: a frame that repeats every finger's position commits nothing that the
/// fingers' positions had not committed already, and keeps the swipe run as it is.
pub proof fn law_idle_repeat_holds(state: ClassifierModel, frame: StreamFrame)
    requires
        super::classify::distinct_fingers(state.fingers),
        state.fingers.len() > 0,
        state.fingers.len() <= state.stroke_fingers,
        state.max_wander >= super::classify::widest(state.fingers),
        state.fired is None,
        state.swept() is None,
        state.pinched() is None,
        state.swipe.last_mean is Some ==> state.swipe.last_mean == Some(
            super::classify::mean_position(state.fingers),
        ),
        repeats(state.fingers, frame.contacts),
    ensures
        state.step(frame.ts, frame.contacts).1 is None,
        ({
            let after = state.step(frame.ts, frame.contacts).0;
            &&& after.swipe.locked == state.swipe.locked
            &&& after.swipe.frames == state.swipe.frames
            &&& after.swipe.start_ts == state.swipe.start_ts
            &&& after.swipe.acc == state.swipe.acc
            &&& after.stroke_fingers == state.stroke_fingers
            &&& after.stroke_start_ts == state.stroke_start_ts
            &&& after.max_wander == state.max_wander
            &&& after.fired is None
        }),
{
    lemma_repeat_settles(state, frame.contacts, frame.ts, frame.contacts.len() as int);
    let contacts = frame.contacts;
    assert(contacts.take(contacts.len() as int) =~= contacts);
    let seen = state.with_contacts(contacts, frame.ts);
    lemma_all_reported(seen.fingers, contacts);
    let now = state.tracking(contacts, frame.ts);
    assert(now.fingers =~= seen.fingers);
    assert(super::classify::same_fingers(state.fingers, now.fingers)) by {
        assert forall|i: int| 0 <= i < state.fingers.len() implies (
        #[trigger] state.fingers[i]).id == now.fingers[i].id by {}
    }
    lemma_rested_sums(state.fingers, now.fingers);
    assert(now.swipe == state.swipe);
    assert(now.swept() == state.swept());
    assert(now.pinched() == state.pinched());
    assert(now.run_step(frame.ts).1 is None);
}

/// Whether the fingers rest where others are, having landed where they landed.
pub open spec fn rest_at(fingers: Seq<TrackedFinger>, others: Seq<TrackedFinger>) -> bool {
    &&& fingers.len() == others.len()
    &&& forall|i: int|
        0 <= i < fingers.len() ==> {
            &&& (#[trigger] others[i]).id == fingers[i].id
            &&& others[i].x == fingers[i].x
            &&& others[i].y == fingers[i].y
            &&& others[i].start_x == fingers[i].start_x
            &&& others[i].start_y == fingers[i].start_y
        }
}

proof fn lemma_repeat_settles(
    state: ClassifierModel,
    contacts: Seq<TouchContact>,
    ts: u16,
    n: int,
)
    requires
        super::classify::distinct_fingers(state.fingers),
        state.fingers.len() > 0,
        repeats(state.fingers, contacts),
        0 <= n <= contacts.len(),
    ensures
        ({
            let seen = state.with_contacts(contacts.take(n), ts);
            &&& rest_at(state.fingers, seen.fingers)
            &&& seen == (ClassifierModel { fingers: seen.fingers, ..state })
        }),
    decreases n,
{
    if n > 0 {
        lemma_repeat_settles(state, contacts, ts, n - 1);
        let head = contacts.take(n);
        assert(head.drop_last() =~= contacts.take(n - 1));
        let before = state.with_contacts(contacts.take(n - 1), ts);
        let contact = contacts[n - 1];
        assert(state.fingers[n - 1].id == contact.finger_id);
        assert(before.fingers[n - 1].id == contact.finger_id);
        super::classify::lemma_position(before.fingers, contact.finger_id);
        let at = super::classify::position_of(before.fingers, contact.finger_id) as int;
        assert(at < before.fingers.len());
        assert(at == n - 1) by {
            assert(before.fingers[at].id == state.fingers[at].id);
            if at < n - 1 {
                assert(state.fingers[at].id != state.fingers[n - 1].id);
            } else if at > n - 1 {
                assert(state.fingers[n - 1].id != state.fingers[at].id);
            }
        }
        let seen = state.with_contacts(head, ts);
        assert forall|i: int| 0 <= i < state.fingers.len() implies {
            &&& (#[trigger] seen.fingers[i]).id == state.fingers[i].id
            &&& seen.fingers[i].x == state.fingers[i].x
            &&& seen.fingers[i].y == state.fingers[i].y
            &&& seen.fingers[i].start_x == state.fingers[i].start_x
            &&& seen.fingers[i].start_y == state.fingers[i].start_y
        } by {
            assert(before.fingers[i].id == state.fingers[i].id);
        }
    } else {
        assert(contacts.take(0) =~= Seq::empty());
    }
}

/// Fingers that are all reported all stay.
proof fn lemma_all_reported(fingers: Seq<TrackedFinger>, contacts: Seq<TouchContact>)
    requires
        forall|i: int|
            0 <= i < fingers.len() ==> super::classify::reports(
                contacts,
                (#[trigger] fingers[i]).id,
            ),
    ensures
        super::classify::still_down(fingers, contacts) == fingers,
    decreases fingers.len(),
{
    if fingers.len() > 0 {
        let init = fingers.drop_last();
        assert forall|i: int| 0 <= i < init.len() implies super::classify::reports(
            contacts,
            (#[trigger] init[i]).id,
        ) by {
            assert(super::classify::reports(contacts, fingers[i].id));
        }
        lemma_all_reported(init, contacts);
        assert(super::classify::reports(contacts, fingers[fingers.len() - 1].id));
        assert(init.push(fingers.last()) =~= fingers);
    } else {
        assert(super::classify::still_down(fingers, contacts) =~= fingers);
    }
}

proof fn lemma_rested_sums(a: Seq<TrackedFinger>, b: Seq<TrackedFinger>)
    requires
        rest_at(a, b),
    ensures
        super::classify::sum_position(a) == super::classify::sum_position(b),
        super::classify::sum_displacement(a) == super::classify::sum_displacement(b),
        super::classify::widest(a) == super::classify::widest(b),
    decreases a.len(),
{
    if a.len() > 0 {
        let (x, y) = (a.drop_last(), b.drop_last());
        assert(rest_at(x, y)) by {
            assert forall|i: int| 0 <= i < x.len() implies {
                &&& (#[trigger] y[i]).id == x[i].id
                &&& y[i].x == x[i].x
                &&& y[i].y == x[i].y
                &&& y[i].start_x == x[i].start_x
                &&& y[i].start_y == x[i].start_y
            } by {
                assert(b[i].id == a[i].id);
            }
        }
        lemma_rested_sums(x, y);
        assert(b[b.len() - 1].id == a[a.len() - 1].id);
    }
}

} // verus!
