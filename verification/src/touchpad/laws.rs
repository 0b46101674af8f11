//! What holds of every stream of frames a [`super::TouchpadGestureRecognizer`] sees.
use vstd::prelude::*;

use super::{FrameModel, GestureRecognition, RecognizerModel, StrokeModel, TouchContact};
use crate::binding::ButtonId;

verus! {

/// Whether every frame of a stream has a finger down.
pub open spec fn all_touching(frames: Seq<FrameModel>) -> bool {
    forall|i: int| 0 <= i < frames.len() ==> (#[trigger] frames[i]).contacts.len() > 0
}

/// Whether every frame of a stream has one or two fingers down.
pub open spec fn one_or_two_fingers(frames: Seq<FrameModel>) -> bool {
    forall|i: int| 0 <= i < frames.len() ==> 1 <= (#[trigger] frames[i]).contacts.len() <= 2
}

/// Whether every frame of a stream, fed from `state`, is recognized as scrolling.
pub open spec fn all_scroll(state: RecognizerModel, frames: Seq<FrameModel>) -> bool {
    forall|i: int|
        0 <= i < frames.len() ==> state.run(frames.take(i)).step(
            #[trigger] frames[i],
        ).1 is Scroll
}

/// Total of the scroll deltas a stream of frames yields.
pub open spec fn scroll_total(state: RecognizerModel, frames: Seq<FrameModel>) -> (int, int)
    decreases frames.len(),
{
    if frames.len() == 0 {
        (0, 0)
    } else {
        let rest = scroll_total(state, frames.drop_last());
        match state.run(frames.drop_last()).step(frames.last()).1 {
            GestureRecognition::Scroll { dx_um, dy_um } => (rest.0 + dx_um, rest.1 + dy_um),
            _ => rest,
        }
    }
}

/// Whether a trigger is a tap.
pub open spec fn is_tap(trigger: ButtonId) -> bool {
    ||| trigger == ButtonId::TouchpadTwoFingerTap
    ||| trigger == ButtonId::TouchpadThreeFingerTap
    ||| trigger == ButtonId::TouchpadFourFingerTap
}

/// Whether the stroke in progress has been claimed for scrolling.
pub open spec fn claimed_for_scrolling(state: RecognizerModel) -> bool {
    state matches RecognizerModel::Tracking(stroke) && stroke.valid() && stroke.scrolling
}

/// Sorting by id leaves no choice: contacts in ascending id order are determined by which contacts
/// there are.
pub proof fn law_frame_order_is_canonical(a: Seq<TouchContact>, b: Seq<TouchContact>)
    requires
        super::ascending_ids(a),
        super::ascending_ids(b),
        a.to_multiset() == b.to_multiset(),
    ensures
        a == b,
    decreases a.len(),
{
    broadcast use vstd::seq_lib::group_to_multiset_ensures;

    vstd::seq_lib::to_multiset_len(a);
    vstd::seq_lib::to_multiset_len(b);
    assert(a.len() == b.len());
    if a.len() == 0 {
        assert(a =~= b);
    } else {
        let last = a.len() - 1;
        assert(a.to_multiset().count(a[last]) > 0);
        assert(b.to_multiset().count(b[last]) > 0);
        assert(b.contains(a[last]));
        assert(a.contains(b[last]));
        let i = choose|i: int| 0 <= i < b.len() && b[i] == a[last];
        let j = choose|j: int| 0 <= j < a.len() && a[j] == b[last];
        assert(i == last) by {
            if i < last {
                assert(b[i].id < b[last].id);
                if j < last {
                    assert(a[j].id < a[last].id);
                }
            }
        }
        assert(a.drop_last() =~= a.remove(last));
        assert(b.drop_last() =~= b.remove(last));
        law_frame_order_is_canonical(a.drop_last(), b.drop_last());
        assert(a =~= a.drop_last().push(a[last]));
        assert(b =~= b.drop_last().push(b[last]));
    }
}

/// Every state reached from a valid one is valid.
pub proof fn law_states_stay_valid(state: RecognizerModel, frames: Seq<FrameModel>)
    requires
        state.valid(),
    ensures
        state.run(frames).valid(),
    decreases frames.len(),
{
    if frames.len() > 0 {
        law_states_stay_valid(state, frames.drop_last());
        lemma_step_valid(state.run(frames.drop_last()), frames.last());
    }
}

proof fn lemma_step_valid(state: RecognizerModel, frame: FrameModel)
    requires
        state.valid(),
    ensures
        state.step(frame).0.valid(),
{
    reveal(StrokeModel::step);
    if 1 <= frame.contacts.len() <= 4 {
        super::geometry::lemma_centroid_bounds(frame.contacts);
        assert forall|i: int| 0 <= i < frame.contacts.len() implies super::geometry::contact_with(
            frame.contacts,
            (#[trigger] frame.contacts[i]).id,
        ) is Some by {
            super::geometry::lemma_present(frame.contacts, i);
        }
        if let RecognizerModel::Tracking(stroke) = state {
            if super::geometry::same_ids(frame.contacts, stroke.latest) {
                let moved = StrokeModel {
                    motion_frames: crate::math::lesser(
                        stroke.motion_frames as int + 1,
                        255,
                    ) as nat,
                    ..stroke.recorded(frame)
                };
                super::geometry::lemma_ids_within(frame.contacts, stroke.latest, stroke.starts);
                if moved.scrolls() && !moved.scrolling {
                    lemma_scrolling_travels(moved);
                }
            } else if stroke.lifted_some(
                frame,
            ) {
                super::geometry::lemma_ids_within(frame.contacts, stroke.latest, stroke.starts);
            }
        }
    }
}

/// A gesture is recognized at most once per stroke: after it, nothing more is recognized until
/// every finger has lifted, and the lift is no tap.
pub proof fn law_gesture_fires_once_per_stroke(
    state: RecognizerModel,
    frame: FrameModel,
    later: Seq<FrameModel>,
    next: FrameModel,
)
    requires
        state.step(frame).1 is Gesture,
        all_touching(later),
        next.contacts.len() > 0,
    ensures
        state.step(frame).0.run(later).step(next).1 == GestureRecognition::Pending,
        state.step(frame).0.run(later).tap_on_end() is None,
{
    reveal(StrokeModel::step);
    lemma_settled(state.step(frame).0, later);
}

/// A cancelled stroke recognizes nothing until every finger has lifted, and the lift is no tap.
pub proof fn law_cancelled_stroke_is_silent(later: Seq<FrameModel>, next: FrameModel)
    requires
        all_touching(later),
        next.contacts.len() > 0,
    ensures
        RecognizerModel::Cancelled.run(later).step(next).1 == GestureRecognition::Pending,
        RecognizerModel::Cancelled.run(later).tap_on_end() is None,
{
    lemma_settled(RecognizerModel::Cancelled, later);
}

proof fn lemma_settled(state: RecognizerModel, later: Seq<FrameModel>)
    requires
        state is Committed || state is Cancelled,
        all_touching(later),
    ensures
        state.run(later) is Committed || state.run(later) is Cancelled,
    decreases later.len(),
{
    if later.len() > 0 {
        assert(all_touching(later.drop_last())) by {
            assert forall|i: int| 0 <= i < later.drop_last().len() implies (
            #[trigger] later.drop_last()[i]).contacts.len() > 0 by {
                assert(later[i].contacts.len() > 0);
            }
        }
        lemma_settled(state, later.drop_last());
        assert(later[later.len() - 1].contacts.len() > 0);
    }
}

/// An empty frame makes the recognizer forget the stroke: what follows does not depend on it.
pub proof fn law_empty_frame_starts_over(
    a: RecognizerModel,
    b: RecognizerModel,
    empty: FrameModel,
)
    requires
        empty.contacts.len() == 0,
    ensures
        a.step(empty).0 == b.step(empty).0,
        a.step(empty).1 == GestureRecognition::Pending,
{
}

/// A frame with more than four fingers cancels the stroke.
pub proof fn law_five_fingers_cancel(state: RecognizerModel, frame: FrameModel)
    requires
        frame.contacts.len() > 4,
    ensures
        state.step(frame) == (RecognizerModel::Cancelled, GestureRecognition::Pending),
{
}

/// One finger never makes a gesture, a scroll or a tap.
pub proof fn law_single_finger_is_inert(frames: Seq<FrameModel>, next: FrameModel)
    requires
        forall|i: int| 0 <= i < frames.len() ==> (#[trigger] frames[i]).contacts.len() <= 1,
        next.contacts.len() <= 1,
    ensures
        RecognizerModel::Idle.run(frames) == RecognizerModel::Idle,
        RecognizerModel::Idle.run(frames).step(next).1 == GestureRecognition::Pending,
        RecognizerModel::Idle.run(frames).tap_on_end() is None,
    decreases frames.len(),
{
    if frames.len() > 0 {
        assert forall|i: int| 0 <= i < frames.drop_last().len() implies (
        #[trigger] frames.drop_last()[i]).contacts.len() <= 1 by {
            assert(frames[i].contacts.len() <= 1);
        }
        assert(frames[frames.len() - 1].contacts.len() <= 1);
        law_single_finger_is_inert(frames.drop_last(), frames.last());
    }
}

/// No frame is recognized as a tap: taps come from ending a stroke only.
pub proof fn law_frames_never_tap(state: RecognizerModel, frame: FrameModel)
    ensures
        state.step(frame).1 matches GestureRecognition::Gesture(trigger) ==> !is_tap(trigger),
{
    reveal(StrokeModel::step);
}

/// Only two-finger strokes scroll, and the delta is the centroid's travel since the previous
/// frame, which held the same two fingers: the travel that activated scrolling is not in it.
pub proof fn law_scroll_delta_is_travel_since_previous_frame(
    state: RecognizerModel,
    frame: FrameModel,
)
    requires
        state.valid(),
        state.step(frame).1 is Scroll,
    ensures
        state matches RecognizerModel::Tracking(stroke) && {
            let from = super::geometry::centroid_of(stroke.latest);
            let to = super::geometry::centroid_of(frame.contacts);
            &&& stroke.two_fingers()
            &&& frame.contacts.len() == 2
            &&& super::geometry::same_ids(frame.contacts, stroke.latest)
            &&& state.step(frame).1->dx_um == to.0 - from.0
            &&& state.step(frame).1->dy_um == to.1 - from.1
        },
{
    reveal(StrokeModel::step);
    super::geometry::lemma_centroid_bounds(frame.contacts);
    super::geometry::lemma_centroid_bounds(state->Tracking_0.latest);
}

/// Over a run of scroll frames the deltas add up to the centroid's whole travel.
pub proof fn law_scroll_deltas_telescope(stroke: StrokeModel, frames: Seq<FrameModel>)
    requires
        stroke.valid(),
        frames.len() > 0,
        all_scroll(RecognizerModel::Tracking(stroke), frames),
    ensures
        scroll_total(RecognizerModel::Tracking(stroke), frames) == (
            super::geometry::centroid_of(frames.last().contacts).0
                - super::geometry::centroid_of(stroke.latest).0,
            super::geometry::centroid_of(frames.last().contacts).1
                - super::geometry::centroid_of(stroke.latest).1,
        ),
        RecognizerModel::Tracking(stroke).run(frames) matches RecognizerModel::Tracking(end)
            && end.latest == frames.last().contacts,
    decreases frames.len(),
{
    let state = RecognizerModel::Tracking(stroke);
    let before = frames.drop_last();
    assert(frames.take(frames.len() - 1) =~= before);
    assert(state.run(frames.take(frames.len() - 1)).step(frames[frames.len() - 1]).1 is Scroll);
    law_states_stay_valid(state, before);
    let reached = state.run(before);
    law_scroll_delta_is_travel_since_previous_frame(reached, frames.last());
    lemma_scroll_tracks_frame(reached, frames.last());
    if before.len() > 0 {
        assert forall|i: int| 0 <= i < before.len() implies state.run(before.take(i)).step(
            #[trigger] before[i],
        ).1 is Scroll by {
            assert(before.take(i) =~= frames.take(i));
            assert(state.run(frames.take(i)).step(frames[i]).1 is Scroll);
        }
        law_scroll_deltas_telescope(stroke, before);
        assert(before.last() == frames[frames.len() - 2]);
        assert(reached->Tracking_0.latest == before.last().contacts);
    } else {
        assert(reached == state);
        assert(scroll_total(state, before) == (0int, 0int));
    }
    let sum = scroll_total(state, before);
    let delta = reached.step(frames.last()).1;
    assert(scroll_total(state, frames) == (sum.0 + delta->dx_um, sum.1 + delta->dy_um));
}

proof fn lemma_scroll_tracks_frame(state: RecognizerModel, frame: FrameModel)
    requires
        state.step(frame).1 is Scroll,
    ensures
        state.step(frame).0 matches RecognizerModel::Tracking(end) && end.latest
            == frame.contacts,
{
    reveal(StrokeModel::step);
}

/// Scrolling claims the stroke for good: while no third finger lands, it neither becomes a pinch
/// or another gesture, nor ends as a tap.
pub proof fn law_scroll_claim_is_sticky(
    state: RecognizerModel,
    frame: FrameModel,
    later: Seq<FrameModel>,
    next: FrameModel,
)
    requires
        state.valid(),
        state.step(frame).1 is Scroll,
        one_or_two_fingers(later),
        1 <= next.contacts.len() <= 2,
    ensures
        !(state.step(frame).0.run(later).step(next).1 is Gesture),
        state.step(frame).0.run(later).tap_on_end() is None,
{
    lemma_step_valid(state, frame);
    assert(claimed_for_scrolling(state.step(frame).0)) by {
        reveal(StrokeModel::step);
    }
    lemma_claim_kept(state.step(frame).0, later);
    lemma_claim_step(state.step(frame).0.run(later), next);
}

/// Once claimed, a stroke goes on scrolling: while frames hold its two fingers, every one of them
/// is recognized as scrolling.
pub proof fn law_claimed_stroke_keeps_scrolling(stroke: StrokeModel, frames: Seq<FrameModel>)
    requires
        claimed_for_scrolling(RecognizerModel::Tracking(stroke)),
        stroke.two_fingers(),
        forall|i: int|
            0 <= i < frames.len() ==> super::geometry::same_ids(
                (#[trigger] frames[i]).contacts,
                stroke.latest,
            ),
    ensures
        all_scroll(RecognizerModel::Tracking(stroke), frames),
{
    let state = RecognizerModel::Tracking(stroke);
    assert forall|i: int| 0 <= i < frames.len() implies state.run(frames.take(i)).step(
        #[trigger] frames[i],
    ).1 is Scroll by {
        lemma_claimed_pair_kept(stroke, frames.take(i));
        reveal(StrokeModel::step);
    }
}

proof fn lemma_claimed_pair_kept(stroke: StrokeModel, frames: Seq<FrameModel>)
    requires
        claimed_for_scrolling(RecognizerModel::Tracking(stroke)),
        stroke.two_fingers(),
        forall|i: int|
            0 <= i < frames.len() ==> super::geometry::same_ids(
                (#[trigger] frames[i]).contacts,
                stroke.latest,
            ),
    ensures
        ({
            let reached = RecognizerModel::Tracking(stroke).run(frames);
            &&& claimed_for_scrolling(reached)
            &&& reached->Tracking_0.two_fingers()
            &&& super::geometry::same_ids(reached->Tracking_0.latest, stroke.latest)
        }),
    decreases frames.len(),
{
    if frames.len() > 0 {
        let before = frames.drop_last();
        assert forall|i: int| 0 <= i < before.len() implies super::geometry::same_ids(
            (#[trigger] before[i]).contacts,
            stroke.latest,
        ) by {
            assert(before[i] == frames[i]);
        }
        lemma_claimed_pair_kept(stroke, before);
        let reached = RecognizerModel::Tracking(stroke).run(before);
        let frame = frames[frames.len() - 1];
        assert(super::geometry::same_ids(frame.contacts, stroke.latest));
        lemma_step_valid(reached, frame);
        reveal(StrokeModel::step);
    }
}

/// Landing fingers begin the stroke anew: while none of its fingers has lifted, a frame that holds
/// them and more does what it would do as the first frame of a stroke, and nothing fires.
pub proof fn law_landing_fingers_rebase(state: RecognizerModel, frame: FrameModel)
    requires
        state.valid(),
        state matches RecognizerModel::Tracking(stroke) && {
            &&& stroke.latest.len() == stroke.starts.len()
            &&& super::geometry::ids_within(stroke.latest, frame.contacts)
            &&& stroke.latest.len() < frame.contacts.len() <= 4
        },
    ensures
        state.step(frame) == RecognizerModel::Idle.step(frame),
        state.step(frame).1 == GestureRecognition::Pending,
{
    reveal(StrokeModel::step);
}

proof fn lemma_claim_kept(state: RecognizerModel, later: Seq<FrameModel>)
    requires
        claimed_for_scrolling(state) || state is Cancelled,
        one_or_two_fingers(later),
    ensures
        claimed_for_scrolling(state.run(later)) || state.run(later) is Cancelled,
    decreases later.len(),
{
    if later.len() > 0 {
        assert forall|i: int| 0 <= i < later.drop_last().len() implies 1 <= (
        #[trigger] later.drop_last()[i]).contacts.len() <= 2 by {
            assert(1 <= later[i].contacts.len() <= 2);
        }
        lemma_claim_kept(state, later.drop_last());
        assert(1 <= later[later.len() - 1].contacts.len() <= 2);
        lemma_claim_step(state.run(later.drop_last()), later.last());
    }
}

proof fn lemma_claim_step(state: RecognizerModel, frame: FrameModel)
    requires
        claimed_for_scrolling(state) || state is Cancelled,
        1 <= frame.contacts.len() <= 2,
    ensures
        claimed_for_scrolling(state.step(frame).0) || state.step(frame).0 is Cancelled,
        !(state.step(frame).1 is Gesture),
{
    reveal(StrokeModel::step);
    if claimed_for_scrolling(state) {
        lemma_step_valid(state, frame);
    }
}

/// The mean travel of two fingers is no longer than the longer of the two travels, so a stroke
/// whose mean travel passes the tap limit has a finger beyond it.
pub(crate) proof fn lemma_scrolling_travels(stroke: StrokeModel)
    requires
        stroke.consistent(),
        stroke.travel_recorded(),
        stroke.two_fingers(),
        stroke.centroid_distance() > super::TAP_MAX_TRAVEL_UM,
    ensures
        stroke.max_contact_travel_um > super::TAP_MAX_TRAVEL_UM,
{
    let contacts = stroke.latest;
    let rest = contacts.drop_last();
    let (p, q) = (contacts[0], contacts[1]);
    assert(rest.last() == p && contacts.last() == q);
    assert(rest.drop_last().len() == 0);
    reveal_with_fuel(super::geometry::sum_travel, 3);
    reveal_with_fuel(super::geometry::farthest_travel, 3);
    let a = super::geometry::start_of(stroke.starts, p);
    let b = super::geometry::start_of(stroke.starts, q);
    let (px, py) = (p.x_um - a.x_um, p.y_um - a.y_um);
    let (qx, qy) = (q.x_um - b.x_um, q.y_um - b.y_um);
    let (dx, dy) = (stroke.motion().dx, stroke.motion().dy);
    assert(super::geometry::sum_travel(stroke.starts, contacts) == (px + qx, py + qy));
    lemma_mean_square(px, qx, dx);
    lemma_mean_square(py, qy, dy);
    if px * px + py * py >= qx * qx + qy * qy {
        lemma_length_monotonic(dx, dy, px, py);
    } else {
        lemma_length_monotonic(dx, dy, qx, qy);
    }
    assert(super::geometry::contact_with(stroke.starts, contacts[0].id) is Some);
    assert(super::geometry::contact_with(stroke.starts, contacts[1].id) is Some);
    assert(super::geometry::distance_of(a, p) == super::geometry::length_of(px, py));
    assert(super::geometry::distance_of(b, q) == super::geometry::length_of(qx, qy));
}

proof fn lemma_mean_square(p: int, q: int, mean: int)
    requires
        mean == crate::math::trunc_div(p + q, 2),
    ensures
        2 * (mean * mean) <= p * p + q * q,
{
    assert((2 * mean) * (2 * mean) <= (p + q) * (p + q)) by (nonlinear_arith)
        requires
            (0 <= 2 * mean <= p + q) || (p + q <= 2 * mean <= 0),
    ;
    assert((p + q) * (p + q) <= 2 * (p * p + q * q)) by (nonlinear_arith);
    assert((2 * mean) * (2 * mean) == 4 * (mean * mean)) by (nonlinear_arith);
}

proof fn lemma_length_monotonic(ax: int, ay: int, bx: int, by: int)
    requires
        ax * ax + ay * ay <= bx * bx + by * by,
    ensures
        super::geometry::length_of(ax, ay) <= super::geometry::length_of(bx, by),
{
    assert(ax * ax >= 0) by (nonlinear_arith);
    assert(ay * ay >= 0) by (nonlinear_arith);
    let a = crate::math::lesser(ax * ax + ay * ay, u64::MAX as int) as nat;
    let b = crate::math::lesser(bx * bx + by * by, u64::MAX as int) as nat;
    crate::math::lemma_floor_sqrt_exists(a);
    crate::math::lemma_floor_sqrt_exists(b);
    let (r, s) = (crate::math::floor_sqrt(a), crate::math::floor_sqrt(b));
    assert(r <= s) by (nonlinear_arith)
        requires
            r * r <= a,
            a <= b,
            b < (s + 1) * (s + 1),
    ;
}

} // verus!
