//! What moving fingers are recognized as, told by how far and which way they moved.
//!
//! These laws speak of frames alone: of fingers that land, move together or apart, and lift.
use vstd::prelude::*;

use super::{FrameModel, GestureRecognition, RecognizerModel, StrokeModel, TouchContact};
use crate::binding::ButtonId;

verus! {

/// Whether the same fingers have all moved by the same distance, to the right and down.
pub open spec fn shifted(from: Seq<TouchContact>, dx: int, dy: int, to: Seq<TouchContact>) -> bool {
    &&& to.len() == from.len()
    &&& forall|i: int|
        0 <= i < from.len() ==> {
            &&& (#[trigger] to[i]).id == from[i].id
            &&& to[i].x_um == from[i].x_um + dx
            &&& to[i].y_um == from[i].y_um + dy
        }
}

/// Moving all fingers moves their centroid by as much and leaves their spread alone.
pub proof fn law_shift_moves_the_centroid(
    from: Seq<TouchContact>,
    dx: int,
    dy: int,
    to: Seq<TouchContact>,
)
    requires
        from.len() > 0,
        shifted(from, dx, dy, to),
    ensures
        super::geometry::centroid_of(to).0 == super::geometry::centroid_of(from).0 + dx,
        super::geometry::centroid_of(to).1 == super::geometry::centroid_of(from).1 + dy,
        super::geometry::spread_of(to) == super::geometry::spread_of(from),
{
    lemma_shift_sums(from, dx, dy, to);
    let n = from.len() as int;
    lemma_shift_quotient(super::geometry::sum_x(from) as int, n, dx);
    lemma_shift_quotient(super::geometry::sum_y(from) as int, n, dy);
    lemma_shift_radius(from, dx, dy, to, super::geometry::centroid_of(from));
}

proof fn lemma_shift_quotient(sum: int, n: int, d: int)
    requires
        n > 0,
    ensures
        (sum + n * d) / n == sum / n + d,
{
    vstd::arithmetic::div_mod::lemma_hoist_over_denominator(sum, d, n as nat);
}

proof fn lemma_shift_sums(from: Seq<TouchContact>, dx: int, dy: int, to: Seq<TouchContact>)
    requires
        shifted(from, dx, dy, to),
    ensures
        super::geometry::sum_x(to) == super::geometry::sum_x(from) + from.len() * dx,
        super::geometry::sum_y(to) == super::geometry::sum_y(from) + from.len() * dy,
    decreases from.len(),
{
    if from.len() > 0 {
        let k = from.len() - 1;
        assert(to[k].x_um == from[k].x_um + dx);
        assert forall|i: int| 0 <= i < k implies {
            &&& (#[trigger] to.drop_last()[i]).id == from.drop_last()[i].id
            &&& to.drop_last()[i].x_um == from.drop_last()[i].x_um + dx
            &&& to.drop_last()[i].y_um == from.drop_last()[i].y_um + dy
        } by {
            assert(to[i].id == from[i].id);
        }
        lemma_shift_sums(from.drop_last(), dx, dy, to.drop_last());
        assert(k * dx + dx == (k + 1) * dx) by (nonlinear_arith);
        assert(k * dy + dy == (k + 1) * dy) by (nonlinear_arith);
    }
}

proof fn lemma_shift_radius(
    from: Seq<TouchContact>,
    dx: int,
    dy: int,
    to: Seq<TouchContact>,
    centre: (int, int),
)
    requires
        shifted(from, dx, dy, to),
    ensures
        super::geometry::sum_radius(to, (centre.0 + dx, centre.1 + dy)) == super::geometry::sum_radius(from, centre),
    decreases from.len(),
{
    if from.len() > 0 {
        let k = from.len() - 1;
        assert(to[k].x_um == from[k].x_um + dx);
        assert forall|i: int| 0 <= i < k implies {
            &&& (#[trigger] to.drop_last()[i]).id == from.drop_last()[i].id
            &&& to.drop_last()[i].x_um == from.drop_last()[i].x_um + dx
            &&& to.drop_last()[i].y_um == from.drop_last()[i].y_um + dy
        } by {
            assert(to[i].id == from[i].id);
        }
        lemma_shift_radius(from.drop_last(), dx, dy, to.drop_last(), centre);
    }
}

proof fn lemma_own_start(starts: Seq<TouchContact>, i: int)
    requires
        super::distinct_ids(starts),
        0 <= i < starts.len(),
    ensures
        super::geometry::contact_with(starts, starts[i].id) == Some(starts[i]),
{
    super::geometry::lemma_present(starts, i);
    let k = super::geometry::lemma_found(starts, starts[i].id);
    if k < i {
        assert(starts[k].id != starts[i].id);
    } else if i < k {
        assert(starts[i].id != starts[k].id);
    }
}

proof fn lemma_shift_travel(
    starts: Seq<TouchContact>,
    dx: int,
    dy: int,
    to: Seq<TouchContact>,
    k: int,
)
    requires
        super::distinct_ids(starts),
        shifted(starts, dx, dy, to),
        0 <= k <= to.len(),
    ensures
        super::geometry::sum_travel(starts, to.take(k)) == (k * dx, k * dy),
        super::geometry::farthest_travel(starts, to.take(k)) == if k == 0 {
            0
        } else {
            super::geometry::length_of(dx, dy)
        },
    decreases k,
{
    if k > 0 {
        lemma_shift_travel(starts, dx, dy, to, k - 1);
        assert(to.take(k).drop_last() =~= to.take(k - 1));
        let last = to[k - 1];
        assert(to.take(k).last() == last);
        assert(last.id == starts[k - 1].id);
        lemma_own_start(starts, k - 1);
        assert(super::geometry::start_of(starts, last) == starts[k - 1]);
        assert((k - 1) * dx + dx == k * dx) by (nonlinear_arith);
        assert((k - 1) * dy + dy == k * dy) by (nonlinear_arith);
    } else {
        assert(to.take(0).len() == 0);
    }
}

/// Mean motion, spread and farthest travel of a stroke whose fingers all moved alike.
proof fn lemma_shift_motion(stroke: StrokeModel, dx: int, dy: int)
    requires
        stroke.consistent(),
        super::distinct_ids(stroke.starts),
        shifted(stroke.starts, dx, dy, stroke.latest),
    ensures
        stroke.motion().dx == dx,
        stroke.motion().dy == dy,
        stroke.motion().spread_um == stroke.start_spread_um,
        stroke.spread_change() == 0,
        super::geometry::farthest_travel(stroke.starts, stroke.latest) == super::geometry::length_of(dx, dy),
{
    let n = stroke.latest.len() as int;
    lemma_shift_travel(stroke.starts, dx, dy, stroke.latest, n);
    assert(stroke.latest.take(n) =~= stroke.latest);
    law_shift_moves_the_centroid(stroke.starts, dx, dy, stroke.latest);
    lemma_whole_quotient(n, dx);
    lemma_whole_quotient(n, dy);
}

proof fn lemma_whole_quotient(n: int, d: int)
    requires
        n > 0,
    ensures
        crate::math::trunc_div(n * d, n) == d,
{
    vstd::arithmetic::div_mod::lemma_div_multiples_vanish(d, n);
    vstd::arithmetic::div_mod::lemma_div_multiples_vanish(-d, n);
    assert(n * d < 0 ==> d < 0) by (nonlinear_arith)
        requires
            n > 0,
    ;
    assert(-(n * d) == n * (-d)) by (nonlinear_arith);
}

/// The length of a vector passes a limit exactly when its square does.
proof fn lemma_length_limit(dx: int, dy: int, limit: nat)
    requires
        limit < 0xffff_ffff,
    ensures
        super::geometry::length_of(dx, dy) > limit <==> dx * dx + dy * dy >= (limit + 1) * (limit + 1),
{
    assert(dx * dx >= 0) by (nonlinear_arith);
    assert(dy * dy >= 0) by (nonlinear_arith);
    let square = dx * dx + dy * dy;
    let n = crate::math::lesser(square, u64::MAX as int) as nat;
    crate::math::lemma_floor_sqrt_exists(n);
    let r = crate::math::floor_sqrt(n);
    let l = limit as int;
    assert((l + 1) * (l + 1) <= u64::MAX) by (nonlinear_arith)
        requires
            0 <= l < 0xffff_ffff,
    ;
    assert(r > l <==> n >= (l + 1) * (l + 1)) by (nonlinear_arith)
        requires
            l >= 0,
            r * r <= n < (r + 1) * (r + 1),
    ;
}

/// Whether frames all hold the fingers of another one.
pub open spec fn same_hand(hand: FrameModel, frames: Seq<FrameModel>) -> bool {
    forall|i: int| 0 <= i < frames.len() ==> super::geometry::same_ids((#[trigger] frames[i]).contacts, hand.contacts)
}

/// A stroke in progress whose fingers stayed down still starts where they landed, and has counted
/// every frame since.
proof fn lemma_stroke_remembers(first: FrameModel, middle: Seq<FrameModel>)
    requires
        2 <= first.contacts.len() <= 4,
        same_hand(first, middle),
        RecognizerModel::Idle.step(first).0.run(middle) is Tracking,
    ensures
        ({
            let stroke = RecognizerModel::Idle.step(first).0.run(middle)->Tracking_0;
            &&& stroke.valid()
            &&& stroke.starts == first.contacts
            &&& stroke.started_at_us == first.timestamp_us
            &&& super::geometry::same_ids(stroke.latest, first.contacts)
            &&& stroke.motion_frames == crate::math::lesser(middle.len() as int, 255)
        }),
    decreases middle.len(),
{
    let state = RecognizerModel::Idle.step(first).0;
    assert forall|i: int| 0 <= i < first.contacts.len() implies super::geometry::contact_with(
        first.contacts,
        (#[trigger] first.contacts[i]).id,
    ) is Some by {
        super::geometry::lemma_present(first.contacts, i);
    }
    super::geometry::lemma_centroid_bounds(first.contacts);
    if middle.len() > 0 {
        let before = middle.drop_last();
        let last = middle.last();
        assert forall|i: int| 0 <= i < before.len() implies super::geometry::same_ids(
            (#[trigger] before[i]).contacts,
            first.contacts,
        ) by {
            assert(before[i] == middle[i]);
        }
        assert(middle[middle.len() - 1] == last);
        reveal(StrokeModel::step);
        if state.run(before) is Tracking {
            lemma_stroke_remembers(first, before);
            super::laws::law_states_stay_valid(state, middle);
        }
    }
}

/// Whether a travel of `along` and `across` micrometres within `time` microseconds and `frames`
/// frames is enough of a swipe: a centimetre, hardly askew, fast, and either lasting or a flick.
pub open spec fn is_swipe_travel(
    along: int,
    across: int,
    time: int,
    frames: int,
    least_time: int,
) -> bool {
    &&& along >= 10_000
    &&& across <= 3_000 || across * 100 <= along * 40
    &&& time >= least_time || (frames >= 3 && along >= 15_000)
    &&& along * 1_000_000 >= 50_000 * time
}

/// Three or four fingers that move together swipe the way they move, with as many fingers as
/// landed: to the right where x grows, to the left where it shrinks, down where y grows and up
/// where it shrinks. They do so with the first frame that has enough of a travel, and no other
/// frame is recognized as anything.
pub proof fn law_swipe_follows_the_fingers(
    first: FrameModel,
    middle: Seq<FrameModel>,
    frame: FrameModel,
    dx: int,
    dy: int,
)
    requires
        first.contacts.len() == 3 || first.contacts.len() == 4,
        super::distinct_ids(first.contacts),
        same_hand(first, middle),
        RecognizerModel::Idle.step(first).0.run(middle) is Tracking,
        shifted(first.contacts, dx, dy, frame.contacts),
        first.timestamp_us <= frame.timestamp_us,
    ensures
        ({
            let three = first.contacts.len() == 3;
            let time = frame.timestamp_us - first.timestamp_us;
            let frames = middle.len() + 1;
            let x = crate::math::magnitude(dx) as int;
            let y = crate::math::magnitude(dy) as int;
            let seen = RecognizerModel::Idle.step(first).0.run(middle).step(frame).1;
            &&& x > y && is_swipe_travel(x, y, time, frames as int, 50_000) ==> {
                &&& three && dx > 0 ==> seen == GestureRecognition::Gesture(
                    ButtonId::TouchpadThreeFingerSwipeRight,
                )
                &&& three && dx < 0 ==> seen == GestureRecognition::Gesture(
                    ButtonId::TouchpadThreeFingerSwipeLeft,
                )
                &&& !three && dx > 0 ==> seen == GestureRecognition::Gesture(
                    ButtonId::TouchpadFourFingerSwipeRight,
                )
                &&& !three && dx < 0 ==> seen == GestureRecognition::Gesture(
                    ButtonId::TouchpadFourFingerSwipeLeft,
                )
            }
            &&& x <= y && is_swipe_travel(y, x, time, frames as int, 35_000) ==> {
                &&& three && dy > 0 ==> seen == GestureRecognition::Gesture(
                    ButtonId::TouchpadThreeFingerSwipeDown,
                )
                &&& three && dy < 0 ==> seen == GestureRecognition::Gesture(
                    ButtonId::TouchpadThreeFingerSwipeUp,
                )
                &&& !three && dy > 0 ==> seen == GestureRecognition::Gesture(
                    ButtonId::TouchpadFourFingerSwipeDown,
                )
                &&& !three && dy < 0 ==> seen == GestureRecognition::Gesture(
                    ButtonId::TouchpadFourFingerSwipeUp,
                )
            }
            &&& x > y && !is_swipe_travel(x, y, time, frames as int, 50_000) ==> seen
                == GestureRecognition::Pending
            &&& x <= y && !is_swipe_travel(y, x, time, frames as int, 35_000) ==> seen
                == GestureRecognition::Pending
        }),
{
    lemma_stroke_remembers(first, middle);
    let stroke = RecognizerModel::Idle.step(first).0.run(middle)->Tracking_0;
    assert forall|i: int| 0 <= i < frame.contacts.len() implies (
    #[trigger] frame.contacts[i]).id == stroke.latest[i].id by {
        assert(stroke.latest[i].id == first.contacts[i].id);
    }
    reveal(StrokeModel::step);
    super::geometry::lemma_ids_within(frame.contacts, stroke.latest, stroke.starts);
    let moved = StrokeModel {
        motion_frames: crate::math::lesser(stroke.motion_frames as int + 1, 255) as nat,
        ..stroke.recorded(frame)
    };
    lemma_shift_motion(moved, dx, dy);
    let decided = moved.after_scroll_decision();
    assert(decided == moved);
    assert(moved.starts.len() as int >= 3);
}

/// A swipe needs its motion: whatever a frame looks like that is recognized as one, the fingers
/// still down have on the whole travelled that way from where they landed, at least a centimetre
/// on average, hardly askew and fast enough, and as many fingers as the swipe has had landed.
pub proof fn law_swipes_have_travelled(state: RecognizerModel, frame: FrameModel)
    requires
        state.valid(),
    ensures
        ({
            let stroke = state->Tracking_0;
            let sum = super::geometry::sum_travel(stroke.starts, frame.contacts);
            let n = frame.contacts.len() as int;
            let landed = stroke.starts.len();
            let time = if frame.timestamp_us >= stroke.started_at_us {
                frame.timestamp_us - stroke.started_at_us
            } else {
                0
            };
            let seen = state.step(frame).1;
            let askew = |across: int, along: int, n: int|
                across * 100 <= 300_000 * n + 100 * n || across * 100 <= along * 40 + 100 * n;
            let swept = |trigger: ButtonId, fingers: nat, along: int, across: int|
                seen == GestureRecognition::Gesture(trigger) ==> {
                    &&& state is Tracking
                    &&& landed == fingers
                    &&& along >= 10_000 * n
                    &&& across < along + n && -across < along + n
                    &&& askew(across, along, n) && askew(-across, along, n)
                    &&& along * 1_000_000 >= 50_000 * time * n
                };
            &&& swept(ButtonId::TouchpadThreeFingerSwipeRight, 3, sum.0, sum.1)
            &&& swept(ButtonId::TouchpadThreeFingerSwipeLeft, 3, -sum.0, sum.1)
            &&& swept(ButtonId::TouchpadThreeFingerSwipeDown, 3, sum.1, sum.0)
            &&& swept(ButtonId::TouchpadThreeFingerSwipeUp, 3, -sum.1, sum.0)
            &&& swept(ButtonId::TouchpadFourFingerSwipeRight, 4, sum.0, sum.1)
            &&& swept(ButtonId::TouchpadFourFingerSwipeLeft, 4, -sum.0, sum.1)
            &&& swept(ButtonId::TouchpadFourFingerSwipeDown, 4, sum.1, sum.0)
            &&& swept(ButtonId::TouchpadFourFingerSwipeUp, 4, -sum.1, sum.0)
        }),
{
    reveal(StrokeModel::step);
    if state is Tracking && 1 <= frame.contacts.len() <= 4 {
        let stroke = state->Tracking_0;
        let sum = super::geometry::sum_travel(stroke.starts, frame.contacts);
        let n = frame.contacts.len() as int;
        lemma_mean_bounds(sum.0, n);
        lemma_mean_bounds(sum.1, n);
        let time = if frame.timestamp_us >= stroke.started_at_us {
            frame.timestamp_us - stroke.started_at_us
        } else {
            0
        };
        let dx = crate::math::trunc_div(sum.0, n);
        let dy = crate::math::trunc_div(sum.1, n);
        lemma_swept_sums(dx, sum.0, dy, sum.1, time, n);
        lemma_swept_sums(-dx, -sum.0, dy, sum.1, time, n);
        lemma_swept_sums(dy, sum.1, dx, sum.0, time, n);
        lemma_swept_sums(-dy, -sum.1, dx, sum.0, time, n);
    }
}

/// What the mean travel of a swipe says of the sum it is the mean of.
proof fn lemma_swept_sums(
    along: int,
    along_sum: int,
    across: int,
    across_sum: int,
    time: int,
    n: int,
)
    requires
        n > 0,
        along_sum >= 0 ==> 0 <= along && along * n <= along_sum < along * n + n,
        along_sum <= 0 ==> along <= 0,
        across_sum >= 0 ==> across * n <= across_sum < across * n + n,
        across_sum <= 0 ==> across * n - n < across_sum <= across * n,
    ensures
        along >= 10_000 && crate::math::magnitude(across) <= along && crate::math::magnitude(across)
            <= crate::math::greater(3_000, along * 40 / 100) && along * 1_000_000 >= 50_000 * time
            ==> {
            &&& along_sum >= 10_000 * n
            &&& across_sum < along_sum + n && -across_sum < along_sum + n
            &&& across_sum * 100 <= 300_000 * n + 100 * n || across_sum * 100 <= along_sum * 40
                + 100 * n
            &&& -across_sum * 100 <= 300_000 * n + 100 * n || -across_sum * 100 <= along_sum * 40
                + 100 * n
            &&& along_sum * 1_000_000 >= 50_000 * time * n
        },
{
    if along >= 10_000 && crate::math::magnitude(across) <= along && crate::math::magnitude(across)
        <= crate::math::greater(3_000, along * 40 / 100) && along * 1_000_000 >= 50_000 * time {
        lemma_scaled(along, along_sum, time, n);
        assert(along * n >= 10_000 * n) by (nonlinear_arith)
            requires
                along >= 10_000,
                n > 0,
        ;
        assert(across * n <= along * n && -(across * n) <= along * n) by (nonlinear_arith)
            requires
                -along <= across <= along,
                n > 0,
        ;
        if crate::math::magnitude(across) <= 3_000 {
            assert(across * n <= 3_000 * n && -(across * n) <= 3_000 * n) by (nonlinear_arith)
                requires
                    -3_000 <= across <= 3_000,
                    n > 0,
            ;
        } else {
            assert(across * n * 100 <= along * n * 40 && -(across * n) * 100 <= along * n * 40)
                by (nonlinear_arith)
                requires
                    across * 100 <= along * 40,
                    -across * 100 <= along * 40,
                    n > 0,
            ;
        }
    }
}

proof fn lemma_scaled(mean: int, total: int, time: int, n: int)
    requires
        n > 0,
    ensures
        mean * 1_000_000 >= 50_000 * time && mean >= 0 && mean * n <= total ==> total * 1_000_000
            >= 50_000 * time * n,
{
    if mean * 1_000_000 >= 50_000 * time && mean * n <= total {
        assert(mean * 1_000_000 * n >= 50_000 * time * n) by (nonlinear_arith)
            requires
                mean * 1_000_000 >= 50_000 * time,
                n > 0,
        ;
        assert(mean * 1_000_000 * n == mean * n * 1_000_000) by (nonlinear_arith);
    }
}

proof fn lemma_mean_bounds(sum: int, n: int)
    requires
        n > 0,
    ensures
        ({
            let mean = crate::math::trunc_div(sum, n);
            &&& sum >= 0 ==> 0 <= mean && mean * n <= sum < mean * n + n
            &&& sum <= 0 ==> mean <= 0 && mean * n - n < sum <= mean * n
        }),
{
    vstd::arithmetic::div_mod::lemma_fundamental_div_mod(sum, n);
    vstd::arithmetic::div_mod::lemma_mod_bound(sum, n);
    vstd::arithmetic::div_mod::lemma_fundamental_div_mod(-sum, n);
    vstd::arithmetic::div_mod::lemma_mod_bound(-sum, n);
    let q = sum / n;
    let p = (-sum) / n;
    assert(n * q == q * n && n * p == p * n && (-p) * n == -(p * n)) by (nonlinear_arith);
    assert(sum >= 0 ==> q >= 0) by (nonlinear_arith)
        requires
            n > 0,
            sum < q * n + n,
    ;
    assert(sum <= 0 ==> p >= 0) by (nonlinear_arith)
        requires
            n > 0,
            -sum < p * n + n,
    ;
}

/// The stroke a second frame makes of a landing.
proof fn lemma_second_frame(first: FrameModel, second: FrameModel, dx: int, dy: int)
    requires
        2 <= first.contacts.len() <= 4,
        super::distinct_ids(first.contacts),
        shifted(first.contacts, dx, dy, second.contacts),
    ensures
        ({
            let moved = StrokeModel {
                motion_frames: 1,
                ..StrokeModel::landing(first).recorded(second)
            };
            &&& moved.consistent()
            &&& super::geometry::same_ids(second.contacts, first.contacts)
            &&& moved.starts == first.contacts
            &&& moved.latest == second.contacts
            &&& moved.motion().dx == dx
            &&& moved.motion().dy == dy
            &&& moved.spread_change() == 0
            &&& moved.max_contact_travel_um == super::geometry::length_of(dx, dy)
            &&& moved.centroid_distance() == super::geometry::length_of(dx, dy)
        }),
{
    let state = RecognizerModel::Idle.step(first).0;
    let stroke = StrokeModel::landing(first);
    lemma_stroke_remembers(first, Seq::empty());
    assert(state.run(Seq::<FrameModel>::empty()) == state);
    super::geometry::lemma_ids_within(second.contacts, stroke.latest, stroke.starts);
    let moved = StrokeModel { motion_frames: 1, ..stroke.recorded(second) };
    lemma_shift_motion(moved, dx, dy);
}

/// Fingers that land, move together by no more than three millimetres and lift within a quarter of
/// a second have tapped, with as many fingers as landed; fingers that move further or stay longer
/// have not.
pub proof fn law_tap_is_short_and_still(first: FrameModel, second: FrameModel, dx: int, dy: int)
    requires
        2 <= first.contacts.len() <= 4,
        super::distinct_ids(first.contacts),
        shifted(first.contacts, dx, dy, second.contacts),
        first.timestamp_us <= second.timestamp_us,
    ensures
        ({
            let n = first.contacts.len();
            let still = dx * dx + dy * dy < 3_001 * 3_001;
            let short = second.timestamp_us - first.timestamp_us <= 250_000;
            let lifted = RecognizerModel::Idle.step(first).0.step(second).0.tap_on_end();
            &&& still && short && n == 2 ==> lifted == Some(ButtonId::TouchpadTwoFingerTap)
            &&& still && short && n == 3 ==> lifted == Some(ButtonId::TouchpadThreeFingerTap)
            &&& still && short && n == 4 ==> lifted == Some(ButtonId::TouchpadFourFingerTap)
            &&& !still || !short ==> lifted is None
        }),
{
    lemma_second_frame(first, second, dx, dy);
    lemma_length_limit(dx, dy, 3_000);
    reveal(StrokeModel::step);
    let moved = StrokeModel { motion_frames: 1, ..StrokeModel::landing(first).recorded(second) };
    assert(StrokeModel::landing(first).motion_frames == 0);
    if dx * dx + dy * dy < 3_001 * 3_001 {
        assert(-3_001 < dx < 3_001 && -3_001 < dy < 3_001) by (nonlinear_arith)
            requires
                dx * dx + dy * dy < 3_001 * 3_001,
        ;
    }
}

/// A finger that has strayed is remembered: once any frame of a stroke had a finger more than
/// three millimetres from where it landed, lifting later is no tap, wherever the fingers are then.
pub proof fn law_straying_is_remembered(
    first: FrameModel,
    strayed: FrameModel,
    dx: int,
    dy: int,
    last: FrameModel,
)
    requires
        2 <= first.contacts.len() <= 4,
        super::distinct_ids(first.contacts),
        shifted(first.contacts, dx, dy, strayed.contacts),
        dx * dx + dy * dy >= 3_001 * 3_001,
        super::geometry::same_ids(last.contacts, first.contacts),
    ensures
        RecognizerModel::Idle.step(first).0.step(strayed).0.step(last).0.tap_on_end() is None,
{
    lemma_second_frame(first, strayed, dx, dy);
    lemma_length_limit(dx, dy, 3_000);
    reveal(StrokeModel::step);
}

/// Two fingers that land and move together scroll by exactly their motion once it passes three
/// millimetres, and until then do nothing.
pub proof fn law_two_fingers_scroll_by_their_motion(
    first: FrameModel,
    second: FrameModel,
    dx: int,
    dy: int,
)
    requires
        first.contacts.len() == 2,
        super::distinct_ids(first.contacts),
        shifted(first.contacts, dx, dy, second.contacts),
    ensures
        ({
            let seen = RecognizerModel::Idle.step(first).0.step(second).1;
            if dx * dx + dy * dy >= 3_001 * 3_001 {
                seen is Scroll && seen->dx_um == dx && seen->dy_um == dy
            } else {
                seen is Pending
            }
        }),
{
    lemma_second_frame(first, second, dx, dy);
    lemma_length_limit(dx, dy, 3_000);
    law_shift_moves_the_centroid(first.contacts, dx, dy, second.contacts);
    super::geometry::lemma_centroid_bounds(first.contacts);
    super::geometry::lemma_centroid_bounds(second.contacts);
    reveal(StrokeModel::step);
}

/// A stroke that scrolls goes on by exactly the motion of its two fingers, however small.
pub proof fn law_scrolling_goes_on_by_the_motion(
    state: RecognizerModel,
    frame: FrameModel,
    next: FrameModel,
    dx: int,
    dy: int,
)
    requires
        state.valid(),
        state.step(frame).1 is Scroll,
        shifted(frame.contacts, dx, dy, next.contacts),
    ensures
        ({
            let seen = state.step(frame).0.step(next).1;
            seen is Scroll && seen->dx_um == dx && seen->dy_um == dy
        }),
{
    super::laws::law_scroll_delta_is_travel_since_previous_frame(state, frame);
    super::laws::law_states_stay_valid(state, seq![frame]);
    assert(seq![frame].drop_last() =~= Seq::<FrameModel>::empty());
    assert(state.run(Seq::<FrameModel>::empty()) == state);
    assert(state.run(seq![frame]) == state.step(frame).0);
    law_shift_moves_the_centroid(frame.contacts, dx, dy, next.contacts);
    super::geometry::lemma_centroid_bounds(frame.contacts);
    super::geometry::lemma_centroid_bounds(next.contacts);
    reveal(StrokeModel::step);
}

/// Whether two fingers lie `apart` micrometres to either side of a point, along one axis.
pub open spec fn pair_around(
    contacts: Seq<TouchContact>,
    x: int,
    y: int,
    apart: int,
    horizontal: bool,
) -> bool {
    &&& contacts.len() == 2
    &&& contacts[0].x_um == x - if horizontal {
        apart
    } else {
        0
    }
    &&& contacts[0].y_um == y - if horizontal {
        0
    } else {
        apart
    }
    &&& contacts[1].x_um == x + if horizontal {
        apart
    } else {
        0
    }
    &&& contacts[1].y_um == y + if horizontal {
        0
    } else {
        apart
    }
}

/// Whether four fingers lie `apart` micrometres to the left, right, top and bottom of a point.
pub open spec fn cross_around(contacts: Seq<TouchContact>, x: int, y: int, apart: int) -> bool {
    &&& contacts.len() == 4
    &&& contacts[0].x_um == x - apart && contacts[0].y_um == y
    &&& contacts[1].x_um == x + apart && contacts[1].y_um == y
    &&& contacts[2].x_um == x && contacts[2].y_um == y - apart
    &&& contacts[3].x_um == x && contacts[3].y_um == y + apart
}

/// The change of spread a pinch needs: eight millimetres, or eight percent of a large spread.
pub open spec fn pinch_needs(start: int) -> int {
    if start * 8 / 100 > 8_000 {
        start * 8 / 100
    } else {
        8_000
    }
}

proof fn lemma_axis_length(d: int)
    requires
        -0xffff_ffff <= d <= 0xffff_ffff,
    ensures
        super::geometry::length_of(d, 0) == crate::math::magnitude(d),
        super::geometry::length_of(0, d) == crate::math::magnitude(d),
{
    let m = crate::math::magnitude(d);
    assert(d * d == m * m && d * d + 0 * 0 == d * d && 0 * 0 + d * d == d * d) by (nonlinear_arith)
        requires
            m == d || m == -d,
    ;
    assert(0 <= m * m <= u64::MAX) by (nonlinear_arith)
        requires
            0 <= m <= 0xffff_ffff,
    ;
    assert(crate::math::is_floor_sqrt((m * m) as nat, m)) by (nonlinear_arith);
    crate::math::lemma_floor_sqrt_unique((m * m) as nat, m);
}

proof fn lemma_pair_spread(
    contacts: Seq<TouchContact>,
    x: int,
    y: int,
    apart: int,
    horizontal: bool,
)
    requires
        pair_around(contacts, x, y, apart, horizontal),
        apart >= 0,
    ensures
        super::geometry::centroid_of(contacts) == (x, y),
        super::geometry::spread_of(contacts) == apart,
{
    let one = contacts.drop_last();
    assert(one.drop_last().len() == 0);
    assert(one.last() == contacts[0] && contacts.last() == contacts[1]);
    reveal_with_fuel(super::geometry::sum_x, 3);
    reveal_with_fuel(super::geometry::sum_y, 3);
    reveal_with_fuel(super::geometry::sum_radius, 3);
    lemma_axis_length(apart);
    lemma_axis_length(-apart);
}

proof fn lemma_cross_spread(contacts: Seq<TouchContact>, x: int, y: int, apart: int)
    requires
        cross_around(contacts, x, y, apart),
        apart >= 0,
    ensures
        super::geometry::centroid_of(contacts) == (x, y),
        super::geometry::spread_of(contacts) == apart,
{
    let three = contacts.drop_last();
    let two = three.drop_last();
    let one = two.drop_last();
    assert(one.drop_last().len() == 0);
    assert(one.last() == contacts[0] && two.last() == contacts[1]);
    assert(three.last() == contacts[2] && contacts.last() == contacts[3]);
    reveal_with_fuel(super::geometry::sum_x, 5);
    reveal_with_fuel(super::geometry::sum_y, 5);
    reveal_with_fuel(super::geometry::sum_radius, 5);
    lemma_axis_length(apart);
    lemma_axis_length(-apart);
}

/// Two fingers that land and move apart pinch out, and two that close in pinch in, once the change
/// is large enough; until then they do nothing.
pub proof fn law_two_finger_pinch_follows_the_fingers(
    first: FrameModel,
    second: FrameModel,
    x: int,
    y: int,
    start: int,
    end: int,
    horizontal: bool,
)
    requires
        super::distinct_ids(first.contacts),
        super::geometry::same_ids(second.contacts, first.contacts),
        pair_around(first.contacts, x, y, start, horizontal),
        pair_around(second.contacts, x, y, end, horizontal),
        start >= 0,
        end >= 0,
    ensures
        RecognizerModel::Idle.step(first).0.step(second).1 == if end - start >= pinch_needs(start) {
            GestureRecognition::Gesture(ButtonId::TouchpadTwoFingerPinchOut)
        } else if start - end >= pinch_needs(start) {
            GestureRecognition::Gesture(ButtonId::TouchpadTwoFingerPinchIn)
        } else {
            GestureRecognition::Pending
        },
{
    lemma_pair_spread(first.contacts, x, y, start, horizontal);
    lemma_pair_spread(second.contacts, x, y, end, horizontal);
    let (a, b) = (first.contacts, second.contacts);
    assert(b[0].id == a[0].id && b[1].id == a[1].id);
    lemma_own_start(a, 0);
    lemma_own_start(a, 1);
    assert(b.drop_last().drop_last().len() == 0);
    assert(b.drop_last().last() == b[0] && b.last() == b[1]);
    reveal_with_fuel(super::geometry::sum_travel, 3);
    assert(super::geometry::sum_travel(a, b) == (0int, 0int));
    lemma_axis_length(0);
    reveal(StrokeModel::step);
}

/// Four fingers that land and move apart pinch out, and four that close in pinch in, once the
/// change is large enough; until then they do nothing.
pub proof fn law_four_finger_pinch_follows_the_fingers(
    first: FrameModel,
    second: FrameModel,
    x: int,
    y: int,
    start: int,
    end: int,
)
    requires
        super::distinct_ids(first.contacts),
        super::geometry::same_ids(second.contacts, first.contacts),
        cross_around(first.contacts, x, y, start),
        cross_around(second.contacts, x, y, end),
        start >= 0,
        end >= 0,
    ensures
        RecognizerModel::Idle.step(first).0.step(second).1 == if end - start >= pinch_needs(start) {
            GestureRecognition::Gesture(ButtonId::TouchpadFourFingerPinchOut)
        } else if start - end >= pinch_needs(start) {
            GestureRecognition::Gesture(ButtonId::TouchpadFourFingerPinchIn)
        } else {
            GestureRecognition::Pending
        },
{
    lemma_cross_spread(first.contacts, x, y, start);
    lemma_cross_spread(second.contacts, x, y, end);
    let (a, b) = (first.contacts, second.contacts);
    assert(b[0].id == a[0].id && b[1].id == a[1].id && b[2].id == a[2].id && b[3].id == a[3].id);
    lemma_own_start(a, 0);
    lemma_own_start(a, 1);
    lemma_own_start(a, 2);
    lemma_own_start(a, 3);
    let three = b.drop_last();
    let two = three.drop_last();
    assert(two.drop_last().drop_last().len() == 0);
    assert(two.drop_last().last() == b[0] && two.last() == b[1]);
    assert(three.last() == b[2] && b.last() == b[3]);
    reveal_with_fuel(super::geometry::sum_travel, 5);
    assert(super::geometry::sum_travel(a, b) == (0int, 0int));
    reveal(StrokeModel::step);
}

/// A pinch needs its change of spread: whatever a frame looks like that is recognized as one, the
/// fingers that landed are all still down and lie further apart, or closer together, by at least
/// what a pinch needs; and two fingers have then spread half again as much as they travelled.
pub proof fn law_pinches_have_spread(state: RecognizerModel, frame: FrameModel)
    requires
        state.valid(),
    ensures
        ({
            let starts = state->Tracking_0.starts;
            let before = super::geometry::spread_of(starts) as int;
            let after = super::geometry::spread_of(frame.contacts) as int;
            let seen = state.step(frame).1;
            let pinched = |trigger: ButtonId, fingers: nat, change: int|
                seen == GestureRecognition::Gesture(trigger) ==> {
                    &&& state is Tracking && !state->Tracking_0.scrolling
                    &&& starts.len() == fingers
                    &&& frame.contacts.len() == fingers
                    &&& change >= pinch_needs(before)
                    &&& fingers == 2 ==> change * 2 > 3 * super::geometry::length_of(
                        crate::math::trunc_div(
                            super::geometry::sum_travel(starts, frame.contacts).0,
                            2,
                        ),
                        crate::math::trunc_div(
                            super::geometry::sum_travel(starts, frame.contacts).1,
                            2,
                        ),
                    )
                };
            &&& pinched(ButtonId::TouchpadTwoFingerPinchOut, 2, after - before)
            &&& pinched(ButtonId::TouchpadTwoFingerPinchIn, 2, before - after)
            &&& pinched(ButtonId::TouchpadFourFingerPinchOut, 4, after - before)
            &&& pinched(ButtonId::TouchpadFourFingerPinchIn, 4, before - after)
        }),
{
    reveal(StrokeModel::step);
}

/// Lifting some of the fingers decides nothing: the stroke goes on from where its fingers landed,
/// and still counts those that landed.
pub proof fn law_lifting_some_keeps_the_stroke(stroke: StrokeModel, frame: FrameModel)
    requires
        stroke.valid(),
        1 <= frame.contacts.len() < stroke.latest.len(),
        super::geometry::ids_within(frame.contacts, stroke.latest),
    ensures
        ({
            let (next, seen) = RecognizerModel::Tracking(stroke).step(frame);
            &&& seen == GestureRecognition::Pending
            &&& next is Tracking
            &&& next->Tracking_0.starts == stroke.starts
            &&& next->Tracking_0.started_at_us == stroke.started_at_us
            &&& next->Tracking_0.latest == frame.contacts
            &&& next->Tracking_0.scrolling == stroke.scrolling
        }),
{
    reveal(StrokeModel::step);
}

/// A frame that swaps a finger for another, as many as before, ends the stroke without anything.
pub proof fn law_swapped_finger_cancels(stroke: StrokeModel, frame: FrameModel)
    requires
        stroke.valid(),
        frame.contacts.len() == stroke.latest.len(),
        !super::geometry::same_ids(frame.contacts, stroke.latest),
    ensures
        RecognizerModel::Tracking(stroke).step(frame) == (
            RecognizerModel::Cancelled,
            GestureRecognition::Pending,
        ),
{
    reveal(StrokeModel::step);
}

/// Fewer than two fingers begin no stroke, and two to four do.
pub proof fn law_stroke_begins_with_two_fingers(frame: FrameModel)
    requires
        1 <= frame.contacts.len() <= 4,
    ensures
        RecognizerModel::Idle.step(frame).0 is Tracking <==> frame.contacts.len() >= 2,
        RecognizerModel::Idle.step(frame).1 == GestureRecognition::Pending,
{
}

} // verus!
