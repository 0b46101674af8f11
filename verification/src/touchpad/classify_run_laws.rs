//! What a frame makes of a swipe run, a sweep and a tap, whatever state the classifier is in.
use vstd::prelude::*;

use super::classify::{ClassifierModel, Pad, SwipeDirection, SwipeModel, TrackedFinger};
use super::frame::TouchContact;
use super::gesture::TouchpadGestureId;

verus! {

/// Whether no two fingers are farther apart across a direction than two fifths of the pad's size
/// across it.
pub open spec fn abreast_within(
    fingers: Seq<TrackedFinger>,
    pad: Pad,
    direction: SwipeDirection,
) -> bool {
    forall|i: int, j: int|
        0 <= i < fingers.len() && 0 <= j < fingers.len() ==> {
            let a = #[trigger] fingers[i];
            let b = #[trigger] fingers[j];
            &&& direction is Right || direction is Left ==> 5 * (a.y - b.y) <= 2 * pad.height
            &&& direction is Up || direction is Down ==> 5 * (a.x - b.x) <= 2 * pad.width
        }
}

/// How far a run has come along a direction, in twelfths of a unit, either way.
pub open spec fn run_length(acc: (int, int), direction: SwipeDirection) -> int {
    let along = if direction is Right || direction is Left {
        acc.0
    } else {
        acc.1
    };
    if along < 0 {
        -along
    } else {
        along
    }
}

/// Whether a run of frames is a swipe: five frames over a fifth of the tap window that came a
/// hundredth of the pad's width, or three frames that came eight times as far.
pub open spec fn is_swipe_run(frames: int, ticks: int, length: int, pad: Pad) -> bool {
    let floor = 12 * (pad.width as int / 100);
    let window = pad.tap_max_ticks as int / 5;
    ||| frames >= 5 && ticks >= window && ticks >= 1 && length >= floor
    ||| frames >= 3 && length >= 8 * floor
}

/// A frame's motion has a direction from three units on, that of its larger component; where the
/// two are equal it is sideways.
pub proof fn law_heading_is_the_larger_component(d: (int, int))
    ensures
        ({
            let heading = super::classify::heading(d);
            let (x, y) = d;
            &&& -36 < x < 36 && -36 < y < 36 ==> heading is None
            &&& x >= 36 && -x <= y <= x ==> heading == Some(SwipeDirection::Right)
            &&& x <= -36 && x <= y <= -x ==> heading == Some(SwipeDirection::Left)
            &&& y >= 36 && -y < x < y ==> heading == Some(SwipeDirection::Down)
            &&& y <= -36 && y < x < -y ==> heading == Some(SwipeDirection::Up)
        }),
{
}

/// A frame that moved less than three units keeps the run as it is and takes note of where the
/// fingers are.
pub proof fn law_still_frame_keeps_the_run(state: ClassifierModel, last: (int, int), ts: u16)
    requires
        state.fingers.len() >= 2,
        state.stroke_fingers == 3 || state.stroke_fingers == 4,
        state.swipe.last_mean == Some(last),
        ({
            let mean = super::classify::mean_position(state.fingers);
            -36 < mean.0 - last.0 < 36 && -36 < mean.1 - last.1 < 36
        }),
    ensures
        state.run_step(ts).1 is None,
        state.run_step(ts).0 == (SwipeModel {
            last_mean: Some(super::classify::mean_position(state.fingers)),
            ..state.swipe
        }),
{
}

/// Fingers that do not move together keep the run as it is: where the fingers' mean speed is more
/// than five halves of the larger component of their mean motion, the frame is no part of a swipe.
pub proof fn law_scattered_frame_keeps_the_run(
    state: ClassifierModel,
    last: (int, int),
    ts: u16,
)
    requires
        state.fingers.len() >= 2,
        state.stroke_fingers == 3 || state.stroke_fingers == 4,
        state.swipe.last_mean == Some(last),
        ({
            let mean = super::classify::mean_position(state.fingers);
            let n = state.fingers.len() as int;
            let speed = 24 * super::classify::sum_speed(state.fingers);
            let (x, y) = (mean.0 - last.0, mean.1 - last.1);
            speed > 5 * n * x && speed > 5 * n * -x && speed > 5 * n * y && speed > 5 * n * -y
        }),
    ensures
        state.run_step(ts).1 is None,
        state.run_step(ts).0 == (SwipeModel {
            last_mean: Some(super::classify::mean_position(state.fingers)),
            ..state.swipe
        }),
{
    let mean = super::classify::mean_position(state.fingers);
    let n = state.fingers.len() as int;
    let (x, y) = (mean.0 - last.0, mean.1 - last.1);
    let dominant = crate::math::greater(
        crate::math::magnitude(x) as int,
        crate::math::magnitude(y) as int,
    );
    assert(dominant == x || dominant == -x || dominant == y || dominant == -y);
    assert(dominant * 5 * n == 5 * n * dominant) by (nonlinear_arith);
}

/// Whether fingers move together: their mean speed is at most five halves of the larger component of
/// their mean motion.
pub open spec fn moves_together(fingers: Seq<TrackedFinger>, d: (int, int)) -> bool {
    let n = fingers.len() as int;
    let speed = 24 * super::classify::sum_speed(fingers);
    speed <= 5 * n * d.0 || speed <= 5 * n * -d.0 || speed <= 5 * n * d.1 || speed <= 5 * n * -d.1
}

proof fn lemma_together_is_co_moving(fingers: Seq<TrackedFinger>, d: (int, int))
    requires
        moves_together(fingers, d),
    ensures
        super::classify::co_moving(fingers, d),
{
    let n = fingers.len() as int;
    let dominant = crate::math::greater(
        crate::math::magnitude(d.0) as int,
        crate::math::magnitude(d.1) as int,
    );
    let speed = 24 * super::classify::sum_speed(fingers);
    lemma_scaled_order(n, d.0, dominant);
    lemma_scaled_order(n, -d.0, dominant);
    lemma_scaled_order(n, d.1, dominant);
    lemma_scaled_order(n, -d.1, dominant);
    assert(dominant * 5 * n == 5 * n * dominant) by (nonlinear_arith);
    assert(speed <= dominant * 5 * n);
    let scale = super::classify::MEAN_SCALE * super::classify::CO_MOTION_DENOM;
    let sum = super::classify::sum_speed(fingers);
    assert(scale == 24);
    assert(sum * scale == 24 * sum) by (nonlinear_arith)
        requires
            scale == 24,
    ;
    assert(dominant * super::classify::CO_MOTION_NUM * n == dominant * 5 * n);
}

proof fn lemma_scaled_order(n: int, v: int, dominant: int)
    requires
        n >= 0,
        v <= dominant,
    ensures
        5 * n * v <= 5 * n * dominant,
{
    assert(5 * n * v <= 5 * n * dominant) by (nonlinear_arith)
        requires
            n >= 0,
            v <= dominant,
    ;
}

proof fn lemma_abreast(fingers: Seq<TrackedFinger>, pad: Pad, direction: SwipeDirection)
    ensures
        super::classify::cross_span_within(fingers, pad, direction) <==> abreast_within(
            fingers,
            pad,
            direction,
        ),
{
    if super::classify::cross_span_within(fingers, pad, direction) {
        assert forall|i: int, j: int|
            0 <= i < fingers.len() && 0 <= j < fingers.len() implies {
            let a = #[trigger] fingers[i];
            let b = #[trigger] fingers[j];
            &&& direction is Right || direction is Left ==> 5 * (a.y - b.y) <= 2 * pad.height
            &&& direction is Up || direction is Down ==> 5 * (a.x - b.x) <= 2 * pad.width
        } by {
            assert(super::classify::cross_coordinate(fingers[i], direction.is_horizontal())
                - super::classify::cross_coordinate(fingers[j], direction.is_horizontal())
                <= pad.cross_span_max(direction));
        }
    }
    if abreast_within(fingers, pad, direction) {
        assert forall|i: int, j: int|
            0 <= i < fingers.len() && 0 <= j < fingers.len() implies super::classify::cross_coordinate(
            #[trigger] fingers[i],
            direction.is_horizontal(),
        ) - super::classify::cross_coordinate(#[trigger] fingers[j], direction.is_horizontal())
            <= pad.cross_span_max(direction) by {
        }
    }
}

/// A frame in which the fingers move together in a direction goes into the run. In the run's own
/// direction it adds a frame and its motion, and the run is a swipe once it is long enough; a hand
/// that is spread too wide across ends the run instead. In another direction it begins a run of its
/// own. Without a run it begins one, unless the hand is spread too wide.
pub proof fn law_frame_goes_into_the_run(
    state: ClassifierModel,
    last: (int, int),
    direction: SwipeDirection,
    ts: u16,
)
    requires
        state.fingers.len() >= 2,
        state.stroke_fingers == 3 || state.stroke_fingers == 4,
        state.swipe.last_mean == Some(last),
        ({
            let mean = super::classify::mean_position(state.fingers);
            let d = (mean.0 - last.0, mean.1 - last.1);
            super::classify::heading(d) == Some(direction) && moves_together(state.fingers, d)
        }),
    ensures
        ({
            let mean = super::classify::mean_position(state.fingers);
            let d = (mean.0 - last.0, mean.1 - last.1);
            let run = state.swipe;
            let (after, commit) = state.run_step(ts);
            let within = abreast_within(state.fingers, state.pad, direction);
            let total = (run.acc.0 + d.0, run.acc.1 + d.1);
            let own = run.locked == Some(direction);
            let ticks = crate::math::ticks_between(run.start_ts, ts);
            let swipe = is_swipe_run(
                run.frames as int + 1,
                ticks,
                run_length(total, direction),
                state.pad,
            );
            let begun = after.locked == Some(direction) && after.frames == 1 && after.start_ts == ts
                && after.acc == d;
            &&& after.last_mean == Some(mean)
            &&& own && within ==> after.locked == Some(direction) && after.frames == run.frames + 1
                && after.acc == total && after.start_ts == run.start_ts
            &&& own && within && swipe ==> commit == Some(direction)
            &&& own && within && !swipe ==> commit is None
            &&& own && !within ==> commit is None && after.locked is None && after.frames == 0
                && after.acc == (0int, 0int)
            &&& run.locked is Some && !own ==> commit is None && begun
            &&& run.locked is None && within ==> commit is None && begun
            &&& run.locked is None && !within ==> commit is None && after.locked is None
                && after.frames == run.frames
        }),
{
    let mean = super::classify::mean_position(state.fingers);
    let d = (mean.0 - last.0, mean.1 - last.1);
    lemma_together_is_co_moving(state.fingers, d);
    lemma_abreast(state.fingers, state.pad, direction);
}

/// A stroke can swipe while two fingers are down, if three or four were.
pub proof fn law_two_of_three_may_swipe(state: ClassifierModel)
    ensures
        state.fingers.len() >= 2 && (state.stroke_fingers == 3 || state.stroke_fingers == 4)
            ==> state.may_swipe(),
        state.fingers.len() < 2 ==> !state.may_swipe(),
        state.stroke_fingers < 3 || state.stroke_fingers > 4 ==> !state.may_swipe(),
{
}

/// The whole hand sweeps where its fingers together came a sixth of the pad each, and three units at
/// least, in one direction, no more than half as far across, and none of them back.
pub proof fn law_hand_sweeps_its_way(state: ClassifierModel)
    ensures
        ({
            let n = state.fingers.len() as int;
            let (x, y) = super::classify::sum_displacement(state.fingers);
            let whole = n >= 2 && n == state.stroke_fingers && (n == 3 || n == 4);
            let wide = if state.pad.width as int / 6 > 3 {
                state.pad.width as int / 6
            } else {
                3
            };
            let high = if state.pad.height as int / 6 > 3 {
                state.pad.height as int / 6
            } else {
                3
            };
            let none_left = forall|i: int|
                0 <= i < n ==> (#[trigger] state.fingers[i]).x >= state.fingers[i].start_x;
            let none_right = forall|i: int|
                0 <= i < n ==> (#[trigger] state.fingers[i]).x <= state.fingers[i].start_x;
            let none_up = forall|i: int|
                0 <= i < n ==> (#[trigger] state.fingers[i]).y >= state.fingers[i].start_y;
            let none_down = forall|i: int|
                0 <= i < n ==> (#[trigger] state.fingers[i]).y <= state.fingers[i].start_y;
            &&& state.swept() == Some(SwipeDirection::Right) <==> whole && x >= n * wide && -x <= 2
                * y <= x && none_left
            &&& state.swept() == Some(SwipeDirection::Left) <==> whole && -x >= n * wide && x <= 2
                * y <= -x && none_right
            &&& state.swept() == Some(SwipeDirection::Down) <==> whole && y >= n * high && -y <= 2
                * x <= y && none_up
            &&& state.swept() == Some(SwipeDirection::Up) <==> whole && -y >= n * high && y <= 2 * x
                <= -y && none_down
        }),
{
    let n = state.fingers.len() as int;
    let (x, y) = super::classify::sum_displacement(state.fingers);
    let wide = state.pad.sweep_min(true);
    let high = state.pad.sweep_min(false);
    assert(n >= 2 ==> n * wide > 0) by (nonlinear_arith)
        requires
            wide >= 3,
    ;
    assert(n >= 2 ==> n * high > 0) by (nonlinear_arith)
        requires
            high >= 3,
    ;
    let none_left = forall|i: int|
        0 <= i < n ==> (#[trigger] state.fingers[i]).x >= state.fingers[i].start_x;
    let none_right = forall|i: int|
        0 <= i < n ==> (#[trigger] state.fingers[i]).x <= state.fingers[i].start_x;
    let none_up = forall|i: int|
        0 <= i < n ==> (#[trigger] state.fingers[i]).y >= state.fingers[i].start_y;
    let none_down = forall|i: int|
        0 <= i < n ==> (#[trigger] state.fingers[i]).y <= state.fingers[i].start_y;
    assert(x > 0 ==> super::classify::none_against(state.fingers, true, x) == none_left);
    assert(x < 0 ==> super::classify::none_against(state.fingers, true, x) == none_right);
    assert(y > 0 ==> super::classify::none_against(state.fingers, false, y) == none_up);
    assert(y < 0 ==> super::classify::none_against(state.fingers, false, y) == none_down);
}

/// Fingers add up one by one: positions, ways from the landing, and speeds, each the larger of a
/// finger's two components since the frame before. The widest way is that of the finger that
/// strayed most.
pub proof fn law_fingers_add_up(fingers: Seq<TrackedFinger>, finger: TrackedFinger)
    ensures
        ({
            let more = fingers.push(finger);
            let before = super::classify::sum_position(fingers);
            let ways = super::classify::sum_displacement(fingers);
            let speed = finger.speed();
            let wander = finger.wander();
            &&& super::classify::sum_position(more) == (before.0 + finger.x, before.1 + finger.y)
            &&& super::classify::sum_displacement(more) == (
                ways.0 + (finger.x - finger.start_x),
                ways.1 + (finger.y - finger.start_y),
            )
            &&& super::classify::sum_speed(more) == super::classify::sum_speed(fingers) + speed
            &&& speed >= finger.x - finger.prev_x && speed >= finger.prev_x - finger.x && speed
                >= finger.y - finger.prev_y && speed >= finger.prev_y - finger.y
            &&& speed == finger.x - finger.prev_x || speed == finger.prev_x - finger.x || speed
                == finger.y - finger.prev_y || speed == finger.prev_y - finger.y
            &&& wander >= finger.x - finger.start_x && wander >= finger.start_x - finger.x && wander
                >= finger.y - finger.start_y && wander >= finger.start_y - finger.y
            &&& wander == finger.x - finger.start_x || wander == finger.start_x - finger.x || wander
                == finger.y - finger.start_y || wander == finger.start_y - finger.y
            &&& super::classify::widest(more) >= super::classify::widest(fingers)
            &&& super::classify::widest(more) >= wander
            &&& super::classify::widest(more) == wander || super::classify::widest(more)
                == super::classify::widest(fingers)
        }),
        super::classify::sum_position(Seq::empty()) == (0int, 0int),
        super::classify::sum_displacement(Seq::empty()) == (0int, 0int),
        super::classify::sum_speed(Seq::empty()) == 0,
        super::classify::widest(Seq::empty()) == 0,
{
    assert(fingers.push(finger).drop_last() =~= fingers);
}

/// The mean position of two, three or four fingers is exact in twelfths of a unit.
pub proof fn law_mean_position_is_exact(fingers: Seq<TrackedFinger>)
    requires
        2 <= fingers.len() <= 4,
    ensures
        ({
            let n = fingers.len() as int;
            let mean = super::classify::mean_position(fingers);
            let sum = super::classify::sum_position(fingers);
            n * mean.0 == 12 * sum.0 && n * mean.1 == 12 * sum.1
        }),
{
    let n = fingers.len() as int;
    let share = 12int / n;
    let sum = super::classify::sum_position(fingers);
    if n == 2 {
        assert(share == 6) by (nonlinear_arith)
            requires
                n == 2,
                share == 12int / n,
        ;
    } else if n == 3 {
        assert(share == 4) by (nonlinear_arith)
            requires
                n == 3,
                share == 12int / n,
        ;
    } else {
        assert(n == 4);
        assert(share == 3) by (nonlinear_arith)
            requires
                n == 4,
                share == 12int / n,
        ;
    }
    assert(n * share == 12);
    assert(n * (sum.0 * share) == (n * share) * sum.0) by (nonlinear_arith);
    assert(n * (sum.1 * share) == (n * share) * sum.1) by (nonlinear_arith);
}

/// A finger starts where it lands; afterwards it keeps its start, and its place becomes the one it
/// had before.
pub proof fn law_fingers_keep_their_start(finger: TrackedFinger, contact: TouchContact)
    ensures
        ({
            let landed = TrackedFinger::landed(contact);
            let moved = finger.moved(contact);
            &&& landed.id == contact.finger_id
            &&& landed.x == contact.x && landed.start_x == contact.x && landed.prev_x == contact.x
            &&& landed.y == contact.y && landed.start_y == contact.y && landed.prev_y == contact.y
            &&& moved.id == finger.id
            &&& moved.x == contact.x && moved.y == contact.y
            &&& moved.prev_x == finger.x && moved.prev_y == finger.y
            &&& moved.start_x == finger.start_x && moved.start_y == finger.start_y
        }),
{
}

/// Lifting the last finger taps exactly where no gesture came of the stroke, it was no longer than
/// the tap window, and no finger strayed more than a twenty-fifth of the pad's width; the tap is
/// that of the most fingers that were down.
pub proof fn law_lifting_taps_by_the_most_fingers(state: ClassifierModel, ts: u16)
    requires
        state.fingers.len() > 0,
    ensures
        ({
            let gesture = state.step(ts, Seq::empty()).1;
            let ticks = crate::math::ticks_between(state.stroke_start_ts, ts);
            let short = state.fired is None && ticks <= state.pad.tap_max_ticks && state.max_wander
                <= state.pad.width as int / 25;
            &&& !short ==> gesture is None
            &&& short && state.stroke_fingers == 2 ==> gesture == Some(
                TouchpadGestureId::TwoFingerTap,
            )
            &&& short && state.stroke_fingers == 3 ==> gesture == Some(
                TouchpadGestureId::ThreeFingerTap,
            )
            &&& short && state.stroke_fingers == 4 ==> gesture == Some(
                TouchpadGestureId::FourFingerTap,
            )
            &&& state.stroke_fingers < 2 || state.stroke_fingers > 4 ==> gesture is None
        }),
{
}

/// A pad has the size it reports, and a size of one where it reports none.
pub proof fn law_pad_has_its_size(x_size: u16, y_size: u16, tap_max_ticks: u16)
    ensures
        ({
            let pad = Pad::sized(x_size, y_size, tap_max_ticks);
            &&& x_size > 0 ==> pad.width == x_size
            &&& x_size == 0 ==> pad.width == 1
            &&& y_size > 0 ==> pad.height == y_size
            &&& y_size == 0 ==> pad.height == 1
            &&& pad.tap_max_ticks == tap_max_ticks
        }),
{
}

/// While a stroke goes on, a landing finger forgets the run, a lifting finger keeps it and forgets
/// only the place it was at, and the same fingers keep both. The stroke remembers when it began,
/// what came of it, the most fingers and the farthest any strayed.
pub proof fn law_changing_fingers_rebase_the_run(
    state: ClassifierModel,
    contacts: Seq<TouchContact>,
    ts: u16,
)
    requires
        state.fingers.len() > 0,
    ensures
        ({
            let now = state.tracking(contacts, ts);
            let before = state.fingers;
            let same = now.fingers.len() == before.len() && forall|i: int|
                0 <= i < before.len() ==> (#[trigger] before[i]).id == now.fingers[i].id;
            &&& now.fingers.len() > before.len() ==> now.swipe.locked is None && now.swipe.frames
                == 0 && now.swipe.last_mean is None
            &&& now.fingers.len() < before.len() ==> now.swipe == (SwipeModel {
                last_mean: None,
                ..state.swipe
            })
            &&& same ==> now.swipe == state.swipe
            &&& now.stroke_start_ts == state.stroke_start_ts
            &&& now.fired == state.fired
            &&& now.pad == state.pad
            &&& now.stroke_fingers >= state.stroke_fingers && now.stroke_fingers
                >= now.fingers.len()
            &&& now.stroke_fingers == state.stroke_fingers || now.stroke_fingers
                == now.fingers.len()
            &&& now.max_wander >= state.max_wander && now.max_wander >= super::classify::widest(
                now.fingers,
            )
            &&& now.max_wander == state.max_wander || now.max_wander == super::classify::widest(
                now.fingers,
            )
        }),
{
    lemma_contacts_keep_the_stroke(state, contacts, ts);
}

proof fn lemma_contacts_keep_the_stroke(
    state: ClassifierModel,
    contacts: Seq<TouchContact>,
    ts: u16,
)
    requires
        state.fingers.len() > 0,
    ensures
        ({
            let seen = state.with_contacts(contacts, ts);
            &&& seen.fingers.len() > 0
            &&& seen.swipe == state.swipe
            &&& seen.stroke_start_ts == state.stroke_start_ts
            &&& seen.fired == state.fired
            &&& seen.pad == state.pad
            &&& seen.stroke_fingers == state.stroke_fingers
            &&& seen.max_wander == state.max_wander
        }),
    decreases contacts.len(),
{
    if contacts.len() > 0 {
        lemma_contacts_keep_the_stroke(state, contacts.drop_last(), ts);
    }
}

/// The first finger to land begins a stroke at its own time, with nothing left of the one before.
pub proof fn law_first_finger_begins_a_stroke(
    state: ClassifierModel,
    contact: TouchContact,
    ts: u16,
)
    requires
        state.fingers.len() == 0,
    ensures
        ({
            let begun = state.with_contact(contact, ts);
            &&& begun.fingers == seq![TrackedFinger::landed(contact)]
            &&& begun.stroke_start_ts == ts
            &&& begun.fired is None
            &&& begun.stroke_fingers == 0
            &&& begun.max_wander == 0
            &&& begun.swipe.locked is None
            &&& begun.swipe.frames == 0
            &&& begun.pad == state.pad
        }),
{
    assert(state.fingers =~= Seq::empty());
    assert(state.with_contact(contact, ts).fingers =~= seq![TrackedFinger::landed(contact)]);
}

/// A touching frame of a stroke that has committed nothing commits the swipe of its run before the
/// sweep of its hand and that before a pinch, and what it commits is remembered; one that has
/// committed commits nothing more.
pub proof fn law_frame_commits_once_and_in_order(
    state: ClassifierModel,
    contacts: Seq<TouchContact>,
    ts: u16,
)
    requires
        contacts.len() > 0,
    ensures
        ({
            let now = state.tracking(contacts, ts);
            let (after, gesture) = state.step(ts, contacts);
            let fingers = now.stroke_fingers;
            &&& now.fired is Some ==> gesture is None && after == now
            &&& now.fired is None ==> after.fired == gesture
            &&& now.fired is None && now.run_step(ts).1 is Some ==> gesture == Some(
                super::classify::swipe_gesture(fingers, now.run_step(ts).1->0),
            )
            &&& now.fired is None && now.run_step(ts).1 is None && now.swept() is Some ==> gesture
                == Some(super::classify::swipe_gesture(fingers, now.swept()->0))
            &&& now.fired is None && now.run_step(ts).1 is None && now.swept() is None ==> gesture
                == now.pinched()
        }),
{
}

} // verus!
