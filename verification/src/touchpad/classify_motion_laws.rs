//! What moving fingers are classified as, told by how far and which way they moved.
//!
//! These laws speak of streams of frames: of fingers that land, march across the pad, close in,
//! move apart and lift.
use vstd::prelude::*;

use super::classify::{ClassifierModel, Pad, SwipeDirection, SwipeModel, TrackedFinger};
use super::classify_laws::StreamFrame;
use super::frame::TouchContact;
use super::gesture::TouchpadGestureId;

verus! {

/// Whether no two contacts share a finger.
pub open spec fn distinct_contacts(contacts: Seq<TouchContact>) -> bool {
    forall|i: int, j: int|
        0 <= i < j < contacts.len() ==> (#[trigger] contacts[i]).finger_id != (
        #[trigger] contacts[j]).finger_id
}

/// Whether the same fingers have all moved by the same distance, to the right and down.
pub open spec fn shifted(from: Seq<TouchContact>, dx: int, dy: int, to: Seq<TouchContact>) -> bool {
    &&& to.len() == from.len()
    &&& forall|i: int|
        0 <= i < from.len() ==> {
            &&& (#[trigger] to[i]).finger_id == from[i].finger_id
            &&& to[i].x == from[i].x + dx
            &&& to[i].y == from[i].y + dy
        }
}

/// Whether a stream marches: its fingers land as `hand` and move on by the same step with every
/// frame.
pub open spec fn marches(
    hand: Seq<TouchContact>,
    dx: int,
    dy: int,
    frames: Seq<StreamFrame>,
) -> bool {
    forall|k: int|
        0 <= k < frames.len() ==> shifted(hand, k * dx, k * dy, (#[trigger] frames[k]).contacts)
}

/// The fingers of a hand that landed and has since moved, the last time by a step.
pub open spec fn hand_at(
    fingers: Seq<TrackedFinger>,
    hand: Seq<TouchContact>,
    dx: int,
    dy: int,
    step_x: int,
    step_y: int,
) -> bool {
    &&& fingers.len() == hand.len()
    &&& forall|i: int|
        0 <= i < hand.len() ==> {
            &&& (#[trigger] fingers[i]).id == hand[i].finger_id
            &&& fingers[i].start_x == hand[i].x
            &&& fingers[i].start_y == hand[i].y
            &&& fingers[i].x == hand[i].x + dx
            &&& fingers[i].y == hand[i].y + dy
            &&& fingers[i].prev_x == hand[i].x + dx - step_x
            &&& fingers[i].prev_y == hand[i].y + dy - step_y
        }
}

/// Landing: every contact becomes a finger where it is, and a stroke begins.
proof fn lemma_landing(pad: Pad, hand: Seq<TouchContact>, ts: u16, n: int)
    requires
        distinct_contacts(hand),
        0 <= n <= hand.len(),
    ensures
        ({
            let seen = ClassifierModel::idle(pad).with_contacts(hand.take(n), ts);
            &&& seen.fingers == Seq::new(n as nat, |i: int| TrackedFinger::landed(hand[i]))
            &&& seen.pad == pad
            &&& seen.fired is None
            &&& seen.stroke_fingers == 0
            &&& seen.max_wander == 0
            &&& seen.swipe == SwipeModel::fresh()
            &&& n > 0 ==> seen.stroke_start_ts == ts
        }),
    decreases n,
{
    let idle = ClassifierModel::idle(pad);
    if n > 0 {
        lemma_landing(pad, hand, ts, n - 1);
        assert(hand.take(n).drop_last() =~= hand.take(n - 1));
        let before = idle.with_contacts(hand.take(n - 1), ts);
        let contact = hand[n - 1];
        super::classify::lemma_position(before.fingers, contact.finger_id);
        let at = super::classify::position_of(before.fingers, contact.finger_id) as int;
        if at < before.fingers.len() {
            assert(before.fingers[at].id == hand[at].finger_id);
            assert(hand[at].finger_id != hand[n - 1].finger_id);
        }
        assert(idle.with_contacts(hand.take(n), ts).fingers =~= Seq::new(
            n as nat,
            |i: int| TrackedFinger::landed(hand[i]),
        ));
    } else {
        assert(hand.take(0) =~= Seq::empty());
        assert(idle.fingers =~= Seq::new(0nat, |i: int| TrackedFinger::landed(hand[i])));
    }
}

/// Going on: every contact of the same hand moves its finger, and nothing else changes.
proof fn lemma_moving(
    state: ClassifierModel,
    contacts: Seq<TouchContact>,
    ts: u16,
    n: int,
)
    requires
        super::classify::distinct_fingers(state.fingers),
        state.fingers.len() == contacts.len(),
        contacts.len() > 0,
        forall|i: int|
            0 <= i < contacts.len() ==> (#[trigger] contacts[i]).finger_id == state.fingers[i].id,
        0 <= n <= contacts.len(),
    ensures
        ({
            let seen = state.with_contacts(contacts.take(n), ts);
            &&& seen.fingers == Seq::new(
                contacts.len(),
                |i: int|
                    if i < n {
                        state.fingers[i].moved(contacts[i])
                    } else {
                        state.fingers[i]
                    },
            )
            &&& seen == (ClassifierModel { fingers: seen.fingers, ..state })
        }),
    decreases n,
{
    let goal = |m: int|
        Seq::new(
            contacts.len(),
            |i: int|
                if i < m {
                    state.fingers[i].moved(contacts[i])
                } else {
                    state.fingers[i]
                },
        );
    if n > 0 {
        lemma_moving(state, contacts, ts, n - 1);
        assert(contacts.take(n).drop_last() =~= contacts.take(n - 1));
        let before = state.with_contacts(contacts.take(n - 1), ts);
        let contact = contacts[n - 1];
        assert(contact.finger_id == state.fingers[n - 1].id);
        assert(before.fingers[n - 1].id == contact.finger_id);
        super::classify::lemma_position(before.fingers, contact.finger_id);
        let at = super::classify::position_of(before.fingers, contact.finger_id) as int;
        assert(at < before.fingers.len());
        assert(before.fingers[at].id == state.fingers[at].id);
        if at < n - 1 {
            assert(state.fingers[at].id != state.fingers[n - 1].id);
        } else if at > n - 1 {
            assert(state.fingers[n - 1].id != state.fingers[at].id);
        }
        let seen = state.with_contacts(contacts.take(n), ts);
        assert(seen.fingers =~= goal(n));
    } else {
        assert(contacts.take(0) =~= Seq::empty());
        assert(state.fingers =~= goal(0));
    }
}

proof fn lemma_all_reported(fingers: Seq<TrackedFinger>, contacts: Seq<TouchContact>)
    requires
        forall|i: int|
            0 <= i < fingers.len() ==> super::classify::reports(
                contacts,
                (#[trigger] fingers[i]).id,
            ),
    ensures
        super::classify::still_down(fingers, contacts) == fingers,
    decreases fingers.len(),
{
    if fingers.len() > 0 {
        let init = fingers.drop_last();
        assert forall|i: int| 0 <= i < init.len() implies super::classify::reports(
            contacts,
            (#[trigger] init[i]).id,
        ) by {
            assert(super::classify::reports(contacts, fingers[i].id));
        }
        lemma_all_reported(init, contacts);
        assert(super::classify::reports(contacts, fingers[fingers.len() - 1].id));
        assert(init.push(fingers.last()) =~= fingers);
    } else {
        assert(super::classify::still_down(fingers, contacts) =~= fingers);
    }
}

/// The classifier once a hand has landed, before any gesture is looked for.
proof fn lemma_landed(pad: Pad, hand: Seq<TouchContact>, ts: u16)
    requires
        distinct_contacts(hand),
        hand.len() > 0,
    ensures
        ({
            let now = ClassifierModel::idle(pad).tracking(hand, ts);
            &&& hand_at(now.fingers, hand, 0, 0, 0, 0)
            &&& now.pad == pad
            &&& now.fired is None
            &&& now.stroke_fingers == hand.len()
            &&& now.stroke_start_ts == ts
            &&& now.max_wander == 0
            &&& now.swipe == SwipeModel::fresh()
        }),
{
    let idle = ClassifierModel::idle(pad);
    let n = hand.len() as int;
    lemma_landing(pad, hand, ts, n);
    assert(hand.take(n) =~= hand);
    let seen = idle.with_contacts(hand, ts);
    assert forall|i: int| 0 <= i < seen.fingers.len() implies super::classify::reports(
        hand,
        (#[trigger] seen.fingers[i]).id,
    ) by {
        assert(hand[i].finger_id == seen.fingers[i].id);
    }
    lemma_all_reported(seen.fingers, hand);
    lemma_still_widest(seen.fingers);
}

proof fn lemma_still_widest(fingers: Seq<TrackedFinger>)
    requires
        forall|i: int|
            0 <= i < fingers.len() ==> (#[trigger] fingers[i]).x == fingers[i].start_x
                && fingers[i].y == fingers[i].start_y,
    ensures
        super::classify::widest(fingers) == 0,
    decreases fingers.len(),
{
    if fingers.len() > 0 {
        let init = fingers.drop_last();
        assert forall|i: int| 0 <= i < init.len() implies (#[trigger] init[i]).x == init[i].start_x
            && init[i].y == init[i].start_y by {
            assert(fingers[i].x == fingers[i].start_x);
        }
        lemma_still_widest(init);
        assert(fingers[fingers.len() - 1].x == fingers[fingers.len() - 1].start_x);
    }
}

/// The classifier once a hand that is down has moved on, before any gesture is looked for.
proof fn lemma_moved_on(
    state: ClassifierModel,
    hand: Seq<TouchContact>,
    from: (int, int),
    last: (int, int),
    to: (int, int),
    contacts: Seq<TouchContact>,
    ts: u16,
)
    requires
        distinct_contacts(hand),
        hand.len() > 0,
        hand_at(state.fingers, hand, from.0, from.1, last.0, last.1),
        shifted(hand, to.0, to.1, contacts),
    ensures
        ({
            let now = state.tracking(contacts, ts);
            &&& hand_at(now.fingers, hand, to.0, to.1, to.0 - from.0, to.1 - from.1)
            &&& now.pad == state.pad
            &&& now.fired == state.fired
            &&& now.stroke_fingers == crate::math::greater(
                state.stroke_fingers as int,
                hand.len() as int,
            )
            &&& now.stroke_start_ts == state.stroke_start_ts
            &&& now.max_wander == crate::math::greater(
                state.max_wander,
                super::classify::widest(now.fingers),
            )
            &&& now.swipe == state.swipe
        }),
{
    let n = contacts.len() as int;
    assert forall|i: int, j: int| 0 <= i < j < state.fingers.len() implies (
    #[trigger] state.fingers[i]).id != (#[trigger] state.fingers[j]).id by {
        assert(hand[i].finger_id != hand[j].finger_id);
    }
    assert forall|i: int| 0 <= i < contacts.len() implies (#[trigger] contacts[i]).finger_id
        == state.fingers[i].id by {
        assert(state.fingers[i].id == hand[i].finger_id);
    }
    lemma_moving(state, contacts, ts, n);
    assert(contacts.take(n) =~= contacts);
    let seen = state.with_contacts(contacts, ts);
    assert forall|i: int| 0 <= i < seen.fingers.len() implies super::classify::reports(
        contacts,
        (#[trigger] seen.fingers[i]).id,
    ) by {
        assert(contacts[i].finger_id == seen.fingers[i].id);
    }
    lemma_all_reported(seen.fingers, contacts);
    let now = state.tracking(contacts, ts);
    assert(now.fingers == seen.fingers);
    assert forall|i: int| 0 <= i < hand.len() implies {
        &&& (#[trigger] now.fingers[i]).id == hand[i].finger_id
        &&& now.fingers[i].start_x == hand[i].x
        &&& now.fingers[i].start_y == hand[i].y
        &&& now.fingers[i].x == hand[i].x + to.0
        &&& now.fingers[i].y == hand[i].y + to.1
        &&& now.fingers[i].prev_x == hand[i].x + to.0 - (to.0 - from.0)
        &&& now.fingers[i].prev_y == hand[i].y + to.1 - (to.1 - from.1)
    } by {
        assert(state.fingers[i].id == hand[i].finger_id);
        assert(contacts[i].finger_id == hand[i].finger_id);
    }
    assert(super::classify::same_fingers(state.fingers, now.fingers)) by {
        assert forall|i: int| 0 <= i < state.fingers.len() implies (
        #[trigger] state.fingers[i]).id == now.fingers[i].id by {}
    }
}

/// Sums over the fingers of a hand that moved.
proof fn lemma_hand_sums(
    fingers: Seq<TrackedFinger>,
    hand: Seq<TouchContact>,
    d: (int, int),
    step: (int, int),
    other: Seq<TrackedFinger>,
    k: int,
)
    requires
        hand_at(fingers, hand, d.0, d.1, step.0, step.1),
        other.len() == hand.len(),
        forall|i: int|
            0 <= i < hand.len() ==> (#[trigger] other[i]).x == hand[i].x + d.0 - step.0
                && other[i].y == hand[i].y + d.1 - step.1,
        0 <= k <= hand.len(),
    ensures
        super::classify::sum_position(fingers.take(k)).0 == super::classify::sum_position(
            other.take(k),
        ).0 + k * step.0,
        super::classify::sum_position(fingers.take(k)).1 == super::classify::sum_position(
            other.take(k),
        ).1 + k * step.1,
        super::classify::sum_displacement(fingers.take(k)) == (k * d.0, k * d.1),
        super::classify::sum_speed(fingers.take(k)) == k * crate::math::greater(
            crate::math::magnitude(step.0) as int,
            crate::math::magnitude(step.1) as int,
        ),
        super::classify::widest(fingers.take(k)) == if k == 0 {
            0
        } else {
            crate::math::greater(
                crate::math::magnitude(d.0) as int,
                crate::math::magnitude(d.1) as int,
            )
        },
    decreases k,
{
    if k > 0 {
        lemma_hand_sums(fingers, hand, d, step, other, k - 1);
        assert(fingers.take(k).drop_last() =~= fingers.take(k - 1));
        assert(other.take(k).drop_last() =~= other.take(k - 1));
        assert(fingers.take(k).last() == fingers[k - 1]);
        assert(other.take(k).last() == other[k - 1]);
        assert(fingers[k - 1].id == hand[k - 1].finger_id);
        assert(other[k - 1].x == hand[k - 1].x + d.0 - step.0);
        let speed = crate::math::greater(
            crate::math::magnitude(step.0) as int,
            crate::math::magnitude(step.1) as int,
        );
        assert((k - 1) * step.0 + step.0 == k * step.0) by (nonlinear_arith);
        assert((k - 1) * step.1 + step.1 == k * step.1) by (nonlinear_arith);
        assert((k - 1) * d.0 + d.0 == k * d.0) by (nonlinear_arith);
        assert((k - 1) * d.1 + d.1 == k * d.1) by (nonlinear_arith);
        assert((k - 1) * speed + speed == k * speed) by (nonlinear_arith);
    } else {
        assert(fingers.take(0).len() == 0);
        assert(other.take(0).len() == 0);
    }
}

/// Whether fingers lie close together across the way they march.
pub open spec fn abreast(hand: Seq<TouchContact>, pad: Pad, sideways: bool) -> bool {
    forall|i: int, j: int|
        #![trigger hand[i], hand[j]]
        0 <= i < hand.len() && 0 <= j < hand.len() ==> if sideways {
            (hand[i].y - hand[j].y) * 5 <= pad.height * 2
        } else {
            (hand[i].x - hand[j].x) * 5 <= pad.width * 2
        }
}

/// Whether a march of `steps` steps, `way` units long in all, is a swipe: it crossed a sixth of the
/// pad; or it took three steps and eight hundredths of the pad's width; or five steps and a
/// hundredth of the width, in at least a fifth of the tap window.
pub open spec fn march_is_swipe(
    pad: Pad,
    sideways: bool,
    steps: int,
    way: int,
    ticks: int,
) -> bool {
    let floor = pad.width as int / 100;
    let size = if sideways {
        pad.width as int
    } else {
        pad.height as int
    };
    ||| steps >= 1 && way >= 3 && way >= size / 6
    ||| steps >= 3 && way >= 8 * floor
    ||| steps >= 5 && way >= floor && ticks >= 1 && ticks >= pad.tap_max_ticks as int * 50 / 250
}

/// The way a step along one axis leads.
spec fn step_direction(dx: int, dy: int) -> SwipeDirection {
    if dx > 0 {
        SwipeDirection::Right
    } else if dx < 0 {
        SwipeDirection::Left
    } else if dy > 0 {
        SwipeDirection::Down
    } else {
        SwipeDirection::Up
    }
}

/// Where a classifier stands after `steps` steps of a march that is no gesture yet.
spec fn marching(
    state: ClassifierModel,
    pad: Pad,
    hand: Seq<TouchContact>,
    dx: int,
    dy: int,
    steps: int,
    first: u16,
) -> bool {
    &&& hand_at(
        state.fingers,
        hand,
        steps * dx,
        steps * dy,
        if steps > 0 {
            dx
        } else {
            0
        },
        if steps > 0 {
            dy
        } else {
            0
        },
    )
    &&& state.pad == pad
    &&& state.fired is None
    &&& state.stroke_fingers == hand.len()
    &&& state.swipe.last_mean == Some(super::classify::mean_position(state.fingers))
    &&& steps == 0 ==> state.swipe.locked is None
    &&& steps > 0 ==> {
        &&& state.swipe.locked == Some(step_direction(dx, dy))
        &&& state.swipe.frames == steps
        &&& state.swipe.start_ts == first
        &&& state.swipe.acc == (12 * (steps * dx), 12 * (steps * dy))
    }
}

spec fn along_one_axis(dx: int, dy: int) -> bool {
    (dy == 0 && (dx >= 3 || dx <= -3)) || (dx == 0 && (dy >= 3 || dy <= -3))
}

proof fn lemma_same_radius(fingers: Seq<TrackedFinger>, hand: Seq<TouchContact>, d: (int, int),
    step: (int, int))
    requires
        hand.len() == 4,
        hand_at(fingers, hand, d.0, d.1, step.0, step.1),
    ensures
        super::classify::current_radius(fingers) == super::classify::start_radius(fingers),
{
    assert(fingers[0].id == hand[0].finger_id);
    assert(fingers[1].id == hand[1].finger_id);
    assert(fingers[2].id == hand[2].finger_id);
    assert(fingers[3].id == hand[3].finger_id);
}

/// The mean of three or four fingers moves by twelve parts for every unit they move.
proof fn lemma_mean_step(
    now: Seq<TrackedFinger>,
    before: Seq<TrackedFinger>,
    hand: Seq<TouchContact>,
    d: (int, int),
    step: (int, int),
)
    requires
        hand.len() == 3 || hand.len() == 4,
        hand_at(now, hand, d.0, d.1, step.0, step.1),
        before.len() == hand.len(),
        forall|i: int|
            0 <= i < hand.len() ==> (#[trigger] before[i]).x == hand[i].x + d.0 - step.0
                && before[i].y == hand[i].y + d.1 - step.1,
    ensures
        super::classify::mean_position(now).0 - super::classify::mean_position(before).0 == 12
            * step.0,
        super::classify::mean_position(now).1 - super::classify::mean_position(before).1 == 12
            * step.1,
        super::classify::sum_displacement(now) == (hand.len() * d.0, hand.len() * d.1),
        super::classify::sum_speed(now) == hand.len() * crate::math::greater(
            crate::math::magnitude(step.0) as int,
            crate::math::magnitude(step.1) as int,
        ),
{
    let n = hand.len() as int;
    lemma_hand_sums(now, hand, d, step, before, n);
    assert(now.take(n) =~= now);
    assert(before.take(n) =~= before);
    let (p, q) = (super::classify::sum_position(now), super::classify::sum_position(before));
    if n == 3 {
        assert((q.0 + 3 * step.0) * 4 - q.0 * 4 == 12 * step.0);
        assert((q.1 + 3 * step.1) * 4 - q.1 * 4 == 12 * step.1);
    } else {
        assert((q.0 + 4 * step.0) * 3 - q.0 * 3 == 12 * step.0);
        assert((q.1 + 4 * step.1) * 3 - q.1 * 3 == 12 * step.1);
    }
}

proof fn lemma_march_step(
    state: ClassifierModel,
    pad: Pad,
    hand: Seq<TouchContact>,
    dx: int,
    dy: int,
    steps: int,
    first: u16,
    contacts: Seq<TouchContact>,
    ts: u16,
)
    requires
        hand.len() == 3 || hand.len() == 4,
        distinct_contacts(hand),
        pad.width >= 8,
        along_one_axis(dx, dy),
        abreast(hand, pad, dy == 0),
        steps >= 1,
        steps == 1 ==> first == ts,
        marching(state, pad, hand, dx, dy, steps - 1, first),
        shifted(hand, steps * dx, steps * dy, contacts),
    ensures
        ({
            let (next, gesture) = state.step(ts, contacts);
            let way = steps * crate::math::magnitude(if dy == 0 {
                dx
            } else {
                dy
            });
            if march_is_swipe(
                pad,
                dy == 0,
                steps,
                way,
                crate::math::ticks_between(first, ts) as int,
            ) {
                gesture == Some(
                    super::classify::swipe_gesture(hand.len(), step_direction(dx, dy)),
                )
            } else {
                gesture is None && marching(next, pad, hand, dx, dy, steps, first)
            }
        }),
{
    let k = steps;
    let from = ((k - 1) * dx, (k - 1) * dy);
    let to = (k * dx, k * dy);
    let last = if k > 1 {
        (dx, dy)
    } else {
        (0int, 0int)
    };
    lemma_moved_on(state, hand, from, last, to, contacts, ts);
    let now = state.tracking(contacts, ts);
    assert(to.0 - from.0 == dx && to.1 - from.1 == dy) by (nonlinear_arith)
        requires
            from == ((k - 1) * dx, (k - 1) * dy),
            to == (k * dx, k * dy),
    ;
    assert forall|i: int| 0 <= i < hand.len() implies (#[trigger] state.fingers[i]).x == hand[i].x
        + to.0 - dx && state.fingers[i].y == hand[i].y + to.1 - dy by {
        assert(state.fingers[i].id == hand[i].finger_id);
    }
    lemma_mean_step(now.fingers, state.fingers, hand, to, (dx, dy));
    let n = hand.len() as int;
    let d = (12 * dx, 12 * dy);
    let direction = step_direction(dx, dy);
    let size = crate::math::magnitude(if dy == 0 {
        dx
    } else {
        dy
    }) as int;
    assert(super::classify::heading(d) == Some(direction));
    assert(super::classify::co_moving(now.fingers, d)) by {
        assert(n * size * (12 * 2) <= (12 * size) * 5 * n) by (nonlinear_arith)
            requires
                n >= 0,
                size >= 0,
        ;
    }
    assert(super::classify::cross_span_within(now.fingers, pad, direction)) by {
        assert forall|i: int, j: int|
            0 <= i < now.fingers.len() && 0 <= j < now.fingers.len() implies
            super::classify::cross_coordinate(
            #[trigger] now.fingers[i],
            direction.is_horizontal(),
        ) - super::classify::cross_coordinate(
            #[trigger] now.fingers[j],
            direction.is_horizontal(),
        ) <= pad.cross_span_max(direction) by {
            assert(now.fingers[i].id == hand[i].finger_id);
            assert(now.fingers[j].id == hand[j].finger_id);
            let (a, b) = (hand[i], hand[j]);
        }
    }
    let way = k * size;
    assert(crate::math::magnitude(k * (if dy == 0 {
        dx
    } else {
        dy
    })) == way) by (nonlinear_arith)
        requires
            k >= 1,
            way == k * size,
            size == crate::math::magnitude(if dy == 0 {
                dx
            } else {
                dy
            }),
    ;
    assert(way >= 3) by (nonlinear_arith)
        requires
            k >= 1,
            size >= 3,
            way == k * size,
    ;
    assert(k * dx > 0 <==> dx > 0) by (nonlinear_arith)
        requires
            k >= 1,
    ;
    assert(k * dy > 0 <==> dy > 0) by (nonlinear_arith)
        requires
            k >= 1,
    ;
    assert(dx == 0 ==> k * dx == 0) by (nonlinear_arith);
    assert(dy == 0 ==> k * dy == 0) by (nonlinear_arith);
    // The displacement rule sees the whole way of every finger.
    let total = super::classify::sum_displacement(now.fingers);
    assert(total == (n * to.0, n * to.1));
    lemma_swept_way(now, hand, to, (dx, dy), n, way);
    if n == 4 {
        lemma_same_radius(now.fingers, hand, to, (dx, dy));
    }
    assert(now.pinched() is None);
    let seen = super::classify::mean_position(now.fingers);
    let was = super::classify::mean_position(state.fingers);
    assert((seen.0 - was.0, seen.1 - was.1) == d);
    if k > 1 {
        assert(12 * ((k - 1) * dx) + 12 * dx == 12 * (k * dx)) by (nonlinear_arith);
        assert(12 * ((k - 1) * dy) + 12 * dy == 12 * (k * dy)) by (nonlinear_arith);
    }
    lemma_march_decides(now, dx, dy, k, first, ts, way, to);
}

/// What one more step of a march leads to.
proof fn lemma_march_decides(
    now: ClassifierModel,
    dx: int,
    dy: int,
    steps: int,
    first: u16,
    ts: u16,
    way: int,
    to: (int, int),
)
    requires
        along_one_axis(dx, dy),
        steps >= 1,
        steps == 1 ==> first == ts,
        now.may_swipe(),
        now.swipe.last_mean matches Some(last) && {
            let mean = super::classify::mean_position(now.fingers);
            &&& mean.0 - last.0 == 12 * dx
            &&& mean.1 - last.1 == 12 * dy
        },
        super::classify::heading((12 * dx, 12 * dy)) == Some(step_direction(dx, dy)),
        super::classify::co_moving(now.fingers, (12 * dx, 12 * dy)),
        super::classify::cross_span_within(now.fingers, now.pad, step_direction(dx, dy)),
        now.pinched() is None,
        now.swept() == if way >= (if dy == 0 {
            now.pad.width as int
        } else {
            now.pad.height as int
        }) / 6 {
            Some(step_direction(dx, dy))
        } else {
            None
        },
        way >= 3,
        crate::math::magnitude(if dy == 0 {
            to.0
        } else {
            to.1
        }) == way,
        steps == 1 ==> now.swipe.locked is None && to == (dx, dy),
        steps > 1 ==> {
            &&& now.swipe.locked == Some(step_direction(dx, dy))
            &&& now.swipe.frames == steps - 1
            &&& now.swipe.start_ts == first
            &&& now.swipe.acc.0 + 12 * dx == 12 * to.0
            &&& now.swipe.acc.1 + 12 * dy == 12 * to.1
        },
    ensures
        now.committed(ts) == if march_is_swipe(
            now.pad,
            dy == 0,
            steps,
            way,
            crate::math::ticks_between(first, ts) as int,
        ) {
            Some(super::classify::swipe_gesture(now.stroke_fingers, step_direction(dx, dy)))
        } else {
            None
        },
        now.run_step(ts).1 is None ==> {
            let run = now.run_step(ts).0;
            &&& run.last_mean == Some(super::classify::mean_position(now.fingers))
            &&& run.locked == Some(step_direction(dx, dy))
            &&& run.frames == steps
            &&& run.start_ts == first
            &&& run.acc == (12 * to.0, 12 * to.1)
        },
{
    let direction = step_direction(dx, dy);
    let last = now.swipe.last_mean->0;
    let mean = super::classify::mean_position(now.fingers);
    let d = (mean.0 - last.0, mean.1 - last.1);
    assert(d == (12 * dx, 12 * dy));
    let noted = SwipeModel { last_mean: Some(mean), ..now.swipe };
    assert(now.run_step(ts) == now.followed(noted, direction, d, ts));
    if steps > 1 {
        let longer = noted.continued(d);
        assert(longer.frames == steps);
        assert(longer.travel(direction) == 12 * way);
    }
}

/// The displacement rule on fingers that all went the same way along one axis.
proof fn lemma_swept_way(
    now: ClassifierModel,
    hand: Seq<TouchContact>,
    to: (int, int),
    step: (int, int),
    n: int,
    way: int,
)
    requires
        n == hand.len(),
        n == 3 || n == 4,
        hand_at(now.fingers, hand, to.0, to.1, step.0, step.1),
        now.stroke_fingers == n,
        super::classify::sum_displacement(now.fingers) == (n * to.0, n * to.1),
        (step.1 == 0 && to.1 == 0 && crate::math::magnitude(to.0) == way && (to.0 > 0 <==> step.0
            > 0)) || (step.0 == 0 && step.1 != 0 && to.0 == 0 && crate::math::magnitude(to.1) == way
            && (to.1 > 0 <==> step.1 > 0)),
        way >= 3,
        step.0 != 0 || step.1 != 0,
    ensures
        ({
            let size = if step.1 == 0 {
                now.pad.width as int
            } else {
                now.pad.height as int
            };
            now.swept() == if way >= size / 6 {
                Some(step_direction(step.0, step.1))
            } else {
                None
            }
        }),
{
    let total = super::classify::sum_displacement(now.fingers);
    assert(n * 0 == 0) by (nonlinear_arith);
    let sideways = step.1 == 0;
    let along = if sideways {
        to.0
    } else {
        to.1
    };
    assert(crate::math::magnitude(n * along) == n * way && (n * along > 0 <==> along > 0))
        by (nonlinear_arith)
        requires
            n >= 3,
            way == crate::math::magnitude(along),
    ;
    let least = now.pad.sweep_min(sideways);
    assert(n * way >= n * least <==> way >= least) by (nonlinear_arith)
        requires
            n >= 3,
    ;
    assert(n * way > 0) by (nonlinear_arith)
        requires
            n >= 3,
            way >= 3,
    ;
    assert(super::classify::none_against(now.fingers, sideways, n * along)) by {
        assert forall|i: int| 0 <= i < now.fingers.len() implies {
            let finger = #[trigger] now.fingers[i];
            let own = if sideways {
                finger.x - finger.start_x
            } else {
                finger.y - finger.start_y
            };
            (n * along > 0 ==> own >= 0) && (n * along < 0 ==> own <= 0)
        } by {
            assert(now.fingers[i].id == hand[i].finger_id);
        }
    }
}

/// Two hands' frames in a row are the beginning of a march.
proof fn lemma_march_prefix(
    hand: Seq<TouchContact>,
    dx: int,
    dy: int,
    frames: Seq<StreamFrame>,
)
    requires
        marches(hand, dx, dy, frames),
        frames.len() > 0,
    ensures
        marches(hand, dx, dy, frames.drop_last()),
{
    assert forall|k: int| 0 <= k < frames.drop_last().len() implies shifted(
        hand,
        k * dx,
        k * dy,
        (#[trigger] frames.drop_last()[k]).contacts,
    ) by {
        assert(frames.drop_last()[k] == frames[k]);
    }
}

proof fn lemma_marching(
    pad: Pad,
    hand: Seq<TouchContact>,
    dx: int,
    dy: int,
    frames: Seq<StreamFrame>,
)
    requires
        hand.len() == 3 || hand.len() == 4,
        distinct_contacts(hand),
        pad.width >= 8,
        along_one_axis(dx, dy),
        abreast(hand, pad, dy == 0),
        marches(hand, dx, dy, frames),
        frames.len() > 0,
        super::classify_laws::fed(ClassifierModel::idle(pad), frames).fired is None,
    ensures
        marching(
            super::classify_laws::fed(ClassifierModel::idle(pad), frames),
            pad,
            hand,
            dx,
            dy,
            frames.len() - 1,
            if frames.len() > 1 {
                frames[1].ts
            } else {
                0
            },
        ),
    decreases frames.len(),
{
    let idle = ClassifierModel::idle(pad);
    let before = frames.drop_last();
    let last = frames.last();
    let k = frames.len() - 1;
    lemma_march_prefix(hand, dx, dy, frames);
    assert(shifted(hand, k * dx, k * dy, frames[k].contacts));
    if k == 0 {
        assert(0 * dx == 0 && 0 * dy == 0) by (nonlinear_arith);
        assert(last.contacts =~= hand) by {
            assert forall|i: int| 0 <= i < hand.len() implies last.contacts[i] == hand[i] by {
                assert(last.contacts[i].finger_id == hand[i].finger_id);
            }
        }
        assert(super::classify_laws::fed(idle, before) == idle);
        lemma_landed(pad, hand, last.ts);
        let now = idle.tracking(hand, last.ts);
        let n = hand.len() as int;
        assert forall|i: int| 0 <= i < hand.len() implies (#[trigger] now.fingers[i]).x
            == hand[i].x + 0 - 0 && now.fingers[i].y == hand[i].y + 0 - 0 by {
            assert(now.fingers[i].id == hand[i].finger_id);
        }
        lemma_mean_step(now.fingers, now.fingers, hand, (0, 0), (0, 0));
        assert(now.run_step(last.ts).1 is None);
    } else {
        let state = super::classify_laws::fed(idle, before);
        assert(state.fired is None) by {
            if state.fired is Some {
                lemma_fired_stays(state, hand, before, last, pad, dx, dy);
            }
        }
        lemma_marching(pad, hand, dx, dy, before);
        lemma_march_step(
            state,
            pad,
            hand,
            dx,
            dy,
            k,
            frames[1].ts,
            last.contacts,
            last.ts,
        );
        if k > 1 {
            assert(before[1] == frames[1]);
        }
    }
}

/// A gesture that fired stays while fingers are down.
proof fn lemma_fired_stays(
    state: ClassifierModel,
    hand: Seq<TouchContact>,
    before: Seq<StreamFrame>,
    last: StreamFrame,
    pad: Pad,
    dx: int,
    dy: int,
)
    requires
        hand.len() > 0,
        before.len() > 0,
        marches(hand, dx, dy, before),
        state == super::classify_laws::fed(ClassifierModel::idle(pad), before),
        state.fired is Some,
        last.contacts.len() == hand.len(),
    ensures
        state.step(last.ts, last.contacts).0.fired is Some,
{
    let earlier = before.drop_last();
    let k = before.len() - 1;
    assert(shifted(hand, k * dx, k * dy, before[k].contacts));
    let prior = super::classify_laws::fed(ClassifierModel::idle(pad), earlier);
    super::classify_laws::lemma_touching_tracks(prior, before.last().contacts, before.last().ts);
    super::classify_laws::lemma_latch_step(state, last);
}

/// Landing commits nothing.
proof fn lemma_landing_commits_nothing(pad: Pad, hand: Seq<TouchContact>, ts: u16)
    requires
        hand.len() == 3 || hand.len() == 4,
        distinct_contacts(hand),
        pad.width >= 8,
    ensures
        ClassifierModel::idle(pad).step(ts, hand).1 is None,
{
    lemma_landed(pad, hand, ts);
    let now = ClassifierModel::idle(pad).tracking(hand, ts);
    assert forall|i: int| 0 <= i < hand.len() implies (#[trigger] now.fingers[i]).x == hand[i].x + 0
        - 0 && now.fingers[i].y == hand[i].y + 0 - 0 by {
        assert(now.fingers[i].id == hand[i].finger_id);
    }
    lemma_mean_step(now.fingers, now.fingers, hand, (0, 0), (0, 0));
    assert(hand.len() * 0 == 0) by (nonlinear_arith);
    assert(now.swept() is None) by {
        assert(now.fingers.len() * now.pad.sweep_min(true) >= 3 * 3) by (nonlinear_arith)
            requires
                now.fingers.len() >= 3,
                now.pad.sweep_min(true) >= 3,
        ;
    }
    if hand.len() == 4 {
        lemma_same_radius(now.fingers, hand, (0, 0), (0, 0));
    }
}

/// What the latest frame of a march commits.
proof fn lemma_march_commits(
    pad: Pad,
    hand: Seq<TouchContact>,
    dx: int,
    dy: int,
    frames: Seq<StreamFrame>,
    way: int,
    ticks: int,
)
    requires
        hand.len() == 3 || hand.len() == 4,
        distinct_contacts(hand),
        pad.width >= 8,
        along_one_axis(dx, dy),
        abreast(hand, pad, dy == 0),
        marches(hand, dx, dy, frames),
        frames.len() > 0,
        super::classify_laws::fed(ClassifierModel::idle(pad), frames.drop_last()).fired is None,
        way == (frames.len() - 1) * crate::math::magnitude(
            if dy == 0 {
                dx
            } else {
                dy
            },
        ),
        frames.len() > 1 ==> ticks == crate::math::ticks_between(frames[1].ts, frames.last().ts),
    ensures
        super::classify_laws::fed(ClassifierModel::idle(pad), frames.drop_last()).step(
            frames.last().ts,
            frames.last().contacts,
        ).1 == if march_is_swipe(pad, dy == 0, frames.len() - 1, way, ticks) {
            Some(super::classify::swipe_gesture(hand.len(), step_direction(dx, dy)))
        } else {
            None
        },
{
    let idle = ClassifierModel::idle(pad);
    let before = frames.drop_last();
    let last = frames.last();
    let k = frames.len() - 1;
    lemma_march_prefix(hand, dx, dy, frames);
    assert(shifted(hand, k * dx, k * dy, frames[k].contacts));
    if k == 0 {
        assert(0 * dx == 0 && 0 * dy == 0) by (nonlinear_arith);
        assert(last.contacts =~= hand) by {
            assert forall|i: int| 0 <= i < hand.len() implies last.contacts[i] == hand[i] by {
                assert(last.contacts[i].finger_id == hand[i].finger_id);
            }
        }
        lemma_landing_commits_nothing(pad, hand, last.ts);
        assert(super::classify_laws::fed(idle, before) == idle);
    } else {
        lemma_marching(pad, hand, dx, dy, before);
        if k > 1 {
            assert(before[1] == frames[1]);
        }
        lemma_march_step(
            super::classify_laws::fed(idle, before),
            pad,
            hand,
            dx,
            dy,
            k,
            frames[1].ts,
            last.contacts,
            last.ts,
        );
    }
}

/// A hand of three or four fingers that marches across the pad swipes the way it goes, with as
/// many fingers as it has, as soon as it has gone far enough and not before: to the right where x
/// grows, to the left where it shrinks, down where y grows and up where it shrinks.
pub proof fn law_marching_hand_swipes_its_way(
    pad: Pad,
    hand: Seq<TouchContact>,
    dx: int,
    dy: int,
    frames: Seq<StreamFrame>,
)
    requires
        hand.len() == 3 || hand.len() == 4,
        distinct_contacts(hand),
        pad.width >= 8,
        (dy == 0 && (dx >= 3 || dx <= -3)) || (dx == 0 && (dy >= 3 || dy <= -3)),
        abreast(hand, pad, dy == 0),
        marches(hand, dx, dy, frames),
        frames.len() > 0,
        super::classify_laws::fed(ClassifierModel::idle(pad), frames.drop_last()).fired is None,
    ensures
        ({
            let last = frames.last();
            let steps = frames.len() - 1;
            let three = hand.len() == 3;
            let way = steps * (if dx > 0 {
                dx
            } else if dx < 0 {
                -dx
            } else if dy > 0 {
                dy
            } else {
                -dy
            });
            let ticks = if steps == 0 {
                0
            } else {
                (last.ts - frames[1].ts) % 0x1_0000
            };
            let gesture = super::classify_laws::fed(
                ClassifierModel::idle(pad),
                frames.drop_last(),
            ).step(last.ts, last.contacts).1;
            let far = march_is_swipe(pad, dy == 0, steps, way, ticks);
            &&& !far ==> gesture is None
            &&& far && three && dx > 0 ==> gesture == Some(
                TouchpadGestureId::ThreeFingerSwipeRight,
            )
            &&& far && three && dx < 0 ==> gesture == Some(TouchpadGestureId::ThreeFingerSwipeLeft)
            &&& far && three && dy > 0 ==> gesture == Some(TouchpadGestureId::ThreeFingerSwipeDown)
            &&& far && three && dy < 0 ==> gesture == Some(TouchpadGestureId::ThreeFingerSwipeUp)
            &&& far && !three && dx > 0 ==> gesture == Some(
                TouchpadGestureId::FourFingerSwipeRight,
            )
            &&& far && !three && dx < 0 ==> gesture == Some(TouchpadGestureId::FourFingerSwipeLeft)
            &&& far && !three && dy > 0 ==> gesture == Some(TouchpadGestureId::FourFingerSwipeDown)
            &&& far && !three && dy < 0 ==> gesture == Some(TouchpadGestureId::FourFingerSwipeUp)
        }),
{
    let steps = frames.len() - 1;
    let size = if dx > 0 {
        dx
    } else if dx < 0 {
        -dx
    } else if dy > 0 {
        dy
    } else {
        -dy
    };
    let ticks = if steps == 0 {
        0
    } else {
        (frames.last().ts - frames[1].ts) % 0x1_0000
    };
    lemma_march_commits(pad, hand, dx, dy, frames, steps * size, ticks);
}

proof fn lemma_run_kept(state: ClassifierModel, contacts: Seq<TouchContact>, ts: u16)
    requires
        state.fired is None ==> state.swipe.uncommitted(state.pad),
    ensures
        ({
            let seen = state.with_contacts(contacts, ts);
            &&& seen.pad == state.pad
            &&& seen.fired is None ==> seen.swipe.uncommitted(state.pad)
        }),
    decreases contacts.len(),
{
    if contacts.len() > 0 {
        lemma_run_kept(state, contacts.drop_last(), ts);
    }
}

/// A swipe needs its motion: whatever a touching frame looks like that commits one, either the
/// fingers' mean has just moved that way, by at least the dead zone and no less than across, in a
/// run whose whole way leads there too; or all fingers of the stroke have on the whole gone that
/// way since they landed. The stroke had at its peak as many fingers as the swipe has, and two are
/// still down.
pub proof fn law_swipes_have_moved_their_way(
    state: ClassifierModel,
    ts: u16,
    contacts: Seq<TouchContact>,
)
    requires
        state.valid(),
        contacts.len() > 0,
    ensures
        ({
            let now = state.tracking(contacts, ts);
            let n = now.fingers.len() as int;
            let mean = super::classify::mean_position(now.fingers);
            let last = now.swipe.last_mean.unwrap();
            let run = now.run_step(ts).0;
            let total = super::classify::sum_displacement(now.fingers);
            let gesture = state.step(ts, contacts).1;
            let moved = |which: TouchpadGestureId, fingers: nat, d: (int, int), acc: int, gone: (
                int,
                int,
            )|
                gesture == Some(which) ==> {
                    &&& now.stroke_fingers == fingers
                    &&& n >= 2
                    &&& {
                        ||| now.swipe.last_mean is Some && d.0 >= 36 && -d.0 <= d.1 <= d.0 && acc
                            > 0
                        ||| n == fingers && gone.0 >= 3 * n && -gone.0 <= 2 * gone.1 <= gone.0
                    }
                };
            let x = mean.0 - last.0;
            let y = mean.1 - last.1;
            &&& moved(
                TouchpadGestureId::ThreeFingerSwipeRight,
                3,
                (x, y),
                run.acc.0,
                (total.0, total.1),
            )
            &&& moved(
                TouchpadGestureId::ThreeFingerSwipeLeft,
                3,
                (-x, y),
                -run.acc.0,
                (-total.0, total.1),
            )
            &&& moved(
                TouchpadGestureId::ThreeFingerSwipeDown,
                3,
                (y, x),
                run.acc.1,
                (total.1, total.0),
            )
            &&& moved(
                TouchpadGestureId::ThreeFingerSwipeUp,
                3,
                (-y, x),
                -run.acc.1,
                (-total.1, total.0),
            )
            &&& moved(
                TouchpadGestureId::FourFingerSwipeRight,
                4,
                (x, y),
                run.acc.0,
                (total.0, total.1),
            )
            &&& moved(
                TouchpadGestureId::FourFingerSwipeLeft,
                4,
                (-x, y),
                -run.acc.0,
                (-total.0, total.1),
            )
            &&& moved(
                TouchpadGestureId::FourFingerSwipeDown,
                4,
                (y, x),
                run.acc.1,
                (total.1, total.0),
            )
            &&& moved(
                TouchpadGestureId::FourFingerSwipeUp,
                4,
                (-y, x),
                -run.acc.1,
                (-total.1, total.0),
            )
        }),
{
    lemma_run_kept(state, contacts, ts);
    let now = state.tracking(contacts, ts);
    assert(now.fired is None ==> now.swipe.uncommitted(now.pad));
    if now.fired is None {
        lemma_run_goes_its_way(now, ts);
        lemma_swept_goes_its_way(now);
    }
}

proof fn lemma_run_goes_its_way(now: ClassifierModel, ts: u16)
    requires
        now.swipe.uncommitted(now.pad),
    ensures
        now.run_step(ts).1 matches Some(direction) ==> {
            let mean = super::classify::mean_position(now.fingers);
            let last = now.swipe.last_mean->0;
            let d = (mean.0 - last.0, mean.1 - last.1);
            &&& now.may_swipe()
            &&& now.swipe.last_mean is Some
            &&& direction.progress(d) >= 36
            &&& crate::math::magnitude(direction.across(d)) <= direction.progress(d)
            &&& direction.progress(now.run_step(ts).0.acc) > 0
        },
{
    if now.run_step(ts).1 is Some {
        let frames = now.swipe.frames as int;
        assert(3 * 12 * frames >= 0) by (nonlinear_arith)
            requires
                frames >= 0,
        ;
    }
}

proof fn lemma_swept_goes_its_way(now: ClassifierModel)
    ensures
        now.swept() matches Some(direction) ==> {
            let total = super::classify::sum_displacement(now.fingers);
            let n = now.fingers.len() as int;
            &&& now.may_swipe()
            &&& n == now.stroke_fingers
            &&& direction.progress(total) >= 3 * n
            &&& 2 * crate::math::magnitude(direction.across(total)) <= direction.progress(total)
        },
{
    if now.swept() is Some {
        let n = now.fingers.len() as int;
        assert(n * now.pad.sweep_min(true) >= 3 * n) by (nonlinear_arith)
            requires
                n >= 0,
                now.pad.sweep_min(true) >= 3,
        ;
        assert(n * now.pad.sweep_min(false) >= 3 * n) by (nonlinear_arith)
            requires
                n >= 0,
                now.pad.sweep_min(false) >= 3,
        ;
    }
}

/// A hand of two to four fingers that lands, moves a little and lifts has tapped with as many
/// fingers, if that took no longer than the tap window, no finger went further than a
/// twenty-fifth of the pad's width along either axis, and the motion was no gesture; else it has
/// not.
pub proof fn law_tap_is_short_and_still(
    pad: Pad,
    hand: Seq<TouchContact>,
    dx: int,
    dy: int,
    first: u16,
    second: StreamFrame,
    lift: u16,
)
    requires
        2 <= hand.len() <= 4,
        distinct_contacts(hand),
        shifted(hand, dx, dy, second.contacts),
        ClassifierModel::idle(pad).step(first, hand).1 is None,
        ClassifierModel::idle(pad).step(first, hand).0.step(second.ts, second.contacts).1 is None,
    ensures
        ({
            let tap = ClassifierModel::idle(pad).step(first, hand).0.step(
                second.ts,
                second.contacts,
            ).0.step(lift, Seq::empty()).1;
            let limit = pad.width as int / 25;
            let still = -limit <= dx <= limit && -limit <= dy <= limit;
            let short = (lift - first) % 0x1_0000 <= pad.tap_max_ticks;
            &&& still && short && hand.len() == 2 ==> tap == Some(TouchpadGestureId::TwoFingerTap)
            &&& still && short && hand.len() == 3 ==> tap == Some(
                TouchpadGestureId::ThreeFingerTap,
            )
            &&& still && short && hand.len() == 4 ==> tap == Some(TouchpadGestureId::FourFingerTap)
            &&& !still || !short ==> tap is None
        }),
{
    lemma_landed(pad, hand, first);
    let one = ClassifierModel::idle(pad).step(first, hand).0;
    assert(one.fired is None);
    lemma_moved_on(one, hand, (0, 0), (0, 0), (dx, dy), second.contacts, second.ts);
    let now = one.tracking(second.contacts, second.ts);
    let n = hand.len() as int;
    assert forall|i: int| 0 <= i < hand.len() implies (#[trigger] one.fingers[i]).x == hand[i].x
        + dx - dx && one.fingers[i].y == hand[i].y + dy - dy by {
        assert(one.fingers[i].id == hand[i].finger_id);
    }
    lemma_hand_sums(now.fingers, hand, (dx, dy), (dx, dy), one.fingers, n);
    assert(now.fingers.take(n) =~= now.fingers);
    assert((lift - first) % 0x1_0000 == crate::math::ticks_between(first, lift));
}

/// Whether two fingers lie a distance apart along one axis.
pub open spec fn pair_apart(contacts: Seq<TouchContact>, apart: int, sideways: bool) -> bool {
    &&& contacts.len() == 2
    &&& if sideways {
        contacts[0].y == contacts[1].y && crate::math::magnitude(contacts[0].x - contacts[1].x)
            == apart
    } else {
        contacts[0].x == contacts[1].x && crate::math::magnitude(contacts[0].y - contacts[1].y)
            == apart
    }
}

/// Roots that are whole numbers are apart as those numbers are.
pub proof fn law_roots_are_apart_as_their_difference(p: int, q: int, gap: int)
    requires
        p >= q >= 0,
        gap >= 0,
    ensures
        super::classify::roots_apart(p * p, q * q, gap) <==> p - q >= gap,
{
    let excess = p * p - q * q - gap * gap;
    let twice = 2 * (gap * q);
    assert(excess * excess >= 4 * (gap * gap) * (q * q) <==> excess * excess >= twice * twice)
        by (nonlinear_arith)
        requires
            twice == 2 * (gap * q),
    ;
    assert(twice >= 0) by (nonlinear_arith)
        requires
            twice == 2 * (gap * q),
            gap >= 0,
            q >= 0,
    ;
    assert(excess >= 0 ==> (excess * excess >= twice * twice <==> excess >= twice))
        by (nonlinear_arith)
        requires
            twice >= 0,
    ;
    assert(excess - twice == p * p - (q + gap) * (q + gap)) by (nonlinear_arith)
        requires
            excess == p * p - q * q - gap * gap,
            twice == 2 * (gap * q),
    ;
    assert(p * p >= (q + gap) * (q + gap) <==> p >= q + gap) by (nonlinear_arith)
        requires
            p >= 0,
            q + gap >= 0,
    ;
}

/// Fingers that lie further apart are no less apart in their roots.
pub proof fn law_roots_stay_apart(larger: int, more: int, smaller: int, less: int, gap: int)
    requires
        0 <= less <= smaller,
        larger <= more,
        super::classify::roots_apart(larger, smaller, gap),
    ensures
        super::classify::roots_apart(more, less, gap),
{
    let a = larger - smaller - gap * gap;
    let b = more - less - gap * gap;
    assert(b * b >= a * a) by (nonlinear_arith)
        requires
            0 <= a <= b,
    ;
    assert(4 * (gap * gap) * less <= 4 * (gap * gap) * smaller) by (nonlinear_arith)
        requires
            0 <= less <= smaller,
    ;
}

/// Two fingers that land and move apart pinch out, and two that close in pinch in, once the
/// distance between them has changed by an eighth of the pad's width; until then they do nothing.
pub proof fn law_two_finger_pinch_follows_the_fingers(
    pad: Pad,
    hand: Seq<TouchContact>,
    first: u16,
    second: StreamFrame,
    start: int,
    end: int,
    sideways: bool,
)
    requires
        pad.width >= 8,
        distinct_contacts(hand),
        pair_apart(hand, start, sideways),
        pair_apart(second.contacts, end, sideways),
        second.contacts[0].finger_id == hand[0].finger_id,
        second.contacts[1].finger_id == hand[1].finger_id,
    ensures
        ({
            let landed = ClassifierModel::idle(pad).step(first, hand);
            let gesture = landed.0.step(second.ts, second.contacts).1;
            let least = pad.width as int / 8;
            &&& landed.1 is None
            &&& gesture == if end - start >= least {
                Some(TouchpadGestureId::TwoFingerPinchOut)
            } else if start - end >= least {
                Some(TouchpadGestureId::TwoFingerPinchIn)
            } else {
                None
            }
        }),
{
    lemma_landed(pad, hand, first);
    let idle = ClassifierModel::idle(pad);
    let fresh = idle.tracking(hand, first);
    assert(fresh.fingers[0].id == hand[0].finger_id && fresh.fingers[1].id == hand[1].finger_id);
    lemma_pair(fresh.fingers, start, start, sideways, pad);
    let one = idle.step(first, hand).0;
    assert(one.fired is None);
    let contacts = second.contacts;
    assert(super::classify::distinct_fingers(one.fingers));
    assert forall|i: int| 0 <= i < contacts.len() implies (#[trigger] contacts[i]).finger_id
        == one.fingers[i].id by {
        assert(i == 0 || i == 1);
    }
    lemma_moving(one, contacts, second.ts, 2);
    assert(contacts.take(2) =~= contacts);
    let seen = one.with_contacts(contacts, second.ts);
    assert forall|i: int| 0 <= i < seen.fingers.len() implies super::classify::reports(
        contacts,
        (#[trigger] seen.fingers[i]).id,
    ) by {
        assert(contacts[i].finger_id == seen.fingers[i].id);
    }
    lemma_all_reported(seen.fingers, contacts);
    let now = one.tracking(contacts, second.ts);
    lemma_pair(now.fingers, start, end, sideways, pad);
}

proof fn lemma_pair(t: Seq<TrackedFinger>, start: int, end: int, sideways: bool, pad: Pad)
    requires
        t.len() == 2,
        pad.width >= 8,
        sideways ==> t[0].start_y == t[1].start_y && t[0].y == t[1].y && crate::math::magnitude(
            t[0].start_x - t[1].start_x,
        ) == start && crate::math::magnitude(t[0].x - t[1].x) == end,
        !sideways ==> t[0].start_x == t[1].start_x && t[0].x == t[1].x && crate::math::magnitude(
            t[0].start_y - t[1].start_y,
        ) == start && crate::math::magnitude(t[0].y - t[1].y) == end,
    ensures
        super::classify::pair_pinch(t, pad) == if end - start >= pad.width as int / 8 {
            Some(TouchpadGestureId::TwoFingerPinchOut)
        } else if start - end >= pad.width as int / 8 {
            Some(TouchpadGestureId::TwoFingerPinchIn)
        } else {
            None
        },
{
    let now = super::classify::pair_square(
        t[0].x as int,
        t[0].y as int,
        t[1].x as int,
        t[1].y as int,
    );
    let was = super::classify::pair_square(
        t[0].start_x as int,
        t[0].start_y as int,
        t[1].start_x as int,
        t[1].start_y as int,
    );
    lemma_pair_square(t[0].x as int, t[0].y as int, t[1].x as int, t[1].y as int, end, sideways);
    lemma_pair_square(
        t[0].start_x as int,
        t[0].start_y as int,
        t[1].start_x as int,
        t[1].start_y as int,
        start,
        sideways,
    );
    assert(now > was <==> end > start) by (nonlinear_arith)
        requires
            now == end * end,
            was == start * start,
            end >= 0,
            start >= 0,
    ;
    if end > start {
        law_roots_are_apart_as_their_difference(end, start, pad.pinch_min());
    } else {
        law_roots_are_apart_as_their_difference(start, end, pad.pinch_min());
    }
}

proof fn lemma_pair_square(ax: int, ay: int, bx: int, by: int, apart: int, sideways: bool)
    requires
        sideways ==> ay == by && crate::math::magnitude(ax - bx) == apart,
        !sideways ==> ax == bx && crate::math::magnitude(ay - by) == apart,
    ensures
        super::classify::pair_square(ax, ay, bx, by) == apart * apart,
{
    let (x, y) = (ax - bx, ay - by);
    assert(x * x + y * y == apart * apart) by (nonlinear_arith)
        requires
            (y == 0 && (x == apart || x == -apart)) || (x == 0 && (y == apart || y == -apart)),
    ;
}

/// Whether four fingers lie `apart` units to the left, right, top and bottom of a point.
pub open spec fn cross_around(contacts: Seq<TouchContact>, x: int, y: int, apart: int) -> bool {
    &&& contacts.len() == 4
    &&& contacts[0].x == x - apart && contacts[0].y == y
    &&& contacts[1].x == x + apart && contacts[1].y == y
    &&& contacts[2].x == x && contacts[2].y == y - apart
    &&& contacts[3].x == x && contacts[3].y == y + apart
}

proof fn lemma_arm(d: int, m: int)
    requires
        -0x1_0000 <= d <= 0x1_0000,
        m == crate::math::magnitude(d),
    ensures
        ((4 * d) * (4 * d) + 0 * 0) * 0x1_0000_0000_0000_0000_0000 == (m * 0x400_0000_0000) * (m
            * 0x400_0000_0000),
        crate::math::floor_sqrt(
            (((4 * d) * (4 * d) + 0 * 0) * 0x1_0000_0000_0000_0000_0000) as nat,
        ) == m * 0x400_0000_0000,
        crate::math::floor_sqrt(
            ((0 * 0 + (4 * d) * (4 * d)) * 0x1_0000_0000_0000_0000_0000) as nat,
        ) == m * 0x400_0000_0000,
{
    let r = m * 0x400_0000_0000;
    let square = ((4 * d) * (4 * d) + 0 * 0) * 0x1_0000_0000_0000_0000_0000;
    assert(square == r * r) by (nonlinear_arith)
        requires
            r == m * 0x400_0000_0000,
            square == ((4 * d) * (4 * d) + 0 * 0) * 0x1_0000_0000_0000_0000_0000,
            m == d || m == -d,
    ;
    assert(r * r >= 0 && r * r < (r + 1) * (r + 1)) by (nonlinear_arith)
        requires
            r >= 0,
    ;
    assert(crate::math::is_floor_sqrt(square as nat, r as nat));
    crate::math::lemma_floor_sqrt_unique(square as nat, r as nat);
}

/// Four fingers around a point, as they landed and as they are.
spec fn cross_tracked(t: Seq<TrackedFinger>, x: int, y: int, start: int, end: int) -> bool {
    &&& t.len() == 4
    &&& t[0].start_x == x - start && t[0].start_y == y && t[0].x == x - end && t[0].y == y
    &&& t[1].start_x == x + start && t[1].start_y == y && t[1].x == x + end && t[1].y == y
    &&& t[2].start_x == x && t[2].start_y == y - start && t[2].x == x && t[2].y == y - end
    &&& t[3].start_x == x && t[3].start_y == y + start && t[3].x == x && t[3].y == y + end
}

proof fn lemma_cross_radius(t: Seq<TrackedFinger>, x: int, y: int, start: int, end: int)
    requires
        cross_tracked(t, x, y, start, end),
        0 <= start,
        0 <= end,
    ensures
        super::classify::current_radius(t) == end * 0x1000_0000_0000,
        super::classify::start_radius(t) == start * 0x1000_0000_0000,
{
    lemma_arm(end, end);
    lemma_arm(-end, end);
    lemma_arm(start, start);
    lemma_arm(-start, start);
    let sum = (4 * x, 4 * y);
    assert((t[0].x + t[1].x + t[2].x + t[3].x, t[0].y + t[1].y + t[2].y + t[3].y) == sum);
    assert((
        t[0].start_x + t[1].start_x + t[2].start_x + t[3].start_x,
        t[0].start_y + t[1].start_y + t[2].start_y + t[3].start_y,
    ) == sum);
    assert(super::classify::fixed_radius(x - end, y, sum) == end * 0x400_0000_0000);
    assert(super::classify::fixed_radius(x + end, y, sum) == end * 0x400_0000_0000);
    assert(super::classify::fixed_radius(x, y - end, sum) == end * 0x400_0000_0000);
    assert(super::classify::fixed_radius(x, y + end, sum) == end * 0x400_0000_0000);
    assert(super::classify::fixed_radius(x - start, y, sum) == start * 0x400_0000_0000);
    assert(super::classify::fixed_radius(x + start, y, sum) == start * 0x400_0000_0000);
    assert(super::classify::fixed_radius(x, y - start, sum) == start * 0x400_0000_0000);
    assert(super::classify::fixed_radius(x, y + start, sum) == start * 0x400_0000_0000);
}

proof fn lemma_cross_sums(t: Seq<TrackedFinger>, x: int, y: int, start: int, end: int)
    requires
        cross_tracked(t, x, y, start, end),
    ensures
        super::classify::mean_position(t) == (12 * x, 12 * y),
        super::classify::sum_displacement(t) == (0int, 0int),
{
    let three = t.drop_last();
    let two = three.drop_last();
    let one = two.drop_last();
    assert(one.drop_last().len() == 0);
    assert(one.last() == t[0] && two.last() == t[1] && three.last() == t[2] && t.last() == t[3]);
    reveal_with_fuel(super::classify::sum_position, 5);
    reveal_with_fuel(super::classify::sum_displacement, 5);
    assert(super::classify::sum_position(t) == (4 * x, 4 * y));
    let share = super::classify::MEAN_SCALE as int / t.len() as int;
    assert(share == 3);
    assert((4 * x) * share == 12 * x && (4 * y) * share == 12 * y) by (nonlinear_arith)
        requires
            share == 3,
    ;
}

/// Four fingers that open or close around a point commit a pinch or nothing.
proof fn lemma_cross_decides(
    now: ClassifierModel,
    x: int,
    y: int,
    start: int,
    end: int,
    ts: u16,
)
    requires
        cross_tracked(now.fingers, x, y, start, end),
        0 <= start,
        0 <= end,
        now.stroke_fingers == 4,
        now.swipe.last_mean matches Some(last) ==> last == (12 * x, 12 * y),
    ensures
        now.run_step(ts).1 is None,
        now.run_step(ts).0.last_mean == Some((12 * x, 12 * y)),
        now.committed(ts) == now.pinched(),
{
    lemma_cross_sums(now.fingers, x, y, start, end);
    assert(now.swept() is None) by {
        assert(4 * now.pad.sweep_min(true) >= 12);
    }
}

/// Four fingers that land and open pinch out, and four that close pinch in, once they lie an
/// eighth of the pad's width further from or closer to their middle; until then they do nothing.
pub proof fn law_four_finger_pinch_follows_the_fingers(
    pad: Pad,
    hand: Seq<TouchContact>,
    first: u16,
    second: StreamFrame,
    x: int,
    y: int,
    start: int,
    end: int,
)
    requires
        pad.width >= 8,
        distinct_contacts(hand),
        start >= 0,
        end >= 0,
        cross_around(hand, x, y, start),
        cross_around(second.contacts, x, y, end),
        forall|i: int|
            0 <= i < 4 ==> (#[trigger] second.contacts[i]).finger_id == hand[i].finger_id,
    ensures
        ({
            let landed = ClassifierModel::idle(pad).step(first, hand);
            let gesture = landed.0.step(second.ts, second.contacts).1;
            let least = pad.width as int / 8;
            &&& landed.1 is None
            &&& gesture == if end - start >= least {
                Some(TouchpadGestureId::FourFingerPinchOut)
            } else if start - end >= least {
                Some(TouchpadGestureId::FourFingerPinchIn)
            } else {
                None
            }
        }),
{
    let idle = ClassifierModel::idle(pad);
    lemma_landed(pad, hand, first);
    let fresh = idle.tracking(hand, first);
    assert(fresh.fingers[0].id == hand[0].finger_id && fresh.fingers[1].id == hand[1].finger_id);
    assert(fresh.fingers[2].id == hand[2].finger_id && fresh.fingers[3].id == hand[3].finger_id);
    lemma_cross_decides(fresh, x, y, start, start, first);
    lemma_cross_radius(fresh.fingers, x, y, start, start);
    assert(fresh.pinched() is None);
    let one = idle.step(first, hand).0;
    assert(one.fired is None);
    let contacts = second.contacts;
    assert forall|i: int, j: int| 0 <= i < j < one.fingers.len() implies (
    #[trigger] one.fingers[i]).id != (#[trigger] one.fingers[j]).id by {
        assert(hand[i].finger_id != hand[j].finger_id);
    }
    assert forall|i: int| 0 <= i < contacts.len() implies (#[trigger] contacts[i]).finger_id
        == one.fingers[i].id by {
        assert(one.fingers[i].id == hand[i].finger_id);
    }
    lemma_moving(one, contacts, second.ts, 4);
    assert(contacts.take(4) =~= contacts);
    let seen = one.with_contacts(contacts, second.ts);
    assert forall|i: int| 0 <= i < seen.fingers.len() implies super::classify::reports(
        contacts,
        (#[trigger] seen.fingers[i]).id,
    ) by {
        assert(contacts[i].finger_id == seen.fingers[i].id);
    }
    lemma_all_reported(seen.fingers, contacts);
    let now = one.tracking(contacts, second.ts);
    assert(super::classify::same_fingers(one.fingers, now.fingers)) by {
        assert forall|i: int| 0 <= i < one.fingers.len() implies (
        #[trigger] one.fingers[i]).id == now.fingers[i].id by {}
    }
    assert(one.swipe.last_mean == Some((12 * x, 12 * y)));
    assert(now.swipe == one.swipe && now.pad == pad && now.fired is None);
    lemma_cross_decides(now, x, y, start, end, second.ts);
    lemma_cross_radius(now.fingers, x, y, start, end);
    let least = pad.width as int / 8;
    assert(pad.pinch_min() == least && least >= 1);
    let change = super::classify::current_radius(now.fingers) - super::classify::start_radius(
        now.fingers,
    );
    assert(change == (end - start) * 0x1000_0000_0000);
    assert(now.pinched() == super::classify::group_pinch(now.fingers, pad));
    assert(one.step(second.ts, contacts).1 == now.pinched());
}

} // verus!
