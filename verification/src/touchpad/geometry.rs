//! Distances and centroids of touch contacts, in whole micrometres.
use vstd::prelude::*;

use crate::math::{isqrt, saturating_product, unsigned_magnitude};
use super::TouchContact;

verus! {

/// Sum of the horizontal positions.
pub open spec fn sum_x(contacts: Seq<TouchContact>) -> nat
    decreases contacts.len(),
{
    if contacts.len() == 0 {
        0
    } else {
        sum_x(contacts.drop_last()) + contacts.last().x_um as nat
    }
}

/// Sum of the vertical positions.
pub open spec fn sum_y(contacts: Seq<TouchContact>) -> nat
    decreases contacts.len(),
{
    if contacts.len() == 0 {
        0
    } else {
        sum_y(contacts.drop_last()) + contacts.last().y_um as nat
    }
}

/// Mean position, each coordinate rounded down.
pub open spec fn centroid_of(contacts: Seq<TouchContact>) -> (int, int) {
    (
        sum_x(contacts) as int / contacts.len() as int,
        sum_y(contacts) as int / contacts.len() as int,
    )
}

/// Length of a vector, rounded down; a squared length beyond 64 bits counts as the largest one.
pub open spec fn length_of(dx: int, dy: int) -> nat {
    crate::math::floor_sqrt(crate::math::lesser(dx * dx + dy * dy, u64::MAX as int) as nat)
}

/// Distance between two contacts.
pub open spec fn distance_of(a: TouchContact, b: TouchContact) -> nat {
    length_of(b.x_um - a.x_um, b.y_um - a.y_um)
}

/// Sum of the contacts' distances from a centre.
pub open spec fn sum_radius(contacts: Seq<TouchContact>, centre: (int, int)) -> nat
    decreases contacts.len(),
{
    if contacts.len() == 0 {
        0
    } else {
        sum_radius(contacts.drop_last(), centre) + length_of(
            contacts.last().x_um - centre.0,
            contacts.last().y_um - centre.1,
        )
    }
}

/// Mean distance of the contacts from their centroid, rounded down.
pub open spec fn spread_of(contacts: Seq<TouchContact>) -> nat {
    sum_radius(contacts, centroid_of(contacts)) / contacts.len()
}

/// The first contact carrying `id`.
pub open spec fn contact_with(contacts: Seq<TouchContact>, id: u8) -> Option<TouchContact>
    decreases contacts.len(),
{
    if contacts.len() == 0 {
        None
    } else {
        match contact_with(contacts.drop_last(), id) {
            Some(found) => Some(found),
            None => if contacts.last().id == id {
                Some(contacts.last())
            } else {
                None
            },
        }
    }
}

/// Farthest any contact lies from where the contact of the same id started.
pub open spec fn farthest_travel(starts: Seq<TouchContact>, contacts: Seq<TouchContact>) -> nat
    decreases contacts.len(),
{
    if contacts.len() == 0 {
        0
    } else {
        let rest = farthest_travel(starts, contacts.drop_last());
        match contact_with(starts, contacts.last().id) {
            Some(start) => crate::math::greater(
                rest as int,
                distance_of(start, contacts.last()) as int,
            ) as nat,
            None => rest,
        }
    }
}

/// Where a contact started; a contact without a start counts as not having moved.
pub open spec fn start_of(starts: Seq<TouchContact>, contact: TouchContact) -> TouchContact {
    match contact_with(starts, contact.id) {
        Some(start) => start,
        None => contact,
    }
}

/// Sum of the contacts' travel from their starts.
pub open spec fn sum_travel(starts: Seq<TouchContact>, contacts: Seq<TouchContact>) -> (int, int)
    decreases contacts.len(),
{
    if contacts.len() == 0 {
        (0, 0)
    } else {
        let rest = sum_travel(starts, contacts.drop_last());
        let contact = contacts.last();
        let start = start_of(starts, contact);
        (rest.0 + contact.x_um - start.x_um, rest.1 + contact.y_um - start.y_um)
    }
}

/// Whether two frames carry the same contact ids in the same order.
pub open spec fn same_ids(a: Seq<TouchContact>, b: Seq<TouchContact>) -> bool {
    a.len() == b.len() && forall|i: int| 0 <= i < a.len() ==> (#[trigger] a[i]).id == b[i].id
}

/// Whether every contact of `inner` has its id in `outer`.
pub open spec fn ids_within(inner: Seq<TouchContact>, outer: Seq<TouchContact>) -> bool {
    forall|i: int|
        0 <= i < inner.len() ==> contact_with(outer, (#[trigger] inner[i]).id) is Some
}

/// A centroid lies inside the coordinate range.
pub proof fn lemma_centroid_bounds(contacts: Seq<TouchContact>)
    requires
        contacts.len() > 0,
    ensures
        0 <= centroid_of(contacts).0 <= u32::MAX,
        0 <= centroid_of(contacts).1 <= u32::MAX,
{
    lemma_sum_bounds(contacts);
    let n = contacts.len() as int;
    assert(0 <= sum_x(contacts) as int / n <= u32::MAX) by (nonlinear_arith)
        requires
            n > 0,
            0 <= sum_x(contacts) <= n * u32::MAX,
    ;
    assert(0 <= sum_y(contacts) as int / n <= u32::MAX) by (nonlinear_arith)
        requires
            n > 0,
            0 <= sum_y(contacts) <= n * u32::MAX,
    ;
}

proof fn lemma_sum_bounds(contacts: Seq<TouchContact>)
    ensures
        sum_x(contacts) <= contacts.len() * u32::MAX,
        sum_y(contacts) <= contacts.len() * u32::MAX,
    decreases contacts.len(),
{
    if contacts.len() > 0 {
        lemma_sum_bounds(contacts.drop_last());
        assert((contacts.len() - 1) * u32::MAX + u32::MAX == contacts.len() * u32::MAX)
            by (nonlinear_arith);
    }
}

/// One step of a forward walk over the contacts.
proof fn lemma_prefix_step(contacts: Seq<TouchContact>, i: int)
    requires
        0 <= i < contacts.len(),
    ensures
        contacts.take(i + 1).drop_last() == contacts.take(i),
        contacts.take(i + 1).last() == contacts[i],
{
    assert(contacts.take(i + 1).drop_last() =~= contacts.take(i));
}

/// An integer point.
#[derive(Clone, Copy, Debug, PartialEq, Eq, Structural)]
pub struct Point {
    pub x: i64,
    pub y: i64,
}

impl Point {
    /// Whether the point lies inside the coordinate range of contacts.
    pub open spec fn in_range(self) -> bool {
        0 <= self.x <= u32::MAX && 0 <= self.y <= u32::MAX
    }
}

/// Mean position of the contacts.
pub fn centroid(contacts: &Vec<TouchContact>) -> (centre: Point)
    requires
        contacts@.len() > 0,
    ensures
        centre.x == centroid_of(contacts@).0,
        centre.y == centroid_of(contacts@).1,
        centre.in_range(),
{
    let mut x: u128 = 0;
    let mut y: u128 = 0;
    let mut i: usize = 0;
    while i < contacts.len()
        invariant
            i <= contacts@.len(),
            x == sum_x(contacts@.take(i as int)),
            y == sum_y(contacts@.take(i as int)),
            x <= i * u32::MAX,
            y <= i * u32::MAX,
        decreases contacts@.len() - i,
    {
        proof {
            lemma_prefix_step(contacts@, i as int);
            assert(i * u32::MAX + u32::MAX == (i + 1) * u32::MAX) by (nonlinear_arith);
            assert((i + 1) * u32::MAX <= usize::MAX * u32::MAX) by (nonlinear_arith)
                requires
                    i + 1 <= usize::MAX,
            ;
        }
        x = x + contacts[i].x_um as u128;
        y = y + contacts[i].y_um as u128;
        i = i + 1;
    }
    proof {
        assert(contacts@.take(i as int) =~= contacts@);
        lemma_centroid_bounds(contacts@);
    }
    let count: u128 = contacts.len() as u128;
    Point { x: (x / count) as i64, y: (y / count) as i64 }
}

/// Mean distance of the contacts from their centroid `centre`.
pub fn spread(contacts: &Vec<TouchContact>, centre: Point) -> (mean: u64)
    requires
        contacts@.len() > 0,
        centre.in_range(),
        (centre.x as int, centre.y as int) == centroid_of(contacts@),
    ensures
        mean == spread_of(contacts@),
        mean <= 0xffff_ffff,
{
    let mut sum: u128 = 0;
    let mut i: usize = 0;
    let ghost at = (centre.x as int, centre.y as int);
    while i < contacts.len()
        invariant
            i <= contacts@.len(),
            centre.in_range(),
            at == (centre.x as int, centre.y as int),
            sum == sum_radius(contacts@.take(i as int), at),
            sum <= i * 0xffff_ffff,
        decreases contacts@.len() - i,
    {
        proof {
            lemma_prefix_step(contacts@, i as int);
            assert(i * 0xffff_ffff + 0xffff_ffff == (i + 1) * 0xffff_ffff) by (nonlinear_arith);
            assert((i + 1) * 0xffff_ffff <= usize::MAX * 0xffff_ffff) by (nonlinear_arith)
                requires
                    i + 1 <= usize::MAX,
            ;
        }
        let contact: TouchContact = contacts[i];
        let radius: u64 = vector_length(
            contact.x_um as i64 - centre.x,
            contact.y_um as i64 - centre.y,
        );
        sum = sum + radius as u128;
        i = i + 1;
    }
    proof {
        assert(contacts@.take(i as int) =~= contacts@);
        let n = contacts@.len() as int;
        assert(sum as int / n <= 0xffff_ffff) by (nonlinear_arith)
            requires
                n > 0,
                0 <= sum <= n * 0xffff_ffff,
        ;
    }
    (sum / contacts.len() as u128) as u64
}

/// Distance between two contacts.
pub fn contact_distance(a: TouchContact, b: TouchContact) -> (distance: u64)
    ensures
        distance == distance_of(a, b),
        distance <= 0xffff_ffff,
{
    vector_length(b.x_um as i64 - a.x_um as i64, b.y_um as i64 - a.y_um as i64)
}

/// Length of a vector.
pub fn vector_length(dx: i64, dy: i64) -> (length: u64)
    ensures
        length == length_of(dx as int, dy as int),
        length <= 0xffff_ffff,
{
    let x: u64 = unsigned_magnitude(dx);
    let y: u64 = unsigned_magnitude(dy);
    proof {
        assert(x * x == dx * dx) by (nonlinear_arith)
            requires
                x == dx || x == -dx,
        ;
        assert(y * y == dy * dy) by (nonlinear_arith)
            requires
                y == dy || y == -dy,
        ;
        assert(0 <= x * x) by (nonlinear_arith);
        assert(0 <= y * y) by (nonlinear_arith);
    }
    isqrt(saturating_product(x, x).saturating_add(saturating_product(y, y)))
}

/// Finds the contact carrying `id`.
pub fn find_contact(contacts: &Vec<TouchContact>, id: u8) -> (found: Option<TouchContact>)
    ensures
        found == contact_with(contacts@, id),
{
    let mut i: usize = 0;
    while i < contacts.len()
        invariant
            i <= contacts@.len(),
            contact_with(contacts@.take(i as int), id) is None,
        decreases contacts@.len() - i,
    {
        proof {
            lemma_prefix_step(contacts@, i as int);
        }
        if contacts[i].id == id {
            proof {
                lemma_found_first(contacts@, i as int + 1, id);
            }
            return Some(contacts[i]);
        }
        i = i + 1;
    }
    assert(contacts@.take(i as int) =~= contacts@);
    None
}

/// A contact found in a prefix is the one found in the whole.
proof fn lemma_found_first(contacts: Seq<TouchContact>, i: int, id: u8)
    requires
        0 <= i <= contacts.len(),
        contact_with(contacts.take(i), id) is Some,
    ensures
        contact_with(contacts, id) == contact_with(contacts.take(i), id),
    decreases contacts.len() - i,
{
    if i < contacts.len() {
        lemma_prefix_step(contacts, i);
        lemma_found_first(contacts, i + 1, id);
    } else {
        assert(contacts.take(i) =~= contacts);
    }
}

/// A contact's id is found among the contacts it belongs to.
pub proof fn lemma_present(contacts: Seq<TouchContact>, i: int)
    requires
        0 <= i < contacts.len(),
    ensures
        contact_with(contacts, contacts[i].id) is Some,
    decreases contacts.len(),
{
    if i < contacts.len() - 1 {
        lemma_present(contacts.drop_last(), i);
    }
}

/// A contact that was found is one of the contacts and carries the id.
pub proof fn lemma_found(contacts: Seq<TouchContact>, id: u8) -> (i: int)
    requires
        contact_with(contacts, id) is Some,
    ensures
        0 <= i < contacts.len(),
        contact_with(contacts, id) == Some(contacts[i]),
        contacts[i].id == id,
    decreases contacts.len(),
{
    if contact_with(contacts.drop_last(), id) is Some {
        lemma_found(contacts.drop_last(), id)
    } else {
        contacts.len() - 1
    }
}

/// Being within is reflexive and, along an intermediate list, transitive.
pub proof fn lemma_ids_within(
    inner: Seq<TouchContact>,
    middle: Seq<TouchContact>,
    outer: Seq<TouchContact>,
)
    requires
        ids_within(inner, middle) || same_ids(inner, middle),
        ids_within(middle, outer),
    ensures
        ids_within(inner, outer),
{
    assert forall|i: int| 0 <= i < inner.len() implies contact_with(
        outer,
        (#[trigger] inner[i]).id,
    ) is Some by {
        if same_ids(inner, middle) {
            assert(inner[i].id == middle[i].id);
            assert(contact_with(outer, middle[i].id) is Some);
        } else {
            let k = lemma_found(middle, inner[i].id);
            assert(contact_with(outer, middle[k].id) is Some);
        }
    }
}

/// Whether the contacts hold one carrying `id`.
pub fn has_contact(contacts: &Vec<TouchContact>, id: u8) -> (found: bool)
    ensures
        found == (contact_with(contacts@, id) is Some),
{
    find_contact(contacts, id).is_some()
}

/// Whether every contact of `inner` has its id in `outer`.
pub fn has_all(inner: &Vec<TouchContact>, outer: &Vec<TouchContact>) -> (within: bool)
    ensures
        within == ids_within(inner@, outer@),
{
    let mut i: usize = 0;
    while i < inner.len()
        invariant
            i <= inner@.len(),
            forall|j: int|
                0 <= j < i ==> contact_with(outer@, (#[trigger] inner@[j]).id) is Some,
        decreases inner@.len() - i,
    {
        if !has_contact(outer, inner[i].id) {
            assert(contact_with(outer@, inner@[i as int].id) is None);
            return false;
        }
        i = i + 1;
    }
    true
}

/// Whether two contact lists carry the same ids in the same order.
pub fn contact_ids_equal(a: &Vec<TouchContact>, b: &Vec<TouchContact>) -> (same: bool)
    ensures
        same == same_ids(a@, b@),
{
    if a.len() != b.len() {
        return false;
    }
    let mut i: usize = 0;
    while i < a.len()
        invariant
            i <= a@.len(),
            a@.len() == b@.len(),
            forall|j: int| 0 <= j < i ==> (#[trigger] a@[j]).id == b@[j].id,
        decreases a@.len() - i,
    {
        if a[i].id != b[i].id {
            assert(a@[i as int].id != b@[i as int].id);
            return false;
        }
        i = i + 1;
    }
    true
}

/// Farthest any contact lies from its start.
pub fn max_travel(starts: &Vec<TouchContact>, contacts: &Vec<TouchContact>) -> (travel: u64)
    ensures
        travel == farthest_travel(starts@, contacts@),
        travel <= 0xffff_ffff,
{
    let mut travel: u64 = 0;
    let mut i: usize = 0;
    while i < contacts.len()
        invariant
            i <= contacts@.len(),
            travel == farthest_travel(starts@, contacts@.take(i as int)),
            travel <= 0xffff_ffff,
        decreases contacts@.len() - i,
    {
        proof {
            lemma_prefix_step(contacts@, i as int);
        }
        if let Some(start) = find_contact(starts, contacts[i].id) {
            let distance: u64 = contact_distance(start, contacts[i]);
            if distance > travel {
                travel = distance;
            }
        }
        i = i + 1;
    }
    assert(contacts@.take(i as int) =~= contacts@);
    travel
}

/// Sum of the contacts' travel from their starts, for at most four contacts.
pub fn total_travel(starts: &Vec<TouchContact>, contacts: &Vec<TouchContact>) -> (sum: (i64, i64))
    requires
        contacts@.len() <= 4,
    ensures
        (sum.0 as int, sum.1 as int) == sum_travel(starts@, contacts@),
        -0x4_0000_0000 <= sum.0 <= 0x4_0000_0000,
        -0x4_0000_0000 <= sum.1 <= 0x4_0000_0000,
{
    let mut dx: i64 = 0;
    let mut dy: i64 = 0;
    let mut i: usize = 0;
    while i < contacts.len()
        invariant
            i <= contacts@.len() <= 4,
            (dx as int, dy as int) == sum_travel(starts@, contacts@.take(i as int)),
            -(i * 0x1_0000_0000) <= dx <= i * 0x1_0000_0000,
            -(i * 0x1_0000_0000) <= dy <= i * 0x1_0000_0000,
        decreases contacts@.len() - i,
    {
        proof {
            lemma_prefix_step(contacts@, i as int);
        }
        let contact: TouchContact = contacts[i];
        let start: TouchContact = match find_contact(starts, contact.id) {
            Some(start) => start,
            None => contact,
        };
        dx = dx + contact.x_um as i64 - start.x_um as i64;
        dy = dy + contact.y_um as i64 - start.y_um as i64;
        i = i + 1;
    }
    assert(contacts@.take(i as int) =~= contacts@);
    (dx, dy)
}

/// The centroid is the mean of the positions, cut down to a whole micrometre on each axis, and the
/// positions add up contact by contact.
pub proof fn law_centroid_is_the_mean(contacts: Seq<TouchContact>, next: TouchContact)
    ensures
        contacts.len() > 0 ==> ({
            let n = contacts.len() as int;
            let (x, y) = centroid_of(contacts);
            &&& 0 <= sum_x(contacts) - n * x < n
            &&& 0 <= sum_y(contacts) - n * y < n
        }),
        sum_x(contacts.push(next)) == sum_x(contacts) + next.x_um,
        sum_y(contacts.push(next)) == sum_y(contacts) + next.y_um,
        sum_x(Seq::empty()) == 0,
        sum_y(Seq::empty()) == 0,
{
    assert(contacts.push(next).drop_last() =~= contacts);
    if contacts.len() > 0 {
        let n = contacts.len() as int;
        vstd::arithmetic::div_mod::lemma_fundamental_div_mod(sum_x(contacts) as int, n);
        vstd::arithmetic::div_mod::lemma_fundamental_div_mod(sum_y(contacts) as int, n);
    }
}

/// A length squares to no more than the squares of its two components together, and the next whole
/// number to more.
pub proof fn law_length_is_the_root_of_the_squares(dx: int, dy: int)
    requires
        dx * dx + dy * dy <= u64::MAX,
    ensures
        length_of(dx, dy) * length_of(dx, dy) <= dx * dx + dy * dy,
        (length_of(dx, dy) + 1) * (length_of(dx, dy) + 1) > dx * dx + dy * dy,
{
    assert(dx * dx + dy * dy >= 0) by (nonlinear_arith);
    crate::math::lemma_floor_sqrt_exists((dx * dx + dy * dy) as nat);
}

/// The spread is the mean of the contacts' distances from their centroid, cut down to a whole
/// micrometre; the distances add up contact by contact.
pub proof fn law_spread_is_the_mean_distance(
    contacts: Seq<TouchContact>,
    next: TouchContact,
    centre: (int, int),
)
    ensures
        contacts.len() > 0 ==> ({
            let n = contacts.len() as int;
            0 <= sum_radius(contacts, centroid_of(contacts)) - n * spread_of(contacts) < n
        }),
        sum_radius(contacts.push(next), centre) == sum_radius(contacts, centre) + length_of(
            next.x_um - centre.0,
            next.y_um - centre.1,
        ),
        sum_radius(Seq::empty(), centre) == 0,
{
    assert(contacts.push(next).drop_last() =~= contacts);
    if contacts.len() > 0 {
        vstd::arithmetic::div_mod::lemma_fundamental_div_mod(
            sum_radius(contacts, centroid_of(contacts)) as int,
            contacts.len() as int,
        );
    }
}

/// The contact with an id is the first that carries it.
pub proof fn law_first_contact_is_found(contacts: Seq<TouchContact>, id: u8, at: int)
    ensures
        (forall|i: int| 0 <= i < contacts.len() ==> (#[trigger] contacts[i]).id != id)
            ==> contact_with(contacts, id) is None,
        0 <= at < contacts.len() && contacts[at].id == id && (forall|i: int|
            0 <= i < at ==> (#[trigger] contacts[i]).id != id) ==> contact_with(contacts, id)
            == Some(contacts[at]),
    decreases contacts.len(),
{
    if contacts.len() > 0 {
        let rest = contacts.drop_last();
        law_first_contact_is_found(rest, id, at);
        if forall|i: int| 0 <= i < contacts.len() ==> (#[trigger] contacts[i]).id != id {
            assert forall|i: int| 0 <= i < rest.len() implies (#[trigger] rest[i]).id != id by {
                assert(contacts[i].id != id);
            }
            assert(contacts[contacts.len() - 1].id != id);
        }
        if 0 <= at < contacts.len() && contacts[at].id == id && (forall|i: int|
            0 <= i < at ==> (#[trigger] contacts[i]).id != id) {
            assert forall|i: int| 0 <= i < at && i < rest.len() implies (#[trigger] rest[i]).id
                != id by {
                assert(contacts[i].id != id);
            }
            if at < rest.len() {
                assert(rest[at] == contacts[at]);
            }
        }
    }
}

/// Travel adds up contact by contact, each from where its own finger started, to the right and down;
/// the farthest travel is that of the contact that came farthest from its start.
pub proof fn law_travel_adds_up(
    starts: Seq<TouchContact>,
    contacts: Seq<TouchContact>,
    next: TouchContact,
)
    ensures
        ({
            let more = contacts.push(next);
            let before = sum_travel(starts, contacts);
            let farthest = farthest_travel(starts, contacts);
            &&& contact_with(starts, next.id) matches Some(start) ==> {
                let own = length_of(next.x_um - start.x_um, next.y_um - start.y_um);
                &&& sum_travel(starts, more) == (
                    before.0 + (next.x_um - start.x_um),
                    before.1 + (next.y_um - start.y_um),
                )
                &&& farthest_travel(starts, more) >= farthest
                &&& farthest_travel(starts, more) >= own
                &&& farthest_travel(starts, more) == farthest || farthest_travel(starts, more)
                    == own
            }
            &&& contact_with(starts, next.id) is None ==> sum_travel(starts, more) == before
                && farthest_travel(starts, more) == farthest
        }),
        sum_travel(starts, Seq::empty()) == (0int, 0int),
        farthest_travel(starts, Seq::empty()) == 0,
{
    assert(contacts.push(next).drop_last() =~= contacts);
}

} // verus!
