//! Live dock-swipe streaming: which gesture event each step of a swipe posts.
//!
//! The system's dock-swipe state is global and single-owner. [`Stream`] tracks the running gesture:
//! its owner isolates it to one capture session, and its generation invalidates pending re-posts of
//! an end event when a new gesture begins. Progress is counted in fractions of a pad width that make
//! every finger travel on the pad a whole number.
use vstd::prelude::*;

use crate::math::{saturate, saturating_sum};

verus! {

/// Progress units per pad width, in which both pad axes are whole numbers of micrometres.
pub const PROGRESS_UNITS: i64 = 4_914_000;

/// Type of a velocity event.
pub const HID_TYPE_VELOCITY: u32 = 9;

/// Type of a dock-swipe event.
pub const HID_TYPE_DOCK_SWIPE: u32 = 23;

/// A field id is its event type in the upper and an index in the lower sixteen bits.
pub const FIELD_TYPE_UNIT: u32 = 0x1_0000;

pub const FIELD_DOCK_SWIPE_MOTION: u32 = HID_TYPE_DOCK_SWIPE * FIELD_TYPE_UNIT + 1;

pub const FIELD_DOCK_SWIPE_PROGRESS: u32 = HID_TYPE_DOCK_SWIPE * FIELD_TYPE_UNIT + 2;

pub const FIELD_DOCK_SWIPE_FLAVOR: u32 = HID_TYPE_DOCK_SWIPE * FIELD_TYPE_UNIT + 5;

pub const FIELD_VELOCITY_X: u32 = HID_TYPE_VELOCITY * FIELD_TYPE_UNIT;

pub const FIELD_VELOCITY_Y: u32 = HID_TYPE_VELOCITY * FIELD_TYPE_UNIT + 1;

pub const FIELD_VELOCITY_Z: u32 = HID_TYPE_VELOCITY * FIELD_TYPE_UNIT + 2;

/// The flavor of dock-swipe events.
pub const FLAVOR_DOCK_PRIMARY: i64 = 3;

/// Position of the phase in an event's options.
pub const PHASE_SHIFT: u32 = 24;

/// Weight of the phase in an event's options.
pub const PHASE_UNIT: u32 = 0x0100_0000;

pub const PHASE_BEGAN: u32 = 1;

pub const PHASE_CHANGED: u32 = 2;

pub const PHASE_ENDED: u32 = 4;

pub const PHASE_CANCELLED: u32 = 8;

/// The release velocity is the last frame's delta times this.
pub const EXIT_VELOCITY_SCALE: i64 = 100;

/// When an end event is posted again, in milliseconds after the first: the first can be dropped
/// under load.
pub const END_RESEND_DELAYS_MS: [u64; 2] = [200, 500];

/// Axis of a dock swipe.
#[derive(Clone, Copy, Debug, PartialEq, Eq, Structural)]
pub enum DockSwipeMotion {
    Horizontal,
    Vertical,
}

/// Step of a dock swipe.
#[derive(Clone, Copy, Debug, PartialEq, Eq, Structural)]
pub enum DockSwipePhase {
    Began,
    Changed,
    /// The fingers lifted.
    End,
    /// The swipe was aborted.
    Cancel,
}

/// The number a motion is posted as.
pub open spec fn motion_number(motion: DockSwipeMotion) -> int {
    match motion {
        DockSwipeMotion::Horizontal => 1,
        DockSwipeMotion::Vertical => 2,
    }
}

/// The number a motion is posted as.
pub fn motion_id(motion: DockSwipeMotion) -> (id: i64)
    ensures
        id == motion_number(motion),
{
    match motion {
        DockSwipeMotion::Horizontal => 1,
        DockSwipeMotion::Vertical => 2,
    }
}

/// One gesture event, ready to post.
#[derive(Clone, Copy, Debug, PartialEq, Eq, Structural)]
pub struct EventPlan {
    /// The phase, in the options' place for it.
    pub options: u32,
    /// Accumulated progress, in [`PROGRESS_UNITS`]ths of a pad width.
    pub progress: i64,
    /// Release velocity in the same units per second; end events only.
    pub velocity: Option<i64>,
    /// The gesture the event belongs to.
    pub generation: u64,
}

/// The running gesture.
#[derive(Clone, Copy, Debug, PartialEq, Eq, Structural)]
pub struct Stream {
    pub owner: u64,
    pub progress: i64,
    pub last_delta: i64,
    pub generation: u64,
}

/// Whether a release commits: it still moves along the accumulated travel. An explicit cancel, a
/// release without progress and a release without motion never commit.
pub open spec fn commits(phase: DockSwipePhase, progress: int, last_delta: int) -> bool {
    phase != DockSwipePhase::Cancel && ((progress > 0 && last_delta > 0) || (progress < 0
        && last_delta < 0))
}

/// Commit-or-spring-back decision for a release: one that moves along the accumulated travel
/// commits, and one that moves against it or does not move springs back.
pub fn release_phase(phase: DockSwipePhase, progress: i64, last_delta: i64) -> (number: u32)
    ensures
        number == if commits(phase, progress as int, last_delta as int) {
            PHASE_ENDED
        } else {
            PHASE_CANCELLED
        },
{
    let along: bool = match phase {
        DockSwipePhase::Cancel => false,
        _ => (progress > 0 && last_delta > 0) || (progress < 0 && last_delta < 0),
    };
    if along {
        PHASE_ENDED
    } else {
        PHASE_CANCELLED
    }
}

impl Default for Stream {
    fn default() -> (stream: Self)
        ensures
            stream == (Stream { owner: 0, progress: 0, last_delta: 0, generation: 0 }),
    {
        Stream { owner: 0, progress: 0, last_delta: 0, generation: 0 }
    }
}

impl Stream {
    /// The next generation.
    pub open spec fn next_generation(self) -> u64 {
        if self.generation == u64::MAX {
            0
        } else {
            (self.generation + 1) as u64
        }
    }

    /// The event that opens a gesture: it carries the stroke's first delta, and belongs to the
    /// next generation.
    pub open spec fn began(self, delta: i64) -> EventPlan {
        EventPlan {
            options: (PHASE_BEGAN * PHASE_UNIT) as u32,
            progress: delta,
            velocity: None,
            generation: self.next_generation(),
        }
    }

    /// The stream once an opening event was delivered: the owner takes it over, and the event's
    /// progress seeds it.
    pub open spec fn taken_over(self, owner: u64, plan: EventPlan) -> Stream {
        Stream {
            owner,
            generation: plan.generation,
            progress: plan.progress,
            last_delta: plan.progress,
        }
    }

    /// Whether a continuation from an owner moves the gesture.
    pub open spec fn accepts(self, owner: u64, delta: i64) -> bool {
        self.owner == owner && delta != 0
    }

    /// The stream moved by a delta.
    pub open spec fn moved(self, delta: i64) -> Stream {
        Stream {
            progress: crate::math::clamped(
                self.progress + delta,
                i64::MIN as int,
                i64::MAX as int,
            ) as i64,
            last_delta: delta,
            ..self
        }
    }

    /// The event of the latest move.
    pub open spec fn changed(self) -> EventPlan {
        EventPlan {
            options: (PHASE_CHANGED * PHASE_UNIT) as u32,
            progress: self.progress,
            velocity: None,
            generation: self.generation,
        }
    }

    /// The event that ends the gesture.
    pub open spec fn ended(self, phase: DockSwipePhase) -> EventPlan {
        let number = if commits(phase, self.progress as int, self.last_delta as int) {
            PHASE_ENDED
        } else {
            PHASE_CANCELLED
        };
        EventPlan {
            options: (number * PHASE_UNIT) as u32,
            progress: self.progress,
            velocity: Some(
                crate::math::clamped(
                    self.last_delta * EXIT_VELOCITY_SCALE,
                    i64::MIN as int,
                    i64::MAX as int,
                ) as i64,
            ),
            generation: self.generation,
        }
    }

    /// Plans an opening event without changing who owns the stream.
    pub fn began_plan(&self, delta: i64) -> (plan: EventPlan)
        ensures
            plan == self.began(delta),
    {
        EventPlan {
            options: PHASE_BEGAN * PHASE_UNIT,
            progress: delta,
            velocity: None,
            generation: if self.generation == u64::MAX {
                0
            } else {
                self.generation + 1
            },
        }
    }

    /// Commits an opening plan after successful delivery.
    pub fn commit_began(&mut self, owner: u64, plan: &EventPlan)
        ensures
            *final(self) == old(self).taken_over(owner, *plan),
    {
        self.owner = owner;
        self.generation = plan.generation;
        self.progress = plan.progress;
        self.last_delta = plan.progress;
    }

    /// Plans a continuation frame; `None` for zero-delta frames and for frames from a superseded
    /// owner, which leave the stream alone.
    pub fn advance(&mut self, owner: u64, delta: i64) -> (plan: Option<EventPlan>)
        ensures
            plan is Some <==> old(self).accepts(owner, delta),
            plan is None ==> *final(self) == *old(self),
            plan matches Some(p) ==> *final(self) == old(self).moved(delta) && p == old(
                self,
            ).moved(delta).changed(),
    {
        if self.owner != owner {
            return None;
        }
        if delta == 0 {
            return None;
        }
        self.progress = saturating_sum(self.progress, delta);
        self.last_delta = delta;
        Some(
            EventPlan {
                options: PHASE_CHANGED * PHASE_UNIT,
                progress: self.progress,
                velocity: None,
                generation: self.generation,
            },
        )
    }

    /// Plans the end of the gesture; `None` for a superseded owner.
    pub fn finish(&self, owner: u64, phase: DockSwipePhase) -> (plan: Option<EventPlan>)
        ensures
            plan == (if self.owner == owner {
                Some(self.ended(phase))
            } else {
                None
            }),
    {
        if self.owner != owner {
            return None;
        }
        let velocity: i64 = saturate(self.last_delta as i128 * EXIT_VELOCITY_SCALE as i128);
        Some(
            EventPlan {
                options: release_phase(phase, self.progress, self.last_delta) * PHASE_UNIT,
                progress: self.progress,
                velocity: Some(velocity),
                generation: self.generation,
            },
        )
    }

    /// Whether a step that is not the opening one posts something: what, and whether it is an end
    /// that has to be posted again.
    pub fn plan(&mut self, owner: u64, phase: DockSwipePhase, delta: i64) -> (plan: Option<
        (EventPlan, bool),
    >)
        requires
            phase != DockSwipePhase::Began,
        ensures
            phase == DockSwipePhase::Changed ==> {
                &&& plan is Some <==> old(self).accepts(owner, delta)
                &&& plan is None ==> *final(self) == *old(self)
                &&& plan matches Some(p) ==> *final(self) == old(self).moved(delta) && p == (
                    old(self).moved(delta).changed(),
                    false,
                )
            },
            phase != DockSwipePhase::Changed ==> {
                &&& *final(self) == *old(self)
                &&& plan == (if old(self).owner == owner {
                    Some((old(self).ended(phase), true))
                } else {
                    None
                })
            },
    {
        match phase {
            DockSwipePhase::Changed => match self.advance(owner, delta) {
                Some(plan) => Some((plan, false)),
                None => None,
            },
            _ => match self.finish(owner, phase) {
                Some(plan) => Some((plan, true)),
                None => None,
            },
        }
    }

    /// Whether an end event may still be posted again: no new gesture has begun.
    pub fn may_resend(&self, plan: &EventPlan) -> (may: bool)
        ensures
            may == (self.generation == plan.generation),
    {
        self.generation == plan.generation
    }
}

/// Opens a gesture transactionally: ownership commits only if the opening event is delivered, so a
/// failed delivery leaves the previous owner's gesture alive.
pub fn post_began_with<F: FnOnce(EventPlan) -> bool>(
    stream: &mut Stream,
    owner: u64,
    delta: i64,
    deliver: F,
) -> (posted: bool)
    requires
        deliver.requires((old(stream).began(delta),)),
    ensures
        deliver.ensures((old(stream).began(delta),), posted),
        posted ==> *final(stream) == old(stream).taken_over(owner, old(stream).began(delta)),
        !posted ==> *final(stream) == *old(stream),
{
    let plan: EventPlan = stream.began_plan(delta);
    if deliver(plan) {
        stream.commit_began(owner, &plan);
        true
    } else {
        false
    }
}

/// How long to wait before each re-post of an end event, in milliseconds.
pub fn resend_wait_ms(attempt: usize) -> (wait: u64)
    requires
        attempt < 2,
    ensures
        wait == END_RESEND_DELAYS_MS@[attempt as int] - if attempt == 0 {
            0
        } else {
            END_RESEND_DELAYS_MS@[attempt - 1] as int
        },
        attempt == 0 ==> wait == 200,
        attempt == 1 ==> wait == 300,
{
    if attempt == 0 {
        END_RESEND_DELAYS_MS[0]
    } else {
        END_RESEND_DELAYS_MS[1] - END_RESEND_DELAYS_MS[0]
    }
}

/// A delivered opening supersedes the previous owner: its frames and its end are rejected from
/// then on, while the new owner's are accepted.
pub proof fn law_delivered_began_supersedes(
    stream: Stream,
    previous: u64,
    owner: u64,
    delta: i64,
    next: i64,
)
    requires
        previous != owner,
        next != 0,
    ensures
        ({
            let taken = stream.taken_over(owner, stream.began(delta));
            &&& !taken.accepts(previous, next)
            &&& taken.owner != previous
            &&& taken.accepts(owner, next)
            &&& taken.owner == owner
        }),
{
}

/// A new gesture cancels the pending re-posts of the gesture before it.
pub proof fn law_new_gesture_cancels_resends(stream: Stream, owner: u64, delta: i64)
    ensures
        stream.taken_over(owner, stream.began(delta)).generation != stream.generation,
        forall|phase: DockSwipePhase|
            #[trigger] stream.ended(phase).generation != stream.taken_over(
                owner,
                stream.began(delta),
            ).generation,
{
}

/// Moving and ending never change the generation, so that a gesture's own end stays valid.
pub proof fn law_moves_keep_generation(stream: Stream, delta: i64, phase: DockSwipePhase)
    ensures
        stream.moved(delta).generation == stream.generation,
        stream.moved(delta).ended(phase).generation == stream.generation,
{
}

/// The release rule is symmetric: a gesture commits exactly when its mirror image does.
pub proof fn law_release_rule_is_symmetric(phase: DockSwipePhase, progress: int, last_delta: int)
    ensures
        commits(phase, progress, last_delta) == commits(phase, -progress, -last_delta),
{
}

/// A horizontal swipe is posted as motion one and a vertical one as motion two.
pub proof fn law_motions_have_these_numbers(motion: DockSwipeMotion)
    ensures
        motion is Horizontal ==> motion_number(motion) == 1,
        motion is Vertical ==> motion_number(motion) == 2,
{
}

/// The opening event has phase one above the low twenty-four bits, the first delta as its progress
/// and no velocity; it belongs to the generation after the stream's, and the delivered stream is
/// the owner's, with that delta as its progress and its last delta.
pub proof fn law_opening_carries_the_first_delta(stream: Stream, owner: u64, delta: i64)
    ensures
        ({
            let plan = stream.began(delta);
            let taken = stream.taken_over(owner, plan);
            &&& plan.options == 0x0100_0000
            &&& plan.progress == delta
            &&& plan.velocity is None
            &&& stream.generation < u64::MAX ==> plan.generation == stream.generation + 1
            &&& stream.generation == u64::MAX ==> plan.generation == 0
            &&& taken.owner == owner
            &&& taken.progress == delta
            &&& taken.last_delta == delta
            &&& taken.generation == plan.generation
        }),
{
}

/// A move adds its delta to the progress, and its event has phase two, the progress so far and no
/// velocity. Progress past the range of the field stays at its end.
pub proof fn law_moves_add_their_delta(stream: Stream, delta: i64)
    ensures
        ({
            let moved = stream.moved(delta);
            let total = stream.progress + delta;
            &&& -0x8000_0000_0000_0000 <= total <= 0x7fff_ffff_ffff_ffff ==> moved.progress == total
            &&& total > 0x7fff_ffff_ffff_ffff ==> moved.progress == 0x7fff_ffff_ffff_ffff
            &&& total < -0x8000_0000_0000_0000 ==> moved.progress == -0x8000_0000_0000_0000
            &&& moved.last_delta == delta
            &&& moved.owner == stream.owner
            &&& moved.changed().options == 0x0200_0000
            &&& moved.changed().progress == moved.progress
            &&& moved.changed().velocity is None
            &&& moved.changed().generation == stream.generation
        }),
{
}

/// Only the owner's moves that go somewhere are taken.
pub proof fn law_only_the_owner_moves(stream: Stream, owner: u64, delta: i64)
    ensures
        stream.owner != owner ==> !stream.accepts(owner, delta),
        delta == 0 ==> !stream.accepts(owner, delta),
        stream.owner == owner && delta < 0 ==> stream.accepts(owner, delta),
        stream.owner == owner && delta > 0 ==> stream.accepts(owner, delta),
{
}

/// A release ends with phase four where the last delta goes on along the progress, and with phase
/// eight where it goes back, rests, or the swipe is cancelled. It leaves the progress where it is,
/// and its velocity is a hundred times the last delta.
pub proof fn law_release_goes_on_or_springs_back(stream: Stream, phase: DockSwipePhase)
    ensures
        ({
            let plan = stream.ended(phase);
            let velocity = 100 * stream.last_delta;
            &&& !(phase is Cancel) && stream.progress > 0 && stream.last_delta > 0 ==> plan.options
                == 0x0400_0000
            &&& !(phase is Cancel) && stream.progress < 0 && stream.last_delta < 0 ==> plan.options
                == 0x0400_0000
            &&& phase is Cancel ==> plan.options == 0x0800_0000
            &&& stream.progress >= 0 && stream.last_delta <= 0 ==> plan.options == 0x0800_0000
            &&& stream.progress <= 0 && stream.last_delta >= 0 ==> plan.options == 0x0800_0000
            &&& plan.progress == stream.progress
            &&& plan.generation == stream.generation
            &&& plan.velocity is Some
            &&& -0x8000_0000_0000_0000 <= velocity <= 0x7fff_ffff_ffff_ffff ==> plan.velocity->0
                == velocity
            &&& velocity > 0x7fff_ffff_ffff_ffff ==> plan.velocity->0 == 0x7fff_ffff_ffff_ffff
            &&& velocity < -0x8000_0000_0000_0000 ==> plan.velocity->0 == -0x8000_0000_0000_0000
        }),
{
}

} // verus!
