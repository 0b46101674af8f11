//! A committed swipe that follows the fingers as a live dock-swipe animation.
use vstd::prelude::*;

use crate::binding::{Action, ButtonId};
use crate::dockswipe::DockSwipeMotion;
use crate::touchpad::geometry::{centroid, Point};
use crate::touchpad::{TouchContact, TouchFrame};

verus! {

/// Progress units per micrometre of horizontal travel on a pad 117 mm wide.
pub const HORIZONTAL_UNITS_PER_UM: i64 = 42;

/// Progress units per micrometre of vertical travel on a pad 75.6 mm high.
pub const VERTICAL_UNITS_PER_UM: i64 = 65;

/// How a streamed swipe ends: a release lets the sign rule commit or spring back, an abort always
/// springs back.
#[derive(Clone, Copy, Debug, PartialEq, Eq, Structural)]
pub enum SwipeEnd {
    AtRelease,
    Cancelled,
}

/// What a streamed swipe posts.
#[derive(Clone, Copy, Debug, PartialEq, Eq, Structural)]
pub enum SwipeOutput {
    Idle,
    /// `progress` is the opening frame's travel; later frames stream deltas.
    Begin { motion: DockSwipeMotion, progress: i64 },
    Advance { motion: DockSwipeMotion, delta: i64 },
    Finish { motion: DockSwipeMotion, end: SwipeEnd },
}

/// The axis a trigger swipes along.
pub open spec fn swipe_axis(trigger: ButtonId) -> Option<DockSwipeMotion> {
    match trigger {
        ButtonId::TouchpadThreeFingerSwipeRight
        | ButtonId::TouchpadFourFingerSwipeRight
        | ButtonId::TouchpadThreeFingerSwipeLeft
        | ButtonId::TouchpadFourFingerSwipeLeft => Some(DockSwipeMotion::Horizontal),
        ButtonId::TouchpadThreeFingerSwipeUp
        | ButtonId::TouchpadFourFingerSwipeUp
        | ButtonId::TouchpadThreeFingerSwipeDown
        | ButtonId::TouchpadFourFingerSwipeDown => Some(DockSwipeMotion::Vertical),
        _ => None,
    }
}

/// The axis an action's animation runs along.
pub open spec fn action_axis(action: Action) -> Option<DockSwipeMotion> {
    match action {
        Action::NextDesktop | Action::PreviousDesktop => Some(DockSwipeMotion::Horizontal),
        Action::MissionControl | Action::AppExpose | Action::ShowDesktop => Some(
            DockSwipeMotion::Vertical,
        ),
        _ => None,
    }
}

/// A swipe streams only when the bound action lives on the trigger's axis.
pub open spec fn stream_axis(trigger: ButtonId, action: Action) -> Option<DockSwipeMotion> {
    if swipe_axis(trigger) == action_axis(action) {
        swipe_axis(trigger)
    } else {
        None
    }
}

/// Streams a committed swipe only when the bound action lives on the trigger's axis; anything else
/// keeps the discrete dispatch.
pub fn native_stream_plan(trigger: ButtonId, action: &Action) -> (motion: Option<DockSwipeMotion>)
    ensures
        motion == stream_axis(trigger, *action),
{
    let motion: DockSwipeMotion = match trigger {
        ButtonId::TouchpadThreeFingerSwipeRight
        | ButtonId::TouchpadFourFingerSwipeRight
        | ButtonId::TouchpadThreeFingerSwipeLeft
        | ButtonId::TouchpadFourFingerSwipeLeft => DockSwipeMotion::Horizontal,
        ButtonId::TouchpadThreeFingerSwipeUp
        | ButtonId::TouchpadFourFingerSwipeUp
        | ButtonId::TouchpadThreeFingerSwipeDown
        | ButtonId::TouchpadFourFingerSwipeDown => DockSwipeMotion::Vertical,
        _ => return None,
    };
    let fits: bool = match (motion, *action) {
        (DockSwipeMotion::Horizontal, Action::NextDesktop | Action::PreviousDesktop) => true,
        (
            DockSwipeMotion::Vertical,
            Action::MissionControl | Action::AppExpose | Action::ShowDesktop,
        ) => true,
        _ => false,
    };
    if fits {
        Some(motion)
    } else {
        None
    }
}

/// The ids of a frame's contacts.
pub open spec fn ids_of(contacts: Seq<TouchContact>) -> Seq<u8> {
    Seq::new(contacts.len(), |i: int| contacts[i].id)
}

/// Where a streamed swipe stands.
pub struct SwipeModel {
    pub motion: DockSwipeMotion,
    /// Whether the animation has been opened.
    pub opened: bool,
    /// The action suppressed at commit, dispatched if the animation cannot be opened.
    pub fallback: (ButtonId, Action),
    pub ids: Seq<u8>,
    pub centroid: (int, int),
}

impl SwipeModel {
    /// The swipe a frame commits.
    pub open spec fn begun(
        contacts: Seq<TouchContact>,
        motion: DockSwipeMotion,
        fallback: (ButtonId, Action),
    ) -> Self {
        SwipeModel {
            motion,
            opened: false,
            fallback,
            ids: ids_of(contacts),
            centroid: crate::touchpad::geometry::centroid_of(contacts),
        }
    }

    /// Progress of one frame: the centroid's travel along the axis while the contacts stay the
    /// same, nothing when they change. Vertical progress is positive upwards.
    pub open spec fn delta(self, contacts: Seq<TouchContact>) -> int {
        let to = crate::touchpad::geometry::centroid_of(contacts);
        if ids_of(contacts) != self.ids {
            0
        } else {
            match self.motion {
                DockSwipeMotion::Horizontal => (to.0 - self.centroid.0) * HORIZONTAL_UNITS_PER_UM,
                DockSwipeMotion::Vertical => (self.centroid.1 - to.1) * VERTICAL_UNITS_PER_UM,
            }
        }
    }

    /// The swipe after a frame, and what the frame posts: opening waits for the first non-zero
    /// travel.
    pub open spec fn advanced(self, contacts: Seq<TouchContact>) -> (SwipeModel, SwipeOutput) {
        let delta = self.delta(contacts);
        let next = SwipeModel {
            ids: ids_of(contacts),
            centroid: crate::touchpad::geometry::centroid_of(contacts),
            opened: self.opened || delta != 0,
            ..self
        };
        if delta == 0 {
            (next, SwipeOutput::Idle)
        } else if !self.opened {
            (next, SwipeOutput::Begin { motion: self.motion, progress: delta as i64 })
        } else {
            (next, SwipeOutput::Advance { motion: self.motion, delta: delta as i64 })
        }
    }

    /// What ending the swipe posts: nothing where nothing was opened.
    pub open spec fn finished(self, end: SwipeEnd) -> SwipeOutput {
        if self.opened {
            SwipeOutput::Finish { motion: self.motion, end }
        } else {
            SwipeOutput::Idle
        }
    }
}

/// A swipe being streamed.
#[derive(Debug)]
pub struct ActiveSwipe {
    motion: DockSwipeMotion,
    opened: bool,
    fallback: (ButtonId, Action),
    contact_ids: Vec<u8>,
    centroid_um: Point,
}

impl View for ActiveSwipe {
    type V = SwipeModel;

    closed spec fn view(&self) -> SwipeModel {
        SwipeModel {
            motion: self.motion,
            opened: self.opened,
            fallback: self.fallback,
            ids: self.contact_ids@,
            centroid: (self.centroid_um.x as int, self.centroid_um.y as int),
        }
    }
}

fn contact_ids(contacts: &Vec<TouchContact>) -> (ids: Vec<u8>)
    ensures
        ids@ == ids_of(contacts@),
{
    let mut ids: Vec<u8> = Vec::new();
    let mut i: usize = 0;
    while i < contacts.len()
        invariant
            i <= contacts@.len(),
            ids@.len() == i,
            forall|j: int| 0 <= j < i ==> ids@[j] == contacts@[j].id,
        decreases contacts@.len() - i,
    {
        ids.push(contacts[i].id);
        i = i + 1;
    }
    assert(ids@ =~= ids_of(contacts@));
    ids
}

fn ids_equal(a: &Vec<u8>, b: &Vec<u8>) -> (same: bool)
    ensures
        same == (a@ == b@),
{
    if a.len() != b.len() {
        return false;
    }
    let mut i: usize = 0;
    while i < a.len()
        invariant
            i <= a@.len(),
            a@.len() == b@.len(),
            forall|j: int| 0 <= j < i ==> a@[j] == b@[j],
        decreases a@.len() - i,
    {
        if a[i] != b[i] {
            return false;
        }
        i = i + 1;
    }
    assert(a@ =~= b@);
    true
}

impl ActiveSwipe {
    #[verifier::type_invariant]
    spec fn inv(self) -> bool {
        self.centroid_um.in_range()
    }

    /// The swipe a frame commits.
    pub fn new(frame: &TouchFrame, motion: DockSwipeMotion, fallback: (ButtonId, Action)) -> (swipe:
        Self)
        requires
            frame@.contacts.len() > 0,
        ensures
            swipe@ == SwipeModel::begun(frame@.contacts, motion, fallback),
    {
        ActiveSwipe {
            motion,
            opened: false,
            fallback,
            contact_ids: contact_ids(frame.contact_list()),
            centroid_um: centroid(frame.contact_list()),
        }
    }

    /// An unopened stream posted nothing, so it ends without posting either.
    pub fn finish(self, end: SwipeEnd) -> (output: SwipeOutput)
        ensures
            output == self@.finished(end),
    {
        if self.opened {
            SwipeOutput::Finish { motion: self.motion, end }
        } else {
            SwipeOutput::Idle
        }
    }

    /// The action suppressed at commit.
    pub fn fallback(&self) -> (fallback: (ButtonId, Action))
        ensures
            fallback == self@.fallback,
    {
        self.fallback
    }

    /// Follows one frame.
    pub fn advance(self, frame: &TouchFrame) -> (outcome: (Self, SwipeOutput))
        requires
            frame@.contacts.len() > 0,
        ensures
            (outcome.0@, outcome.1) == self@.advanced(frame@.contacts),
    {
        proof {
            use_type_invariant(&self);
        }
        let ids: Vec<u8> = contact_ids(frame.contact_list());
        let to: Point = centroid(frame.contact_list());
        let delta: i64 = if ids_equal(&ids, &self.contact_ids) {
            // Window y grows downward, but vertical progress is positive upward.
            match self.motion {
                DockSwipeMotion::Horizontal => (to.x - self.centroid_um.x)
                    * HORIZONTAL_UNITS_PER_UM,
                DockSwipeMotion::Vertical => (self.centroid_um.y - to.y) * VERTICAL_UNITS_PER_UM,
            }
        } else {
            0
        };
        let output: SwipeOutput = if delta == 0 {
            SwipeOutput::Idle
        } else if !self.opened {
            SwipeOutput::Begin { motion: self.motion, progress: delta }
        } else {
            SwipeOutput::Advance { motion: self.motion, delta }
        };
        let next: ActiveSwipe = ActiveSwipe {
            motion: self.motion,
            opened: self.opened || delta != 0,
            fallback: self.fallback,
            contact_ids: ids,
            centroid_um: to,
        };
        (next, output)
    }
}

/// The deltas of frames that keep the same contacts add up to the whole travel: streaming two
/// frames posts the same total progress as the centroid moved.
pub proof fn law_stream_deltas_add_up(
    swipe: SwipeModel,
    middle: Seq<TouchContact>,
    last: Seq<TouchContact>,
)
    requires
        ids_of(middle) == swipe.ids,
        ids_of(last) == swipe.ids,
    ensures
        swipe.delta(middle) + swipe.advanced(middle).0.delta(last) == swipe.delta(last),
{
}

/// Nothing is posted at the end of a swipe that never moved.
pub proof fn law_unopened_stream_is_silent(swipe: SwipeModel, end: SwipeEnd)
    requires
        !swipe.opened,
    ensures
        swipe.finished(end) == SwipeOutput::Idle,
{
}

/// The streamed progress follows the fingers: while the same fingers move by a distance, a
/// horizontal stream progresses by their way to the right as a share of a pad 117 mm wide, and a
/// vertical one by their way up, where y shrinks, as a share of a pad 75.6 mm high. The first such
/// motion opens the animation, later ones advance it, and without motion nothing is posted.
pub proof fn law_progress_follows_the_fingers(
    swipe: SwipeModel,
    from: Seq<TouchContact>,
    dx: int,
    dy: int,
    to: Seq<TouchContact>,
)
    requires
        from.len() > 0,
        swipe.ids == ids_of(from),
        swipe.centroid == crate::touchpad::geometry::centroid_of(from),
        crate::touchpad::motion_laws::shifted(from, dx, dy, to),
    ensures
        ({
            let way = match swipe.motion {
                DockSwipeMotion::Horizontal => dx,
                DockSwipeMotion::Vertical => -dy,
            };
            let whole = match swipe.motion {
                DockSwipeMotion::Horizontal => 117_000int,
                DockSwipeMotion::Vertical => 75_600int,
            };
            let (next, posted) = swipe.advanced(to);
            &&& way == 0 <==> posted == SwipeOutput::Idle
            &&& way != 0 && !swipe.opened ==> {
                &&& posted is Begin
                &&& posted->Begin_motion == swipe.motion
                &&& posted->progress * whole == way * crate::dockswipe::PROGRESS_UNITS
            }
            &&& way != 0 && swipe.opened ==> {
                &&& posted is Advance
                &&& posted->Advance_motion == swipe.motion
                &&& posted->delta * whole == way * crate::dockswipe::PROGRESS_UNITS
            }
            &&& next.opened == (swipe.opened || way != 0)
            &&& next.motion == swipe.motion
            &&& next.fallback == swipe.fallback
            &&& next.ids == ids_of(to)
            &&& next.centroid == crate::touchpad::geometry::centroid_of(to)
        }),
{
    crate::touchpad::motion_laws::law_shift_moves_the_centroid(from, dx, dy, to);
    crate::touchpad::geometry::lemma_centroid_bounds(from);
    crate::touchpad::geometry::lemma_centroid_bounds(to);
    assert(ids_of(to) =~= ids_of(from));
}

/// A swipe starts where the fingers are that committed it: the first motion after the commit opens
/// the animation with just that motion.
pub proof fn law_stream_starts_at_the_commit(
    from: Seq<TouchContact>,
    motion: DockSwipeMotion,
    fallback: (ButtonId, Action),
    dx: int,
    dy: int,
    to: Seq<TouchContact>,
)
    requires
        from.len() > 0,
        crate::touchpad::motion_laws::shifted(from, dx, dy, to),
    ensures
        ({
            let posted = SwipeModel::begun(from, motion, fallback).advanced(to).1;
            &&& motion == DockSwipeMotion::Horizontal && dx != 0 ==> {
                &&& posted is Begin
                &&& posted->Begin_motion == motion
                &&& posted->progress * 117_000 == dx * crate::dockswipe::PROGRESS_UNITS
            }
            &&& motion == DockSwipeMotion::Vertical && dy != 0 ==> {
                &&& posted is Begin
                &&& posted->Begin_motion == motion
                &&& posted->progress * 75_600 == -dy * crate::dockswipe::PROGRESS_UNITS
            }
            &&& motion == DockSwipeMotion::Horizontal && dx == 0 ==> posted == SwipeOutput::Idle
            &&& motion == DockSwipeMotion::Vertical && dy == 0 ==> posted == SwipeOutput::Idle
        }),
{
    law_progress_follows_the_fingers(
        SwipeModel::begun(from, motion, fallback),
        from,
        dx,
        dy,
        to,
    );
}

/// Frames that change the fingers post no progress, so that a landing or lifting finger does not
/// jerk the animation.
pub proof fn law_changed_fingers_post_nothing(swipe: SwipeModel, contacts: Seq<TouchContact>)
    requires
        ids_of(contacts) != swipe.ids,
    ensures
        swipe.advanced(contacts).1 == SwipeOutput::Idle,
        swipe.advanced(contacts).0.opened == swipe.opened,
{
}

/// Sideways swipes stream the actions that switch desktops, upright ones those that show windows,
/// and no other pair of trigger and action streams.
pub proof fn law_stream_needs_a_fitting_action(trigger: ButtonId, action: Action)
    ensures
        stream_axis(trigger, action) == Some(DockSwipeMotion::Horizontal) <==> {
            &&& trigger == ButtonId::TouchpadThreeFingerSwipeLeft || trigger
                == ButtonId::TouchpadThreeFingerSwipeRight || trigger
                == ButtonId::TouchpadFourFingerSwipeLeft || trigger
                == ButtonId::TouchpadFourFingerSwipeRight
            &&& action == Action::PreviousDesktop || action == Action::NextDesktop
        },
        stream_axis(trigger, action) == Some(DockSwipeMotion::Vertical) <==> {
            &&& trigger == ButtonId::TouchpadThreeFingerSwipeUp || trigger
                == ButtonId::TouchpadThreeFingerSwipeDown || trigger
                == ButtonId::TouchpadFourFingerSwipeUp || trigger
                == ButtonId::TouchpadFourFingerSwipeDown
            &&& action == Action::MissionControl || action == Action::AppExpose || action
                == Action::ShowDesktop
        },
{
}

/// An animation that was opened is finished on its own axis, in the way it ended.
pub proof fn law_opened_stream_ends_the_way_it_did(swipe: SwipeModel)
    requires
        swipe.opened,
    ensures
        swipe.finished(SwipeEnd::AtRelease) == (SwipeOutput::Finish {
            motion: swipe.motion,
            end: SwipeEnd::AtRelease,
        }),
        swipe.finished(SwipeEnd::Cancelled) == (SwipeOutput::Finish {
            motion: swipe.motion,
            end: SwipeEnd::Cancelled,
        }),
{
}

} // verus!
