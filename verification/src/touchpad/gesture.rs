//! The touchpad gesture vocabulary: the keys of a touchpad's gesture map.
use vstd::prelude::*;

use crate::binding::ButtonId;

verus! {

/// One host-classified touchpad gesture.
///
/// Two-finger drags are deliberately absent: the pad's firmware already turns them into native
/// scrolling, and classifying them as swipes on top would double-fire.
#[derive(Clone, Copy, Debug, PartialEq, Eq, Hash, PartialOrd, Ord, Structural)]
pub enum TouchpadGestureId {
    /// A short two-finger touch.
    TwoFingerTap,
    /// A short three-finger touch.
    ThreeFingerTap,
    /// A short four-finger touch.
    FourFingerTap,
    /// Three fingers swept toward the top of the pad.
    ThreeFingerSwipeUp,
    /// Three fingers swept toward the bottom of the pad.
    ThreeFingerSwipeDown,
    /// Three fingers swept toward the left edge.
    ThreeFingerSwipeLeft,
    /// Three fingers swept toward the right edge.
    ThreeFingerSwipeRight,
    /// Four fingers swept toward the top of the pad.
    FourFingerSwipeUp,
    /// Four fingers swept toward the bottom of the pad.
    FourFingerSwipeDown,
    /// Four fingers swept toward the left edge.
    FourFingerSwipeLeft,
    /// Four fingers swept toward the right edge.
    FourFingerSwipeRight,
    /// Two fingers spread apart (the zoom-in half of a pinch).
    TwoFingerPinchOut,
    /// Two fingers brought together (the zoom-out half of a pinch).
    TwoFingerPinchIn,
    /// Four fingers spread apart.
    FourFingerPinchOut,
    /// Four fingers brought together.
    FourFingerPinchIn,
}

impl TouchpadGestureId {
    /// Every gesture slot, in vocabulary order.
    pub const ALL: [TouchpadGestureId; 15] = [
        TouchpadGestureId::TwoFingerTap,
        TouchpadGestureId::ThreeFingerTap,
        TouchpadGestureId::FourFingerTap,
        TouchpadGestureId::ThreeFingerSwipeUp,
        TouchpadGestureId::ThreeFingerSwipeDown,
        TouchpadGestureId::ThreeFingerSwipeLeft,
        TouchpadGestureId::ThreeFingerSwipeRight,
        TouchpadGestureId::FourFingerSwipeUp,
        TouchpadGestureId::FourFingerSwipeDown,
        TouchpadGestureId::FourFingerSwipeLeft,
        TouchpadGestureId::FourFingerSwipeRight,
        TouchpadGestureId::TwoFingerPinchOut,
        TouchpadGestureId::TwoFingerPinchIn,
        TouchpadGestureId::FourFingerPinchOut,
        TouchpadGestureId::FourFingerPinchIn,
    ];

    /// The text of the gesture's label.
    pub open spec fn label_text(self) -> Seq<char> {
        match self {
            TouchpadGestureId::TwoFingerTap => "Two-finger tap"@,
            TouchpadGestureId::ThreeFingerTap => "Three-finger tap"@,
            TouchpadGestureId::FourFingerTap => "Four-finger tap"@,
            TouchpadGestureId::ThreeFingerSwipeUp => "Three-finger swipe up"@,
            TouchpadGestureId::ThreeFingerSwipeDown => "Three-finger swipe down"@,
            TouchpadGestureId::ThreeFingerSwipeLeft => "Three-finger swipe left"@,
            TouchpadGestureId::ThreeFingerSwipeRight => "Three-finger swipe right"@,
            TouchpadGestureId::FourFingerSwipeUp => "Four-finger swipe up"@,
            TouchpadGestureId::FourFingerSwipeDown => "Four-finger swipe down"@,
            TouchpadGestureId::FourFingerSwipeLeft => "Four-finger swipe left"@,
            TouchpadGestureId::FourFingerSwipeRight => "Four-finger swipe right"@,
            TouchpadGestureId::TwoFingerPinchOut => "Two-finger pinch out"@,
            TouchpadGestureId::TwoFingerPinchIn => "Two-finger pinch in"@,
            TouchpadGestureId::FourFingerPinchOut => "Four-finger pinch out"@,
            TouchpadGestureId::FourFingerPinchIn => "Four-finger pinch in"@,
        }
    }

    /// Human-readable label for the gesture list.
    #[must_use]
    pub fn label(self) -> (label: &'static str)
        ensures
            label@ == self.label_text(),
    {
        match self {
            TouchpadGestureId::TwoFingerTap => "Two-finger tap",
            TouchpadGestureId::ThreeFingerTap => "Three-finger tap",
            TouchpadGestureId::FourFingerTap => "Four-finger tap",
            TouchpadGestureId::ThreeFingerSwipeUp => "Three-finger swipe up",
            TouchpadGestureId::ThreeFingerSwipeDown => "Three-finger swipe down",
            TouchpadGestureId::ThreeFingerSwipeLeft => "Three-finger swipe left",
            TouchpadGestureId::ThreeFingerSwipeRight => "Three-finger swipe right",
            TouchpadGestureId::FourFingerSwipeUp => "Four-finger swipe up",
            TouchpadGestureId::FourFingerSwipeDown => "Four-finger swipe down",
            TouchpadGestureId::FourFingerSwipeLeft => "Four-finger swipe left",
            TouchpadGestureId::FourFingerSwipeRight => "Four-finger swipe right",
            TouchpadGestureId::TwoFingerPinchOut => "Two-finger pinch out",
            TouchpadGestureId::TwoFingerPinchIn => "Two-finger pinch in",
            TouchpadGestureId::FourFingerPinchOut => "Four-finger pinch out",
            TouchpadGestureId::FourFingerPinchIn => "Four-finger pinch in",
        }
    }

    /// The trigger a gesture is bound under.
    pub open spec fn trigger_of(self) -> ButtonId {
        match self {
            TouchpadGestureId::TwoFingerTap => ButtonId::TouchpadTwoFingerTap,
            TouchpadGestureId::ThreeFingerTap => ButtonId::TouchpadThreeFingerTap,
            TouchpadGestureId::FourFingerTap => ButtonId::TouchpadFourFingerTap,
            TouchpadGestureId::ThreeFingerSwipeUp => ButtonId::TouchpadThreeFingerSwipeUp,
            TouchpadGestureId::ThreeFingerSwipeDown => ButtonId::TouchpadThreeFingerSwipeDown,
            TouchpadGestureId::ThreeFingerSwipeLeft => ButtonId::TouchpadThreeFingerSwipeLeft,
            TouchpadGestureId::ThreeFingerSwipeRight => ButtonId::TouchpadThreeFingerSwipeRight,
            TouchpadGestureId::FourFingerSwipeUp => ButtonId::TouchpadFourFingerSwipeUp,
            TouchpadGestureId::FourFingerSwipeDown => ButtonId::TouchpadFourFingerSwipeDown,
            TouchpadGestureId::FourFingerSwipeLeft => ButtonId::TouchpadFourFingerSwipeLeft,
            TouchpadGestureId::FourFingerSwipeRight => ButtonId::TouchpadFourFingerSwipeRight,
            TouchpadGestureId::TwoFingerPinchOut => ButtonId::TouchpadTwoFingerPinchOut,
            TouchpadGestureId::TwoFingerPinchIn => ButtonId::TouchpadTwoFingerPinchIn,
            TouchpadGestureId::FourFingerPinchOut => ButtonId::TouchpadFourFingerPinchOut,
            TouchpadGestureId::FourFingerPinchIn => ButtonId::TouchpadFourFingerPinchIn,
        }
    }

    /// The gesture bound under a trigger; `None` for a control that is no touchpad gesture.
    pub open spec fn bound_under(trigger: ButtonId) -> Option<TouchpadGestureId> {
        match trigger {
            ButtonId::TouchpadTwoFingerTap => Some(TouchpadGestureId::TwoFingerTap),
            ButtonId::TouchpadThreeFingerTap => Some(TouchpadGestureId::ThreeFingerTap),
            ButtonId::TouchpadFourFingerTap => Some(TouchpadGestureId::FourFingerTap),
            ButtonId::TouchpadThreeFingerSwipeUp => Some(TouchpadGestureId::ThreeFingerSwipeUp),
            ButtonId::TouchpadThreeFingerSwipeDown => Some(TouchpadGestureId::ThreeFingerSwipeDown),
            ButtonId::TouchpadThreeFingerSwipeLeft => Some(TouchpadGestureId::ThreeFingerSwipeLeft),
            ButtonId::TouchpadThreeFingerSwipeRight => Some(
                TouchpadGestureId::ThreeFingerSwipeRight,
            ),
            ButtonId::TouchpadFourFingerSwipeUp => Some(TouchpadGestureId::FourFingerSwipeUp),
            ButtonId::TouchpadFourFingerSwipeDown => Some(TouchpadGestureId::FourFingerSwipeDown),
            ButtonId::TouchpadFourFingerSwipeLeft => Some(TouchpadGestureId::FourFingerSwipeLeft),
            ButtonId::TouchpadFourFingerSwipeRight => Some(TouchpadGestureId::FourFingerSwipeRight),
            ButtonId::TouchpadTwoFingerPinchOut => Some(TouchpadGestureId::TwoFingerPinchOut),
            ButtonId::TouchpadTwoFingerPinchIn => Some(TouchpadGestureId::TwoFingerPinchIn),
            ButtonId::TouchpadFourFingerPinchOut => Some(TouchpadGestureId::FourFingerPinchOut),
            ButtonId::TouchpadFourFingerPinchIn => Some(TouchpadGestureId::FourFingerPinchIn),
            _ => None,
        }
    }

    /// The gesture bound under a trigger; `None` for a control that is no touchpad gesture.
    pub fn from_trigger(trigger: ButtonId) -> (gesture: Option<TouchpadGestureId>)
        ensures
            gesture == TouchpadGestureId::bound_under(trigger),
    {
        match trigger {
            ButtonId::TouchpadTwoFingerTap => Some(TouchpadGestureId::TwoFingerTap),
            ButtonId::TouchpadThreeFingerTap => Some(TouchpadGestureId::ThreeFingerTap),
            ButtonId::TouchpadFourFingerTap => Some(TouchpadGestureId::FourFingerTap),
            ButtonId::TouchpadThreeFingerSwipeUp => Some(TouchpadGestureId::ThreeFingerSwipeUp),
            ButtonId::TouchpadThreeFingerSwipeDown => Some(TouchpadGestureId::ThreeFingerSwipeDown),
            ButtonId::TouchpadThreeFingerSwipeLeft => Some(TouchpadGestureId::ThreeFingerSwipeLeft),
            ButtonId::TouchpadThreeFingerSwipeRight => Some(
                TouchpadGestureId::ThreeFingerSwipeRight,
            ),
            ButtonId::TouchpadFourFingerSwipeUp => Some(TouchpadGestureId::FourFingerSwipeUp),
            ButtonId::TouchpadFourFingerSwipeDown => Some(TouchpadGestureId::FourFingerSwipeDown),
            ButtonId::TouchpadFourFingerSwipeLeft => Some(TouchpadGestureId::FourFingerSwipeLeft),
            ButtonId::TouchpadFourFingerSwipeRight => Some(TouchpadGestureId::FourFingerSwipeRight),
            ButtonId::TouchpadTwoFingerPinchOut => Some(TouchpadGestureId::TwoFingerPinchOut),
            ButtonId::TouchpadTwoFingerPinchIn => Some(TouchpadGestureId::TwoFingerPinchIn),
            ButtonId::TouchpadFourFingerPinchOut => Some(TouchpadGestureId::FourFingerPinchOut),
            ButtonId::TouchpadFourFingerPinchIn => Some(TouchpadGestureId::FourFingerPinchIn),
            _ => None,
        }
    }
}

/// Gestures and their triggers correspond one to one.
pub proof fn law_triggers_correspond(gesture: TouchpadGestureId, trigger: ButtonId)
    ensures
        gesture.trigger_of() == trigger <==> TouchpadGestureId::bound_under(trigger) == Some(
            gesture,
        ),
{
}

/// Every gesture stands in the list of all gestures.
pub proof fn law_all_lists_every_gesture(gesture: TouchpadGestureId)
    ensures
        TouchpadGestureId::ALL@.contains(gesture),
{
    let all = TouchpadGestureId::ALL@;
    assert(all[0] == TouchpadGestureId::TwoFingerTap);
    assert(all[1] == TouchpadGestureId::ThreeFingerTap);
    assert(all[2] == TouchpadGestureId::FourFingerTap);
    assert(all[3] == TouchpadGestureId::ThreeFingerSwipeUp);
    assert(all[4] == TouchpadGestureId::ThreeFingerSwipeDown);
    assert(all[5] == TouchpadGestureId::ThreeFingerSwipeLeft);
    assert(all[6] == TouchpadGestureId::ThreeFingerSwipeRight);
    assert(all[7] == TouchpadGestureId::FourFingerSwipeUp);
    assert(all[8] == TouchpadGestureId::FourFingerSwipeDown);
    assert(all[9] == TouchpadGestureId::FourFingerSwipeLeft);
    assert(all[10] == TouchpadGestureId::FourFingerSwipeRight);
    assert(all[11] == TouchpadGestureId::TwoFingerPinchOut);
    assert(all[12] == TouchpadGestureId::TwoFingerPinchIn);
    assert(all[13] == TouchpadGestureId::FourFingerPinchOut);
    assert(all[14] == TouchpadGestureId::FourFingerPinchIn);
}

/// Every gesture is labelled by what the fingers do.
pub proof fn law_labels_say_what_the_fingers_do(gesture: TouchpadGestureId)
    ensures
        gesture is TwoFingerTap ==> gesture.label_text() == "Two-finger tap"@,
        gesture is ThreeFingerTap ==> gesture.label_text() == "Three-finger tap"@,
        gesture is FourFingerTap ==> gesture.label_text() == "Four-finger tap"@,
        gesture is ThreeFingerSwipeUp ==> gesture.label_text() == "Three-finger swipe up"@,
        gesture is ThreeFingerSwipeDown ==> gesture.label_text() == "Three-finger swipe down"@,
        gesture is ThreeFingerSwipeLeft ==> gesture.label_text() == "Three-finger swipe left"@,
        gesture is ThreeFingerSwipeRight ==> gesture.label_text() == "Three-finger swipe right"@,
        gesture is FourFingerSwipeUp ==> gesture.label_text() == "Four-finger swipe up"@,
        gesture is FourFingerSwipeDown ==> gesture.label_text() == "Four-finger swipe down"@,
        gesture is FourFingerSwipeLeft ==> gesture.label_text() == "Four-finger swipe left"@,
        gesture is FourFingerSwipeRight ==> gesture.label_text() == "Four-finger swipe right"@,
        gesture is TwoFingerPinchOut ==> gesture.label_text() == "Two-finger pinch out"@,
        gesture is TwoFingerPinchIn ==> gesture.label_text() == "Two-finger pinch in"@,
        gesture is FourFingerPinchOut ==> gesture.label_text() == "Four-finger pinch out"@,
        gesture is FourFingerPinchIn ==> gesture.label_text() == "Four-finger pinch in"@,
{
}

/// Every gesture is bound under the trigger that has its name, and a control that is no touchpad
/// trigger has no gesture.
pub proof fn law_triggers_have_the_gestures_names(gesture: TouchpadGestureId, other: ButtonId)
    ensures
        gesture is TwoFingerTap ==> gesture.trigger_of() == ButtonId::TouchpadTwoFingerTap,
        gesture is ThreeFingerTap ==> gesture.trigger_of() == ButtonId::TouchpadThreeFingerTap,
        gesture is FourFingerTap ==> gesture.trigger_of() == ButtonId::TouchpadFourFingerTap,
        gesture is ThreeFingerSwipeUp ==> gesture.trigger_of() == ButtonId::TouchpadThreeFingerSwipeUp,
        gesture is ThreeFingerSwipeDown ==> gesture.trigger_of() == ButtonId::TouchpadThreeFingerSwipeDown,
        gesture is ThreeFingerSwipeLeft ==> gesture.trigger_of() == ButtonId::TouchpadThreeFingerSwipeLeft,
        gesture is ThreeFingerSwipeRight ==> gesture.trigger_of() == ButtonId::TouchpadThreeFingerSwipeRight,
        gesture is FourFingerSwipeUp ==> gesture.trigger_of() == ButtonId::TouchpadFourFingerSwipeUp,
        gesture is FourFingerSwipeDown ==> gesture.trigger_of() == ButtonId::TouchpadFourFingerSwipeDown,
        gesture is FourFingerSwipeLeft ==> gesture.trigger_of() == ButtonId::TouchpadFourFingerSwipeLeft,
        gesture is FourFingerSwipeRight ==> gesture.trigger_of() == ButtonId::TouchpadFourFingerSwipeRight,
        gesture is TwoFingerPinchOut ==> gesture.trigger_of() == ButtonId::TouchpadTwoFingerPinchOut,
        gesture is TwoFingerPinchIn ==> gesture.trigger_of() == ButtonId::TouchpadTwoFingerPinchIn,
        gesture is FourFingerPinchOut ==> gesture.trigger_of() == ButtonId::TouchpadFourFingerPinchOut,
        gesture is FourFingerPinchIn ==> gesture.trigger_of() == ButtonId::TouchpadFourFingerPinchIn,
        TouchpadGestureId::bound_under(gesture.trigger_of()) == Some(gesture),
        TouchpadGestureId::bound_under(other) matches Some(bound) ==> bound.trigger_of() == other,
{
}

} // verus!
