//! The binding vocabulary: the controls a user can bind and the actions they can bind them to.
use vstd::prelude::*;

use crate::key_combo::KeyCombo;
use crate::table::{Key, Value};

verus! {

/// A bindable control.
#[derive(Clone, Copy, Debug, PartialEq, Eq, Hash, PartialOrd, Ord, Structural)]
pub enum ButtonId {
    LeftClick,
    RightClick,
    MiddleClick,
    /// Main wheel pushed to the left.
    WheelTiltLeft,
    /// Main wheel pushed to the right.
    WheelTiltRight,
    Back,
    Forward,
    DpiToggle,
    /// Capacitive tap of the thumb wheel.
    Thumbwheel,
    ThumbwheelScrollUp,
    ThumbwheelScrollDown,
    GestureButton,
    HapticPanel,
    KeySearch,
    KeyDictation,
    KeyEmoji,
    KeyScreenCapture,
    KeyMicMute,
    KeyPlayPause,
    KeyMute,
    KeyVolumeDown,
    KeyVolumeUp,
    TouchpadTwoFingerTap,
    TouchpadThreeFingerTap,
    TouchpadFourFingerTap,
    TouchpadThreeFingerSwipeUp,
    TouchpadThreeFingerSwipeDown,
    TouchpadThreeFingerSwipeLeft,
    TouchpadThreeFingerSwipeRight,
    TouchpadFourFingerSwipeUp,
    TouchpadFourFingerSwipeDown,
    TouchpadFourFingerSwipeLeft,
    TouchpadFourFingerSwipeRight,
    TouchpadTwoFingerPinchOut,
    TouchpadTwoFingerPinchIn,
    TouchpadFourFingerPinchOut,
    TouchpadFourFingerPinchIn,
}

impl View for ButtonId {
    type V = ButtonId;

    open spec fn view(&self) -> ButtonId {
        *self
    }
}

impl Key for ButtonId {
    fn same(&self, other: &Self) -> (same: bool) {
        *self == *other
    }

    fn duplicate(&self) -> (copy: Self) {
        *self
    }
}

impl ButtonId {
    /// Every touchpad gesture trigger, in vocabulary order.
    pub const TOUCHPAD: [ButtonId; 15] = [
        ButtonId::TouchpadTwoFingerTap,
        ButtonId::TouchpadThreeFingerTap,
        ButtonId::TouchpadFourFingerTap,
        ButtonId::TouchpadThreeFingerSwipeUp,
        ButtonId::TouchpadThreeFingerSwipeDown,
        ButtonId::TouchpadThreeFingerSwipeLeft,
        ButtonId::TouchpadThreeFingerSwipeRight,
        ButtonId::TouchpadFourFingerSwipeUp,
        ButtonId::TouchpadFourFingerSwipeDown,
        ButtonId::TouchpadFourFingerSwipeLeft,
        ButtonId::TouchpadFourFingerSwipeRight,
        ButtonId::TouchpadTwoFingerPinchOut,
        ButtonId::TouchpadTwoFingerPinchIn,
        ButtonId::TouchpadFourFingerPinchOut,
        ButtonId::TouchpadFourFingerPinchIn,
    ];

    /// The triggers of two-finger gestures.
    pub const TOUCHPAD_TWO_FINGER: [ButtonId; 3] = [
        ButtonId::TouchpadTwoFingerTap,
        ButtonId::TouchpadTwoFingerPinchOut,
        ButtonId::TouchpadTwoFingerPinchIn,
    ];

    /// The triggers of three-finger gestures.
    pub const TOUCHPAD_THREE_FINGER: [ButtonId; 5] = [
        ButtonId::TouchpadThreeFingerTap,
        ButtonId::TouchpadThreeFingerSwipeUp,
        ButtonId::TouchpadThreeFingerSwipeDown,
        ButtonId::TouchpadThreeFingerSwipeLeft,
        ButtonId::TouchpadThreeFingerSwipeRight,
    ];

    /// The triggers of four-finger gestures.
    pub const TOUCHPAD_FOUR_FINGER: [ButtonId; 7] = [
        ButtonId::TouchpadFourFingerTap,
        ButtonId::TouchpadFourFingerSwipeUp,
        ButtonId::TouchpadFourFingerSwipeDown,
        ButtonId::TouchpadFourFingerSwipeLeft,
        ButtonId::TouchpadFourFingerSwipeRight,
        ButtonId::TouchpadFourFingerPinchOut,
        ButtonId::TouchpadFourFingerPinchIn,
    ];
}

/// Something a control can do.
#[derive(Clone, Copy, Debug, PartialEq, Eq, Hash, PartialOrd, Ord, Structural)]
pub enum Action {
    /// Deliberately nothing.
    Nothing,
    LeftClick,
    RightClick,
    MiddleClick,
    BrowserBack,
    BrowserForward,
    HorizontalScrollLeft,
    HorizontalScrollRight,
    CycleDpiPresets,
    MissionControl,
    AppExpose,
    ShowDesktop,
    LaunchpadShow,
    PreviousDesktop,
    NextDesktop,
    PrevTab,
    NextTab,
    ShowActionsRing,
    Copy,
    Paste,
    VolumeUp,
    /// A key chord of the user's choice.
    CustomShortcut(KeyCombo),
}

/// What a gesture button did between press and release.
#[derive(Clone, Copy, Debug, PartialEq, Eq, Hash, PartialOrd, Ord, Structural)]
pub enum GestureDirection {
    Up,
    Down,
    Left,
    Right,
    /// Pressed and released without a swipe.
    Click,
}

impl GestureDirection {
    /// Every direction.
    pub const ALL: [GestureDirection; 5] = [
        GestureDirection::Up,
        GestureDirection::Down,
        GestureDirection::Left,
        GestureDirection::Right,
        GestureDirection::Click,
    ];
}

/// The actions of a gesture button: at most one per direction.
#[derive(Clone, Copy, Debug, PartialEq, Eq, Hash, Structural)]
pub struct GestureMap {
    pub up: Option<Action>,
    pub down: Option<Action>,
    pub left: Option<Action>,
    pub right: Option<Action>,
    pub click: Option<Action>,
}

impl GestureMap {
    /// The action of a direction.
    pub open spec fn at(self, direction: GestureDirection) -> Option<Action> {
        match direction {
            GestureDirection::Up => self.up,
            GestureDirection::Down => self.down,
            GestureDirection::Left => self.left,
            GestureDirection::Right => self.right,
            GestureDirection::Click => self.click,
        }
    }

    /// No action in any direction.
    pub fn new() -> (map: Self)
        ensures
            forall|direction: GestureDirection| #[trigger] map.at(direction) is None,
    {
        GestureMap { up: None, down: None, left: None, right: None, click: None }
    }

    /// The action of a direction.
    pub fn get(&self, direction: GestureDirection) -> (action: Option<Action>)
        ensures
            action == self.at(direction),
    {
        match direction {
            GestureDirection::Up => self.up,
            GestureDirection::Down => self.down,
            GestureDirection::Left => self.left,
            GestureDirection::Right => self.right,
            GestureDirection::Click => self.click,
        }
    }

    /// Sets the action of a direction.
    pub fn insert(&mut self, direction: GestureDirection, action: Action)
        ensures
            forall|d: GestureDirection| #[trigger]
                final(self).at(d) == (if d == direction {
                    Some(action)
                } else {
                    old(self).at(d)
                }),
    {
        match direction {
            GestureDirection::Up => self.up = Some(action),
            GestureDirection::Down => self.down = Some(action),
            GestureDirection::Left => self.left = Some(action),
            GestureDirection::Right => self.right = Some(action),
            GestureDirection::Click => self.click = Some(action),
        }
    }
}

/// What a control is bound to.
#[derive(Clone, Copy, Debug, PartialEq, Eq, Hash, Structural)]
pub enum Binding {
    /// One action per press.
    Single(Action),
    /// One action per direction.
    Gesture(GestureMap),
}

impl Binding {
    /// The action of a plain press: that of the click direction for a gesture binding, nothing
    /// where it has none.
    pub open spec fn click(self) -> Action {
        match self {
            Binding::Single(action) => action,
            Binding::Gesture(map) => match map.click {
                Some(action) => action,
                None => Action::Nothing,
            },
        }
    }

    /// The action of a plain press.
    pub fn click_action(&self) -> (action: Action)
        ensures
            action == self.click(),
    {
        match self {
            Binding::Single(action) => *action,
            Binding::Gesture(map) => match map.click {
                Some(action) => action,
                None => Action::Nothing,
            },
        }
    }
}

impl Value for Action {
    fn same(&self, other: &Self) -> (same: bool) {
        *self == *other
    }

    fn duplicate(&self) -> (copy: Self) {
        *self
    }
}

impl Value for GestureMap {
    fn same(&self, other: &Self) -> (same: bool) {
        *self == *other
    }

    fn duplicate(&self) -> (copy: Self) {
        *self
    }
}

impl Value for Binding {
    fn same(&self, other: &Self) -> (same: bool) {
        *self == *other
    }

    fn duplicate(&self) -> (copy: Self) {
        *self
    }
}

/// A gesture map has one place for each direction, and looks it up there.
pub proof fn law_directions_have_their_own_place(map: GestureMap)
    ensures
        map.at(GestureDirection::Up) == map.up,
        map.at(GestureDirection::Down) == map.down,
        map.at(GestureDirection::Left) == map.left,
        map.at(GestureDirection::Right) == map.right,
        map.at(GestureDirection::Click) == map.click,
{
}

/// A plain press does the one action that is bound, or else what is bound to a click; a gesture
/// binding without a click does nothing.
pub proof fn law_press_does_the_bound_action(action: Action, map: GestureMap)
    ensures
        Binding::Single(action).click() == action,
        map.click matches Some(click) ==> Binding::Gesture(map).click() == click,
        map.click is None ==> Binding::Gesture(map).click() is Nothing,
{
}

} // verus!
