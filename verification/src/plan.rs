//! What a device's capture session is asked to do with the input it captures.
use vstd::prelude::*;

use crate::binding::{Action, Binding, ButtonId, GestureMap};
use crate::table::Table;

verus! {

/// The sensitivity that changes nothing.
pub const NEUTRAL_SENSITIVITY: u8 = 14;

/// How strongly thumb-wheel rotation counts.
#[derive(Clone, Copy, Debug, PartialEq, Eq, Hash, Structural)]
pub struct ThumbwheelSensitivity {
    pub value: u8,
}

/// Increments of rotation that fire an action at a sensitivity of one.
pub const WHEEL_ACTION_INCREMENTS: i32 = 280;

impl Default for ThumbwheelSensitivity {
    fn default() -> (sensitivity: Self)
        ensures
            sensitivity == ThumbwheelSensitivity::neutral(),
    {
        ThumbwheelSensitivity { value: NEUTRAL_SENSITIVITY }
    }
}

impl ThumbwheelSensitivity {
    /// The neutral sensitivity.
    pub open spec fn neutral() -> Self {
        ThumbwheelSensitivity { value: NEUTRAL_SENSITIVITY }
    }

    /// The sensitivity as a number.
    pub open spec fn level(self) -> int {
        self.value as int
    }

    /// A sensitivity from 1 to 100.
    pub fn try_new(value: u8) -> (sensitivity: Option<Self>)
        ensures
            sensitivity is Some <==> 1 <= value <= 100,
            sensitivity matches Some(s) ==> s.level() == value,
    {
        if 1 <= value && value <= 100 {
            Some(ThumbwheelSensitivity { value })
        } else {
            None
        }
    }

    /// The sensitivity as a number.
    pub fn get(self) -> (value: u8)
        ensures
            value == self.level(),
    {
        self.value
    }

    /// Increments of rotation that fire an action at this sensitivity.
    pub open spec fn threshold(self) -> int {
        crate::math::greater(
            WHEEL_ACTION_INCREMENTS as int / crate::math::greater(self.level(), 1),
            1,
        )
    }

    /// Increments of rotation that fire an action.
    pub fn action_threshold(self) -> (increments: i32)
        ensures
            increments == self.threshold(),
            1 <= increments <= WHEEL_ACTION_INCREMENTS,
    {
        let level: i32 = if self.value == 0 {
            1
        } else {
            self.value as i32
        };
        let increments: i32 = WHEEL_ACTION_INCREMENTS / level;
        assert(0 <= increments <= WHEEL_ACTION_INCREMENTS) by (nonlinear_arith)
            requires
                1 <= level,
                increments == WHEEL_ACTION_INCREMENTS as int / level as int,
        ;
        if increments < 1 {
            1
        } else {
            increments
        }
    }
}

/// The weakest two-finger scrolling.
pub const MIN_SCROLL_SENSITIVITY: u8 = 1;

/// The strongest two-finger scrolling.
pub const MAX_SCROLL_SENSITIVITY: u8 = 100;

/// How strongly two-finger scrolling moves content.
#[derive(Clone, Copy, Debug, PartialEq, Eq, Hash, Structural)]
pub struct TouchpadScrollSensitivity {
    pub value: u8,
}

impl Default for TouchpadScrollSensitivity {
    fn default() -> (sensitivity: Self)
        ensures
            sensitivity == TouchpadScrollSensitivity::neutral(),
    {
        TouchpadScrollSensitivity { value: NEUTRAL_SENSITIVITY }
    }
}

impl TouchpadScrollSensitivity {
    /// The neutral sensitivity.
    pub open spec fn neutral() -> Self {
        TouchpadScrollSensitivity { value: NEUTRAL_SENSITIVITY }
    }

    /// The sensitivity as a number.
    pub open spec fn level(self) -> int {
        self.value as int
    }

    /// A sensitivity from [`MIN_SCROLL_SENSITIVITY`] to [`MAX_SCROLL_SENSITIVITY`].
    pub fn try_new(value: u8) -> (sensitivity: Option<Self>)
        ensures
            sensitivity is Some <==> MIN_SCROLL_SENSITIVITY <= value <= MAX_SCROLL_SENSITIVITY,
            sensitivity matches Some(s) ==> s.level() == value,
    {
        if MIN_SCROLL_SENSITIVITY <= value && value <= MAX_SCROLL_SENSITIVITY {
            Some(TouchpadScrollSensitivity { value })
        } else {
            None
        }
    }

    /// The sensitivity nearest to a number.
    pub fn nearest(number: i64) -> (sensitivity: Self)
        ensures
            sensitivity.level() == crate::math::clamped(
                number as int,
                MIN_SCROLL_SENSITIVITY as int,
                MAX_SCROLL_SENSITIVITY as int,
            ),
    {
        let value: u8 = if number < MIN_SCROLL_SENSITIVITY as i64 {
            MIN_SCROLL_SENSITIVITY
        } else if number > MAX_SCROLL_SENSITIVITY as i64 {
            MAX_SCROLL_SENSITIVITY
        } else {
            number as u8
        };
        TouchpadScrollSensitivity { value }
    }

    /// The sensitivity as a number.
    pub fn get(self) -> (value: u8)
        ensures
            value == self.level(),
    {
        self.value
    }
}

/// Where the input of one device goes.
pub struct DispatchPlan {
    /// Key of the device's configuration.
    pub config_key: String,
    /// Binding of each control.
    pub bindings: Table<ButtonId, Binding>,
    /// Direction maps of gesture buttons.
    pub gesture_bindings: Table<ButtonId, GestureMap>,
    /// Direction maps of side buttons used as gesture buttons.
    pub side_gesture_bindings: Table<ButtonId, GestureMap>,
    pub thumbwheel_sensitivity: ThumbwheelSensitivity,
    /// Action of each touchpad gesture.
    pub touchpad_bindings: Table<ButtonId, Action>,
    pub touchpad_scroll_sensitivity: TouchpadScrollSensitivity,
    /// Whether two-finger scrolling moves content against the fingers.
    pub touchpad_scroll_inverted: bool,
}

/// What a dispatch plan says.
#[verifier::ext_equal]
pub struct DispatchModel {
    pub config_key: Seq<char>,
    pub bindings: Map<ButtonId, Binding>,
    pub gesture_bindings: Map<ButtonId, GestureMap>,
    pub side_gesture_bindings: Map<ButtonId, GestureMap>,
    pub thumbwheel_sensitivity: ThumbwheelSensitivity,
    pub touchpad_bindings: Map<ButtonId, Action>,
    pub touchpad_scroll_sensitivity: TouchpadScrollSensitivity,
    pub touchpad_scroll_inverted: bool,
}

impl View for DispatchPlan {
    type V = DispatchModel;

    open spec fn view(&self) -> DispatchModel {
        DispatchModel {
            config_key: self.config_key@,
            bindings: self.bindings@,
            gesture_bindings: self.gesture_bindings@,
            side_gesture_bindings: self.side_gesture_bindings@,
            thumbwheel_sensitivity: self.thumbwheel_sensitivity,
            touchpad_bindings: self.touchpad_bindings@,
            touchpad_scroll_sensitivity: self.touchpad_scroll_sensitivity,
            touchpad_scroll_inverted: self.touchpad_scroll_inverted,
        }
    }
}

impl DispatchModel {
    /// The action of a plain press of a control: that of its binding, or its default.
    pub open spec fn click_action(self, button: ButtonId) -> Action {
        if self.bindings.dom().contains(button) {
            self.bindings[button].click()
        } else {
            crate::defaults::default_action(button)
        }
    }

    /// Whether a control swipes rather than clicks.
    pub open spec fn is_gesture_source(self, button: ButtonId) -> bool {
        self.gesture_bindings.dom().contains(button) || self.side_gesture_bindings.dom().contains(
            button,
        )
    }

    /// The binding of a control.
    pub open spec fn binding(self, button: ButtonId) -> Option<Binding> {
        if self.bindings.dom().contains(button) {
            Some(self.bindings[button])
        } else {
            None
        }
    }

    /// The action of a gesture button's direction; a gesture button's own map hides its side map.
    pub open spec fn gesture_action(
        self,
        button: ButtonId,
        direction: crate::binding::GestureDirection,
    ) -> Option<Action> {
        if self.gesture_bindings.dom().contains(button) {
            self.gesture_bindings[button].at(direction)
        } else if self.side_gesture_bindings.dom().contains(button) {
            self.side_gesture_bindings[button].at(direction)
        } else {
            None
        }
    }
}

impl DispatchPlan {
    /// A plan that binds nothing.
    pub fn unbound(config_key: String) -> (plan: Self)
        ensures
            plan@ == (DispatchModel {
                config_key: config_key@,
                bindings: Map::empty(),
                gesture_bindings: Map::empty(),
                side_gesture_bindings: Map::empty(),
                thumbwheel_sensitivity: ThumbwheelSensitivity::neutral(),
                touchpad_bindings: Map::empty(),
                touchpad_scroll_sensitivity: TouchpadScrollSensitivity::neutral(),
                touchpad_scroll_inverted: false,
            }),
    {
        DispatchPlan {
            config_key,
            bindings: Table::new(),
            gesture_bindings: Table::new(),
            side_gesture_bindings: Table::new(),
            thumbwheel_sensitivity: ThumbwheelSensitivity::default(),
            touchpad_bindings: Table::new(),
            touchpad_scroll_sensitivity: TouchpadScrollSensitivity::default(),
            touchpad_scroll_inverted: false,
        }
    }

    /// Another copy of the plan.
    pub fn duplicate(&self) -> (copy: Self)
        ensures
            copy@ == self@,
    {
        DispatchPlan {
            config_key: self.config_key.clone(),
            bindings: self.bindings.duplicate(),
            gesture_bindings: self.gesture_bindings.duplicate(),
            side_gesture_bindings: self.side_gesture_bindings.duplicate(),
            thumbwheel_sensitivity: self.thumbwheel_sensitivity,
            touchpad_bindings: self.touchpad_bindings.duplicate(),
            touchpad_scroll_sensitivity: self.touchpad_scroll_sensitivity,
            touchpad_scroll_inverted: self.touchpad_scroll_inverted,
        }
    }

    /// Whether two plans say the same.
    pub fn same(&self, other: &Self) -> (same: bool)
        ensures
            same == (self@ == other@),
    {
        self.config_key == other.config_key && self.bindings.same(&other.bindings)
            && self.gesture_bindings.same(&other.gesture_bindings)
            && self.side_gesture_bindings.same(&other.side_gesture_bindings)
            && self.thumbwheel_sensitivity == other.thumbwheel_sensitivity
            && self.touchpad_bindings.same(&other.touchpad_bindings)
            && self.touchpad_scroll_sensitivity == other.touchpad_scroll_sensitivity
            && self.touchpad_scroll_inverted == other.touchpad_scroll_inverted
    }

    /// The action of a plain press of a control.
    pub fn click_action(&self, button: ButtonId) -> (action: Action)
        ensures
            action == self@.click_action(button),
    {
        match self.bindings.get(&button) {
            Some(binding) => binding.click_action(),
            None => crate::defaults::default_binding(button),
        }
    }

    /// Whether a control swipes rather than clicks.
    pub fn is_gesture_source(&self, button: ButtonId) -> (gesture: bool)
        ensures
            gesture == self@.is_gesture_source(button),
    {
        self.gesture_bindings.contains_key(&button) || self.side_gesture_bindings.contains_key(
            &button,
        )
    }

    /// The binding of a control.
    pub fn binding(&self, button: ButtonId) -> (binding: Option<Binding>)
        ensures
            binding == self@.binding(button),
    {
        match self.bindings.get(&button) {
            Some(binding) => Some(*binding),
            None => None,
        }
    }

    /// The action of a gesture button's direction.
    pub fn gesture_action(
        &self,
        button: ButtonId,
        direction: crate::binding::GestureDirection,
    ) -> (action: Option<Action>)
        ensures
            action == self@.gesture_action(button, direction),
    {
        match self.gesture_bindings.get(&button) {
            Some(map) => map.get(direction),
            None => match self.side_gesture_bindings.get(&button) {
                Some(map) => map.get(direction),
                None => None,
            },
        }
    }
}

/// An action fires after 280 increments at a sensitivity of one and after as many times fewer as
/// the sensitivity says, cut down to a whole number, but never after none: the threshold is the
/// most whole increments that the sensitivity makes no more than 280 of.
pub proof fn law_threshold_shrinks_with_the_sensitivity(sensitivity: ThumbwheelSensitivity)
    requires
        1 <= sensitivity.value <= 100,
    ensures
        sensitivity.threshold() * sensitivity.value <= 280,
        (sensitivity.threshold() + 1) * sensitivity.value > 280,
        sensitivity.threshold() >= 1,
{
    let level = sensitivity.value as int;
    let most = 280int / level;
    vstd::arithmetic::div_mod::lemma_fundamental_div_mod(280, level);
    assert(most * level <= 280 && (most + 1) * level > 280) by (nonlinear_arith)
        requires
            280 == level * most + 280int % level,
            0 <= 280int % level < level,
    ;
    assert(most >= 1) by (nonlinear_arith)
        requires
            (most + 1) * level > 280,
            1 <= level <= 100,
    ;
}

/// A sensitivity is the number it holds; without a choice it is fourteen.
pub proof fn law_sensitivities_are_their_numbers(
    wheel: ThumbwheelSensitivity,
    scroll: TouchpadScrollSensitivity,
)
    ensures
        wheel.level() == wheel.value,
        scroll.level() == scroll.value,
        wheel == ThumbwheelSensitivity::neutral() <==> wheel.value == 14,
        scroll == TouchpadScrollSensitivity::neutral() <==> scroll.value == 14,
{
}

/// A plain press of a control does what is bound to it, and only a control without a binding does
/// its default.
pub proof fn law_binding_hides_the_default(plan: DispatchModel, button: ButtonId)
    ensures
        plan.bindings.contains_key(button) ==> plan.click_action(button)
            == plan.bindings[button].click() && plan.binding(button) == Some(plan.bindings[button]),
        !plan.bindings.contains_key(button) ==> plan.click_action(button)
            == crate::defaults::default_action(button) && plan.binding(button) is None,
{
}

/// A control with a map of swipes swipes; what a direction does is in that map, and a control's own
/// map hides its side map. A control without one does not swipe.
pub proof fn law_gesture_maps_are_searched_in_order(
    plan: DispatchModel,
    button: ButtonId,
    direction: crate::binding::GestureDirection,
)
    ensures
        plan.gesture_bindings.contains_key(button) ==> plan.is_gesture_source(button)
            && plan.gesture_action(button, direction) == plan.gesture_bindings[button].at(direction),
        !plan.gesture_bindings.contains_key(button) && plan.side_gesture_bindings.contains_key(
            button,
        ) ==> plan.is_gesture_source(button) && plan.gesture_action(button, direction)
            == plan.side_gesture_bindings[button].at(direction),
        !plan.gesture_bindings.contains_key(button) && !plan.side_gesture_bindings.contains_key(
            button,
        ) ==> !plan.is_gesture_source(button) && plan.gesture_action(button, direction) is None,
{
}

} // verus!
