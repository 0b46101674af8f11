//! Scroll events: whole units out of fractional deltas, and the fields an event carries.
//!
//! Deltas come in [`SUBUNITS`]ths of a pixel or of a wheel tick. What does not make up a whole unit
//! is carried over to the next delta, so that slow scrolling adds up.
use vstd::prelude::*;

use crate::math::saturate;
use crate::scroll::{ContentDelta, SmoothScrollPhase, TailTick};
use crate::wheel::WheelDelta;

verus! {

/// Parts of a pixel or of a wheel tick that deltas are counted in: thousandths of a content
/// distance unit, so that a tick of a glide is a whole number of them.
pub const SUBUNITS: i128 = 560_000;

/// Points one wheel tick scrolls smoothly.
pub const POINTS_PER_WHEEL_TICK: i128 = 10;

/// Points that make up a line.
pub const POINTS_PER_LINE: i64 = 10;

/// One, in the fixed-point field of an event.
pub const FIXED_POINT_SCALE: i64 = 65_536;

/// A scroll delta.
#[allow(inconsistent_fields)]
#[derive(Clone, Copy, Debug, PartialEq, Eq, Structural)]
pub enum ScrollDelta {
    Pixels { x: i64, y: i64 },
    WheelTicks { x: i64, y: i64 },
}

impl ScrollDelta {
    /// Horizontal part.
    pub open spec fn horizontal(self) -> int {
        match self {
            ScrollDelta::Pixels { x, .. } => x as int,
            ScrollDelta::WheelTicks { x, .. } => x as int,
        }
    }

    /// Vertical part.
    pub open spec fn vertical(self) -> int {
        match self {
            ScrollDelta::Pixels { y, .. } => y as int,
            ScrollDelta::WheelTicks { y, .. } => y as int,
        }
    }

    fn parts(self) -> (parts: (i64, i64))
        ensures
            parts.0 == self.horizontal(),
            parts.1 == self.vertical(),
    {
        match self {
            ScrollDelta::Pixels { x, y } => (x, y),
            ScrollDelta::WheelTicks { x, y } => (x, y),
        }
    }
}

/// A content distance in thousandths, as far as a delta can carry it.
fn thousandths(units: i128) -> (parts: i64)
    ensures
        parts == crate::math::clamped(units * 1000, i64::MIN as int, i64::MAX as int),
{
    if units > 10_000_000_000_000_000 {
        i64::MAX
    } else if units < -10_000_000_000_000_000 {
        i64::MIN
    } else {
        saturate(units * 1000)
    }
}

/// A content distance as pixels to scroll. Distances beyond the range of a delta stop at its ends.
pub fn content_scroll(delta: ContentDelta) -> (scroll: ScrollDelta)
    ensures
        scroll is Pixels,
        scroll.horizontal() == crate::math::clamped(
            delta.x * 1000,
            i64::MIN as int,
            i64::MAX as int,
        ),
        scroll.vertical() == crate::math::clamped(
            delta.y * 1000,
            i64::MIN as int,
            i64::MAX as int,
        ),
{
    ScrollDelta::Pixels { x: thousandths(delta.x), y: thousandths(delta.y) }
}

/// A tick of a glide as pixels to scroll. Distances beyond the range of a delta stop at its ends.
pub fn glide_scroll(tick: TailTick) -> (scroll: ScrollDelta)
    ensures
        scroll is Pixels,
        scroll.horizontal() == crate::math::clamped(
            tick.distance.x as int,
            i64::MIN as int,
            i64::MAX as int,
        ),
        scroll.vertical() == crate::math::clamped(
            tick.distance.y as int,
            i64::MIN as int,
            i64::MAX as int,
        ),
{
    ScrollDelta::Pixels { x: saturate(tick.distance.x), y: saturate(tick.distance.y) }
}

/// A scroll of a thumb wheel, in ticks, rounded toward zero to the parts a delta counts. It is
/// horizontal. Distances beyond the range of a delta stop at its ends.
pub fn wheel_scroll(delta: WheelDelta) -> (scroll: ScrollDelta)
    requires
        delta.denominator > 0,
    ensures
        scroll is WheelTicks,
        scroll.vertical() == 0,
        scroll.horizontal() == crate::math::clamped(
            crate::math::trunc_div(delta.numerator * SUBUNITS, delta.denominator as int),
            i64::MIN as int,
            i64::MAX as int,
        ),
{
    let scaled: i128 = delta.numerator as i128 * SUBUNITS;
    let denominator: i128 = delta.denominator as i128;
    let parts: i128 = scaled / denominator;
    proof {
        assert(parts == crate::math::trunc_div(scaled as int, denominator as int));
    }
    ScrollDelta::WheelTicks { x: saturate(parts), y: 0 }
}

/// Whole units to scroll.
#[derive(Clone, Copy, Debug, PartialEq, Eq, Structural)]
pub struct QuantizedScroll {
    pub x: i32,
    pub y: i32,
}

/// What an axis emits of a total: the whole units in it, as far as an event can carry them.
pub open spec fn whole_units(total: int) -> int {
    crate::math::clamped(
        crate::math::trunc_div(total, SUBUNITS as int),
        i32::MIN as int,
        i32::MAX as int,
    )
}

/// What an axis carries over of a total: the part of a unit that is left. Units beyond what an
/// event can carry are dropped.
pub open spec fn carried(total: int) -> int {
    total - crate::math::trunc_div(total, SUBUNITS as int) * SUBUNITS
}

/// Carries fractions of a unit from one delta to the next, per axis.
#[derive(Clone, Copy, Debug, PartialEq, Eq, Structural)]
pub struct ScrollQuantizer {
    pub rest_x: i32,
    pub rest_y: i32,
}

impl Default for ScrollQuantizer {
    /// Nothing carried.
    fn default() -> (quantizer: Self)
        ensures
            quantizer == ScrollQuantizer::fresh(),
    {
        ScrollQuantizer { rest_x: 0, rest_y: 0 }
    }
}

impl ScrollQuantizer {
    /// Nothing carried.
    pub open spec fn fresh() -> Self {
        ScrollQuantizer { rest_x: 0, rest_y: 0 }
    }

    /// The totals after a delta, scaled.
    pub open spec fn totals(self, delta: ScrollDelta, scale: int) -> (int, int) {
        (
            self.rest_x + delta.horizontal() * scale,
            self.rest_y + delta.vertical() * scale,
        )
    }

    /// What a delta emits.
    pub open spec fn emits(self, delta: ScrollDelta, scale: int) -> QuantizedScroll {
        let (x, y) = self.totals(delta, scale);
        QuantizedScroll { x: whole_units(x) as i32, y: whole_units(y) as i32 }
    }

    /// The quantizer after a delta.
    pub open spec fn after(self, delta: ScrollDelta, scale: int) -> Self {
        let (x, y) = self.totals(delta, scale);
        ScrollQuantizer { rest_x: carried(x) as i32, rest_y: carried(y) as i32 }
    }

    /// The whole units a delta makes up, together with what was carried. Each input unit counts
    /// `scale` output units.
    pub fn quantize(&mut self, delta: ScrollDelta, scale: i128) -> (scroll: QuantizedScroll)
        requires
            1 <= scale <= POINTS_PER_WHEEL_TICK,
        ensures
            scroll == old(self).emits(delta, scale as int),
            *final(self) == old(self).after(delta, scale as int),
    {
        let (x, y): (i64, i64) = delta.parts();
        let (units_x, rest_x): (i32, i32) = split(self.rest_x, x, scale);
        let (units_y, rest_y): (i32, i32) = split(self.rest_y, y, scale);
        self.rest_x = rest_x;
        self.rest_y = rest_y;
        QuantizedScroll { x: units_x, y: units_y }
    }
}

/// The whole units and the rest of one axis.
fn split(rest: i32, delta: i64, scale: i128) -> (result: (i32, i32))
    requires
        1 <= scale <= POINTS_PER_WHEEL_TICK,
    ensures
        result.0 == whole_units(rest + delta * scale),
        result.1 == carried(rest + delta * scale),
        -SUBUNITS < result.1 < SUBUNITS,
{
    let d: i128 = delta as i128;
    assert(-0x10_0000_0000_0000_0000 <= d * scale <= 0x10_0000_0000_0000_0000) by (nonlinear_arith)
        requires
            -0x8000_0000_0000_0000 <= d <= 0x7fff_ffff_ffff_ffff,
            1 <= scale <= 10,
    ;
    let total: i128 = rest as i128 + d * scale;
    let units: i128 = total / SUBUNITS;
    proof {
        assert(units == crate::math::trunc_div(total as int, SUBUNITS as int));
    }
    let left: i128 = total - units * SUBUNITS;
    let emitted: i32 = if units < i32::MIN as i128 {
        i32::MIN
    } else if units > i32::MAX as i128 {
        i32::MAX
    } else {
        units as i32
    };
    (emitted, left as i32)
}

/// What an event's deltas count.
#[derive(Clone, Copy, Debug, PartialEq, Eq, Structural)]
pub enum ScrollUnit {
    Pixel,
    Line,
}

/// The three fields of one axis of a continuous event.
#[derive(Clone, Copy, Debug, PartialEq, Eq, Structural)]
pub struct AxisFields {
    pub points: i64,
    pub lines: i64,
    pub fixed: i64,
}

/// A scroll event to post.
#[derive(Clone, Copy, Debug, PartialEq, Eq, Structural)]
pub struct ScrollEvent {
    pub unit: ScrollUnit,
    pub vertical: i32,
    pub horizontal: i32,
    /// The fields of a continuous event, vertical first.
    pub continuous: Option<ContinuousFields>,
    /// The gesture phase, where the event belongs to a stream. The momentum phase is then zero.
    pub phase: Option<i64>,
}

/// The fields of a continuous event.
#[derive(Clone, Copy, Debug, PartialEq, Eq, Structural)]
pub struct ContinuousFields {
    pub vertical: AxisFields,
    pub horizontal: AxisFields,
}

/// The system's number for a phase.
pub open spec fn phase_number(phase: SmoothScrollPhase) -> i64 {
    match phase {
        SmoothScrollPhase::Began => 1,
        SmoothScrollPhase::Changed => 2,
        SmoothScrollPhase::Ended => 4,
        SmoothScrollPhase::Cancelled => 8,
    }
}

/// The fields of an axis that moves by a number of points.
pub open spec fn axis_fields(points: int) -> AxisFields {
    AxisFields {
        points: points as i64,
        lines: crate::math::trunc_div(points, POINTS_PER_LINE as int) as i64,
        fixed: crate::math::trunc_div(points * FIXED_POINT_SCALE, POINTS_PER_LINE as int) as i64,
    }
}

/// The event of a plain scroll; nothing without a whole unit to scroll.
pub open spec fn plain_event(scroll: QuantizedScroll, unit: ScrollUnit) -> Option<ScrollEvent> {
    if scroll.x == 0 && scroll.y == 0 {
        None
    } else {
        Some(
            ScrollEvent {
                unit,
                vertical: scroll.y,
                horizontal: scroll.x,
                continuous: if unit == ScrollUnit::Pixel {
                    Some(fields_of(scroll))
                } else {
                    None
                },
                phase: None,
            },
        )
    }
}

/// The event of a step of a smooth stream, which is posted even without a whole unit.
pub open spec fn smooth_event(scroll: QuantizedScroll, phase: SmoothScrollPhase) -> ScrollEvent {
    ScrollEvent {
        unit: ScrollUnit::Pixel,
        vertical: scroll.y,
        horizontal: scroll.x,
        continuous: Some(fields_of(scroll)),
        phase: Some(phase_number(phase)),
    }
}

/// The continuous fields of a scroll.
pub open spec fn fields_of(scroll: QuantizedScroll) -> ContinuousFields {
    ContinuousFields {
        vertical: axis_fields(scroll.y as int),
        horizontal: axis_fields(scroll.x as int),
    }
}

/// The system's number for a phase.
pub fn scroll_phase_value(phase: SmoothScrollPhase) -> (value: i64)
    ensures
        value == phase_number(phase),
{
    match phase {
        SmoothScrollPhase::Began => 1,
        SmoothScrollPhase::Changed => 2,
        SmoothScrollPhase::Ended => 4,
        SmoothScrollPhase::Cancelled => 8,
    }
}

/// The fields of an axis that moves by a number of points.
pub fn continuous_axis(points: i32) -> (fields: AxisFields)
    ensures
        fields == axis_fields(points as int),
        fields.points == points,
        fields.lines == crate::math::trunc_div(points as int, 10),
        fields.fixed == crate::math::trunc_div(points * 65_536, 10),
{
    let points: i64 = points as i64;
    let lines: i64 = points / POINTS_PER_LINE;
    let scaled: i64 = points * FIXED_POINT_SCALE;
    let fixed: i64 = scaled / POINTS_PER_LINE;
    proof {
        assert(lines == crate::math::trunc_div(points as int, 10));
        assert(fixed == crate::math::trunc_div(scaled as int, 10));
    }
    AxisFields { points, lines, fixed }
}

fn continuous_fields(scroll: QuantizedScroll) -> (fields: ContinuousFields)
    ensures
        fields == fields_of(scroll),
{
    ContinuousFields {
        vertical: continuous_axis(scroll.y),
        horizontal: continuous_axis(scroll.x),
    }
}

/// Turns scroll deltas into events. Line scrolling, pixel scrolling and smooth scrolling each carry
/// their own fractions.
#[derive(Clone, Copy, Debug, PartialEq, Eq, Structural)]
pub struct ScrollPoster {
    pub line: ScrollQuantizer,
    pub pixel: ScrollQuantizer,
    pub smooth: ScrollQuantizer,
}

impl Default for ScrollPoster {
    /// Nothing carried.
    fn default() -> (poster: Self)
        ensures
            poster.line == ScrollQuantizer::fresh(),
            poster.pixel == ScrollQuantizer::fresh(),
            poster.smooth == ScrollQuantizer::fresh(),
    {
        ScrollPoster {
            line: ScrollQuantizer::default(),
            pixel: ScrollQuantizer::default(),
            smooth: ScrollQuantizer::default(),
        }
    }
}

/// Points per input unit of a smooth delta.
pub open spec fn smooth_scale(delta: ScrollDelta) -> int {
    if delta is Pixels {
        1
    } else {
        POINTS_PER_WHEEL_TICK as int
    }
}

impl ScrollPoster {
    /// The event of a plain scroll delta, if it makes up a whole unit.
    pub fn post_scroll(&mut self, delta: ScrollDelta) -> (event: Option<ScrollEvent>)
        ensures
            delta is Pixels ==> {
                &&& event == plain_event(old(self).pixel.emits(delta, 1), ScrollUnit::Pixel)
                &&& *final(self) == (ScrollPoster {
                    pixel: old(self).pixel.after(delta, 1),
                    ..*old(self)
                })
            },
            delta is WheelTicks ==> {
                &&& event == plain_event(old(self).line.emits(delta, 1), ScrollUnit::Line)
                &&& *final(self) == (ScrollPoster {
                    line: old(self).line.after(delta, 1),
                    ..*old(self)
                })
            },
    {
        let (scroll, unit): (QuantizedScroll, ScrollUnit) = match delta {
            ScrollDelta::Pixels { .. } => (self.pixel.quantize(delta, 1), ScrollUnit::Pixel),
            ScrollDelta::WheelTicks { .. } => (self.line.quantize(delta, 1), ScrollUnit::Line),
        };
        if scroll.x == 0 && scroll.y == 0 {
            return None;
        }
        let continuous: Option<ContinuousFields> = match unit {
            ScrollUnit::Pixel => Some(continuous_fields(scroll)),
            ScrollUnit::Line => None,
        };
        Some(
            ScrollEvent {
                unit,
                vertical: scroll.y,
                horizontal: scroll.x,
                continuous,
                phase: None,
            },
        )
    }

    /// The event of a step of a smooth stream.
    pub fn post_smooth_scroll(&mut self, delta: ScrollDelta, phase: SmoothScrollPhase) -> (event:
        ScrollEvent)
        ensures
            event == smooth_event(old(self).smooth.emits(delta, smooth_scale(delta)), phase),
            *final(self) == (ScrollPoster {
                smooth: old(self).smooth.after(delta, smooth_scale(delta)),
                ..*old(self)
            }),
    {
        let scale: i128 = match delta {
            ScrollDelta::Pixels { .. } => 1,
            ScrollDelta::WheelTicks { .. } => POINTS_PER_WHEEL_TICK,
        };
        let scroll: QuantizedScroll = self.smooth.quantize(delta, scale);
        ScrollEvent {
            unit: ScrollUnit::Pixel,
            vertical: scroll.y,
            horizontal: scroll.x,
            continuous: Some(continuous_fields(scroll)),
            phase: Some(scroll_phase_value(phase)),
        }
    }
}

/// Whether an event can carry the whole units of a total.
pub open spec fn fits_an_event(total: int) -> bool {
    i32::MIN <= crate::math::trunc_div(total, SUBUNITS as int) <= i32::MAX
}

/// Quantizing loses nothing: what is emitted and what is carried make up the delta and what was
/// carried before, as long as an event can carry it.
pub proof fn law_quantizing_loses_nothing(
    quantizer: ScrollQuantizer,
    delta: ScrollDelta,
    scale: int,
)
    requires
        fits_an_event(quantizer.totals(delta, scale).0),
        fits_an_event(quantizer.totals(delta, scale).1),
    ensures
        quantizer.emits(delta, scale).x * SUBUNITS + quantizer.after(delta, scale).rest_x
            == quantizer.rest_x + delta.horizontal() * scale,
        quantizer.emits(delta, scale).y * SUBUNITS + quantizer.after(delta, scale).rest_y
            == quantizer.rest_y + delta.vertical() * scale,
{
}

/// What is carried never makes up a whole unit.
pub proof fn law_carry_is_a_fraction(quantizer: ScrollQuantizer, delta: ScrollDelta, scale: int)
    ensures
        -SUBUNITS < quantizer.after(delta, scale).rest_x < SUBUNITS,
        -SUBUNITS < quantizer.after(delta, scale).rest_y < SUBUNITS,
{
    let (x, y) = quantizer.totals(delta, scale);
    assert(-SUBUNITS < carried(x) < SUBUNITS);
    assert(-SUBUNITS < carried(y) < SUBUNITS);
}

/// The fields of an axis agree: ten points are a line, and the fixed-point field counts lines.
pub proof fn law_axis_fields_agree(lines: int)
    requires
        -214_748_364 <= lines <= 214_748_364,
    ensures
        axis_fields(10 * lines).points == 10 * lines,
        axis_fields(10 * lines).lines == lines,
        axis_fields(10 * lines).fixed == lines * FIXED_POINT_SCALE,
{
    let points = 10 * lines;
    assert(crate::math::trunc_div(points, 10) == lines);
    assert(crate::math::trunc_div(points * FIXED_POINT_SCALE, 10) == lines * FIXED_POINT_SCALE);
}

/// The parts of a delta are its own horizontal and vertical ones.
pub proof fn law_deltas_keep_their_axes(x: i64, y: i64)
    ensures
        (ScrollDelta::Pixels { x, y }).horizontal() == x,
        (ScrollDelta::Pixels { x, y }).vertical() == y,
        (ScrollDelta::WheelTicks { x, y }).horizontal() == x,
        (ScrollDelta::WheelTicks { x, y }).vertical() == y,
{
}

/// The system's numbers for the phases.
pub proof fn law_phases_have_these_numbers(phase: SmoothScrollPhase)
    ensures
        phase is Began ==> phase_number(phase) == 1,
        phase is Changed ==> phase_number(phase) == 2,
        phase is Ended ==> phase_number(phase) == 4,
        phase is Cancelled ==> phase_number(phase) == 8,
{
}

/// The fields of an axis, for any distance: the points themselves, the whole lines of ten points in
/// them, and the lines in parts of 65,536, both cut toward zero.
pub proof fn law_axis_fields_count_lines(points: i32)
    ensures
        ({
            let fields = axis_fields(points as int);
            &&& fields.points == points
            &&& points >= 0 ==> 0 <= points - 10 * fields.lines < 10
            &&& points <= 0 ==> -10 < points - 10 * fields.lines <= 0
            &&& points >= 0 ==> 0 <= 65_536 * points - 10 * fields.fixed < 10
            &&& points <= 0 ==> -10 < 65_536 * points - 10 * fields.fixed <= 0
        }),
{
}

/// Whether an event's continuous fields are those of its own two distances.
pub open spec fn carries_its_fields(event: ScrollEvent) -> bool {
    event.continuous matches Some(fields) && fields.vertical.points == event.vertical
        && fields.horizontal.points == event.horizontal && fields.vertical == axis_fields(
        event.vertical as int,
    ) && fields.horizontal == axis_fields(event.horizontal as int)
}

/// A plain scroll posts an event exactly where there is a whole unit to scroll. The event has the
/// units of its own axes and no phase; a pixel event is continuous and a line event is not.
pub proof fn law_plain_scrolls_keep_their_axes(scroll: QuantizedScroll, unit: ScrollUnit)
    ensures
        plain_event(scroll, unit) is None <==> scroll.x == 0 && scroll.y == 0,
        plain_event(scroll, unit) matches Some(event) ==> {
            &&& event.unit == unit
            &&& event.horizontal == scroll.x
            &&& event.vertical == scroll.y
            &&& event.phase is None
            &&& unit is Pixel ==> carries_its_fields(event)
            &&& unit is Line ==> event.continuous is None
        },
{
}

/// A step of a smooth stream posts a continuous pixel event with its phase and the units of its own
/// axes, even where there are none.
pub proof fn law_smooth_scrolls_keep_their_axes(scroll: QuantizedScroll, phase: SmoothScrollPhase)
    ensures
        ({
            let event = smooth_event(scroll, phase);
            &&& event.unit is Pixel
            &&& event.horizontal == scroll.x
            &&& event.vertical == scroll.y
            &&& carries_its_fields(event)
            &&& phase is Began ==> event.phase == Some(1i64)
            &&& phase is Changed ==> event.phase == Some(2i64)
            &&& phase is Ended ==> event.phase == Some(4i64)
            &&& phase is Cancelled ==> event.phase == Some(8i64)
        }),
{
}

/// Whole pixels and whole ticks go out at once, in their own direction, and leave nothing behind:
/// 560,000 parts are one of them. A smooth tick is ten pixels.
pub proof fn law_whole_units_go_out_at_once(x: int, y: int)
    requires
        -214_748_364 <= x <= 214_748_364,
        -214_748_364 <= y <= 214_748_364,
    ensures
        ({
            let rest = ScrollQuantizer { rest_x: 0, rest_y: 0 };
            let pixels = ScrollDelta::Pixels { x: (560_000 * x) as i64, y: (560_000 * y) as i64 };
            let ticks = ScrollDelta::WheelTicks {
                x: (560_000 * x) as i64,
                y: (560_000 * y) as i64,
            };
            &&& rest.emits(pixels, 1).x == x && rest.emits(pixels, 1).y == y
            &&& rest.after(pixels, 1) == rest
            &&& rest.emits(ticks, 1).x == x && rest.emits(ticks, 1).y == y
            &&& rest.after(ticks, 1) == rest
            &&& rest.emits(pixels, smooth_scale(pixels)).x == x
            &&& rest.emits(pixels, smooth_scale(pixels)).y == y
            &&& rest.emits(ticks, smooth_scale(ticks)).x == 10 * x
            &&& rest.emits(ticks, smooth_scale(ticks)).y == 10 * y
            &&& rest.after(ticks, smooth_scale(ticks)) == rest
        }),
{
}

/// A delta that does not make up a unit with what was carried sends nothing and is carried, axis by
/// axis.
pub proof fn law_fractions_are_carried(quantizer: ScrollQuantizer, delta: ScrollDelta)
    ensures
        -560_000 < quantizer.rest_x + delta.horizontal() < 560_000 ==> {
            &&& quantizer.emits(delta, 1).x == 0
            &&& quantizer.after(delta, 1).rest_x == quantizer.rest_x + delta.horizontal()
        },
        -560_000 < quantizer.rest_y + delta.vertical() < 560_000 ==> {
            &&& quantizer.emits(delta, 1).y == 0
            &&& quantizer.after(delta, 1).rest_y == quantizer.rest_y + delta.vertical()
        },
{
}

/// What goes out never turns against what came in.
pub proof fn law_units_go_the_way_of_the_delta(quantizer: ScrollQuantizer, delta: ScrollDelta)
    ensures
        quantizer.rest_x + delta.horizontal() >= 0 ==> quantizer.emits(delta, 1).x >= 0
            && quantizer.after(delta, 1).rest_x >= 0,
        quantizer.rest_x + delta.horizontal() <= 0 ==> quantizer.emits(delta, 1).x <= 0
            && quantizer.after(delta, 1).rest_x <= 0,
        quantizer.rest_y + delta.vertical() >= 0 ==> quantizer.emits(delta, 1).y >= 0
            && quantizer.after(delta, 1).rest_y >= 0,
        quantizer.rest_y + delta.vertical() <= 0 ==> quantizer.emits(delta, 1).y <= 0
            && quantizer.after(delta, 1).rest_y <= 0,
{
}

} // verus!
