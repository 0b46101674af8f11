//! Integer helpers shared by the gesture code: absolute values, truncating division, saturating
//! arithmetic and integer square roots.
use vstd::prelude::*;

verus! {

/// Absolute value.
pub open spec fn magnitude(v: int) -> nat {
    if v < 0 {
        (-v) as nat
    } else {
        v as nat
    }
}

/// The smaller of two integers.
pub open spec fn lesser(a: int, b: int) -> int {
    if a <= b {
        a
    } else {
        b
    }
}

/// The larger of two integers.
pub open spec fn greater(a: int, b: int) -> int {
    if a >= b {
        a
    } else {
        b
    }
}

/// `v` brought into `low..=high`.
pub open spec fn clamped(v: int, low: int, high: int) -> int {
    if v < low {
        low
    } else if v > high {
        high
    } else {
        v
    }
}

/// Division rounding toward zero, the way machine integers divide.
pub open spec fn trunc_div(a: int, b: int) -> int {
    if a >= 0 {
        a / b
    } else {
        -((-a) / b)
    }
}

/// Whether `r` is the largest integer whose square does not exceed `n`.
pub open spec fn is_floor_sqrt(n: nat, r: nat) -> bool {
    r * r <= n < (r + 1) * (r + 1)
}

/// The largest integer whose square does not exceed `n`.
pub open spec fn floor_sqrt(n: nat) -> nat {
    choose|r: nat| is_floor_sqrt(n, r)
}

/// There is only one integer square root.
pub proof fn lemma_floor_sqrt_unique(n: nat, r: nat)
    requires
        is_floor_sqrt(n, r),
    ensures
        floor_sqrt(n) == r,
{
    let s = floor_sqrt(n);
    assert(is_floor_sqrt(n, s));
    assert(s == r) by (nonlinear_arith)
        requires
            r * r <= n < (r + 1) * (r + 1),
            s * s <= n < (s + 1) * (s + 1),
    ;
}

/// Every natural number has an integer square root.
pub proof fn lemma_floor_sqrt_exists(n: nat)
    ensures
        is_floor_sqrt(n, floor_sqrt(n)),
    decreases n,
{
    if n == 0 {
        assert(is_floor_sqrt(0, 0)) by (nonlinear_arith);
    } else {
        let m = (n - 1) as nat;
        lemma_floor_sqrt_exists(m);
        let r = floor_sqrt(m);
        if (r + 1) * (r + 1) <= n {
            assert(is_floor_sqrt(n, r + 1)) by (nonlinear_arith)
                requires
                    m + 1 == n,
                    r * r <= m < (r + 1) * (r + 1),
                    (r + 1) * (r + 1) <= n,
            ;
        } else {
            assert(is_floor_sqrt(n, r));
        }
    }
}

/// Magnitude of a signed value.
pub fn unsigned_magnitude(v: i64) -> (r: u64)
    ensures
        r == magnitude(v as int),
{
    if v >= 0 {
        v as u64
    } else if v == i64::MIN {
        9_223_372_036_854_775_808
    } else {
        (-v) as u64
    }
}

/// Division by a positive count, rounding toward zero.
pub fn divide(a: i64, b: i64) -> (r: i64)
    requires
        b > 0,
    ensures
        r == trunc_div(a as int, b as int),
        magnitude(r as int) <= magnitude(a as int),
{
    let r: i64 = a / b;
    assert(magnitude(trunc_div(a as int, b as int) as int) <= magnitude(a as int)) by (nonlinear_arith)
        requires
            b > 0,
    ;
    r
}

/// Multiplication that stops at the largest representable value.
pub fn saturating_product(a: u64, b: u64) -> (r: u64)
    ensures
        r == lesser(a * b, u64::MAX as int),
{
    proof {
        assert(0 <= a * b <= 0xffff_ffff_ffff_ffff * 0xffff_ffff_ffff_ffff) by (nonlinear_arith)
            requires
                0 <= a <= 0xffff_ffff_ffff_ffff,
                0 <= b <= 0xffff_ffff_ffff_ffff,
        ;
    }
    let wide: u128 = a as u128 * b as u128;
    if wide > u64::MAX as u128 {
        u64::MAX
    } else {
        wide as u64
    }
}

/// Signed addition that stops at the ends of the representable range.
pub fn saturating_sum(a: i64, b: i64) -> (r: i64)
    ensures
        r == clamped(a + b, i64::MIN as int, i64::MAX as int),
{
    let wide: i128 = a as i128 + b as i128;
    saturate(wide)
}

/// Brings a wide value into the range of `i64`.
pub fn saturate(wide: i128) -> (r: i64)
    ensures
        r == clamped(wide as int, i64::MIN as int, i64::MAX as int),
{
    if wide > i64::MAX as i128 {
        i64::MAX
    } else if wide < i64::MIN as i128 {
        i64::MIN
    } else {
        wide as i64
    }
}

/// Integer square root.
pub fn isqrt(n: u64) -> (r: u64)
    ensures
        r == floor_sqrt(n as nat),
        is_floor_sqrt(n as nat, r as nat),
        r <= 0xffff_ffff,
{
    let mut low: u64 = 0;
    let mut high: u64 = 0x1_0000_0000;
    assert(low * low <= n < high * high) by (nonlinear_arith)
        requires
            low == 0,
            high == 0x1_0000_0000,
            0 <= n < 0x1_0000_0000_0000_0000,
    ;
    while high - low > 1
        invariant
            low < high <= 0x1_0000_0000,
            low * low <= n < high * high,
        decreases high - low,
    {
        let mid: u64 = low + (high - low) / 2;
        assert(0 <= mid * mid <= 0xffff_ffff_ffff_ffff) by (nonlinear_arith)
            requires
                0 <= mid < 0x1_0000_0000,
        ;
        if mid * mid <= n {
            low = mid;
        } else {
            high = mid;
        }
    }
    proof {
        assert(high == low + 1);
        assert(is_floor_sqrt(n as nat, low as nat));
        lemma_floor_sqrt_unique(n as nat, low as nat);
    }
    low
}

/// Integer square root of a wide value.
pub fn isqrt_wide(n: u128) -> (r: u64)
    ensures
        r == floor_sqrt(n as nat),
{
    let mut low: u128 = 0;
    let mut high: u128 = 0x1_0000_0000_0000_0000;
    assert(low * low <= n < high * high) by (nonlinear_arith)
        requires
            low == 0,
            high == 0x1_0000_0000_0000_0000,
            0 <= n < 0x1_0000_0000_0000_0000_0000_0000_0000_0000,
    ;
    while high - low > 1
        invariant
            low < high <= 0x1_0000_0000_0000_0000,
            low * low <= n < high * high,
        decreases high - low,
    {
        let mid: u128 = low + (high - low) / 2;
        assert(0 <= mid * mid <= 0xffff_ffff_ffff_ffff_ffff_ffff_ffff_ffff) by (nonlinear_arith)
            requires
                0 <= mid < 0x1_0000_0000_0000_0000,
        ;
        if mid * mid <= n {
            low = mid;
        } else {
            high = mid;
        }
    }
    proof {
        assert(high == low + 1);
        assert(is_floor_sqrt(n as nat, low as nat));
        lemma_floor_sqrt_unique(n as nat, low as nat);
    }
    low as u64
}

/// Ticks from one reading of a wrapping 16-bit counter to a later one.
pub open spec fn ticks_between(start: u16, now: u16) -> int {
    if now >= start {
        now - start
    } else {
        now - start + 0x1_0000
    }
}

/// A quotient cut toward zero leaves less than the divisor, on the dividend's side of zero.
pub proof fn law_quotients_are_cut_toward_zero(a: int, b: int)
    requires
        b > 0,
    ensures
        a >= 0 ==> 0 <= a - b * trunc_div(a, b) < b,
        a <= 0 ==> -b < a - b * trunc_div(a, b) <= 0,
{
    vstd::arithmetic::div_mod::lemma_fundamental_div_mod(a, b);
    vstd::arithmetic::div_mod::lemma_fundamental_div_mod(-a, b);
    assert(b * -((-a) / b) == -(b * ((-a) / b))) by (nonlinear_arith);
}

/// The size of a number is the number or its opposite, and never below nought.
pub proof fn law_magnitude_drops_the_sign(v: int)
    ensures
        v >= 0 ==> magnitude(v) == v,
        v <= 0 ==> magnitude(v) == -v,
{
}

/// The lesser and the greater of two numbers are the two numbers, in order.
pub proof fn law_lesser_and_greater_are_in_order(a: int, b: int)
    ensures
        lesser(a, b) <= a && lesser(a, b) <= b,
        greater(a, b) >= a && greater(a, b) >= b,
        lesser(a, b) == a || lesser(a, b) == b,
        greater(a, b) == a || greater(a, b) == b,
{
}

/// A number is kept between two bounds: it stays where it lies between them and otherwise becomes
/// the bound that it passed.
pub proof fn law_clamping_keeps_the_bounds(v: int, low: int, high: int)
    requires
        low <= high,
    ensures
        low <= v <= high ==> clamped(v, low, high) == v,
        v < low ==> clamped(v, low, high) == low,
        v > high ==> clamped(v, low, high) == high,
{
}

/// The whole root of a number squares to no more than the number, and the next one to more.
pub proof fn law_root_squares_to_no_more(n: nat)
    ensures
        floor_sqrt(n) * floor_sqrt(n) <= n,
        (floor_sqrt(n) + 1) * (floor_sqrt(n) + 1) > n,
{
    lemma_floor_sqrt_exists(n);
}

/// A sixteen-bit clock that wraps counts the ticks from one reading to a later one: they bring the
/// first reading to the second, and are fewer than a full turn.
pub proof fn law_ticks_lead_from_start_to_now(start: u16, now: u16)
    ensures
        0 <= ticks_between(start, now) < 0x1_0000,
        start + ticks_between(start, now) == now || start + ticks_between(start, now) == now
            + 0x1_0000,
{
}

} // verus!
