//! Conversion between physical (device) pixels and logical (UI) pixels.
//!
//! The device-pixel ratio is carried as an integer number of thousandths, so
//! a ratio of 2.0 is stored as 2000. A logical length is the physical length
//! divided by the ratio, rounded half-up; a physical length is the logical
//! length multiplied by the ratio, rounded half-up. Results that would not
//! fit a `u32` are clamped to `u32::MAX`.

use vstd::prelude::*;

verus! {

/// The number of ratio units that make up a device-pixel ratio of exactly 1.
pub const RATIO_ONE: u32 = 1000;

/// `a / b` rounded half-up: `floor((a + b/2) / b)`, written over `2a` and
/// `2b` so that no precision is lost on odd divisors.
pub open spec fn round_div(a: int, b: int) -> int
    recommends
        b >= 1,
{
    (2 * a + b) / (2 * b)
}

/// Clamp an unbounded result to the `u32` range.
pub open spec fn clamp_u32(v: int) -> int {
    if v > u32::MAX {
        u32::MAX as int
    } else {
        v
    }
}

/// The logical length of `physical` device pixels at the given ratio.
pub open spec fn to_logical(physical: int, ratio_milli: int) -> int
    recommends
        ratio_milli >= 1,
{
    clamp_u32(round_div(physical * 1000, ratio_milli))
}

/// The physical length of `logical` UI pixels at the given ratio.
pub open spec fn to_physical(logical: int, ratio_milli: int) -> int
    recommends
        ratio_milli >= 1,
{
    clamp_u32(round_div(logical * ratio_milli, 1000))
}

/// `round_div` sits within half a divisor of the exact quotient:
/// `-b < 2*b*round_div(a, b) - 2*a <= b`.
pub proof fn lemma_round_div_bounds(a: int, b: int)
    requires
        b >= 1,
        a >= 0,
    ensures
        2 * b * round_div(a, b) <= 2 * a + b,
        2 * a + b < 2 * b * (round_div(a, b) + 1),
        round_div(a, b) >= 0,
{
    let d = round_div(a, b);
    vstd::arithmetic::div_mod::lemma_fundamental_div_mod(2 * a + b, 2 * b);
    vstd::arithmetic::div_mod::lemma_mod_bound(2 * a + b, 2 * b);
    assert(2 * a + b == 2 * b * d + (2 * a + b) % (2 * b));
    assert(2 * b * (d + 1) == 2 * b * d + 2 * b) by (nonlinear_arith);
    assert(d >= 0) by (nonlinear_arith)
        requires
            2 * b * d > -2 * b,
            b >= 1,
    ;
}

/// Scale a physical length to logical pixels.
pub fn scale_to_logical(physical: u32, ratio_milli: u32) -> (r: u32)
    requires
        ratio_milli >= 1,
    ensures
        r == to_logical(physical as int, ratio_milli as int),
{
    let p: u64 = physical as u64;
    let m: u64 = ratio_milli as u64;
    let q: u64 = (2 * p * 1000 + m) / (2 * m);
    if q > u32::MAX as u64 {
        u32::MAX
    } else {
        q as u32
    }
}

/// Scale a logical length to physical pixels.
pub fn scale_to_physical(logical: u32, ratio_milli: u32) -> (r: u32)
    requires
        ratio_milli >= 1,
    ensures
        r == to_physical(logical as int, ratio_milli as int),
{
    let l: u128 = logical as u128;
    let m: u128 = ratio_milli as u128;
    proof {
        assert((l as int) * (m as int) <= 0xffff_ffff * 0xffff_ffff) by (nonlinear_arith)
            requires
                0 <= l <= 0xffff_ffff,
                0 <= m <= 0xffff_ffff,
        ;
    }
    let prod: u128 = l * m;
    let q: u128 = (2 * prod + 1000) / 2000;
    if q > u32::MAX as u128 {
        u32::MAX
    } else {
        q as u32
    }
}

/// Scaling a logical length up to physical pixels and back down returns the
/// original length to within one rounding unit, for every device-pixel ratio
/// of at least one: the round trip never loses more than the rounding itself.
pub proof fn lemma_scale_round_trip(l: int, m: int)
    requires
        m >= 1000,
        0 <= l <= u32::MAX,
        round_div(l * m, 1000) <= u32::MAX,
    ensures
        l <= to_logical(to_physical(l, m), m) <= l + 1,
{
    let lm = l * m;
    assert(lm >= 0) by (nonlinear_arith)
        requires
            lm == l * m,
            l >= 0,
            m >= 0,
    ;
    let p = round_div(lm, 1000);
    lemma_round_div_bounds(lm, 1000);
    assert(to_physical(l, m) == p);
    let pk = p * 1000;
    assert(pk >= 0) by (nonlinear_arith)
        requires
            pk == p * 1000,
            p >= 0,
    ;
    let lr = round_div(pk, m);
    lemma_round_div_bounds(pk, m);
    // From the two applications of the bounds lemma:
    //   2 * 1000 * p <= 2 * lm + 1000 < 2 * 1000 * (p + 1)
    //   2 * m * lr <= 2 * pk + m < 2 * m * (lr + 1)
    assert(lr <= l + 1) by (nonlinear_arith)
        requires
            2 * m * lr <= 2 * pk + m,
            2 * 1000 * p <= 2 * lm + 1000,
            pk == p * 1000,
            lm == l * m,
            m >= 1000,
    ;
    assert(l <= lr) by (nonlinear_arith)
        requires
            2 * lm + 1000 < 2 * 1000 * (p + 1),
            2 * pk + m < 2 * m * (lr + 1),
            pk == p * 1000,
            lm == l * m,
            m >= 1000,
    ;
    assert(to_logical(p, m) == clamp_u32(lr));
}

/// The current physical dimensions, device-pixel ratio and the logical
/// dimensions derived from them.
pub struct SizeView {
    pub physical_width: int,
    pub physical_height: int,
    pub ratio_milli: int,
    pub logical_width: int,
    pub logical_height: int,
}

/// Physical dimensions plus device-pixel ratio, with the logical dimensions
/// computed once at construction so that every consumer of one `Size` value
/// observes the same mapping.
#[derive(Clone, Copy)]
pub struct Size {
    physical_width: u32,
    physical_height: u32,
    ratio_milli: u32,
    logical_width: u32,
    logical_height: u32,
}

impl View for Size {
    type V = SizeView;

    closed spec fn view(&self) -> SizeView {
        SizeView {
            physical_width: self.physical_width as int,
            physical_height: self.physical_height as int,
            ratio_milli: self.ratio_milli as int,
            logical_width: self.logical_width as int,
            logical_height: self.logical_height as int,
        }
    }
}

impl Size {
    #[verifier::type_invariant]
    closed spec fn wf(self) -> bool {
        &&& self.ratio_milli >= 1
        &&& self.logical_width == to_logical(self.physical_width as int, self.ratio_milli as int)
        &&& self.logical_height == to_logical(
            self.physical_height as int,
            self.ratio_milli as int,
        )
    }

    /// The view a fresh `Size` must have for the given dimensions and ratio.
    pub open spec fn of(physical_width: int, physical_height: int, ratio_milli: int) -> SizeView {
        SizeView {
            physical_width,
            physical_height,
            ratio_milli,
            logical_width: to_logical(physical_width, ratio_milli),
            logical_height: to_logical(physical_height, ratio_milli),
        }
    }

    pub fn new(physical_width: u32, physical_height: u32, ratio_milli: u32) -> (s: Size)
        requires
            ratio_milli >= 1,
        ensures
            s@ == Size::of(physical_width as int, physical_height as int, ratio_milli as int),
    {
        let logical_width = scale_to_logical(physical_width, ratio_milli);
        let logical_height = scale_to_logical(physical_height, ratio_milli);
        Size { physical_width, physical_height, ratio_milli, logical_width, logical_height }
    }

    /// The logical dimensions, recomputed at the last resize.
    pub fn logical(&self) -> (r: (u32, u32))
        ensures
            r.0 == self@.logical_width,
            r.1 == self@.logical_height,
    {
        (self.logical_width, self.logical_height)
    }

    /// The physical dimensions.
    pub fn physical(&self) -> (r: (u32, u32))
        ensures
            r.0 == self@.physical_width,
            r.1 == self@.physical_height,
    {
        (self.physical_width, self.physical_height)
    }

    /// The device-pixel ratio, in thousandths.
    pub fn ratio_milli(&self) -> (r: u32)
        ensures
            r == self@.ratio_milli,
    {
        self.ratio_milli
    }

    /// Scale one physical coordinate to logical pixels.
    pub fn scale_logical(&self, v: u32) -> (r: u32)
        ensures
            r == to_logical(v as int, self@.ratio_milli),
    {
        proof {
            use_type_invariant(&*self);
        }
        scale_to_logical(v, self.ratio_milli)
    }

    /// Scale one logical coordinate to physical pixels.
    pub fn scale_physical(&self, v: u32) -> (r: u32)
        ensures
            r == to_physical(v as int, self@.ratio_milli),
    {
        proof {
            use_type_invariant(&*self);
        }
        scale_to_physical(v, self.ratio_milli)
    }
}

} // verus!
