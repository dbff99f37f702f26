//! Exact fixed-point numbers.
//!
//! A physical quantity is held as an integer mantissa `m`, standing for the
//! value `m / SCALE`. Addition and subtraction are exact; multiplication and
//! division truncate toward zero at the last place, exactly as the integer
//! division of the mantissas does. Every operation whose result would not
//! fit in the mantissa range reports failure instead of wrapping.

use vstd::arithmetic::div_mod::{lemma_div_nonincreasing, lemma_div_pos_is_pos};
use vstd::prelude::*;

verus! {

/// Number of mantissa units per whole unit: a value is `m / SCALE`.
pub const SCALE: i128 = 1_000_000_000;

/// A fixed-point number: the exact value `m / SCALE`.
#[derive(Clone, Copy, PartialEq, Eq, Structural, Debug)]
pub struct Fp {
    pub m: i128,
}

impl View for Fp {
    type V = int;

    open spec fn view(&self) -> int {
        self.m as int
    }
}

/// Whether a mathematical integer fits in the mantissa range.
pub open spec fn in_range(x: int) -> bool {
    i128::MIN <= x <= i128::MAX
}

/// Integer division truncating toward zero: the semantics of `/` on `i128`,
/// written over the Euclidean division of the magnitudes.
pub open spec fn tdiv(x: int, d: int) -> int
    recommends
        d != 0,
{
    if x == 0 {
        0
    } else if x > 0 && d > 0 {
        x / d
    } else if x < 0 && d < 0 {
        (x * -1) / (d * -1)
    } else if x < 0 {
        ((x * -1) / d) * -1
    } else {
        (x / (d * -1)) * -1
    }
}

/// Mantissa of the fixed-point product of two mantissas.
pub open spec fn fmul(a: int, b: int) -> int {
    tdiv(a * b, SCALE as int)
}

/// The fixed-point product can be computed exactly iff the intermediate
/// mantissa product fits.
pub open spec fn fmul_ok(a: int, b: int) -> bool {
    in_range(a * b)
}

/// Mantissa of the fixed-point quotient of two mantissas.
pub open spec fn fdiv(a: int, b: int) -> int {
    tdiv(a * SCALE, b)
}

/// The fixed-point quotient can be computed iff the divisor is non-zero and
/// the scaled dividend and the quotient fit.
pub open spec fn fdiv_ok(a: int, b: int) -> bool {
    b != 0 && in_range(a * SCALE) && in_range(tdiv(a * SCALE, b))
}

/// The fixed-point sum can be computed iff the exact sum fits.
pub open spec fn fadd_ok(a: int, b: int) -> bool {
    in_range(a + b)
}

/// The fixed-point difference can be computed iff the exact difference fits.
pub open spec fn fsub_ok(a: int, b: int) -> bool {
    in_range(a - b)
}

/// The negation can be computed iff it fits (it fails only on the least mantissa).
pub open spec fn fneg_ok(a: int) -> bool {
    in_range(-a)
}

/// Truncating division never grows the magnitude of the dividend.
pub proof fn lemma_tdiv_magnitude(x: int, d: int)
    requires
        d != 0,
    ensures
        tdiv(x, d) <= (if x >= 0 { x } else { -x }),
        -(if x >= 0 { x } else { -x }) <= tdiv(x, d),
{
    if x == 0 {
    } else if x > 0 && d > 0 {
        lemma_div_pos_is_pos(x, d);
        lemma_div_nonincreasing(x, d);
    } else if x < 0 && d < 0 {
        lemma_div_pos_is_pos(x * -1, d * -1);
        lemma_div_nonincreasing(x * -1, d * -1);
    } else if x < 0 {
        lemma_div_pos_is_pos(x * -1, d);
        lemma_div_nonincreasing(x * -1, d);
    } else {
        lemma_div_pos_is_pos(x, d * -1);
        lemma_div_nonincreasing(x, d * -1);
    }
}

impl Fp {
    /// The fixed-point zero.
    pub fn zero() -> (r: Fp)
        ensures
            r@ == 0,
    {
        Fp { m: 0 }
    }

    /// The number with the given mantissa: the value `m / SCALE`.
    pub fn from_mantissa(m: i128) -> (r: Fp)
        ensures
            r@ == m,
    {
        Fp { m }
    }

    /// The number standing for the given whole amount of units.
    pub fn from_units(units: i64) -> (r: Fp)
        ensures
            r@ == units * SCALE,
    {
        proof {
            assert(in_range((units as int) * (SCALE as int))) by (nonlinear_arith)
                requires
                    -0x8000_0000_0000_0000 <= units <= 0x7fff_ffff_ffff_ffff,
            ;
        }
        Fp { m: (units as i128) * SCALE }
    }

    /// The mantissa held by this number.
    pub fn mantissa(self) -> (r: i128)
        ensures
            r == self@,
    {
        self.m
    }

    /// Exact sum, or `None` where it does not fit.
    pub fn add(self, other: Fp) -> (r: Option<Fp>)
        ensures
            r is Some <==> fadd_ok(self@, other@),
            r matches Some(v) ==> v@ == self@ + other@,
    {
        match self.m.checked_add(other.m) {
            Some(s) => Some(Fp { m: s }),
            None => None,
        }
    }

    /// Exact difference, or `None` where it does not fit.
    pub fn sub(self, other: Fp) -> (r: Option<Fp>)
        ensures
            r is Some <==> fsub_ok(self@, other@),
            r matches Some(v) ==> v@ == self@ - other@,
    {
        match self.m.checked_sub(other.m) {
            Some(s) => Some(Fp { m: s }),
            None => None,
        }
    }

    /// Exact negation, or `None` on the one mantissa whose negation does not fit.
    pub fn neg(self) -> (r: Option<Fp>)
        ensures
            r is Some <==> fneg_ok(self@),
            r matches Some(v) ==> v@ == -self@,
    {
        match 0i128.checked_sub(self.m) {
            Some(s) => Some(Fp { m: s }),
            None => None,
        }
    }

    /// Product truncated toward zero at the last place, or `None` where the
    /// intermediate mantissa product does not fit.
    pub fn mul(self, other: Fp) -> (r: Option<Fp>)
        ensures
            r is Some <==> fmul_ok(self@, other@),
            r matches Some(v) ==> v@ == fmul(self@, other@),
    {
        match self.m.checked_mul(other.m) {
            Some(p) => {
                proof {
                    lemma_tdiv_magnitude(p as int, SCALE as int);
                }
                let q = p.checked_div(SCALE);
                Some(Fp { m: q.unwrap() })
            },
            None => None,
        }
    }

    /// Quotient truncated toward zero at the last place, or `None` where the
    /// divisor is zero or an intermediate does not fit.
    pub fn div(self, other: Fp) -> (r: Option<Fp>)
        ensures
            r is Some <==> fdiv_ok(self@, other@),
            r matches Some(v) ==> v@ == fdiv(self@, other@),
    {
        if other.m == 0 {
            return None;
        }
        match self.m.checked_mul(SCALE) {
            Some(p) => match p.checked_div(other.m) {
                Some(q) => Some(Fp { m: q }),
                None => None,
            },
            None => None,
        }
    }

    /// The larger of this number and zero.
    pub fn max_zero(self) -> (r: Fp)
        ensures
            r@ == if self@ < 0 { 0int } else { self@ },
    {
        if self.m < 0 {
            Fp { m: 0 }
        } else {
            self
        }
    }
}

} // verus!
