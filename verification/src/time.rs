use vstd::prelude::*;

verus! {

/// A rational time base: the duration of one timestamp tick, in seconds,
/// is `num / den`.
#[derive(Clone, Copy, Debug, PartialEq, Eq, Structural)]
pub struct Rational {
    pub num: i32,
    pub den: i32,
}

impl Rational {
    /// A meaningful time base: a positive duration per tick.
    pub open spec fn is_positive(self) -> bool {
        self.num > 0 && self.den > 0
    }

    pub fn new(num: i32, den: i32) -> (r: Rational)
        ensures
            r == (Rational { num, den }),
    {
        Rational { num, den }
    }
}

/// A timestamp `ts` counted in `from` ticks, recounted in `to` ticks:
/// `ts * (from.num * to.den) / (from.den * to.num)`, rounded to the nearest
/// integer with halves rounded up.
pub open spec fn spec_rescale(ts: int, from: Rational, to: Rational) -> int
    recommends
        from.is_positive(),
        to.is_positive(),
        ts >= 0,
{
    (ts * from.num * to.den + (from.den * to.num) / 2) / (from.den * to.num)
}

/// Rescale a presentation timestamp from one time base into another.
/// The bound in `requires` keeps the rounded numerator within `i64`.
pub fn rescale_ts(ts: i64, from: Rational, to: Rational) -> (r: i64)
    requires
        from.is_positive(),
        to.is_positive(),
        0 <= ts,
        ts * from.num * to.den + (from.den * to.num) / 2 <= i64::MAX,
    ensures
        r == spec_rescale(ts as int, from, to),
        r >= 0,
{
    proof {
        assert(from.den * to.num >= 1 && from.den * to.num <= 0x7fff_ffff * 0x7fff_ffff)
            by (nonlinear_arith)
            requires
                1 <= from.den <= 0x7fff_ffff,
                1 <= to.num <= 0x7fff_ffff,
        ;
        assert(0 <= ts * from.num && ts * from.num <= ts * from.num * to.den)
            by (nonlinear_arith)
            requires
                0 <= ts,
                1 <= from.num,
                1 <= to.den,
        ;
    }
    let den: i64 = (from.den as i64) * (to.num as i64);
    let num: i64 = ts * (from.num as i64) * (to.den as i64);
    (num + den / 2) / den
}

} // verus!
