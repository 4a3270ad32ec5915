use vstd::prelude::*;

verus! {

/// An exact non-negative rational number `num / den`, with `den > 0`.
#[derive(Clone, Copy, Debug, PartialEq, Eq, Structural)]
pub struct Ratio {
    pub num: u128,
    pub den: u128,
}

impl Ratio {
    pub open spec fn wf(self) -> bool {
        self.den > 0
    }

    /// The value as a rational, compared by cross multiplication.
    pub open spec fn equals(self, p: int, q: int) -> bool {
        self.num * q == p * self.den
    }
}

/// The ratio that `usage_percent` returns: `(100 * used) / total`, or `0 / 1`.
pub open spec fn percent_ratio(used: int, total: int) -> Ratio {
    if total == 0 {
        Ratio { num: 0, den: 1 }
    } else {
        Ratio { num: (100 * used) as u128, den: total as u128 }
    }
}

/// The share of `total` that `used` stands for, in percent: `100 * used / total`,
/// and exactly zero when `total` is zero (no division takes place).
pub fn usage_percent(used: u64, total: u64) -> (r: Ratio)
    ensures
        r == percent_ratio(used as int, total as int),
        r.wf(),
        total == 0 ==> r.num == 0,
        total > 0 ==> r.equals(100 * used, total as int),
        used <= total ==> r.num <= 100 * r.den,
{
    if total == 0 {
        Ratio { num: 0, den: 1 }
    } else {
        Ratio { num: 100 * (used as u128), den: total as u128 }
    }
}

} // verus!
