use vstd::prelude::*;

verus! {

/// Thousandths in one percentage point: a share `part / whole` is reported
/// as `part * 100 * 1000 / whole`.
pub const MILLI_PER_PERCENT: u64 = 100000;

/// The share `part / whole` in thousandths of a percent, rounded down; zero
/// when `whole` is zero, and `u64::MAX` where the quotient does not fit.
pub open spec fn milli_percent_spec(part: nat, whole: nat) -> int {
    if whole == 0 {
        0
    } else if (part * 100000) / whole > u64::MAX {
        u64::MAX as int
    } else {
        ((part * 100000) / whole) as int
    }
}

/// The share `part / whole` as thousandths of a percent.
pub fn milli_percent(part: u64, whole: u64) -> (r: u64)
    ensures
        r == milli_percent_spec(part as nat, whole as nat),
        whole == 0 ==> r == 0,
        0 < whole && part <= whole ==> r <= 100000,
{
    if whole == 0 {
        return 0;
    }
    assert((part as nat) * 100000 <= (u64::MAX as nat) * 100000) by (nonlinear_arith);
    let scaled: u128 = (part as u128) * (MILLI_PER_PERCENT as u128);
    let q: u128 = scaled / (whole as u128);
    proof {
        if part <= whole {
            assert((part as nat) * 100000 <= (whole as nat) * 100000) by (nonlinear_arith)
                requires part <= whole;
            assert(((part as nat) * 100000) / (whole as nat) <= 100000) by (nonlinear_arith)
                requires (part as nat) * 100000 <= (whole as nat) * 100000, whole > 0;
        }
    }
    if q > u64::MAX as u128 {
        u64::MAX
    } else {
        q as u64
    }
}

} // verus!
