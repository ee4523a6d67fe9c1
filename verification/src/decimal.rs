use vstd::prelude::*;

use crate::digits::{
    dec_str, lemma_trim_noop, lemma_trim_shifts_zero, padded_dec, padded_dec_string, pow10,
    trim_zeros, u128_to_dec_string,
};

verus! {

/// How many atomic units make one whole unit: a decimal carries exactly
/// eighteen fractional digits.
pub const DECIMAL_FRACTIONAL: u128 = 1_000_000_000_000_000_000;

/// The number of fractional digits of a decimal.
pub const DECIMAL_PLACES: usize = 18;

/// A nonnegative fixed-point decimal with eighteen fractional digits,
/// stored as its count of atomic (10^-18) units. This is the shape in which
/// the oracle reports redemption rates.
#[derive(Clone, Copy, Debug, PartialEq, Eq)]
pub struct Decimal {
    /// The value in units of 10^-18.
    pub atomics: u128,
}

/// The canonical text of a decimal with the given atomics: the whole part in
/// decimal, then, when the fractional part is not zero, a point and the
/// fractional digits with trailing zeros removed.
pub open spec fn decimal_str(atomics: nat) -> Seq<char> {
    let whole = atomics / (DECIMAL_FRACTIONAL as nat);
    let frac = atomics % (DECIMAL_FRACTIONAL as nat);
    if frac == 0 {
        dec_str(whole)
    } else {
        dec_str(whole) + seq!['.'] + trim_zeros(padded_dec(frac, DECIMAL_PLACES as nat))
    }
}

pub proof fn lemma_pow10_18()
    ensures
        pow10(18) == 1_000_000_000_000_000_000,
        pow10(1) == 10,
{
    reveal_with_fuel(pow10, 19);
}

impl Decimal {
    /// The decimal holding `atomics` units of 10^-18.
    pub fn from_atomics(atomics: u128) -> (d: Decimal)
        ensures
            d.atomics == atomics,
    {
        Decimal { atomics }
    }

    /// The decimal one (a redemption rate at exact parity).
    pub fn one() -> (d: Decimal)
        ensures
            d.atomics == DECIMAL_FRACTIONAL,
    {
        Decimal { atomics: DECIMAL_FRACTIONAL }
    }

    /// Renders the decimal as text, e.g. "1.2", "0.9837", "3".
    pub fn to_text(&self) -> (s: String)
        ensures
            s@ == decimal_str(self.atomics as nat),
    {
        let whole = self.atomics / DECIMAL_FRACTIONAL;
        let frac = self.atomics % DECIMAL_FRACTIONAL;
        let mut s = u128_to_dec_string(whole);
        if frac > 0 {
            s.append(".");
            proof {
                reveal_strlit(".");
                lemma_pow10_18();
            }
            let mut f: u128 = frac;
            let mut width: usize = DECIMAL_PLACES;
            while f % 10 == 0
                invariant
                    1 <= width <= 18,
                    0 < f,
                    (f as nat) < pow10(width as nat),
                    trim_zeros(padded_dec(frac as nat, 18)) == trim_zeros(
                        padded_dec(f as nat, width as nat),
                    ),
                decreases width,
            {
                proof {
                    lemma_trim_shifts_zero(f as nat, width as nat);
                    lemma_pow10_18();
                    if width == 1 {
                        assert(pow10(1) == 10);
                        assert(f < 10);
                        assert(f % 10 == f);
                        assert(false);
                    }
                    assert(pow10(width as nat) == 10 * pow10((width - 1) as nat));
                    assert((f as nat) / 10 < pow10((width - 1) as nat)) by {
                        let p = pow10((width - 1) as nat);
                        assert((f as nat) < 10 * p);
                        assert((f as nat) / 10 < p) by (nonlinear_arith)
                            requires
                                (f as nat) < 10 * p,
                        ;
                    }
                }
                f = f / 10;
                width = width - 1;
            }
            proof {
                lemma_trim_noop(f as nat, width as nat);
            }
            let tail = padded_dec_string(f, width);
            s.append(tail.as_str());
            proof {
                assert(seq!['.'] =~= "."@);
                assert(s@ =~= decimal_str(self.atomics as nat));
            }
        }
        s
    }
}

} // verus!
