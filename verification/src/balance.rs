//! Display of a raw ledger balance. The raw amount is an integer count of
//! the smallest indivisible unit; the display unit is larger by a fixed
//! divisor of one billion, and the display shows the exact decimal value
//! with no trailing fractional zeros.

use vstd::prelude::*;
use vstd::string::*;
use crate::digits::{
    dec_chars, lemma_dec_chars_value, lemma_padded_chars_value, lemma_padded_len, lemma_trim_value,
    lemma_trim_no_trailing_zero, lemma_trim_padded_done, lemma_trim_padded_step,
    lemma_trim_padded_zero, padded_chars, pow10, push_dec, push_padded, seq_value,
    trim_trailing_zeros,
};

verus! {

/// The number of raw units in one display unit.
pub open spec fn unit_divisor() -> nat {
    1000000000
}

/// The exact decimal display of `raw / 1_000_000_000`: the whole part, then,
/// if the remainder is not zero, a point and the fractional digits with
/// trailing zeros removed.
pub open spec fn balance_display(raw: nat) -> Seq<char> {
    let whole = raw / unit_divisor();
    let frac = raw % unit_divisor();
    let frac_digits = trim_trailing_zeros(padded_chars(frac, 9));
    if frac_digits.len() == 0 {
        dec_chars(whole)
    } else {
        dec_chars(whole) + seq!['.'] + frac_digits
    }
}

/// The display is exact, with no rounding left to do: the digits before
/// the point read back as the whole quotient, the digits after the point,
/// scaled back up by the trailing zeros removed, read back as the
/// remainder, and the fraction never ends in a zero digit.
pub proof fn lemma_balance_display_exact(raw: nat)
    ensures
        seq_value(dec_chars(raw / unit_divisor())) == raw / unit_divisor(),
        ({
            let f = trim_trailing_zeros(padded_chars(raw % unit_divisor(), 9));
            &&& f.len() <= 9
            &&& seq_value(f) * pow10((9 - f.len()) as nat) == raw % unit_divisor()
            &&& (f.len() > 0 ==> f.last() != '0')
        }),
{
    let frac = raw % unit_divisor();
    lemma_dec_chars_value(raw / unit_divisor());
    assert(pow10(9) == 1000000000) by {
        reveal_with_fuel(pow10, 10);
    }
    lemma_padded_chars_value(frac, 9);
    lemma_trim_value(padded_chars(frac, 9));
    lemma_padded_len(frac, 9);
    lemma_trim_no_trailing_zero(padded_chars(frac, 9));
}

/// Renders a raw amount in display units.
pub fn format_balance(raw: u64) -> (s: String)
    ensures
        s@ == balance_display(raw as nat),
{
    let whole: u64 = raw / 1000000000;
    let frac: u64 = raw % 1000000000;
    let mut s = String::new();
    push_dec(whole, &mut s);
    if frac == 0 {
        proof {
            lemma_trim_padded_zero(9);
            assert(s@ =~= balance_display(raw as nat));
        }
        s
    } else {
        s.append(".");
        let ghost s_after_point = s@;
        let mut f: u64 = frac;
        let mut width: u64 = 9;
        proof {
            assert(pow10(9) == 1000000000) by {
                reveal_with_fuel(pow10, 10);
            }
        }
        while f % 10 == 0
            invariant
                1 <= width <= 9,
                f >= 1,
                (f as nat) < pow10(width as nat),
                s@ == s_after_point,
                trim_trailing_zeros(padded_chars((frac as nat), 9)) == trim_trailing_zeros(
                    padded_chars(f as nat, width as nat),
                ),
            decreases f,
        {
            proof {
                assert(width >= 2) by {
                    if width == 1 {
                        assert(pow10(1) == 10) by {
                            reveal_with_fuel(pow10, 2);
                        }
                        assert(f < 10);
                        assert(f % 10 == f);
                    }
                }
                lemma_trim_padded_step(f as nat, width as nat);
                assert(pow10(width as nat) == 10 * pow10((width - 1) as nat));
                assert((f as nat) / 10 < pow10((width - 1) as nat)) by (nonlinear_arith)
                    requires
                        (f as nat) < 10 * pow10((width - 1) as nat),
                ;
                assert(f >= 10) by {
                    assert(f % 10 == 0 && f >= 1);
                }
            }
            f = f / 10;
            width = width - 1;
        }
        proof {
            lemma_trim_padded_done(f as nat, width as nat);
        }
        push_padded(f, width, &mut s);
        proof {
            reveal_strlit(".");
            assert(s@ =~= balance_display(raw as nat));
        }
        s
    }
}

} // verus!
