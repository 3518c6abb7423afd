//! Decimal renderings of unsigned integers: the plain rendering, a
//! zero-padded fixed-width rendering, and removal of trailing zeros, with
//! executable builders proved against them.

use vstd::prelude::*;
use vstd::string::*;

verus! {

/// The character for one decimal digit value.
pub open spec fn digit_char(d: nat) -> char {
    if d == 0 {
        '0'
    } else if d == 1 {
        '1'
    } else if d == 2 {
        '2'
    } else if d == 3 {
        '3'
    } else if d == 4 {
        '4'
    } else if d == 5 {
        '5'
    } else if d == 6 {
        '6'
    } else if d == 7 {
        '7'
    } else if d == 8 {
        '8'
    } else {
        '9'
    }
}

/// The decimal rendering of `n`, most significant digit first, with no
/// leading zeros (a single `'0'` for zero itself).
pub open spec fn dec_chars(n: nat) -> Seq<char>
    decreases n,
{
    if n < 10 {
        seq![digit_char(n)]
    } else {
        dec_chars(n / 10).push(digit_char(n % 10))
    }
}

/// The low `width` decimal digits of `n`, zero-padded on the left to exactly
/// `width` characters.
pub open spec fn padded_chars(n: nat, width: nat) -> Seq<char>
    decreases width,
{
    if width == 0 {
        Seq::empty()
    } else {
        padded_chars(n / 10, (width - 1) as nat).push(digit_char(n % 10))
    }
}

/// `s` with every trailing `'0'` removed.
pub open spec fn trim_trailing_zeros(s: Seq<char>) -> Seq<char>
    decreases s.len(),
{
    if s.len() > 0 && s.last() == '0' {
        trim_trailing_zeros(s.drop_last())
    } else {
        s
    }
}

/// Ten to the power `e`.
pub open spec fn pow10(e: nat) -> nat
    decreases e,
{
    if e == 0 {
        1
    } else {
        10 * pow10((e - 1) as nat)
    }
}

/// The digit value of a character, zero for anything but a digit.
pub open spec fn digit_val(c: char) -> nat {
    if c == '1' {
        1
    } else if c == '2' {
        2
    } else if c == '3' {
        3
    } else if c == '4' {
        4
    } else if c == '5' {
        5
    } else if c == '6' {
        6
    } else if c == '7' {
        7
    } else if c == '8' {
        8
    } else if c == '9' {
        9
    } else {
        0
    }
}

/// The number a sequence of digit characters denotes, most significant
/// digit first.
pub open spec fn seq_value(s: Seq<char>) -> nat
    decreases s.len(),
{
    if s.len() == 0 {
        0
    } else {
        seq_value(s.drop_last()) * 10 + digit_val(s.last())
    }
}

/// A digit character reads back as its value.
proof fn lemma_digit_roundtrip(d: nat)
    requires
        d < 10,
    ensures
        digit_val(digit_char(d)) == d,
{
}

/// Appending one digit multiplies the denoted number by ten and adds the
/// digit.
proof fn lemma_seq_value_push(s: Seq<char>, c: char)
    ensures
        seq_value(s.push(c)) == seq_value(s) * 10 + digit_val(c),
{
    assert(s.push(c).len() == s.len() + 1);
    assert(s.push(c).drop_last() =~= s);
    assert(s.push(c).last() == c);
}

/// The plain decimal rendering reads back as the number it renders.
pub proof fn lemma_dec_chars_value(n: nat)
    ensures
        seq_value(dec_chars(n)) == n,
    decreases n,
{
    if n < 10 {
        lemma_digit_roundtrip(n);
        assert(dec_chars(n) =~= Seq::<char>::empty().push(digit_char(n)));
        lemma_seq_value_push(Seq::<char>::empty(), digit_char(n));
        assert(seq_value(Seq::<char>::empty()) == 0);
    } else {
        lemma_dec_chars_value(n / 10);
        lemma_digit_roundtrip(n % 10);
        lemma_seq_value_push(dec_chars(n / 10), digit_char(n % 10));
    }
}

/// The padded rendering reads back as the number it renders, as long as
/// the number fits in its width.
pub proof fn lemma_padded_chars_value(n: nat, width: nat)
    requires
        n < pow10(width),
    ensures
        seq_value(padded_chars(n, width)) == n,
    decreases width,
{
    if width == 0 {
    } else {
        let rest = padded_chars(n / 10, (width - 1) as nat);
        assert(n / 10 < pow10((width - 1) as nat)) by (nonlinear_arith)
            requires
                n < 10 * pow10((width - 1) as nat),
        ;
        lemma_padded_chars_value(n / 10, (width - 1) as nat);
        lemma_digit_roundtrip(n % 10);
        lemma_seq_value_push(rest, digit_char(n % 10));
    }
}

/// Trimming trailing zeros only divides the denoted number by the power of
/// ten it removes: scaled back up, the trimmed digits read back as the
/// whole sequence did.
pub proof fn lemma_trim_value(s: Seq<char>)
    ensures
        trim_trailing_zeros(s).len() <= s.len(),
        seq_value(trim_trailing_zeros(s)) * pow10((s.len() - trim_trailing_zeros(s).len()) as nat)
            == seq_value(s),
    decreases s.len(),
{
    let t = trim_trailing_zeros(s);
    if s.len() > 0 && s.last() == '0' {
        lemma_trim_value(s.drop_last());
        assert(t == trim_trailing_zeros(s.drop_last()));
        let k = (s.drop_last().len() - t.len()) as nat;
        assert(s =~= s.drop_last().push('0'));
        lemma_seq_value_push(s.drop_last(), '0');
        assert(digit_val('0') == 0);
        assert(seq_value(s) == seq_value(s.drop_last()) * 10);
        assert((s.len() - t.len()) as nat == k + 1);
        assert(pow10((k + 1) as nat) == 10 * pow10(k));
        assert(seq_value(t) * (10 * pow10(k)) == (seq_value(t) * pow10(k)) * 10)
            by (nonlinear_arith);
        assert(seq_value(t) * pow10((s.len() - t.len()) as nat) == seq_value(t) * (10 * pow10(k)));
        assert((seq_value(t) * pow10(k)) * 10 == seq_value(s.drop_last()) * 10);
        assert(seq_value(t) * pow10((s.len() - t.len()) as nat) == seq_value(s));
    } else {
        assert(t == s);
        assert((s.len() - t.len()) as nat == 0);
        assert(pow10(0) == 1);
        assert(seq_value(t) * 1 == seq_value(t));
    }
}

/// A trimmed rendering never ends in a zero digit.
pub proof fn lemma_trim_no_trailing_zero(s: Seq<char>)
    ensures
        trim_trailing_zeros(s).len() > 0 ==> trim_trailing_zeros(s).last() != '0',
    decreases s.len(),
{
    if s.len() > 0 && s.last() == '0' {
        lemma_trim_no_trailing_zero(s.drop_last());
    }
}

/// The one-character string for a decimal digit value.
fn digit_str(d: u64) -> (s: &'static str)
    requires
        d < 10,
    ensures
        s@ == seq![digit_char(d as nat)],
{
    let s: &'static str = if d == 0 {
        "0"
    } else if d == 1 {
        "1"
    } else if d == 2 {
        "2"
    } else if d == 3 {
        "3"
    } else if d == 4 {
        "4"
    } else if d == 5 {
        "5"
    } else if d == 6 {
        "6"
    } else if d == 7 {
        "7"
    } else if d == 8 {
        "8"
    } else {
        "9"
    };
    proof {
        reveal_strlit("0");
        reveal_strlit("1");
        reveal_strlit("2");
        reveal_strlit("3");
        reveal_strlit("4");
        reveal_strlit("5");
        reveal_strlit("6");
        reveal_strlit("7");
        reveal_strlit("8");
        reveal_strlit("9");
        assert(s@ =~= seq![digit_char(d as nat)]);
    }
    s
}

/// Appends the decimal rendering of `n` to `out`.
pub fn push_dec(n: u64, out: &mut String)
    ensures
        final(out)@ == old(out)@ + dec_chars(n as nat),
    decreases n,
{
    if n < 10 {
        out.append(digit_str(n));
        proof {
            assert(final(out)@ =~= old(out)@ + dec_chars(n as nat));
        }
    } else {
        push_dec(n / 10, out);
        out.append(digit_str(n % 10));
        proof {
            assert(dec_chars(n as nat) =~= dec_chars((n / 10) as nat) + seq![
                digit_char((n % 10) as nat),
            ]);
            assert(final(out)@ =~= old(out)@ + dec_chars(n as nat));
        }
    }
}

/// Appends the zero-padded `width`-digit rendering of `n` to `out`.
pub fn push_padded(n: u64, width: u64, out: &mut String)
    ensures
        final(out)@ == old(out)@ + padded_chars(n as nat, width as nat),
    decreases width,
{
    if width == 0 {
        proof {
            assert(final(out)@ =~= old(out)@ + padded_chars(n as nat, 0));
        }
    } else {
        push_padded(n / 10, width - 1, out);
        out.append(digit_str(n % 10));
        proof {
            assert(padded_chars(n as nat, width as nat) =~= padded_chars(
                (n / 10) as nat,
                (width - 1) as nat,
            ) + seq![digit_char((n % 10) as nat)]);
            assert(final(out)@ =~= old(out)@ + padded_chars(n as nat, width as nat));
        }
    }
}

/// A fully zero rendering trims away to nothing.
pub proof fn lemma_trim_padded_zero(width: nat)
    ensures
        trim_trailing_zeros(padded_chars(0, width)) == Seq::<char>::empty(),
    decreases width,
{
    if width == 0 {
    } else {
        lemma_trim_padded_zero((width - 1) as nat);
        assert(padded_chars(0, width) == padded_chars(0, (width - 1) as nat).push('0'));
        assert(padded_chars(0, width).drop_last() =~= padded_chars(0, (width - 1) as nat));
    }
}

/// Dropping one trailing zero digit of the number drops one trailing `'0'`
/// of the rendering.
pub proof fn lemma_trim_padded_step(n: nat, width: nat)
    requires
        width >= 1,
        n % 10 == 0,
    ensures
        trim_trailing_zeros(padded_chars(n, width)) == trim_trailing_zeros(
            padded_chars(n / 10, (width - 1) as nat),
        ),
{
    assert(padded_chars(n, width) == padded_chars(n / 10, (width - 1) as nat).push('0'));
    assert(padded_chars(n, width).drop_last() =~= padded_chars(n / 10, (width - 1) as nat));
}

/// A rendering whose last digit is not zero is left untouched by trimming.
pub proof fn lemma_trim_padded_done(n: nat, width: nat)
    requires
        width >= 1,
        n % 10 != 0,
    ensures
        trim_trailing_zeros(padded_chars(n, width)) == padded_chars(n, width),
        trim_trailing_zeros(padded_chars(n, width)).len() == width,
    decreases width,
{
    assert(padded_chars(n, width).last() == digit_char(n % 10));
    assert(digit_char(n % 10) != '0');
    lemma_padded_len(n, width);
}

/// The padded rendering has exactly `width` characters.
pub proof fn lemma_padded_len(n: nat, width: nat)
    ensures
        padded_chars(n, width).len() == width,
    decreases width,
{
    if width == 0 {
    } else {
        lemma_padded_len(n / 10, (width - 1) as nat);
    }
}

} // verus!
