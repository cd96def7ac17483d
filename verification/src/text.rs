//! Decimal text rendering: digit sequences, sign handling, and padding.

use vstd::prelude::*;

verus! {

/// The character for a single decimal digit value.
pub open spec fn digit_char(d: nat) -> char {
    if d == 0 {
        '0'
    } else if d == 1 {
        '1'
    } else if d == 2 {
        '2'
    } else if d == 3 {
        '3'
    } else if d == 4 {
        '4'
    } else if d == 5 {
        '5'
    } else if d == 6 {
        '6'
    } else if d == 7 {
        '7'
    } else if d == 8 {
        '8'
    } else {
        '9'
    }
}

/// The decimal representation of a natural number, most significant digit first.
pub open spec fn dec_rep(n: nat) -> Seq<char>
    decreases n,
{
    if n < 10 {
        seq![digit_char(n)]
    } else {
        dec_rep(n / 10) + seq![digit_char(n % 10)]
    }
}

/// The decimal representation of an integer, with a leading minus sign when negative.
pub open spec fn dec_int(v: int) -> Seq<char> {
    if v < 0 {
        seq!['-'] + dec_rep((-v) as nat)
    } else {
        dec_rep(v as nat)
    }
}

/// A run of zero characters.
pub open spec fn zero_run(n: nat) -> Seq<char> {
    Seq::new(n, |i: int| '0')
}

/// `s` left-padded with zeros to at least `w` characters.
pub open spec fn pad_left(s: Seq<char>, w: nat) -> Seq<char> {
    if s.len() < w {
        zero_run((w - s.len()) as nat) + s
    } else {
        s
    }
}

/// `s` right-filled with zeros to at least `w` characters.
pub open spec fn fill_right(s: Seq<char>, w: nat) -> Seq<char> {
    if s.len() < w {
        s + zero_run((w - s.len()) as nat)
    } else {
        s
    }
}

/// Whether a character is a decimal digit.
pub open spec fn is_dec_digit(c: char) -> bool {
    '0' <= c && c <= '9'
}

/// Every decimal representation is a nonempty run of digit characters.
pub proof fn lemma_dec_rep_digits(n: nat)
    ensures
        dec_rep(n).len() >= 1,
        forall|i: int| 0 <= i < dec_rep(n).len() ==> is_dec_digit(#[trigger] dec_rep(n)[i]),
    decreases n,
{
    if n >= 10 {
        lemma_dec_rep_digits(n / 10);
    }
}

/// Ten to the `k`.
pub open spec fn pow10(k: nat) -> nat
    decreases k,
{
    if k == 0 {
        1
    } else {
        10 * pow10((k - 1) as nat)
    }
}

/// The powers of ten the renderers' width arguments use.
pub proof fn lemma_pow10_vals()
    ensures
        pow10(2) == 100,
        pow10(4) == 10000,
        pow10(9) == 1_000_000_000,
{
    reveal_with_fuel(pow10, 10);
}

/// A number below ten to the `k` has at most `k` decimal digits.
pub proof fn lemma_dec_rep_len(n: nat, k: nat)
    requires
        1 <= k,
        n < pow10(k),
    ensures
        dec_rep(n).len() <= k,
    decreases k,
{
    if n >= 10 {
        assert(pow10(k) == 10 * pow10((k - 1) as nat));
        if k == 1 {
            assert(pow10(0) == 1);
            assert(false);
        }
        assert(n / 10 < pow10((k - 1) as nat));
        lemma_dec_rep_len(n / 10, (k - 1) as nat);
    }
}

/// Left zero-padding of a decimal rendering gives exactly the target width
/// (when the value fits it), all characters digits.
pub proof fn lemma_pad_left_shape(n: nat, w: nat)
    requires
        1 <= w,
        n < pow10(w),
    ensures
        pad_left(dec_rep(n), w).len() == w,
        forall|i: int| 0 <= i < w ==> is_dec_digit(#[trigger] pad_left(dec_rep(n), w)[i]),
{
    lemma_dec_rep_len(n, w);
    lemma_dec_rep_digits(n);
}

/// Right zero-filling of a decimal rendering gives exactly the target width
/// (when the value fits it), all characters digits.
pub proof fn lemma_fill_right_shape(n: nat, w: nat)
    requires
        1 <= w,
        n < pow10(w),
    ensures
        fill_right(dec_rep(n), w).len() == w,
        forall|i: int| 0 <= i < w ==> is_dec_digit(#[trigger] fill_right(dec_rep(n), w)[i]),
{
    lemma_dec_rep_len(n, w);
    lemma_dec_rep_digits(n);
}

/// The string slice holding one decimal digit character.
fn digit_str(d: u8) -> (r: &'static str)
    requires
        d < 10,
    ensures
        r@ =~= seq![digit_char(d as nat)],
{
    proof {
        reveal_strlit("0");
        reveal_strlit("1");
        reveal_strlit("2");
        reveal_strlit("3");
        reveal_strlit("4");
        reveal_strlit("5");
        reveal_strlit("6");
        reveal_strlit("7");
        reveal_strlit("8");
        reveal_strlit("9");
    }
    match d {
        0 => "0",
        1 => "1",
        2 => "2",
        3 => "3",
        4 => "4",
        5 => "5",
        6 => "6",
        7 => "7",
        8 => "8",
        _ => "9",
    }
}

/// Appends the decimal representation of `n` to `out`.
pub fn append_dec(out: &mut String, n: u64)
    ensures
        final(out)@ == old(out)@ + dec_rep(n as nat),
    decreases n,
{
    if n >= 10 {
        append_dec(out, n / 10);
        out.append(digit_str((n % 10) as u8));
        proof {
            assert(out@ =~= old(out)@ + dec_rep(n as nat));
        }
    } else {
        out.append(digit_str(n as u8));
        proof {
            assert(out@ =~= old(out)@ + dec_rep(n as nat));
        }
    }
}

/// The decimal representation of `n` as a fresh string.
pub fn dec_string(n: u64) -> (r: String)
    ensures
        r@ == dec_rep(n as nat),
{
    let mut out: String = String::new();
    append_dec(&mut out, n);
    proof {
        assert(out@ =~= dec_rep(n as nat));
    }
    out
}

/// Appends the decimal representation of a signed value whose magnitude fits a `u64`.
pub fn append_dec_signed(out: &mut String, v: i128)
    requires
        -(u64::MAX as i128) <= v <= u64::MAX as i128,
    ensures
        final(out)@ == old(out)@ + dec_int(v as int),
{
    if v < 0 {
        proof {
            reveal_strlit("-");
        }
        out.append("-");
        let neg: i128 = -(v + 1);
        let mag: u64 = (neg as u64) + 1;
        assert(mag as int == -(v as int));
        append_dec(out, mag);
        proof {
            assert(out@ =~= old(out)@ + dec_int(v as int));
        }
    } else {
        append_dec(out, v as u64);
    }
}

/// Appends `n` in decimal, left-padded with zeros to at least `width` characters.
pub fn append_padded(out: &mut String, n: u64, width: usize)
    requires
        width <= 32,
    ensures
        final(out)@ == old(out)@ + pad_left(dec_rep(n as nat), width as nat),
{
    let digits: String = dec_string(n);
    let len: usize = digits.as_str().unicode_len();
    proof {
        lemma_dec_rep_digits(n as nat);
        assert(out@ =~= old(out)@ + zero_run(0));
    }
    let mut i: usize = len;
    while i < width
        invariant
            len <= i,
            i <= width || i == len,
            width <= 32,
            len == dec_rep(n as nat).len(),
            out@ == old(out)@ + zero_run((i - len) as nat),
        decreases width - i,
    {
        proof {
            reveal_strlit("0");
        }
        out.append("0");
        i = i + 1;
        proof {
            assert(out@ =~= old(out)@ + zero_run((i - len) as nat));
        }
    }
    out.append(digits.as_str());
    proof {
        assert(out@ =~= old(out)@ + pad_left(dec_rep(n as nat), width as nat));
    }
}

/// Appends `n` in decimal, right-filled with zeros to at least `width` characters.
pub fn append_filled(out: &mut String, n: u64, width: usize)
    requires
        width <= 32,
    ensures
        final(out)@ == old(out)@ + fill_right(dec_rep(n as nat), width as nat),
{
    let digits: String = dec_string(n);
    let len: usize = digits.as_str().unicode_len();
    proof {
        lemma_dec_rep_digits(n as nat);
    }
    out.append(digits.as_str());
    proof {
        assert(out@ =~= old(out)@ + dec_rep(n as nat) + zero_run(0));
    }
    let mut i: usize = len;
    while i < width
        invariant
            len <= i,
            i <= width || i == len,
            width <= 32,
            len == dec_rep(n as nat).len(),
            out@ == old(out)@ + dec_rep(n as nat) + zero_run((i - len) as nat),
        decreases width - i,
    {
        proof {
            reveal_strlit("0");
        }
        out.append("0");
        i = i + 1;
        proof {
            assert(out@ =~= old(out)@ + dec_rep(n as nat) + zero_run((i - len) as nat));
        }
    }
    proof {
        assert(out@ =~= old(out)@ + fill_right(dec_rep(n as nat), width as nat));
    }
}

} // verus!
