//! Parsing the host boot-time record: a line-oriented status text whose
//! `btime` line carries the boot timestamp in seconds as its second field.

use vstd::prelude::*;

verus! {

/// The magnitude of the most negative 64-bit value; the first field value
/// whose magnitude reaches past it no longer parses.
pub const I64_MAG_LIMIT: u64 = 9223372036854775808;

/// ASCII whitespace, as a field separator.
pub open spec fn is_ws(b: u8) -> bool {
    b == 32 || b == 9 || b == 10 || b == 13 || b == 11 || b == 12
}

/// An ASCII decimal digit.
pub open spec fn is_digit(b: u8) -> bool {
    48 <= b && b <= 57
}

/// The first position at or after `i` holding a newline, or the length.
pub open spec fn line_end(s: Seq<u8>, i: int) -> int
    decreases s.len() - i,
{
    if i < s.len() && s[i] != 10 {
        line_end(s, i + 1)
    } else {
        i
    }
}

/// The first position at or after `i` holding a non-whitespace byte, or the length.
pub open spec fn skip_ws(s: Seq<u8>, i: int) -> int
    decreases s.len() - i,
{
    if i < s.len() && is_ws(s[i]) {
        skip_ws(s, i + 1)
    } else {
        i
    }
}

/// The first position at or after `i` holding a whitespace byte, or the length.
pub open spec fn skip_field(s: Seq<u8>, i: int) -> int
    decreases s.len() - i,
{
    if i < s.len() && !is_ws(s[i]) {
        skip_field(s, i + 1)
    } else {
        i
    }
}

pub proof fn lemma_line_end_bounds(s: Seq<u8>, i: int)
    requires
        0 <= i <= s.len(),
    ensures
        i <= line_end(s, i) <= s.len(),
    decreases s.len() - i,
{
    if i < s.len() && s[i] != 10 {
        lemma_line_end_bounds(s, i + 1);
    }
}

/// A scan that saw no newline before `k`, and a newline or the end at `k`,
/// found `line_end`.
proof fn lemma_line_end_at(s: Seq<u8>, i: int, k: int)
    requires
        0 <= i <= k <= s.len(),
        forall|j: int| i <= j < k ==> s[j] != 10,
        k == s.len() || s[k] == 10,
    ensures
        line_end(s, i) == k,
    decreases k - i,
{
    if i < k {
        lemma_line_end_at(s, i + 1, k);
    }
}

/// The second whitespace-separated field of a line (empty if there is none).
pub open spec fn second_field(line: Seq<u8>) -> Seq<u8> {
    let b = skip_field(line, skip_ws(line, 0));
    let c = skip_ws(line, b);
    let d = skip_field(line, c);
    line.subrange(c, d)
}

/// Whether every byte of `f` is a decimal digit.
pub open spec fn all_digits(f: Seq<u8>) -> bool {
    forall|i: int| 0 <= i < f.len() ==> is_digit(#[trigger] f[i])
}

/// The numeric value of a digit string, most significant digit first.
pub open spec fn digits_val(f: Seq<u8>) -> int
    decreases f.len(),
{
    if f.len() == 0 {
        0
    } else {
        digits_val(f.drop_last()) * 10 + (f.last() - 48)
    }
}

/// A digit string's value is never negative.
pub proof fn lemma_digits_val_nonneg(f: Seq<u8>)
    requires
        all_digits(f),
    ensures
        digits_val(f) >= 0,
    decreases f.len(),
{
    if f.len() > 0 {
        assert(all_digits(f.drop_last()));
        lemma_digits_val_nonneg(f.drop_last());
    }
}

/// The value a nonempty all-digit string denotes with the given sign, when it
/// fits a 64-bit signed integer.
pub open spec fn signed_value(digits: Seq<u8>, negative: bool) -> Option<i64> {
    if digits.len() > 0 && all_digits(digits) {
        let v = if negative {
            -digits_val(digits)
        } else {
            digits_val(digits)
        };
        if i64::MIN <= v <= i64::MAX {
            Some(v as i64)
        } else {
            None
        }
    } else {
        None
    }
}

/// The 64-bit signed integer a field denotes: an optional sign, then one or
/// more digits, nothing else, the value in range.
pub open spec fn parsed_i64(f: Seq<u8>) -> Option<i64> {
    if f.len() > 0 && (f[0] == 43 || f[0] == 45) {
        signed_value(f.drop_first(), f[0] == 45)
    } else {
        signed_value(f, false)
    }
}

/// Whether a line begins with the boot-time marker.
pub open spec fn has_btime_prefix(line: Seq<u8>) -> bool {
    line.len() >= 5 && line[0] == 98 && line[1] == 116 && line[2] == 105 && line[3] == 109
        && line[4] == 101
}

/// The boot timestamp the status text carries: the second field of the first
/// line beginning with the marker, when that field is a 64-bit integer.
pub open spec fn boot_time_of(s: Seq<u8>) -> Option<i64>
    decreases s.len(),
    via boot_time_of_decreases
{
    if s.len() == 0 {
        None
    } else {
        let e = line_end(s, 0);
        if has_btime_prefix(s.subrange(0, e)) {
            parsed_i64(second_field(s.subrange(0, e)))
        } else if e >= s.len() {
            None
        } else {
            boot_time_of(s.subrange(e + 1, s.len() as int))
        }
    }
}

#[via_fn]
proof fn boot_time_of_decreases(s: Seq<u8>) {
    if s.len() > 0 {
        lemma_line_end_bounds(s, 0);
    }
}

/// Whether a byte is ASCII whitespace.
fn is_ws_byte(b: u8) -> (r: bool)
    ensures
        r == is_ws(b),
{
    b == 32 || b == 9 || b == 10 || b == 13 || b == 11 || b == 12
}

/// Scans past whitespace, returning the first non-whitespace position.
fn scan_ws(s: &[u8], from: usize) -> (r: usize)
    requires
        from <= s@.len(),
    ensures
        r == skip_ws(s@, from as int),
        from <= r <= s@.len(),
{
    let mut i: usize = from;
    while i < s.len() && is_ws_byte(s[i])
        invariant
            from <= i <= s@.len(),
            skip_ws(s@, from as int) == skip_ws(s@, i as int),
        decreases s@.len() - i,
    {
        i = i + 1;
    }
    i
}

/// Scans past one field, returning the first whitespace position at or after `from`.
fn scan_field(s: &[u8], from: usize) -> (r: usize)
    requires
        from <= s@.len(),
    ensures
        r == skip_field(s@, from as int),
        from <= r <= s@.len(),
{
    let mut i: usize = from;
    while i < s.len() && !is_ws_byte(s[i])
        invariant
            from <= i <= s@.len(),
            skip_field(s@, from as int) == skip_field(s@, i as int),
        decreases s@.len() - i,
    {
        i = i + 1;
    }
    i
}

/// Parses a nonempty all-digit string with the given sign, exactly when its
/// value fits a 64-bit signed integer.
fn parse_digits(digits: &[u8], negative: bool) -> (r: Option<i64>)
    ensures
        r == signed_value(digits@, negative),
{
    if digits.len() == 0 {
        return None;
    }
    let mut acc: u64 = 0;
    let mut too_big: bool = false;
    let mut i: usize = 0;
    while i < digits.len()
        invariant
            0 <= i <= digits@.len(),
            forall|j: int| 0 <= j < i ==> is_digit(#[trigger] digits@[j]),
            !too_big ==> acc == digits_val(digits@.subrange(0, i as int)) && acc
                <= I64_MAG_LIMIT,
            too_big ==> digits_val(digits@.subrange(0, i as int)) > I64_MAG_LIMIT,
        decreases digits@.len() - i,
    {
        let b = digits[i];
        if b < 48 || b > 57 {
            proof {
                assert(!is_digit(digits@[i as int]));
                assert(!all_digits(digits@));
            }
            return None;
        }
        let ghost prefix: Seq<u8> = digits@.subrange(0, i as int);
        let ghost extended: Seq<u8> = digits@.subrange(0, i as int + 1);
        proof {
            assert(extended.drop_last() =~= prefix);
            assert(extended.last() == digits@[i as int]);
        }
        let d: u64 = (b - 48) as u64;
        if !too_big {
            let wide: u128 = (acc as u128) * 10 + (d as u128);
            if wide > I64_MAG_LIMIT as u128 {
                too_big = true;
            } else {
                acc = wide as u64;
            }
        } else {
            proof {
                lemma_digits_val_nonneg(prefix);
                assert(digits_val(extended) == digits_val(prefix) * 10 + (digits@[i as int]
                    - 48));
            }
        }
        i = i + 1;
    }
    proof {
        assert(digits@.subrange(0, digits@.len() as int) =~= digits@);
        assert(all_digits(digits@));
        lemma_digits_val_nonneg(digits@);
    }
    if too_big {
        None
    } else if negative {
        if acc == I64_MAG_LIMIT {
            Some(i64::MIN)
        } else {
            Some(-(acc as i64))
        }
    } else {
        if acc <= 9223372036854775807 {
            Some(acc as i64)
        } else {
            None
        }
    }
}

/// Parses one whitespace-free field as a 64-bit signed integer.
fn parse_int_field(f: &[u8]) -> (r: Option<i64>)
    ensures
        r == parsed_i64(f@),
{
    if f.len() == 0 {
        return None;
    }
    if f[0] == 43 || f[0] == 45 {
        let rest: &[u8] = &f[1..f.len()];
        proof {
            assert(rest@ =~= f@.drop_first());
        }
        parse_digits(rest, f[0] == 45)
    } else {
        parse_digits(f, false)
    }
}

/// Whether a line begins with the boot-time marker.
fn has_btime(line: &[u8]) -> (r: bool)
    ensures
        r == has_btime_prefix(line@),
{
    line.len() >= 5 && line[0] == 98 && line[1] == 116 && line[2] == 105 && line[3] == 109
        && line[4] == 101
}

/// The value of the second field of a line, as a 64-bit signed integer.
fn parse_line_value(line: &[u8]) -> (r: Option<i64>)
    ensures
        r == parsed_i64(second_field(line@)),
{
    let a: usize = scan_ws(line, 0);
    let b: usize = scan_field(line, a);
    let c: usize = scan_ws(line, b);
    let d: usize = scan_field(line, c);
    let field: &[u8] = &line[c..d];
    proof {
        assert(field@ =~= second_field(line@));
    }
    parse_int_field(field)
}

/// Extracts the boot timestamp from the status text, scanning line by line
/// for the first one with the boot-time marker; `None` when no such line
/// exists or its second field is not a 64-bit integer.
pub fn parse_boot_time(data: &[u8]) -> (r: Option<i64>)
    ensures
        r == boot_time_of(data@),
{
    let n: usize = data.len();
    let mut p: usize = 0;
    proof {
        assert(data@.subrange(0, n as int) =~= data@);
    }
    loop
        invariant
            p <= n,
            n == data@.len(),
            boot_time_of(data@) == boot_time_of(data@.subrange(p as int, n as int)),
        decreases n - p,
    {
        let ghost rest: Seq<u8> = data@.subrange(p as int, n as int);
        if p == n {
            return None;
        }
        let mut e: usize = p;
        while e < n && data[e] != 10
            invariant
                p <= e <= n,
                n == data@.len(),
                forall|j: int| p <= j < e ==> data@[j] != 10,
            decreases n - e,
        {
            e = e + 1;
        }
        proof {
            assert(forall|j: int| 0 <= j < e - p ==> rest[j] != 10);
            if e < n {
                assert(rest[e - p] == 10);
            }
            lemma_line_end_at(rest, 0, e - p);
        }
        let line: &[u8] = &data[p..e];
        proof {
            assert(line@ =~= rest.subrange(0, e - p));
        }
        if has_btime(line) {
            return parse_line_value(line);
        }
        if e == n {
            return None;
        }
        proof {
            assert(rest.subrange(e - p + 1, rest.len() as int) =~= data@.subrange(
                (e + 1) as int,
                n as int,
            ));
        }
        p = e + 1;
    }
}

} // verus!
