//! Per-record time prefixes: none, an uptime stamp, or local date and time.

use vstd::prelude::*;

use crate::boot::{boot_time_of, parse_boot_time};
use crate::text::{
    append_dec_signed, append_filled, append_padded, dec_int, dec_rep, fill_right, is_dec_digit,
    lemma_dec_rep_digits, lemma_fill_right_shape, lemma_pad_left_shape, lemma_pow10_vals, pad_left,
};

verus! {

/// How the time prefix of a log line is rendered.
#[derive(Debug, PartialEq, Eq, Structural, PartialOrd, Clone, Copy)]
pub enum LogTimeFormat {
    /// Seconds and nanoseconds elapsed since the recorded system start.
    TimeStamp,
    /// Local date and time, `YYYY-MM-DD HH:MM:SS`.
    TimeLocal,
    /// No time prefix at all.
    TimeNone,
}

/// The uptime prefix: elapsed whole seconds, a dot, then the nanosecond
/// remainder in a nine-character zero-filled field (digits first, zeros
/// after, as a left-justified pad).
pub open spec fn uptime_text(elapsed: int, nanos: nat) -> Seq<char> {
    dec_int(elapsed) + seq!['.'] + fill_right(dec_rep(nanos), 9)
}

/// A calendar year, zero-padded to four digits, with a sign when negative.
pub open spec fn year_text(y: int) -> Seq<char> {
    if y >= 0 {
        pad_left(dec_rep(y as nat), 4)
    } else {
        seq!['-'] + pad_left(dec_rep((-y) as nat), 4)
    }
}

/// The local-time prefix: `YYYY-MM-DD HH:MM:SS`, each field zero-padded.
pub open spec fn local_text(y: int, mo: nat, d: nat, h: nat, mi: nat, s: nat) -> Seq<char> {
    year_text(y) + seq!['-'] + pad_left(dec_rep(mo), 2) + seq!['-'] + pad_left(dec_rep(d), 2)
        + seq![' '] + pad_left(dec_rep(h), 2) + seq![':'] + pad_left(dec_rep(mi), 2) + seq![':']
        + pad_left(dec_rep(s), 2)
}

/// An uptime prefix for a nonnegative elapsed time is a nonempty run of
/// digits, one dot, then exactly nine digits.
pub proof fn lemma_uptime_shape(elapsed: int, nanos: nat)
    requires
        elapsed >= 0,
        nanos < 1_000_000_000,
    ensures
        ({
            let t = uptime_text(elapsed, nanos);
            let k = dec_rep(elapsed as nat).len() as int;
            &&& t.len() == k + 10
            &&& k >= 1
            &&& forall|i: int| 0 <= i < k ==> is_dec_digit(#[trigger] t[i])
            &&& t[k] == '.'
            &&& forall|i: int| k < i < k + 10 ==> is_dec_digit(#[trigger] t[i])
        }),
{
    lemma_pow10_vals();
    lemma_dec_rep_digits(elapsed as nat);
    lemma_fill_right_shape(nanos, 9);
}

/// A local-time prefix for an in-range date and clock reads
/// `YYYY-MM-DD HH:MM:SS`: nineteen characters, digits everywhere but the
/// two dashes, the space, and the two colons.
pub proof fn lemma_local_shape(y: int, mo: nat, d: nat, h: nat, mi: nat, s: nat)
    requires
        0 <= y <= 9999,
        1 <= mo <= 12,
        1 <= d <= 31,
        h <= 23,
        mi <= 59,
        s <= 59,
    ensures
        ({
            let t = local_text(y, mo, d, h, mi, s);
            &&& t.len() == 19
            &&& t[4] == '-'
            &&& t[7] == '-'
            &&& t[10] == ' '
            &&& t[13] == ':'
            &&& t[16] == ':'
            &&& forall|i: int|
                0 <= i < 19 && i != 4 && i != 7 && i != 10 && i != 13 && i != 16 ==> is_dec_digit(
                    #[trigger] t[i],
                )
        }),
{
    lemma_pow10_vals();
    lemma_pad_left_shape(y as nat, 4);
    lemma_pad_left_shape(mo, 2);
    lemma_pad_left_shape(d, 2);
    lemma_pad_left_shape(h, 2);
    lemma_pad_left_shape(mi, 2);
    lemma_pad_left_shape(s, 2);
    assert(year_text(y) == pad_left(dec_rep(y as nat), 4));
}

/// Renders the uptime prefix for a wall-clock reading `now` against the
/// recorded reference second.
pub fn uptime_prefix(now: i64, reference: i64, subsec_nanos: u32) -> (r: String)
    requires
        subsec_nanos < 1_000_000_000,
    ensures
        r@ == uptime_text(now - reference, subsec_nanos as nat),
{
    let mut out: String = String::new();
    let elapsed: i128 = (now as i128) - (reference as i128);
    append_dec_signed(&mut out, elapsed);
    proof {
        reveal_strlit(".");
        assert("."@.len() == 1);
        assert("."@ =~= seq!['.']);
    }
    out.append(".");
    append_filled(&mut out, subsec_nanos as u64, 9);
    proof {
        assert(out@ =~= uptime_text(now - reference, subsec_nanos as nat));
    }
    out
}

/// Renders the local-time prefix from calendar and clock fields.
pub fn local_prefix(year: i32, month: u32, day: u32, hour: u32, minute: u32, second: u32) -> (r:
    String)
    ensures
        r@ == local_text(
            year as int,
            month as nat,
            day as nat,
            hour as nat,
            minute as nat,
            second as nat,
        ),
{
    proof {
        reveal_strlit("-");
        reveal_strlit(" ");
        reveal_strlit(":");
        assert("-"@.len() == 1);
        assert(" "@.len() == 1);
        assert(":"@.len() == 1);
        assert("-"@ =~= seq!['-']);
        assert(" "@ =~= seq![' ']);
        assert(":"@ =~= seq![':']);
    }
    let mut out: String = String::new();
    if year >= 0 {
        append_padded(&mut out, year as u64, 4);
    } else {
        out.append("-");
        let mag: i64 = -(year as i64);
        append_padded(&mut out, mag as u64, 4);
    }
    out.append("-");
    append_padded(&mut out, month as u64, 2);
    out.append("-");
    append_padded(&mut out, day as u64, 2);
    out.append(" ");
    append_padded(&mut out, hour as u64, 2);
    out.append(":");
    append_padded(&mut out, minute as u64, 2);
    out.append(":");
    append_padded(&mut out, second as u64, 2);
    proof {
        assert(out@ =~= local_text(
            year as int,
            month as nat,
            day as nat,
            hour as nat,
            minute as nat,
            second as nat,
        ));
    }
    out
}

/// One wall-clock reading, held opaquely. Verus refuses a declaration of the
/// underlying date-time type (its time-zone trait bound is outside its
/// reach), so the reading is carried in a hidden field and read through the
/// accessors below.
#[verifier::external_body]
struct ClockReading {
    inner: chrono::DateTime<chrono::Local>,
}

/// Relies on chrono::Local::now: the current date and time in the local zone.
#[verifier::external_body]
fn local_now() -> ClockReading {
    ClockReading { inner: chrono::Local::now() }
}

/// Relies on chrono::DateTime::timestamp: non-leap seconds since the Unix epoch.
#[verifier::external_body]
fn timestamp_of(t: &ClockReading) -> i64 {
    t.inner.timestamp()
}

/// Relies on chrono::DateTime::timestamp_subsec_nanos: nanoseconds since the
/// last second boundary; values of two billion and above never occur (the
/// range past one billion marks a leap second).
#[verifier::external_body]
fn subsec_nanos_of(t: &ClockReading) -> (r: u32)
    ensures
        r < 2_000_000_000,
{
    t.inner.timestamp_subsec_nanos()
}

/// Relies on chrono::Datelike::year: the calendar year number.
#[verifier::external_body]
fn year_of(t: &ClockReading) -> i32 {
    chrono::Datelike::year(&t.inner)
}

/// Relies on chrono::Datelike::month: the month number, 1 to 12.
#[verifier::external_body]
fn month_of(t: &ClockReading) -> (r: u32)
    ensures
        1 <= r <= 12,
{
    chrono::Datelike::month(&t.inner)
}

/// Relies on chrono::Datelike::day: the day of the month, 1 to 31.
#[verifier::external_body]
fn day_of(t: &ClockReading) -> (r: u32)
    ensures
        1 <= r <= 31,
{
    chrono::Datelike::day(&t.inner)
}

/// Relies on chrono::Timelike::hour: the hour number, 0 to 23.
#[verifier::external_body]
fn hour_of(t: &ClockReading) -> (r: u32)
    ensures
        r <= 23,
{
    chrono::Timelike::hour(&t.inner)
}

/// Relies on chrono::Timelike::minute: the minute number, 0 to 59.
#[verifier::external_body]
fn minute_of(t: &ClockReading) -> (r: u32)
    ensures
        r <= 59,
{
    chrono::Timelike::minute(&t.inner)
}

/// Relies on chrono::Timelike::second: the second number, 0 to 59.
#[verifier::external_body]
fn second_of(t: &ClockReading) -> (r: u32)
    ensures
        r <= 59,
{
    chrono::Timelike::second(&t.inner)
}

/// Renders per-record time prefixes against a fixed reference second.
pub struct JloggerTimer {
    /// The configured prefix format; fixed for the process lifetime.
    pub time_format: LogTimeFormat,
    /// The reference second for uptime stamps: the host boot time when the
    /// status text yields one, else the wall-clock second at construction.
    pub system_start: i64,
}

impl JloggerTimer {
    /// Builds a timer from the host status text, if one could be read.
    /// A readable `btime` record sets the reference; otherwise the current
    /// wall-clock second stands in, so uptime stamps degrade to seconds
    /// since construction.
    pub fn new(time_format: LogTimeFormat, status: Option<&[u8]>) -> (r: JloggerTimer)
        ensures
            r.time_format == time_format,
            match status {
                Some(d) => boot_time_of(d@) matches Some(b) ==> r.system_start == b,
                None => true,
            },
    {
        let parsed: Option<i64> = match status {
            Some(d) => parse_boot_time(d),
            None => None,
        };
        let system_start: i64 = match parsed {
            Some(b) => b,
            None => {
                let now = local_now();
                timestamp_of(&now)
            },
        };
        JloggerTimer { time_format, system_start }
    }

    /// Renders the time prefix for one record: empty for `TimeNone`, an
    /// uptime stamp against the reference second for `TimeStamp`, and a
    /// calendar rendering with in-range clock fields for `TimeLocal`.
    pub fn format_time(&self) -> (r: String)
        ensures
            self.time_format == LogTimeFormat::TimeNone ==> r@ == Seq::<char>::empty(),
            self.time_format == LogTimeFormat::TimeStamp ==> exists|elapsed: int, nanos: nat|
                nanos < 1_000_000_000 && r@ == #[trigger] uptime_text(elapsed, nanos),
            self.time_format == LogTimeFormat::TimeLocal ==> exists|
                y: int,
                mo: nat,
                d: nat,
                h: nat,
                mi: nat,
                s: nat,
            |
                1 <= mo <= 12 && 1 <= d <= 31 && h <= 23 && mi <= 59 && s <= 59 && r@
                    == local_text(y, mo, d, h, mi, s),
    {
        match self.time_format {
            LogTimeFormat::TimeNone => String::new(),
            LogTimeFormat::TimeStamp => {
                let now = local_now();
                let secs: i64 = timestamp_of(&now);
                let nanos: u32 = subsec_nanos_of(&now) % 1_000_000_000;
                let r = uptime_prefix(secs, self.system_start, nanos);
                proof {
                    assert(r@ == uptime_text(secs - self.system_start, nanos as nat));
                }
                r
            },
            LogTimeFormat::TimeLocal => {
                let now = local_now();
                let r = local_prefix(
                    year_of(&now),
                    month_of(&now),
                    day_of(&now),
                    hour_of(&now),
                    minute_of(&now),
                    second_of(&now),
                );
                r
            },
        }
    }
}

} // verus!
