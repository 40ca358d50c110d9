//! Times of day and the `hh:mm:ss.sss` text form in which the configuration
//! files write times of day and durations.
use vstd::prelude::*;

verus! {

/// Milliseconds in a day.
pub const DAY_MS: u64 = 86_400_000;

/// A time of day with millisecond precision.
#[derive(Debug, Clone, Copy, PartialEq, Eq, Structural)]
pub struct TimeOfDay {
    pub hour: u8,
    pub minute: u8,
    pub second: u8,
    pub millisecond: u16,
}

impl TimeOfDay {
    /// Every field is in range: hour below 24, minute and second below 60,
    /// millisecond below 1000.
    pub open spec fn wf(self) -> bool {
        &&& self.hour < 24
        &&& self.minute < 60
        &&& self.second < 60
        &&& self.millisecond < 1000
    }

    /// Milliseconds since midnight.
    pub open spec fn ms_of_day(self) -> int {
        self.hour * 3_600_000 + self.minute * 60_000 + self.second * 1000 + self.millisecond
    }

    /// Milliseconds since midnight.
    pub fn to_ms_of_day(&self) -> (r: u32)
        requires
            self.wf(),
        ensures
            r == self.ms_of_day(),
            r < DAY_MS,
    {
        self.hour as u32 * 3_600_000 + self.minute as u32 * 60_000 + self.second as u32 * 1000
            + self.millisecond as u32
    }

    /// The time of day that lies a given number of milliseconds after this one,
    /// wrapping around midnight.
    pub fn add_ms(&self, duration_ms: u64) -> (r: TimeOfDay)
        requires
            self.wf(),
        ensures
            r.wf(),
            r.ms_of_day() == (self.ms_of_day() + duration_ms) % (DAY_MS as int),
    {
        let (hour, minute, second, millisecond) = time_add_std(
            self.hour,
            self.minute,
            self.second,
            self.millisecond,
            duration_ms,
        );
        TimeOfDay { hour, minute, second, millisecond }
    }
}

/// Milliseconds since midnight of an hour, minute, second and millisecond.
pub open spec fn ms_of_hms(h: u8, m: u8, s: u8, ms: u16) -> int {
    h * 3_600_000 + m * 60_000 + s * 1000 + ms
}

/// `<time::Time as Add<std::time::Duration>>::add`: adds the sub-day part of a
/// duration to a time of day, wrapping around midnight. The time is built with
/// `time::Time::from_hms_milli` and read back with `as_hms_milli`. The contract
/// claims what the crate documents: the result is the time of day that lies the
/// duration after the given one, modulo a day, with every field in range.
#[verifier::external_body]
fn time_add_std(hour: u8, minute: u8, second: u8, millisecond: u16, duration_ms: u64) -> (r: (
    u8,
    u8,
    u8,
    u16,
))
    requires
        hour < 24,
        minute < 60,
        second < 60,
        millisecond < 1000,
    ensures
        r.0 < 24,
        r.1 < 60,
        r.2 < 60,
        r.3 < 1000,
        ms_of_hms(r.0, r.1, r.2, r.3) == (ms_of_hms(hour, minute, second, millisecond)
            + duration_ms) % 86_400_000,
{
    let start = time::Time::from_hms_milli(hour, minute, second, millisecond).unwrap();
    (start + std::time::Duration::from_millis(duration_ms)).as_hms_milli()
}

/// The ASCII digit of a number below ten.
pub open spec fn digit(d: int) -> u8 {
    (48 + d) as u8
}

/// Whether a byte is an ASCII digit.
pub open spec fn is_digit(b: u8) -> bool {
    48 <= b <= 57
}

/// The value of an ASCII digit.
pub open spec fn digit_value(b: u8) -> int {
    b - 48
}

pub open spec fn two_digits(n: int) -> Seq<u8> {
    seq![digit(n / 10), digit(n % 10)]
}

pub open spec fn three_digits(n: int) -> Seq<u8> {
    seq![digit(n / 100), digit((n / 10) % 10), digit(n % 10)]
}

/// `hh:mm:ss.sss`, every field zero-padded.
pub open spec fn format_spec(t: TimeOfDay) -> Seq<u8> {
    two_digits(t.hour as int) + seq![58u8] + two_digits(t.minute as int) + seq![58u8] + two_digits(
        t.second as int,
    ) + seq![46u8] + three_digits(t.millisecond as int)
}

/// The digit positions of `hh:mm:ss.sss`.
pub open spec fn is_digit_position(i: int) -> bool {
    i == 0 || i == 1 || i == 3 || i == 4 || i == 6 || i == 7 || i == 9 || i == 10 || i == 11
}

/// Whether bytes have the shape `dd:dd:dd.ddd`.
pub open spec fn has_time_shape(b: Seq<u8>) -> bool {
    &&& b.len() == 12
    &&& forall|i: int| 0 <= i < 12 && is_digit_position(i) ==> is_digit(#[trigger] b[i])
    &&& b[2] == 58u8
    &&& b[5] == 58u8
    &&& b[8] == 46u8
}

pub open spec fn two_value(b: Seq<u8>, i: int) -> int {
    digit_value(b[i]) * 10 + digit_value(b[i + 1])
}

/// The time of day written as `hh:mm:ss.sss`, if the bytes are exactly that, with
/// an hour below 24 and a minute and second below 60.
pub open spec fn parse_spec(b: Seq<u8>) -> Option<TimeOfDay> {
    if has_time_shape(b) {
        let h = two_value(b, 0);
        let m = two_value(b, 3);
        let s = two_value(b, 6);
        let ms = digit_value(b[9]) * 100 + digit_value(b[10]) * 10 + digit_value(b[11]);
        if h < 24 && m < 60 && s < 60 {
            Some(TimeOfDay { hour: h as u8, minute: m as u8, second: s as u8, millisecond: ms as u16 })
        } else {
            None
        }
    } else {
        None
    }
}

fn push_two_digits(out: &mut Vec<u8>, n: u8)
    requires
        n < 100,
    ensures
        final(out)@ == old(out)@ + two_digits(n as int),
{
    out.push(48 + n / 10);
    out.push(48 + n % 10);
}

/// Writes a time of day as `hh:mm:ss.sss`.
pub fn format_time_of_day(t: &TimeOfDay) -> (r: Vec<u8>)
    requires
        t.wf(),
    ensures
        r@ == format_spec(*t),
{
    let mut out: Vec<u8> = Vec::new();
    push_two_digits(&mut out, t.hour);
    out.push(58);
    push_two_digits(&mut out, t.minute);
    out.push(58);
    push_two_digits(&mut out, t.second);
    out.push(46);
    let ms = t.millisecond;
    out.push((48 + ms / 100) as u8);
    out.push((48 + (ms / 10) % 10) as u8);
    out.push((48 + ms % 10) as u8);
    assert(out@ =~= format_spec(*t));
    out
}

fn digit_at(b: &[u8], i: usize) -> (r: Option<u8>)
    requires
        i < b@.len(),
    ensures
        r matches Some(v) ==> is_digit(b@[i as int]) && v == digit_value(b@[i as int]),
        r is None ==> !is_digit(b@[i as int]),
{
    let c = b[i];
    if 48 <= c && c <= 57 {
        Some(c - 48)
    } else {
        None
    }
}

/// Reads a time of day written as `hh:mm:ss.sss`. The function is total: text
/// of any other form, or with a field out of range, gives `None`, and the caller
/// decides what a malformed time means (the configuration loader stops on it).
pub fn parse_time_of_day(b: &[u8]) -> (r: Option<TimeOfDay>)
    ensures
        r == parse_spec(b@),
        r matches Some(t) ==> t.wf(),
{
    if b.len() != 12 || b[2] != 58 || b[5] != 58 || b[8] != 46 {
        return None;
    }
    let h1 = digit_at(b, 0);
    let h0 = digit_at(b, 1);
    let m1 = digit_at(b, 3);
    let m0 = digit_at(b, 4);
    let s1 = digit_at(b, 6);
    let s0 = digit_at(b, 7);
    let ms2 = digit_at(b, 9);
    let ms1 = digit_at(b, 10);
    let ms0 = digit_at(b, 11);
    match (h1, h0, m1, m0, s1, s0, ms2, ms1, ms0) {
        (Some(h1), Some(h0), Some(m1), Some(m0), Some(s1), Some(s0), Some(ms2), Some(ms1), Some(ms0)) => {
            assert(has_time_shape(b@)) by {
                assert forall|i: int| 0 <= i < 12 && is_digit_position(i) implies is_digit(#[trigger] b@[i]) by {}
            }
            let hour = h1 * 10 + h0;
            let minute = m1 * 10 + m0;
            let second = s1 * 10 + s0;
            let millisecond = ms2 as u16 * 100 + ms1 as u16 * 10 + ms0 as u16;
            if hour < 24 && minute < 60 && second < 60 {
                Some(TimeOfDay { hour, minute, second, millisecond })
            } else {
                None
            }
        },
        _ => {
            assert(!has_time_shape(b@)) by {
                if has_time_shape(b@) {
                    assert(is_digit(b@[0]) && is_digit(b@[1]) && is_digit(b@[3]) && is_digit(b@[4]));
                    assert(is_digit(b@[6]) && is_digit(b@[7]) && is_digit(b@[9]) && is_digit(b@[10]));
                    assert(is_digit(b@[11]));
                }
            }
            None
        },
    }
}

/// A well-formed time of day written out reads back as itself.
pub proof fn lemma_parse_format(t: TimeOfDay)
    requires
        t.wf(),
    ensures
        parse_spec(format_spec(t)) == Some(t),
{
    let b = format_spec(t);
    assert(b.len() == 12);
    assert forall|i: int| 0 <= i < 12 && is_digit_position(i) implies is_digit(#[trigger] b[i]) by {}
    assert(two_value(b, 0) == t.hour);
    assert(two_value(b, 3) == t.minute);
    assert(two_value(b, 6) == t.second);
}

proof fn lemma_two_digits_back(b0: u8, b1: u8)
    requires
        is_digit(b0),
        is_digit(b1),
    ensures
        two_digits(digit_value(b0) * 10 + digit_value(b1)) == seq![b0, b1],
{
    let n = digit_value(b0) * 10 + digit_value(b1);
    assert(n / 10 == digit_value(b0));
    assert(n % 10 == digit_value(b1));
    assert(two_digits(n) =~= seq![b0, b1]);
}

proof fn lemma_three_digits_back(b0: u8, b1: u8, b2: u8)
    requires
        is_digit(b0),
        is_digit(b1),
        is_digit(b2),
    ensures
        three_digits(digit_value(b0) * 100 + digit_value(b1) * 10 + digit_value(b2)) == seq![b0, b1, b2],
{
    let n = digit_value(b0) * 100 + digit_value(b1) * 10 + digit_value(b2);
    assert(n / 100 == digit_value(b0));
    assert(n / 10 == digit_value(b0) * 10 + digit_value(b1));
    assert((n / 10) % 10 == digit_value(b1));
    assert(n % 10 == digit_value(b2));
    assert(three_digits(n) =~= seq![b0, b1, b2]);
}

/// Text that reads as a time of day is exactly that time written out: the form
/// has no other spelling.
pub proof fn lemma_format_parse(b: Seq<u8>)
    requires
        parse_spec(b) is Some,
    ensures
        format_spec(parse_spec(b)->0) == b,
{
    let t = parse_spec(b)->0;
    assert(has_time_shape(b));
    assert(is_digit(b[0]) && is_digit(b[1]) && is_digit(b[3]) && is_digit(b[4]));
    assert(is_digit(b[6]) && is_digit(b[7]) && is_digit(b[9]) && is_digit(b[10]));
    assert(is_digit(b[11]));
    lemma_two_digits_back(b[0], b[1]);
    lemma_two_digits_back(b[3], b[4]);
    lemma_two_digits_back(b[6], b[7]);
    lemma_three_digits_back(b[9], b[10], b[11]);
    assert(format_spec(t) =~= b);
}

/// A duration written as the time of day it reaches from midnight, as the
/// configuration files store durations; a duration of a day or more wraps.
pub fn format_duration_ms(duration_ms: u64) -> (r: Vec<u8>)
    ensures
        parse_spec(r@) matches Some(t) && t.ms_of_day() == (duration_ms as int) % (DAY_MS as int),
{
    let midnight = TimeOfDay { hour: 0, minute: 0, second: 0, millisecond: 0 };
    let t = midnight.add_ms(duration_ms);
    proof {
        lemma_parse_format(t);
    }
    format_time_of_day(&t)
}

/// The character of a decimal digit.
pub open spec fn digit_char(d: int) -> char {
    if d == 0 {
        '0'
    } else if d == 1 {
        '1'
    } else if d == 2 {
        '2'
    } else if d == 3 {
        '3'
    } else if d == 4 {
        '4'
    } else if d == 5 {
        '5'
    } else if d == 6 {
        '6'
    } else if d == 7 {
        '7'
    } else if d == 8 {
        '8'
    } else {
        '9'
    }
}

/// The decimal digits of a natural number, without leading zeros.
pub open spec fn decimal_spec(n: nat) -> Seq<char>
    decreases n,
{
    if n < 10 {
        seq![digit_char(n as int)]
    } else {
        decimal_spec(n / 10).push(digit_char((n % 10) as int))
    }
}

/// The decimal text of an integer, with a leading `-` when negative.
pub open spec fn signed_decimal_spec(n: int) -> Seq<char> {
    if n < 0 {
        seq!['-'] + decimal_spec((-n) as nat)
    } else {
        decimal_spec(n as nat)
    }
}

fn digit_str(d: u64) -> (r: &'static str)
    requires
        d < 10,
    ensures
        r@ == seq![digit_char(d as int)],
{
    proof {
        reveal_strlit("0");
        reveal_strlit("1");
        reveal_strlit("2");
        reveal_strlit("3");
        reveal_strlit("4");
        reveal_strlit("5");
        reveal_strlit("6");
        reveal_strlit("7");
        reveal_strlit("8");
        reveal_strlit("9");
    }
    match d {
        0 => "0",
        1 => "1",
        2 => "2",
        3 => "3",
        4 => "4",
        5 => "5",
        6 => "6",
        7 => "7",
        8 => "8",
        _ => "9",
    }
}

/// The decimal text of a natural number.
pub fn decimal_string(n: u64) -> (r: String)
    ensures
        r@ == decimal_spec(n as nat),
{
    let mut out = String::from_str(digit_str(n % 10));
    let mut m = n / 10;
    while m > 0
        invariant
            decimal_spec(n as nat) == (if m == 0 {
                out@
            } else {
                decimal_spec(m as nat) + out@
            }),
        decreases m,
    {
        let d = String::from_str(digit_str(m % 10));
        let ghost old_out = out@;
        out = d.concat(out.as_str());
        proof {
            if m >= 10 {
                assert(decimal_spec(m as nat) == decimal_spec((m / 10) as nat).push(
                    digit_char((m % 10) as int),
                ));
                assert(decimal_spec((m / 10) as nat) + out@ =~= decimal_spec((m / 10) as nat).push(
                    digit_char((m % 10) as int),
                ) + old_out);
            } else {
                assert(out@ =~= decimal_spec(m as nat) + old_out);
            }
        }
        m = m / 10;
    }
    out
}

/// The decimal text of an integer, as `i64::to_string` writes it.
pub fn signed_decimal_string(n: i64) -> (r: String)
    ensures
        r@ == signed_decimal_spec(n as int),
{
    if n < 0 {
        let magnitude: u64 = (-(n as i128)) as u64;
        let digits = decimal_string(magnitude);
        proof {
            reveal_strlit("-");
        }
        String::from_str("-").concat(digits.as_str())
    } else {
        decimal_string(n as u64)
    }
}

} // verus!
