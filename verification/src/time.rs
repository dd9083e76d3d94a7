//! Calendar timestamps for certificate validity, and their DER
//! GeneralizedTime encoding. The serialized form carries whole seconds
//! only: it never holds a fractional-second component.

use vstd::prelude::*;
use crate::der;

verus! {

/// A timestamp in UTC, held as plain calendar fields. The nanosecond
/// field may exceed one second; values of a full second or more mark an
/// inserted leap second, the convention of common calendar libraries.
#[derive(Clone, Copy, PartialEq, Eq, Structural, Debug)]
pub struct UtcDateTime {
    year: u16,
    month: u8,
    day: u8,
    hour: u8,
    minute: u8,
    second: u8,
    nanosecond: u32,
}

impl UtcDateTime {
    #[verifier::type_invariant]
    spec fn inv(&self) -> bool {
        &&& self.year <= 9999
        &&& 1 <= self.month <= 12
        &&& 1 <= self.day <= 31
        &&& self.hour <= 23
        &&& self.minute <= 59
        &&& self.second <= 59
    }

    /// The calendar year, between 0 and 9999.
    pub closed spec fn spec_year(&self) -> u16 {
        self.year
    }

    /// The calendar month, between 1 and 12.
    pub closed spec fn spec_month(&self) -> u8 {
        self.month
    }

    /// The day of the month, between 1 and 31.
    pub closed spec fn spec_day(&self) -> u8 {
        self.day
    }

    /// The hour, between 0 and 23.
    pub closed spec fn spec_hour(&self) -> u8 {
        self.hour
    }

    /// The minute, between 0 and 59.
    pub closed spec fn spec_minute(&self) -> u8 {
        self.minute
    }

    /// The second, between 0 and 59.
    pub closed spec fn spec_second(&self) -> u8 {
        self.second
    }

    /// The nanoseconds within the second, possibly past one second for
    /// a leap-second marker.
    pub closed spec fn spec_nanosecond(&self) -> u32 {
        self.nanosecond
    }

    /// Builds a timestamp from all calendar fields.
    pub fn new(
        year: u16,
        month: u8,
        day: u8,
        hour: u8,
        minute: u8,
        second: u8,
        nanosecond: u32,
    ) -> (r: Self)
        requires
            year <= 9999,
            1 <= month <= 12,
            1 <= day <= 31,
            hour <= 23,
            minute <= 59,
            second <= 59,
        ensures
            r.spec_year() == year,
            r.spec_month() == month,
            r.spec_day() == day,
            r.spec_hour() == hour,
            r.spec_minute() == minute,
            r.spec_second() == second,
            r.spec_nanosecond() == nanosecond,
    {
        UtcDateTime { year, month, day, hour, minute, second, nanosecond }
    }

    /// The calendar year.
    pub fn year(&self) -> (r: u16)
        ensures
            r == self.spec_year(),
    {
        self.year
    }

    /// The calendar month.
    pub fn month(&self) -> (r: u8)
        ensures
            r == self.spec_month(),
    {
        self.month
    }

    /// The day of the month.
    pub fn day(&self) -> (r: u8)
        ensures
            r == self.spec_day(),
    {
        self.day
    }

    /// The hour.
    pub fn hour(&self) -> (r: u8)
        ensures
            r == self.spec_hour(),
    {
        self.hour
    }

    /// The minute.
    pub fn minute(&self) -> (r: u8)
        ensures
            r == self.spec_minute(),
    {
        self.minute
    }

    /// The second.
    pub fn second(&self) -> (r: u8)
        ensures
            r == self.spec_second(),
    {
        self.second
    }

    /// The nanoseconds within the second.
    pub fn nanosecond(&self) -> (r: u32)
        ensures
            r == self.spec_nanosecond(),
    {
        self.nanosecond
    }

    /// The same timestamp with the sub-second part collapsed: zero, or
    /// exactly one millisecond when the source value is at or above one
    /// millisecond, which preserves a leap-second marker.
    pub fn normalized(&self) -> (r: Self)
        ensures
            r.spec_year() == self.spec_year(),
            r.spec_month() == self.spec_month(),
            r.spec_day() == self.spec_day(),
            r.spec_hour() == self.spec_hour(),
            r.spec_minute() == self.spec_minute(),
            r.spec_second() == self.spec_second(),
            r.spec_nanosecond() == if self.spec_nanosecond() >= 1000000 {
                1000000u32
            } else {
                0u32
            },
            spec_gt_content(r) == spec_gt_content(*self),
    {
        proof {
            use_type_invariant(self);
        }
        let nanos: u32 = if self.nanosecond >= 1000000 {
            1000000
        } else {
            0
        };
        UtcDateTime { nanosecond: nanos, ..*self }
    }
}

/// Helper to obtain a timestamp from year, month, day values, taken to
/// be in UTC, with the time of day set to midnight.
pub fn date_time_ymd(year: i32, month: u32, day: u32) -> (r: UtcDateTime)
    requires
        0 <= year <= 9999,
        1 <= month <= 12,
        1 <= day <= 31,
    ensures
        r.spec_year() == year,
        r.spec_month() == month,
        r.spec_day() == day,
        r.spec_hour() == 0,
        r.spec_minute() == 0,
        r.spec_second() == 0,
        r.spec_nanosecond() == 0,
{
    UtcDateTime::new(year as u16, month as u8, day as u8, 0, 0, 0, 0)
}

/// Two ASCII decimal digits for `n` modulo 100.
pub open spec fn spec_two_digits(n: nat) -> Seq<u8> {
    seq![(0x30 + (n / 10) % 10) as u8, (0x30 + n % 10) as u8]
}

/// The GeneralizedTime content octets: `YYYYMMDDHHMMSSZ`, whole
/// seconds only.
pub open spec fn spec_gt_content(t: UtcDateTime) -> Seq<u8> {
    spec_two_digits((t.spec_year() / 100) as nat) + spec_two_digits((t.spec_year() % 100) as nat)
        + spec_two_digits(t.spec_month() as nat) + spec_two_digits(t.spec_day() as nat)
        + spec_two_digits(t.spec_hour() as nat) + spec_two_digits(t.spec_minute() as nat)
        + spec_two_digits(t.spec_second() as nat) + seq![0x5Au8]
}

/// A whole GeneralizedTime value.
pub open spec fn spec_generalized_time(t: UtcDateTime) -> Seq<u8> {
    der::spec_tlv(der::TAG_GENERALIZED_TIME, spec_gt_content(t))
}

/// Appends two ASCII decimal digits.
fn push_two_digits(out: &mut Vec<u8>, n: u8)
    ensures
        final(out)@ == old(out)@ + spec_two_digits(n as nat),
{
    out.push(0x30 + (n / 10) % 10);
    out.push(0x30 + n % 10);
    assert(out@ =~= old(out)@ + spec_two_digits(n as nat));
}

/// Encodes a timestamp as a DER GeneralizedTime value.
pub fn der_generalized_time(t: &UtcDateTime) -> (r: Vec<u8>)
    ensures
        r@ == spec_generalized_time(*t),
{
    proof {
        use_type_invariant(t);
    }
    let mut content: Vec<u8> = Vec::new();
    push_two_digits(&mut content, (t.year / 100) as u8);
    push_two_digits(&mut content, (t.year % 100) as u8);
    push_two_digits(&mut content, t.month);
    push_two_digits(&mut content, t.day);
    push_two_digits(&mut content, t.hour);
    push_two_digits(&mut content, t.minute);
    push_two_digits(&mut content, t.second);
    content.push(0x5A);
    assert(content@ =~= spec_gt_content(*t));
    der::wrap(der::TAG_GENERALIZED_TIME, content)
}

/// Each byte of a two-digit group is an ASCII decimal digit.
proof fn lemma_two_digits_are_digits(n: nat)
    ensures
        spec_two_digits(n).len() == 2,
        forall|i: int| 0 <= i < 2 ==> 0x30 <= #[trigger] spec_two_digits(n)[i] <= 0x39,
{
}

/// The serialized validity timestamps carry no fractional seconds: for
/// any input timestamp, every content byte of its GeneralizedTime
/// encoding is an ASCII digit or the trailing zone marker `Z`, and the
/// full-stop byte that would start a fractional-second suffix never
/// occurs.
pub proof fn lemma_generalized_time_no_fraction(t: UtcDateTime)
    ensures
        forall|i: int|
            0 <= i < spec_gt_content(t).len() ==> #[trigger] spec_gt_content(t)[i] != 0x2E,
{
    lemma_two_digits_are_digits((t.spec_year() / 100) as nat);
    lemma_two_digits_are_digits((t.spec_year() % 100) as nat);
    lemma_two_digits_are_digits(t.spec_month() as nat);
    lemma_two_digits_are_digits(t.spec_day() as nat);
    lemma_two_digits_are_digits(t.spec_hour() as nat);
    lemma_two_digits_are_digits(t.spec_minute() as nat);
    lemma_two_digits_are_digits(t.spec_second() as nat);
    assert forall|i: int| 0 <= i < spec_gt_content(t).len() implies #[trigger] spec_gt_content(
        t,
    )[i] != 0x2E by {
        assert(spec_gt_content(t).len() == 15);
    }
}

} // verus!
