//! Civil UTC time: conversion from Unix seconds to calendar fields and the
//! DER UTCTime encoding of a calendar moment.

use vstd::prelude::*;

use crate::der::{der_tlv, spec_tlv};
use crate::err::CertError;

verus! {

/// A moment of civil UTC time (proleptic Gregorian calendar).
#[derive(Clone, Copy, Debug, PartialEq, Eq, Structural)]
pub struct CalendarTime {
    pub year: i32,
    pub month: u32,
    pub day: u32,
    pub hour: u32,
    pub minute: u32,
    pub second: u32,
}

impl CalendarTime {
    pub open spec fn wf(&self) -> bool {
        &&& 1 <= self.month <= 12
        &&& 1 <= self.day <= 31
        &&& self.hour <= 23
        &&& self.minute <= 59
        &&& self.second <= 59
    }
}

/// Days since 1970-01-01 of a Gregorian date, by the era decomposition
/// (years counted in 400-year eras of 146097 days, the year starting in
/// March so the leap day falls last).
pub open spec fn spec_days_from_civil(y: int, m: int, d: int) -> int {
    let yy = if m <= 2 {
        y - 1
    } else {
        y
    };
    let era = yy / 400;
    let yoe = yy - era * 400;
    let mp = if m > 2 {
        m - 3
    } else {
        m + 9
    };
    let doy = (153 * mp + 2) / 5 + d - 1;
    let doe = yoe * 365 + yoe / 4 - yoe / 100 + doy;
    era * 146097 + doe - 719468
}

/// Seconds since the Unix epoch of a civil UTC moment.
pub open spec fn spec_unix_secs(c: CalendarTime) -> int {
    spec_days_from_civil(c.year as int, c.month as int, c.day as int) * 86400 + (c.hour as int)
        * 3600 + (c.minute as int) * 60 + (c.second as int)
}

/// The first second of the year 2050, the end of what UTCTime can carry.
pub const UTCTIME_END_SECS: u64 = 2524608000;

/// The calendar moment of a Unix timestamp.  The conversion is a pure
/// function of the seconds value, identical on every machine, so its
/// result can be named; `utc_calendar` below is the one place that
/// computes it.
pub uninterp spec fn calendar_of(secs: int) -> CalendarTime;

/// Relies on chrono's `Utc.timestamp_opt` and the `Datelike`/`Timelike`
/// accessors: the civil UTC calendar fields of a Unix timestamp, here
/// named `calendar_of`.  The field
/// ranges and the seconds correspondence are chrono's documented meaning of
/// a timestamp; the year window holds because 2524607999 is the last second
/// of 2049.
#[verifier::external_body]
pub fn utc_calendar(secs: u64) -> (r: Result<CalendarTime, CertError>)
    requires
        secs <= 0x7FFF_FFFF_FFFF_FFFF,
    ensures
        r is Ok ==> r->Ok_0 == calendar_of(secs as int),
        r is Ok ==> r->Ok_0.wf() && spec_unix_secs(r->Ok_0) == secs as int,
        secs < UTCTIME_END_SECS ==> r is Ok && 1970 <= r->Ok_0.year <= 2049,
        r is Err ==> r->Err_0 == CertError::TimeOutOfRange,
{
    match chrono::TimeZone::timestamp_opt(&chrono::Utc, secs as i64, 0).single() {
        Some(dt) => Ok(CalendarTime {
            year: chrono::Datelike::year(&dt),
            month: chrono::Datelike::month(&dt),
            day: chrono::Datelike::day(&dt),
            hour: chrono::Timelike::hour(&dt),
            minute: chrono::Timelike::minute(&dt),
            second: chrono::Timelike::second(&dt),
        }),
        None => Err(CertError::TimeOutOfRange),
    }
}

#[verifier::external_type_specification]
#[verifier::external_body]
pub struct ExSystemTime(std::time::SystemTime);

/// Relies on std's `SystemTime::now`: the current wall-clock time.
#[verifier::external_body]
pub fn system_time_now() -> std::time::SystemTime {
    std::time::SystemTime::now()
}

/// Relies on std's `SystemTime::duration_since`: whole seconds since the
/// Unix epoch, or an error when the clock reads before the epoch.
#[verifier::external_body]
pub fn unix_seconds_of(t: &std::time::SystemTime) -> (r: Result<u64, CertError>)
    ensures
        r is Err ==> r->Err_0 == CertError::ClockBeforeEpoch,
{
    match t.duration_since(std::time::UNIX_EPOCH) {
        Ok(d) => Ok(d.as_secs()),
        Err(_) => Err(CertError::ClockBeforeEpoch),
    }
}

/// The two ASCII digits of `n`.
pub open spec fn spec_two_digits(n: int) -> Seq<u8>
    recommends
        0 <= n <= 99,
{
    seq![(0x30 + n / 10) as u8, (0x30 + n % 10) as u8]
}

/// The 13-character UTCTime content "YYMMDDHHMMSSZ".
pub open spec fn spec_utctime_body(c: CalendarTime) -> Seq<u8> {
    spec_two_digits((c.year as int) % 100) + spec_two_digits(c.month as int) + spec_two_digits(
        c.day as int,
    ) + spec_two_digits(c.hour as int) + spec_two_digits(c.minute as int) + spec_two_digits(
        c.second as int,
    ) + seq![0x5Au8]
}

pub open spec fn spec_utctime(c: CalendarTime) -> Seq<u8> {
    spec_tlv(0x17, spec_utctime_body(c))
}

/// Two equal digit pairs come from the same value.
pub proof fn lemma_two_digits_injective(a: int, b: int)
    requires
        0 <= a <= 99,
        0 <= b <= 99,
        spec_two_digits(a) == spec_two_digits(b),
    ensures
        a == b,
{
    assert(spec_two_digits(a)[0] == spec_two_digits(b)[0]);
    assert(spec_two_digits(a)[1] == spec_two_digits(b)[1]);
    vstd::arithmetic::div_mod::lemma_fundamental_div_mod(a, 10);
    vstd::arithmetic::div_mod::lemma_fundamental_div_mod(b, 10);
}

/// The UTCTime content determines the calendar fields: within the years
/// UTCTime can carry, equal content means equal moments.
pub proof fn lemma_utctime_body_injective(c1: CalendarTime, c2: CalendarTime)
    requires
        c1.wf(),
        c2.wf(),
        1970 <= c1.year <= 2049,
        1970 <= c2.year <= 2049,
        spec_utctime_body(c1) == spec_utctime_body(c2),
    ensures
        c1 == c2,
{
    let ty1 = spec_two_digits((c1.year as int) % 100);
    let tmo1 = spec_two_digits(c1.month as int);
    let td1 = spec_two_digits(c1.day as int);
    let th1 = spec_two_digits(c1.hour as int);
    let tmi1 = spec_two_digits(c1.minute as int);
    let ts1 = spec_two_digits(c1.second as int);
    let ty2 = spec_two_digits((c2.year as int) % 100);
    let tmo2 = spec_two_digits(c2.month as int);
    let td2 = spec_two_digits(c2.day as int);
    let th2 = spec_two_digits(c2.hour as int);
    let tmi2 = spec_two_digits(c2.minute as int);
    let ts2 = spec_two_digits(c2.second as int);
    crate::parse::lemma_concat_split(
        ty1 + tmo1 + td1 + th1 + tmi1 + ts1,
        seq![0x5Au8],
        ty2 + tmo2 + td2 + th2 + tmi2 + ts2,
        seq![0x5Au8],
    );
    crate::parse::lemma_concat_split(
        ty1 + tmo1 + td1 + th1 + tmi1,
        ts1,
        ty2 + tmo2 + td2 + th2 + tmi2,
        ts2,
    );
    crate::parse::lemma_concat_split(ty1 + tmo1 + td1 + th1, tmi1, ty2 + tmo2 + td2 + th2, tmi2);
    crate::parse::lemma_concat_split(ty1 + tmo1 + td1, th1, ty2 + tmo2 + td2, th2);
    crate::parse::lemma_concat_split(ty1 + tmo1, td1, ty2 + tmo2, td2);
    crate::parse::lemma_concat_split(ty1, tmo1, ty2, tmo2);
    lemma_two_digits_injective((c1.year as int) % 100, (c2.year as int) % 100);
    lemma_two_digits_injective(c1.month as int, c2.month as int);
    lemma_two_digits_injective(c1.day as int, c2.day as int);
    lemma_two_digits_injective(c1.hour as int, c2.hour as int);
    lemma_two_digits_injective(c1.minute as int, c2.minute as int);
    lemma_two_digits_injective(c1.second as int, c2.second as int);
    assert(c1.year == c2.year) by {
        vstd::arithmetic::div_mod::lemma_fundamental_div_mod(c1.year as int, 100);
        vstd::arithmetic::div_mod::lemma_fundamental_div_mod(c2.year as int, 100);
    }
}

fn push_two_digits(out: &mut Vec<u8>, n: u32)
    requires
        n <= 99,
    ensures
        final(out)@ == old(out)@ + spec_two_digits(n as int),
{
    out.push(0x30 + (n / 10) as u8);
    out.push(0x30 + (n % 10) as u8);
    proof {
        assert(out@ =~= old(out)@ + spec_two_digits(n as int));
    }
}

/// UTCTime of a calendar moment within the two-digit-year window.
pub fn der_utctime(c: &CalendarTime) -> (r: Vec<u8>)
    requires
        c.wf(),
        1950 <= c.year < 2050,
    ensures
        r@ == spec_utctime(*c),
        r@.len() == 15,
{
    let mut body: Vec<u8> = Vec::new();
    push_two_digits(&mut body, (c.year % 100) as u32);
    push_two_digits(&mut body, c.month);
    push_two_digits(&mut body, c.day);
    push_two_digits(&mut body, c.hour);
    push_two_digits(&mut body, c.minute);
    push_two_digits(&mut body, c.second);
    body.push(0x5A);
    proof {
        assert(body@ =~= spec_utctime_body(*c));
    }
    der_tlv(0x17, body)
}

} // verus!
