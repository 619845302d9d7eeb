//! The text form of times of day in the settings file: "%H:%M", read and
//! written with chrono.
use crate::clock::{
    format_naive_time, hm_format, hm_text, naive_time_parsed, parse_naive_time, time_format,
    ClockTime,
};
use vstd::prelude::*;

verus! {

/// The error of reading a time that is not in the "%H:%M" format.
#[derive(Clone, Copy, PartialEq, Eq, Structural, Debug)]
pub struct TimeFormatError;

/// Reads a time of day written in the "%H:%M" format, as chrono reads it.
pub fn deserialize(text: &str) -> (r: Result<ClockTime, TimeFormatError>)
    ensures
        match naive_time_parsed(text@, hm_format()) {
            Some((h, m, s)) => r matches Ok(t) && t.h() == h && t.m() == m && t.s() == s,
            None => r == Err::<ClockTime, TimeFormatError>(TimeFormatError),
        },
        r matches Ok(t) ==> t.s() == 0,
        forall|h: u32, m: u32|
            #![trigger hm_text(h as int, m as int)]
            h < 24 && m < 60 && text@ == hm_text(h as int, m as int) ==> naive_time_parsed(
                text@,
                hm_format(),
            ) == Some((h, m, 0u32)),
        forall|h: u32, m: u32|
            #![trigger hm_text(h as int, m as int)]
            h < 24 && m < 60 && text@ == hm_text(h as int, m as int) ==> (r matches Ok(t) && t.h()
                == h && t.m() == m && t.s() == 0),
{
    match parse_naive_time(text, time_format()) {
        Some((h, m, s)) => match ClockTime::from_hms(h, m, s) {
            Some(t) => Ok(t),
            None => Err(TimeFormatError),
        },
        None => Err(TimeFormatError),
    }
}

/// Writes a time of day in the "%H:%M" format, with chrono; the seconds are
/// not written.
pub fn serialize(time: &ClockTime) -> (r: String)
    ensures
        r@ == hm_text(time.h() as int, time.m() as int),
{
    match format_naive_time(time.hour(), time.minute(), time.second(), time_format()) {
        Some(s) => s,
        None => {
            // chrono always writes "%H:%M"
            proof {
                assert(false);
            }
            String::new()
        },
    }
}

/// Different times of day to the minute are written differently: the text
/// "%H:%M" gives of a time determines its hour and minute.
pub proof fn lemma_text_determines_time(h1: int, m1: int, h2: int, m2: int)
    requires
        0 <= h1 < 24,
        0 <= m1 < 60,
        0 <= h2 < 24,
        0 <= m2 < 60,
        hm_text(h1, m1) == hm_text(h2, m2),
    ensures
        h1 == h2,
        m1 == m2,
{
    let a = hm_text(h1, m1);
    let b = hm_text(h2, m2);
    assert(a[0] == b[0] && a[1] == b[1] && a[3] == b[3] && a[4] == b[4]);
    assert((48 + h1 / 10) as char == (48 + h2 / 10) as char);
    assert(h1 / 10 == h2 / 10);
    assert(h1 % 10 == h2 % 10);
    assert(m1 / 10 == m2 / 10);
    assert(m1 % 10 == m2 % 10);
}

} // verus!
