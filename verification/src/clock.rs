use std::fmt::Write;
use chrono::Timelike;
use vstd::prelude::*;

verus! {

/// A time of day to the second, as the settings and the clock give it.
#[derive(Clone, Copy, PartialEq, Eq, Structural, Debug)]
pub struct ClockTime {
    hour: u32,
    minute: u32,
    second: u32,
}

/// The strftime-style format in which times of day are written: "%H:%M".
pub open spec fn hm_format() -> Seq<char> {
    seq!['%', 'H', ':', '%', 'M']
}

/// The decimal digit character for `d`.
pub open spec fn digit_char(d: int) -> char {
    (48 + d) as char
}

/// A number below one hundred written with two digits, zero-padded.
pub open spec fn two_digits(n: int) -> Seq<char> {
    seq![digit_char(n / 10), digit_char(n % 10)]
}

/// The "HH:MM" text of an hour and a minute.
pub open spec fn hm_text(hour: int, minute: int) -> Seq<char> {
    two_digits(hour) + seq![':'] + two_digits(minute)
}

/// What `chrono::NaiveTime::parse_from_str(text, format)` reads, as the
/// hour, minute and second of the time, or `None` where it fails.
pub uninterp spec fn naive_time_parsed(text: Seq<char>, format: Seq<char>) -> Option<(u32, u32, u32)>;

/// What chrono writes for the time `hour:minute:second` in `format`, or
/// `None` where it reports a formatting error.
pub uninterp spec fn naive_time_formatted(hour: u32, minute: u32, second: u32, format: Seq<char>) -> Option<Seq<char>>;

/// Calls `chrono::NaiveTime::parse_from_str(text, format)` and hands back
/// the hour, minute and second of the time read. The contract claims: the
/// result is a function of the two texts; every time chrono gives has an
/// hour below 24 and a minute and second below 60; with the format "%H:%M"
/// the seconds are zero (chrono takes missing seconds as zero) and a text of
/// two zero-padded digits, ':' and two zero-padded digits is read as that
/// hour and minute. Which other texts chrono accepts (it skips leading
/// whitespace and takes one-digit fields too) is left to the name.
#[verifier::external_body]
pub(crate) fn parse_naive_time(text: &str, format: &str) -> (r: Option<(u32, u32, u32)>)
    ensures
        r == naive_time_parsed(text@, format@),
        r matches Some((h, m, s)) ==> h < 24 && m < 60 && s < 60,
        format@ == hm_format() ==> (r matches Some((h, m, s)) ==> s == 0),
        format@ == hm_format() ==> forall|h: u32, m: u32|
            #![trigger hm_text(h as int, m as int)]
            h < 24 && m < 60 && text@ == hm_text(h as int, m as int) ==> r == Some(
                (h, m, 0u32),
            ),
{
    chrono::NaiveTime::parse_from_str(text, format).ok().map(|t| (t.hour(), t.minute(), t.second()))
}

/// Builds the `chrono::NaiveTime` for `hour:minute:second` with
/// `NaiveTime::from_hms_opt` and writes it with `NaiveTime::format(format)`.
/// The contract claims: the result is a function of the time and the format;
/// with the format "%H:%M" it is the zero-padded two-digit hour, ':' and the
/// zero-padded two-digit minute (chrono's documented meaning of %H and %M).
#[verifier::external_body]
pub(crate) fn format_naive_time(hour: u32, minute: u32, second: u32, format: &str) -> (r: Option<String>)
    requires
        hour < 24,
        minute < 60,
        second < 60,
    ensures
        r is None <==> naive_time_formatted(hour, minute, second, format@) is None,
        r matches Some(s) ==> naive_time_formatted(hour, minute, second, format@) == Some(s@),
        format@ == hm_format() ==> r is Some,
        format@ == hm_format() ==> (r matches Some(s) ==> s@ == hm_text(hour as int, minute as int)),
{
    let time = chrono::NaiveTime::from_hms_opt(hour, minute, second)?;
    let mut out = String::new();
    write!(out, "{}", time.format(format)).ok()?;
    Some(out)
}

/// The format text "%H:%M".
pub fn time_format() -> (r: &'static str)
    ensures
        r@ == hm_format(),
{
    proof {
        reveal_strlit("%H:%M");
    }
    "%H:%M"
}

impl ClockTime {
    #[verifier::type_invariant]
    spec fn in_range(self) -> bool {
        self.hour < 24 && self.minute < 60 && self.second < 60
    }

    /// The hour, 0 to 23.
    pub closed spec fn h(self) -> u32 {
        self.hour
    }

    /// The minute, 0 to 59.
    pub closed spec fn m(self) -> u32 {
        self.minute
    }

    /// The second, 0 to 59.
    pub closed spec fn s(self) -> u32 {
        self.second
    }

    /// Whether the fields are those of a time of day.
    pub open spec fn wf(self) -> bool {
        self.h() < 24 && self.m() < 60 && self.s() < 60
    }

    /// The number of seconds since midnight.
    pub open spec fn seconds_of_day(self) -> int {
        self.h() * 3600 + self.m() * 60 + self.s()
    }

    /// The time of day with the given fields.
    pub closed spec fn hms_spec(hour: u32, minute: u32, second: u32) -> ClockTime {
        ClockTime { hour, minute, second }
    }

    /// The fields of the time of day they name.
    pub proof fn lemma_hms_fields(hour: u32, minute: u32, second: u32)
        ensures
            ClockTime::hms_spec(hour, minute, second).h() == hour,
            ClockTime::hms_spec(hour, minute, second).m() == minute,
            ClockTime::hms_spec(hour, minute, second).s() == second,
    {
    }

    /// Midnight, 00:00:00.
    pub fn midnight() -> (r: ClockTime)
        ensures
            r.h() == 0 && r.m() == 0 && r.s() == 0,
    {
        ClockTime { hour: 0, minute: 0, second: 0 }
    }

    /// Two times of day with the same fields are the same time.
    pub proof fn lemma_fields_determine(a: ClockTime, b: ClockTime)
        requires
            a.h() == b.h(),
            a.m() == b.m(),
            a.s() == b.s(),
        ensures
            a == b,
    {
    }

    /// A time of day is the one its fields name.
    pub proof fn lemma_is_hms(a: ClockTime, hour: u32, minute: u32, second: u32)
        requires
            a.h() == hour,
            a.m() == minute,
            a.s() == second,
        ensures
            a == ClockTime::hms_spec(hour, minute, second),
    {
    }

    /// The time `hour:minute:second`, if those are the fields of a time of
    /// day (hour below 24, minute and second below 60).
    pub fn from_hms(hour: u32, minute: u32, second: u32) -> (r: Option<ClockTime>)
        ensures
            (hour < 24 && minute < 60 && second < 60) <==> r is Some,
            r matches Some(t) ==> t.h() == hour && t.m() == minute && t.s() == second,
    {
        if hour < 24 && minute < 60 && second < 60 {
            Some(ClockTime { hour, minute, second })
        } else {
            None
        }
    }

    pub fn hour(&self) -> (r: u32)
        ensures
            r == self.h(),
            r < 24,
    {
        proof {
            use_type_invariant(self);
        }
        self.hour
    }

    pub fn minute(&self) -> (r: u32)
        ensures
            r == self.m(),
            r < 60,
    {
        proof {
            use_type_invariant(self);
        }
        self.minute
    }

    pub fn second(&self) -> (r: u32)
        ensures
            r == self.s(),
            r < 60,
    {
        proof {
            use_type_invariant(self);
        }
        self.second
    }

    /// The number of seconds since midnight, below 86400.
    pub fn num_seconds_from_midnight(&self) -> (r: u32)
        ensures
            r == self.seconds_of_day(),
            r < 86400,
    {
        proof {
            use_type_invariant(self);
        }
        self.hour * 3600 + self.minute * 60 + self.second
    }
}

} // verus!
