//! The settings of the ticker, their defaults, how a submitted settings
//! form updates them, and how far the working day has progressed.
use crate::clock::ClockTime;
use crate::language::Language;
use crate::serde_time::{deserialize, TimeFormatError};
use crate::clock::naive_time_parsed;
use crate::clock::{hm_format, hm_text};
use vstd::prelude::*;

verus! {

/// The settings of the ticker.
#[derive(Clone, Copy, PartialEq, Eq, Structural)]
pub struct Settings {
    /// The IEEE-754 bit pattern of the daily salary; the library carries
    /// it unchanged and never computes with it.
    pub daily_salary_bits: u64,
    /// When the working day starts.
    pub start_time: ClockTime,
    /// When the working day ends.
    pub end_time: ClockTime,
    /// The currency symbol shown before the amount earned.
    pub currency_symbol: char,
    /// The display language.
    pub language: Language,
}

/// What a submitted settings form gives: the new settings, and whether the
/// display language changed (the menu is then rebuilt).
#[derive(Clone, Copy, PartialEq, Eq, Structural)]
pub struct SettingsUpdate {
    pub settings: Settings,
    pub language_changed: bool,
}

/// Why a submitted settings form was not taken: the start or the end time
/// is not in the "%H:%M" format.
#[derive(Clone, Copy, PartialEq, Eq, Structural, Debug)]
pub enum FormError {
    StartTime(TimeFormatError),
    EndTime(TimeFormatError),
}

/// How far the working day has come at a time of day.
#[derive(Clone, Copy, PartialEq, Eq, Structural, Debug)]
pub enum WorkdayProgress {
    /// Before the start time: nothing earned yet.
    NotStarted,
    /// After the end time: the whole daily salary is earned.
    Finished,
    /// Between start and end (both included): the part `elapsed_secs /
    /// workday_secs` of the daily salary is earned.
    Working { elapsed_secs: u32, workday_secs: u32 },
}

/// The progress of the working day from `start` to `end` at `now`.
pub open spec fn progress_at(start: ClockTime, end: ClockTime, now: ClockTime) -> WorkdayProgress {
    if now.seconds_of_day() < start.seconds_of_day() {
        WorkdayProgress::NotStarted
    } else if now.seconds_of_day() > end.seconds_of_day() {
        WorkdayProgress::Finished
    } else {
        WorkdayProgress::Working {
            elapsed_secs: (now.seconds_of_day() - start.seconds_of_day()) as u32,
            workday_secs: (end.seconds_of_day() - start.seconds_of_day()) as u32,
        }
    }
}

/// The order of progress: nothing earned, then a growing part of the day,
/// then the whole day.
pub open spec fn progress_le(a: WorkdayProgress, b: WorkdayProgress) -> bool {
    match (a, b) {
        (WorkdayProgress::NotStarted, _) => true,
        (_, WorkdayProgress::Finished) => true,
        (
            WorkdayProgress::Working { elapsed_secs: e1, workday_secs: w1 },
            WorkdayProgress::Working { elapsed_secs: e2, workday_secs: w2 },
        ) => w1 == w2 && e1 <= e2,
        _ => false,
    }
}

impl Settings {
    /// The settings of a first start: no salary, from 09:00 to 17:00, in
    /// dollars, in English.
    pub open spec fn spec_default() -> Settings {
        Settings {
            daily_salary_bits: 0,
            start_time: Self::nine_am(),
            end_time: Self::five_pm(),
            currency_symbol: '$',
            language: Language::EN,
        }
    }

    pub closed spec fn nine_am() -> ClockTime {
        ClockTime::hms_spec(9, 0, 0)
    }

    pub closed spec fn five_pm() -> ClockTime {
        ClockTime::hms_spec(17, 0, 0)
    }

    /// The settings after a submitted form: the salary, the times and the
    /// symbol are taken as given, the language is read from its form value
    /// (anything but "zh" is English).
    pub fn with_form(
        &self,
        daily_salary_bits: u64,
        start_time: ClockTime,
        end_time: ClockTime,
        currency_symbol: char,
        language: &str,
    ) -> (r: SettingsUpdate)
        ensures
            r.settings.daily_salary_bits == daily_salary_bits,
            r.settings.start_time == start_time,
            r.settings.end_time == end_time,
            r.settings.currency_symbol == currency_symbol,
            r.settings.language == (if language@ == seq!['z', 'h'] {
                Language::ZH
            } else {
                Language::EN
            }),
            r.language_changed == (r.settings.language != self.language),
    {
        let lang = Language::from_form_value(language);
        let settings = Settings {
            daily_salary_bits,
            start_time,
            end_time,
            currency_symbol,
            language: lang,
        };
        let language_changed = match (lang, self.language) {
            (Language::EN, Language::EN) => false,
            (Language::ZH, Language::ZH) => false,
            _ => true,
        };
        SettingsUpdate { settings, language_changed }
    }

    /// Takes a submitted settings form whose times are texts: both are read
    /// in the "%H:%M" format, the start time first; where one cannot be
    /// read the form is refused with that field's error.
    pub fn from_form(
        &self,
        daily_salary_bits: u64,
        start_time: &str,
        end_time: &str,
        currency_symbol: char,
        language: &str,
    ) -> (r: Result<SettingsUpdate, FormError>)
        ensures
            naive_time_parsed(start_time@, hm_format()) is None ==> r == Err::<
                SettingsUpdate,
                FormError,
            >(FormError::StartTime(TimeFormatError)),
            naive_time_parsed(start_time@, hm_format()) is Some && naive_time_parsed(
                end_time@,
                hm_format(),
            ) is None ==> r == Err::<SettingsUpdate, FormError>(
                FormError::EndTime(TimeFormatError),
            ),
            r is Ok <==> (naive_time_parsed(start_time@, hm_format()) is Some && naive_time_parsed(
                end_time@,
                hm_format(),
            ) is Some),
            r matches Ok(u) ==> {
                &&& naive_time_parsed(start_time@, hm_format()) matches Some((h, m, s))
                &&& u.settings.start_time.h() == h && u.settings.start_time.m() == m
                    && u.settings.start_time.s() == s
            },
            r matches Ok(u) ==> {
                &&& naive_time_parsed(end_time@, hm_format()) matches Some((h, m, s))
                &&& u.settings.end_time.h() == h && u.settings.end_time.m() == m
                    && u.settings.end_time.s() == s
            },
            r matches Ok(u) ==> u.settings.start_time.s() == 0 && u.settings.end_time.s() == 0,
            forall|h: u32, m: u32|
                #![trigger hm_text(h as int, m as int)]
                h < 24 && m < 60 && start_time@ == hm_text(h as int, m as int) ==> naive_time_parsed(
                    start_time@,
                    hm_format(),
                ) == Some((h, m, 0u32)),
            forall|h: u32, m: u32|
                #![trigger hm_text(h as int, m as int)]
                h < 24 && m < 60 && end_time@ == hm_text(h as int, m as int) ==> naive_time_parsed(
                    end_time@,
                    hm_format(),
                ) == Some((h, m, 0u32)),
            r matches Ok(u) ==> {
                &&& u.settings.daily_salary_bits == daily_salary_bits
                &&& u.settings.currency_symbol == currency_symbol
                &&& u.settings.language == (if language@ == seq!['z', 'h'] {
                    Language::ZH
                } else {
                    Language::EN
                })
                &&& u.language_changed == (u.settings.language != self.language)
            },
    {
        let start_read = deserialize(start_time);
        let end_read = deserialize(end_time);
        let start = match start_read {
            Ok(t) => t,
            Err(e) => return Err(FormError::StartTime(e)),
        };
        let end = match end_read {
            Ok(t) => t,
            Err(e) => return Err(FormError::EndTime(e)),
        };
        Ok(self.with_form(daily_salary_bits, start, end, currency_symbol, language))
    }

    /// How far the working day has come at `now`: nothing before the start
    /// time, all of it after the end time, and in between the seconds
    /// since the start out of the seconds from start to end.
    pub fn progress(&self, now: ClockTime) -> (r: WorkdayProgress)
        ensures
            r == progress_at(self.start_time, self.end_time, now),
            r is NotStarted <==> (now.h() * 3600 + now.m() * 60 + now.s()) < (self.start_time.h() * 3600 + self.start_time.m() * 60 + self.start_time.s()),
            r is Finished <==> ((self.start_time.h() * 3600 + self.start_time.m() * 60 + self.start_time.s()) <= (now.h() * 3600 + now.m() * 60 + now.s()) && (now.h() * 3600 + now.m() * 60 + now.s()) > (self.end_time.h() * 3600 + self.end_time.m() * 60 + self.end_time.s())),
            r matches WorkdayProgress::Working { elapsed_secs, workday_secs } ==> {
                &&& (self.start_time.h() * 3600 + self.start_time.m() * 60 + self.start_time.s()) <= (now.h() * 3600 + now.m() * 60 + now.s()) <= (self.end_time.h() * 3600 + self.end_time.m() * 60 + self.end_time.s())
                &&& elapsed_secs == (now.h() * 3600 + now.m() * 60 + now.s()) - (self.start_time.h() * 3600 + self.start_time.m() * 60 + self.start_time.s())
                &&& workday_secs == (self.end_time.h() * 3600 + self.end_time.m() * 60 + self.end_time.s()) - (self.start_time.h() * 3600 + self.start_time.m() * 60 + self.start_time.s())
            },
    {
        let start = self.start_time.num_seconds_from_midnight();
        let end = self.end_time.num_seconds_from_midnight();
        let current = now.num_seconds_from_midnight();
        if current < start {
            WorkdayProgress::NotStarted
        } else if current > end {
            WorkdayProgress::Finished
        } else {
            WorkdayProgress::Working { elapsed_secs: current - start, workday_secs: end - start }
        }
    }
}

impl Default for Settings {
    fn default() -> (r: Settings)
        ensures
            r == Settings::spec_default(),
            r.daily_salary_bits == 0,
            r.start_time.h() == 9 && r.start_time.m() == 0 && r.start_time.s() == 0,
            r.end_time.h() == 17 && r.end_time.m() == 0 && r.end_time.s() == 0,
            r.currency_symbol == '$',
            r.language == Language::EN,
    {
        let start = ClockTime::from_hms(9, 0, 0);
        let end = ClockTime::from_hms(17, 0, 0);
        match (start, end) {
            (Some(start_time), Some(end_time)) => {
                proof {
                    ClockTime::lemma_is_hms(start_time, 9, 0, 0);
                    ClockTime::lemma_is_hms(end_time, 17, 0, 0);
                    ClockTime::lemma_hms_fields(9, 0, 0);
                    ClockTime::lemma_hms_fields(17, 0, 0);
                }
                Settings {
                    daily_salary_bits: 0,
                    start_time,
                    end_time,
                    currency_symbol: '$',
                    language: Language::EN,
                }
            },
            _ => {
                proof {
                    assert(false);
                }
                Settings {
                    daily_salary_bits: 0,
                    start_time: ClockTime::midnight(),
                    end_time: ClockTime::midnight(),
                    currency_symbol: '$',
                    language: Language::EN,
                }
            },
        }
    }
}

/// The progress of the day counts every second of the start, end and
/// current times: nothing is earned exactly while the time is before the
/// start time; the day is finished exactly when the time is past the end
/// time (and not before the start); otherwise the seconds elapsed since the
/// start are earned out of the seconds from the start to the end.
pub proof fn lemma_progress_counts_every_second(start: ClockTime, end: ClockTime, now: ClockTime)
    requires
        start.wf(),
        end.wf(),
        now.wf(),
    ensures
        progress_at(start, end, now) is NotStarted <==> (now.h() * 3600 + now.m() * 60 + now.s())
            < (start.h() * 3600 + start.m() * 60 + start.s()),
        progress_at(start, end, now) is Finished <==> ((start.h() * 3600 + start.m() * 60
            + start.s()) <= (now.h() * 3600 + now.m() * 60 + now.s()) && (now.h() * 3600 + now.m()
            * 60 + now.s()) > (end.h() * 3600 + end.m() * 60 + end.s())),
        progress_at(start, end, now) matches WorkdayProgress::Working {
            elapsed_secs,
            workday_secs,
        } ==> {
            &&& elapsed_secs == (now.h() * 3600 + now.m() * 60 + now.s()) - (start.h() * 3600
                + start.m() * 60 + start.s())
            &&& workday_secs == (end.h() * 3600 + end.m() * 60 + end.s()) - (start.h() * 3600
                + start.m() * 60 + start.s())
        },
{
}

/// The working day never goes back: a later time of day shows at least as
/// much of it as an earlier one.
pub proof fn lemma_progress_monotonic(s: Settings, t1: ClockTime, t2: ClockTime)
    requires
        s.start_time.wf(),
        s.end_time.wf(),
        t1.wf(),
        t2.wf(),
        t1.seconds_of_day() <= t2.seconds_of_day(),
    ensures
        progress_le(progress_at(s.start_time, s.end_time, t1), progress_at(s.start_time, s.end_time, t2)),
{
}

/// While working, the part of the day elapsed is never more than the whole
/// working day, and the day ends no earlier than it starts.
pub proof fn lemma_elapsed_within_workday(s: Settings, now: ClockTime)
    requires
        s.start_time.wf(),
        s.end_time.wf(),
        now.wf(),
    ensures
        progress_at(s.start_time, s.end_time, now) matches WorkdayProgress::Working {
            elapsed_secs,
            workday_secs,
        } ==> elapsed_secs <= workday_secs && s.start_time.seconds_of_day()
            <= s.end_time.seconds_of_day(),
{
}

} // verus!
