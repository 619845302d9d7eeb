use salary_tray::clock::ClockTime;
use salary_tray::language::Language;
use salary_tray::serde_time::TimeFormatError;
use salary_tray::settings::{FormError, Settings, WorkdayProgress};

fn t(h: u32, m: u32, s: u32) -> ClockTime {
    ClockTime::from_hms(h, m, s).unwrap()
}

#[test]
fn default_settings() {
    let s = Settings::default();
    assert_eq!(f64::from_bits(s.daily_salary_bits), 0.0);
    assert_eq!(s.start_time, t(9, 0, 0));
    assert_eq!(s.end_time, t(17, 0, 0));
    assert_eq!(s.currency_symbol, '$');
    assert!(s.language == Language::EN);
}

#[test]
fn form_updates_settings() {
    let s = Settings::default();
    let salary = 480.5f64.to_bits();
    let u = s.from_form(salary, "08:30", "18:15", '¥', "zh").unwrap();
    assert_eq!(u.settings.daily_salary_bits, salary);
    assert_eq!(u.settings.start_time, t(8, 30, 0));
    assert_eq!(u.settings.end_time, t(18, 15, 0));
    assert_eq!(u.settings.currency_symbol, '¥');
    assert!(u.settings.language == Language::ZH);
    assert!(u.language_changed);

    let again = u.settings.from_form(salary, "08:30", "18:15", '¥', "zh").unwrap();
    assert!(!again.language_changed);
    let back = u.settings.from_form(salary, "08:30", "18:15", '¥', "xx").unwrap();
    assert!(back.settings.language == Language::EN);
    assert!(back.language_changed);
}

#[test]
fn form_with_unreadable_times_is_refused() {
    let s = Settings::default();
    assert!(
        s.from_form(0, "8h", "18:00", '$', "en") == Err(FormError::StartTime(TimeFormatError))
    );
    assert!(
        s.from_form(0, "08:00", "25:00", '$', "en") == Err(FormError::EndTime(TimeFormatError))
    );
    assert!(
        s.from_form(0, "bad", "worse", '$', "en") == Err(FormError::StartTime(TimeFormatError))
    );
}

#[test]
fn progress_before_during_and_after() {
    let s = Settings::default();
    assert_eq!(s.progress(t(8, 59, 59)), WorkdayProgress::NotStarted);
    assert_eq!(
        s.progress(t(9, 0, 0)),
        WorkdayProgress::Working { elapsed_secs: 0, workday_secs: 28800 }
    );
    assert_eq!(
        s.progress(t(13, 0, 0)),
        WorkdayProgress::Working { elapsed_secs: 14400, workday_secs: 28800 }
    );
    assert_eq!(
        s.progress(t(17, 0, 0)),
        WorkdayProgress::Working { elapsed_secs: 28800, workday_secs: 28800 }
    );
    assert_eq!(s.progress(t(17, 0, 1)), WorkdayProgress::Finished);
}

#[test]
fn progress_with_empty_or_reversed_day() {
    let mut s = Settings::default();
    s.start_time = t(12, 0, 0);
    s.end_time = t(12, 0, 0);
    assert_eq!(
        s.progress(t(12, 0, 0)),
        WorkdayProgress::Working { elapsed_secs: 0, workday_secs: 0 }
    );
    s.start_time = t(22, 0, 0);
    s.end_time = t(6, 0, 0);
    assert_eq!(s.progress(t(23, 0, 0)), WorkdayProgress::Finished);
    assert_eq!(s.progress(t(5, 0, 0)), WorkdayProgress::NotStarted);
}

#[test]
fn progress_never_goes_back() {
    let s = Settings::default();
    let rank = |p: WorkdayProgress| match p {
        WorkdayProgress::NotStarted => -1i64,
        WorkdayProgress::Working { elapsed_secs, .. } => elapsed_secs as i64,
        WorkdayProgress::Finished => i64::MAX,
    };
    let mut last = -2i64;
    for secs in (0..86400u32).step_by(37) {
        let now = t(secs / 3600, secs / 60 % 60, secs % 60);
        let r = rank(s.progress(now));
        assert!(r >= last);
        last = r;
    }
}
