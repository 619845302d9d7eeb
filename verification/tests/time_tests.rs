use salary_tray::clock::ClockTime;
use salary_tray::serde_time::{deserialize, serialize, TimeFormatError};

fn t(h: u32, m: u32, s: u32) -> ClockTime {
    ClockTime::from_hms(h, m, s).unwrap()
}

#[test]
fn from_hms_checks_ranges() {
    assert!(ClockTime::from_hms(23, 59, 59).is_some());
    assert!(ClockTime::from_hms(24, 0, 0).is_none());
    assert!(ClockTime::from_hms(0, 60, 0).is_none());
    assert!(ClockTime::from_hms(0, 0, 60).is_none());
    let x = t(13, 7, 5);
    assert_eq!((x.hour(), x.minute(), x.second()), (13, 7, 5));
    assert_eq!(x.num_seconds_from_midnight(), 13 * 3600 + 7 * 60 + 5);
    assert_eq!(ClockTime::midnight().num_seconds_from_midnight(), 0);
}

#[test]
fn serialize_writes_zero_padded_hours_and_minutes() {
    assert_eq!(serialize(&t(9, 5, 0)), "09:05");
    assert_eq!(serialize(&t(17, 0, 0)), "17:00");
    assert_eq!(serialize(&t(0, 0, 0)), "00:00");
    assert_eq!(serialize(&t(23, 59, 42)), "23:59");
}

#[test]
fn deserialize_reads_times() {
    assert_eq!(deserialize("09:00"), Ok(t(9, 0, 0)));
    assert_eq!(deserialize("23:59"), Ok(t(23, 59, 0)));
    assert_eq!(deserialize("7:15"), Ok(t(7, 15, 0)));
}

#[test]
fn deserialize_refuses_bad_times() {
    assert_eq!(deserialize("17:60"), Err(TimeFormatError));
    assert_eq!(deserialize("24:00"), Err(TimeFormatError));
    assert_eq!(deserialize("12"), Err(TimeFormatError));
    assert_eq!(deserialize("12:00:00"), Err(TimeFormatError));
    assert_eq!(deserialize("noon"), Err(TimeFormatError));
    assert_eq!(deserialize(""), Err(TimeFormatError));
}

#[test]
fn time_text_round_trip() {
    for h in 0..24 {
        for m in 0..60 {
            let time = t(h, m, 0);
            assert_eq!(deserialize(&serialize(&time)), Ok(time));
        }
    }
}
