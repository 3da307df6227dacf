use chrono::{NaiveTime, TimeDelta, Timelike};
use save_voucher::clock::{
    countdown_step, format_duration, parse_task_time, time_until, ClockTime, Countdown, Span,
    TaskTimeError,
};

fn original_format(duration: TimeDelta) -> String {
    let hours = duration.num_hours();
    let minutes = duration.num_minutes() % 60;
    let seconds = duration.num_seconds() % 60;
    let milliseconds = duration.num_milliseconds() % 1_000;
    format!("{:02}:{:02}:{:02}.{:03}", hours, minutes, seconds, milliseconds)
}

fn span_of(d: TimeDelta) -> Span {
    Span::from_parts(d.num_seconds(), d.subsec_nanos()).unwrap()
}

#[test]
fn format_duration_exact_values() {
    assert_eq!(format_duration(Span::from_parts(3723, 4_000_000).unwrap()), "01:02:03.004");
    assert_eq!(format_duration(Span::from_parts(0, 0).unwrap()), "00:00:00.000");
    assert_eq!(format_duration(Span::from_parts(-61, -500_000_000).unwrap()), "00:-1:-1.-500");
    assert_eq!(format_duration(Span::from_parts(360_000, 0).unwrap()), "100:00:00.000");
}

#[test]
fn format_duration_matches_chrono_formula() {
    let deltas = [
        TimeDelta::new(0, 0).unwrap(),
        TimeDelta::new(59, 999_999_999).unwrap(),
        TimeDelta::new(86_399, 123_456_789).unwrap(),
        TimeDelta::new(-1, 1).unwrap(),
        TimeDelta::new(-3600, 0).unwrap(),
        TimeDelta::new(-7322, 400_000_000).unwrap(),
        TimeDelta::milliseconds(i64::MAX),
        TimeDelta::milliseconds(-i64::MAX),
        TimeDelta::nanoseconds(-999),
    ];
    for d in deltas.iter() {
        assert_eq!(format_duration(span_of(*d)), original_format(*d), "delta {:?}", d);
    }
}

#[test]
fn span_parts_are_checked() {
    assert!(Span::from_parts(1, -1).is_none());
    assert!(Span::from_parts(-1, 1).is_none());
    assert!(Span::from_parts(0, 1_000_000_000).is_none());
    assert!(Span::from_parts(i64::MAX, 0).is_none());
    assert!(Span::from_parts(9_223_372_036_854_775, 807_000_000).is_some());
    assert!(Span::from_parts(9_223_372_036_854_775, 807_000_001).is_none());
    assert!(Span::from_parts(0, -5).is_some());
}

#[test]
fn span_units_round_toward_zero() {
    let s = Span::from_parts(-7322, -400_000_000).unwrap();
    assert_eq!(s.num_hours(), -2);
    assert_eq!(s.num_minutes(), -122);
    assert_eq!(s.num_seconds(), -7322);
    assert_eq!(s.num_milliseconds(), -7_322_400);
    assert!(s.is_negative());
    assert!(!Span::from_parts(0, 0).unwrap().is_negative());
}

fn clock(secs: u32, frac: u32) -> ClockTime {
    ClockTime::new(secs, frac).unwrap()
}

#[test]
fn clock_time_validity() {
    assert!(ClockTime::new(86_400, 0).is_none());
    assert!(ClockTime::new(10, 1_000_000_000).is_none());
    assert!(ClockTime::new(59, 1_500_000_000).is_some());
    assert!(ClockTime::new(0, 2_000_000_000).is_none());
    let t = clock(45_296, 789);
    assert_eq!(t.seconds_from_midnight(), 45_296);
    assert_eq!(t.nanosecond(), 789);
}

#[test]
fn time_until_matches_chrono_with_leap_seconds() {
    let times = [
        (0u32, 0u32),
        (59, 1_500_000_000),
        (60, 0),
        (60, 250_000_000),
        (43_199, 999_999_999),
        (86_399, 1_999_999_999),
        (86_399, 0),
        (3_600, 500),
    ];
    for a in times.iter() {
        for b in times.iter() {
            let na = NaiveTime::from_num_seconds_from_midnight_opt(a.0, a.1).unwrap();
            let nb = NaiveTime::from_num_seconds_from_midnight_opt(b.0, b.1).unwrap();
            let expected = na.signed_duration_since(nb);
            let got = time_until(&clock(a.0, a.1), &clock(b.0, b.1));
            assert_eq!(got.num_seconds(), expected.num_seconds());
            assert_eq!(got.num_milliseconds(), expected.num_milliseconds());
            assert_eq!(got.is_negative(), expected < TimeDelta::zero());
        }
    }
}

#[test]
fn countdown_waits_then_fires() {
    let task = clock(12 * 3600, 0);
    match countdown_step(&task, &clock(11 * 3600 + 59 * 60 + 58, 750_000_000)) {
        Countdown::Wait(text) => assert_eq!(text, "00:00:01.250"),
        Countdown::Fire => panic!("fired early"),
    }
    match countdown_step(&task, &clock(12 * 3600, 0)) {
        Countdown::Wait(text) => assert_eq!(text, "00:00:00.000"),
        Countdown::Fire => panic!("fired at the task time itself"),
    }
    assert!(matches!(countdown_step(&task, &clock(12 * 3600, 1)), Countdown::Fire));
    assert!(matches!(countdown_step(&task, &clock(12 * 3600 + 1, 0)), Countdown::Fire));
}

#[test]
fn countdown_fires_exactly_after_task_time() {
    let times = [(0u32, 0u32), (59, 1_200_000_000), (59, 999_999_999), (60, 0), (86_399, 5)];
    for t in times.iter() {
        for n in times.iter() {
            let fired = matches!(countdown_step(&clock(t.0, t.1), &clock(n.0, n.1)), Countdown::Fire);
            assert_eq!(fired, (n.0, n.1) > (t.0, t.1), "task {:?} now {:?}", t, n);
        }
    }
}

#[test]
fn task_time_with_fraction() {
    let t = parse_task_time("12:34:56.789").unwrap();
    assert_eq!((t.year, t.month, t.day), (2023, 1, 1));
    assert_eq!(t.time.seconds_from_midnight(), 45_296);
    assert_eq!(t.time.nanosecond(), 789_000_000);
}

#[test]
fn task_time_without_fraction() {
    let t = parse_task_time("07:00:00").unwrap();
    assert_eq!(t.time.seconds_from_midnight(), 7 * 3600);
    assert_eq!(t.time.nanosecond(), 0);
}

#[test]
fn task_time_leap_second() {
    let t = parse_task_time("23:59:60.5").unwrap();
    let expected = NaiveTime::parse_from_str("23:59:60.5", "%H:%M:%S%.f").unwrap();
    assert_eq!(t.time.seconds_from_midnight(), expected.num_seconds_from_midnight());
    assert_eq!(t.time.nanosecond(), expected.nanosecond());
}

#[test]
fn task_time_refused() {
    assert_eq!(parse_task_time("25:00:00").unwrap_err(), TaskTimeError::Unparsable);
    assert_eq!(parse_task_time("noon").unwrap_err(), TaskTimeError::Unparsable);
    assert_eq!(parse_task_time("").unwrap_err(), TaskTimeError::Unparsable);
}
