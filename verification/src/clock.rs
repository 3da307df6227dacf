//! Time of day, signed spans of time, the countdown display and the task time.

use vstd::prelude::*;
use vstd::arithmetic::div_mod::{lemma_div_denominator, lemma_fundamental_div_mod_converse};
use crate::decimal::{format_padded, format_padded_spec};
use crate::text::push_char;
use chrono::{Datelike, NaiveDateTime, NaiveTime, Timelike};

verus! {

/// Division that rounds toward zero, as Rust's `/` on signed integers does.
pub open spec fn div_toward_zero(a: int, b: int) -> int {
    if a >= 0 {
        a / b
    } else {
        -((-a) / b)
    }
}

/// The remainder that goes with [`div_toward_zero`], as Rust's `%` on signed integers gives it.
pub open spec fn rem_toward_zero(a: int, b: int) -> int {
    a - b * div_toward_zero(a, b)
}

/// Nanoseconds in a second.
pub open spec fn nanos_per_sec() -> int {
    1_000_000_000
}

/// The largest magnitude of a span, in nanoseconds: `i64::MAX` milliseconds.
pub open spec fn span_limit() -> int {
    i64::MAX * 1_000_000
}

/// Rounding toward zero by `a` and then by `b` is rounding toward zero by `a * b`.
pub proof fn lemma_div_toward_zero_twice(x: int, a: int, b: int)
    requires
        a > 0,
        b > 0,
    ensures
        div_toward_zero(div_toward_zero(x, a), b) == div_toward_zero(x, a * b),
{
    if x >= 0 {
        lemma_div_denominator(x, a, b);
        assert(x / a >= 0) by (nonlinear_arith)
            requires
                x >= 0,
                a > 0,
        ;
    } else {
        lemma_div_denominator(-x, a, b);
        assert((-x) / a >= 0) by (nonlinear_arith)
            requires
                -x >= 0,
                a > 0,
        ;
        if (-x) / a == 0 {
            assert(0int / b == 0);
            assert((-x) / (a * b) == 0) by {
                lemma_div_denominator(-x, a, b);
            }
        }
    }
}

/// A signed span of time with nanosecond resolution, between `-i64::MAX` and `i64::MAX`
/// milliseconds, as `chrono::TimeDelta` holds one. It is kept as the whole seconds and the
/// leftover nanoseconds, both rounded toward zero.
#[derive(Clone, Copy, Debug)]
pub struct Span {
    secs: i64,
    nanos: i32,
}

impl Span {
    /// The parts agree in sign, the nanoseconds stay below one second and the span within range.
    pub open spec fn valid_parts(secs: int, nanos: int) -> bool {
        &&& -nanos_per_sec() < nanos < nanos_per_sec()
        &&& secs > 0 ==> nanos >= 0
        &&& secs < 0 ==> nanos <= 0
        &&& -span_limit() <= secs * nanos_per_sec() + nanos <= span_limit()
    }

    #[verifier::type_invariant]
    spec fn inv(self) -> bool {
        Self::valid_parts(self.secs as int, self.nanos as int)
    }

    /// The length of the span in nanoseconds; negative for a span that points backwards.
    pub closed spec fn total_nanos(self) -> int {
        self.secs * nanos_per_sec() + self.nanos
    }

    /// A span from its whole seconds and its leftover nanoseconds, both rounded toward zero;
    /// `None` when the two disagree in sign, the nanoseconds reach a second, or the span is
    /// out of range.
    pub fn from_parts(seconds: i64, subsec_nanos: i32) -> (res: Option<Span>)
        ensures
            res is Some <==> Self::valid_parts(seconds as int, subsec_nanos as int),
            res matches Some(s) ==> s.total_nanos() == seconds * nanos_per_sec() + subsec_nanos,
    {
        let ok_nanos = -1_000_000_000 < subsec_nanos && subsec_nanos < 1_000_000_000;
        let ok_sign = (seconds <= 0 || subsec_nanos >= 0) && (seconds >= 0 || subsec_nanos <= 0);
        // i64::MAX / 1000 = 9223372036854775, i64::MAX % 1000 = 807
        let ok_range = if seconds >= 0 {
            seconds < 9223372036854775 || (seconds == 9223372036854775 && subsec_nanos <= 807_000_000)
        } else {
            seconds > -9223372036854775 || (seconds == -9223372036854775 && subsec_nanos >= -807_000_000)
        };
        if ok_nanos && ok_sign && ok_range {
            Some(Span { secs: seconds, nanos: subsec_nanos })
        } else {
            None
        }
    }

    /// The parts are the whole seconds and the leftover nanoseconds, rounded toward zero.
    proof fn lemma_parts(self)
        requires
            self.inv(),
        ensures
            self.secs == div_toward_zero(self.total_nanos(), nanos_per_sec()),
            self.nanos == rem_toward_zero(self.total_nanos(), nanos_per_sec()),
    {
        let t = self.total_nanos();
        if t >= 0 {
            if self.secs < 0 {
                assert(self.secs * nanos_per_sec() <= -nanos_per_sec());
            }
            assert(self.nanos >= 0);
            lemma_fundamental_div_mod_converse(t, nanos_per_sec(), self.secs as int, self.nanos as int);
        } else {
            if self.secs > 0 {
                assert(self.secs * nanos_per_sec() >= nanos_per_sec());
            }
            assert(self.nanos <= 0);
            lemma_fundamental_div_mod_converse(
                -t,
                nanos_per_sec(),
                -self.secs,
                -self.nanos,
            );
        }
    }

    /// Whole seconds in the span, rounded toward zero (`TimeDelta::num_seconds`).
    pub fn num_seconds(&self) -> (r: i64)
        ensures
            r == div_toward_zero(self.total_nanos(), nanos_per_sec()),
    {
        proof {
            use_type_invariant(self);
            self.lemma_parts();
        }
        self.secs
    }

    /// Whole minutes in the span, rounded toward zero (`TimeDelta::num_minutes`).
    pub fn num_minutes(&self) -> (r: i64)
        ensures
            r == div_toward_zero(self.total_nanos(), 60 * nanos_per_sec()),
    {
        let s = self.num_seconds();
        proof {
            lemma_div_toward_zero_twice(self.total_nanos(), nanos_per_sec(), 60);
        }
        s / 60
    }

    /// Whole hours in the span, rounded toward zero (`TimeDelta::num_hours`).
    pub fn num_hours(&self) -> (r: i64)
        ensures
            r == div_toward_zero(self.total_nanos(), 3600 * nanos_per_sec()),
    {
        let s = self.num_seconds();
        proof {
            lemma_div_toward_zero_twice(self.total_nanos(), nanos_per_sec(), 3600);
        }
        s / 3600
    }

    /// Whole milliseconds in the span, rounded toward zero (`TimeDelta::num_milliseconds`).
    pub fn num_milliseconds(&self) -> (r: i64)
        ensures
            r == div_toward_zero(self.total_nanos(), 1_000_000),
    {
        proof {
            use_type_invariant(self);
            self.lemma_parts();
        }
        let t = Ghost(self.total_nanos());
        let ms = self.secs * 1000 + (self.nanos / 1_000_000) as i64;
        proof {
            if t@ >= 0 {
                assert(self.nanos >= 0);
                lemma_fundamental_div_mod_converse(
                    t@,
                    1_000_000,
                    self.secs * 1000 + self.nanos / 1_000_000,
                    (self.nanos as int) % 1_000_000,
                );
            } else {
                assert(self.nanos <= 0);
                lemma_fundamental_div_mod_converse(
                    -t@,
                    1_000_000,
                    -self.secs * 1000 + (-self.nanos) / 1_000_000,
                    (-self.nanos) % 1_000_000,
                );
            }
        }
        ms
    }

    /// Whether the span points backwards (`TimeDelta` compared against `TimeDelta::zero()`).
    pub fn is_negative(&self) -> (r: bool)
        ensures
            r == (self.total_nanos() < 0),
    {
        proof {
            use_type_invariant(self);
        }
        self.secs < 0 || (self.secs == 0 && self.nanos < 0)
    }
}

/// A time of day as `chrono::NaiveTime` holds it: seconds from midnight and nanoseconds, where
/// nanoseconds of a second or more mark a leap second, which only the last second of a minute
/// can carry.
#[derive(Clone, Copy, Debug)]
pub struct ClockTime {
    secs: u32,
    frac: u32,
}

impl ClockTime {
    /// The parts name a time of day.
    pub open spec fn valid_parts(secs: int, frac: int) -> bool {
        &&& 0 <= secs < 86_400
        &&& 0 <= frac < 2 * nanos_per_sec()
        &&& frac >= nanos_per_sec() ==> secs % 60 == 59
    }

    #[verifier::type_invariant]
    spec fn inv(self) -> bool {
        Self::valid_parts(self.secs as int, self.frac as int)
    }

    /// Seconds from midnight.
    pub closed spec fn secs_of_day(self) -> int {
        self.secs as int
    }

    /// Nanoseconds into the current second; one second more during a leap second.
    pub closed spec fn nanos(self) -> int {
        self.frac as int
    }

    /// The time of day with these parts; `None` when they name none.
    pub fn new(secs_from_midnight: u32, nanosecond: u32) -> (res: Option<ClockTime>)
        ensures
            res is Some <==> Self::valid_parts(secs_from_midnight as int, nanosecond as int),
            res matches Some(t) ==> t.secs_of_day() == secs_from_midnight && t.nanos()
                == nanosecond,
    {
        if secs_from_midnight < 86_400 && nanosecond < 2_000_000_000 && (nanosecond
            < 1_000_000_000 || secs_from_midnight % 60 == 59) {
            Some(ClockTime { secs: secs_from_midnight, frac: nanosecond })
        } else {
            None
        }
    }

    /// Seconds from midnight.
    pub fn seconds_from_midnight(&self) -> (r: u32)
        ensures
            r == self.secs_of_day(),
    {
        self.secs
    }

    /// Nanoseconds into the current second.
    pub fn nanosecond(&self) -> (r: u32)
        ensures
            r == self.nanos(),
    {
        self.frac
    }
}

/// How far `later` lies after `earlier`, in nanoseconds, as `NaiveTime::signed_duration_since`
/// counts it: no leap second is assumed to lie between the two, except that a leap second
/// carried by one of them counts once.
pub open spec fn clock_difference_nanos(
    later_secs: int,
    later_frac: int,
    earlier_secs: int,
    earlier_frac: int,
) -> int {
    let adjust: int = if later_secs > earlier_secs && earlier_frac >= nanos_per_sec() {
        1
    } else if later_secs < earlier_secs && later_frac >= nanos_per_sec() {
        -1
    } else {
        0
    };
    (later_secs - earlier_secs + adjust) * nanos_per_sec() + (later_frac - earlier_frac)
}

/// Calls `chrono::NaiveTime::signed_duration_since` on the two times of day given by their
/// parts, and hands back the resulting `TimeDelta` as its whole seconds (`num_seconds`) and
/// leftover nanoseconds (`subsec_nanos`). The contract restates chrono's code: the difference
/// is [`clock_difference_nanos`], and the two parts are it rounded toward zero.
#[verifier::external_body]
fn naive_time_signed_duration_since(
    later_secs: u32,
    later_frac: u32,
    earlier_secs: u32,
    earlier_frac: u32,
) -> (res: (i64, i32))
    requires
        ClockTime::valid_parts(later_secs as int, later_frac as int),
        ClockTime::valid_parts(earlier_secs as int, earlier_frac as int),
    ensures
        res.0 == div_toward_zero(
            clock_difference_nanos(
                later_secs as int,
                later_frac as int,
                earlier_secs as int,
                earlier_frac as int,
            ),
            nanos_per_sec(),
        ),
        res.1 == rem_toward_zero(
            clock_difference_nanos(
                later_secs as int,
                later_frac as int,
                earlier_secs as int,
                earlier_frac as int,
            ),
            nanos_per_sec(),
        ),
{
    let later = NaiveTime::from_num_seconds_from_midnight_opt(later_secs, later_frac).unwrap();
    let earlier = NaiveTime::from_num_seconds_from_midnight_opt(earlier_secs, earlier_frac).unwrap();
    let delta = later.signed_duration_since(earlier);
    (delta.num_seconds(), delta.subsec_nanos())
}

/// The span from `earlier` to `later` (`later.signed_duration_since(earlier)`).
pub fn time_until(later: &ClockTime, earlier: &ClockTime) -> (res: Span)
    ensures
        res.total_nanos() == clock_difference_nanos(
            later.secs_of_day(),
            later.nanos(),
            earlier.secs_of_day(),
            earlier.nanos(),
        ),
{
    proof {
        use_type_invariant(later);
        use_type_invariant(earlier);
    }
    let (secs, nanos) = naive_time_signed_duration_since(
        later.secs,
        later.frac,
        earlier.secs,
        earlier.frac,
    );
    let ghost t = clock_difference_nanos(
        later.secs as int,
        later.frac as int,
        earlier.secs as int,
        earlier.frac as int,
    );
    proof {
        assert(-3 * nanos_per_sec() * 86_400 <= t <= 3 * nanos_per_sec() * 86_400);
        if t >= 0 {
            assert(t / nanos_per_sec() >= 0) by (nonlinear_arith)
                requires t >= 0;
            assert(t % nanos_per_sec() >= 0) by (nonlinear_arith)
                requires t >= 0;
        } else {
            assert((-t) / nanos_per_sec() >= 0) by (nonlinear_arith)
                requires -t >= 0;
        }
    }
    let span = Span::from_parts(secs, nanos);
    match span {
        Some(s) => s,
        None => {
            proof {
                assert(false);
            }
            Span { secs: 0, nanos: 0 }
        },
    }
}

/// The countdown display of a span of `t` nanoseconds: whole hours, then the minutes, seconds
/// and milliseconds left over, each zero-padded (`HH:MM:SS.mmm`), all rounded toward zero.
pub open spec fn duration_text(t: int) -> Seq<char> {
    format_padded_spec(div_toward_zero(t, 3600 * nanos_per_sec()), 2) + seq![':']
        + format_padded_spec(rem_toward_zero(div_toward_zero(t, 60 * nanos_per_sec()), 60), 2)
        + seq![':'] + format_padded_spec(rem_toward_zero(div_toward_zero(t, nanos_per_sec()), 60), 2)
        + seq!['.'] + format_padded_spec(rem_toward_zero(div_toward_zero(t, 1_000_000), 1000), 3)
}

/// For a span that lies ahead, the display shows its whole milliseconds broken into hours,
/// minutes below 60, seconds below 60 and milliseconds below 1000.
pub proof fn law_display_breaks_down_time_left(t: int)
    requires
        t >= 0,
    ensures
        ({
            let ms = t / 1_000_000;
            let hours = ms / 3_600_000;
            let minutes = (ms / 60_000) % 60;
            let seconds = (ms / 1000) % 60;
            let millis = ms % 1000;
            &&& duration_text(t) == format_padded_spec(hours, 2) + seq![':'] + format_padded_spec(
                minutes,
                2,
            ) + seq![':'] + format_padded_spec(seconds, 2) + seq!['.'] + format_padded_spec(
                millis,
                3,
            )
            &&& 0 <= minutes < 60
            &&& 0 <= seconds < 60
            &&& 0 <= millis < 1000
            &&& hours * 3_600_000 + minutes * 60_000 + seconds * 1000 + millis == ms
        }),
{
    let ms = t / 1_000_000;
    lemma_div_denominator(t, 1_000_000, 1000);
    lemma_div_denominator(t, 1_000_000, 60_000);
    lemma_div_denominator(t, 1_000_000, 3_600_000);
    lemma_div_denominator(ms, 1000, 60);
    lemma_div_denominator(ms / 1000, 60, 60);
    assert(ms >= 0) by (nonlinear_arith)
        requires
            t >= 0,
            ms == t / 1_000_000,
    ;
    let a = ms / 1000;
    let b = a / 60;
    let c = b / 60;
    assert(a >= 0 && b >= 0 && c >= 0) by (nonlinear_arith)
        requires
            ms >= 0,
            a == ms / 1000,
            b == a / 60,
            c == b / 60,
    ;
    assert(ms == 1000 * a + ms % 1000 && a == 60 * b + a % 60 && b == 60 * c + b % 60)
        by (nonlinear_arith)
        requires
            a == ms / 1000,
            b == a / 60,
            c == b / 60,
    ;
    assert(0 <= ms % 1000 < 1000 && 0 <= a % 60 < 60 && 0 <= b % 60 < 60) by (nonlinear_arith)
        requires
            ms >= 0,
            a >= 0,
            b >= 0,
    ;
}

/// Formats a span for the countdown display.
pub fn format_duration(duration: Span) -> (res: String)
    ensures
        res@ == duration_text(duration.total_nanos()),
{
    let hours = duration.num_hours();
    let minutes = duration.num_minutes() % 60;
    let seconds = duration.num_seconds() % 60;
    let milliseconds = duration.num_milliseconds() % 1_000;
    let mut out = format_padded(hours, 2);
    push_char(&mut out, ':');
    out.append(format_padded(minutes, 2).as_str());
    push_char(&mut out, ':');
    out.append(format_padded(seconds, 2).as_str());
    push_char(&mut out, '.');
    out.append(format_padded(milliseconds, 3).as_str());
    assert(out@ =~= duration_text(duration.total_nanos()));
    out
}

/// What the countdown does at one tick.
pub enum Countdown {
    /// The task time has passed: run the task now.
    Fire,
    /// The task time lies ahead; the text shows how far.
    Wait(String),
}

/// One tick of the countdown to `task_time`, seen at time of day `now`: fire once the time
/// left is negative, else show the time left.
pub fn countdown_step(task_time: &ClockTime, now: &ClockTime) -> (res: Countdown)
    ensures
        res is Fire <==> clock_difference_nanos(
            task_time.secs_of_day(),
            task_time.nanos(),
            now.secs_of_day(),
            now.nanos(),
        ) < 0,
        res matches Countdown::Wait(text) ==> text@ == duration_text(
            clock_difference_nanos(
                task_time.secs_of_day(),
                task_time.nanos(),
                now.secs_of_day(),
                now.nanos(),
            ),
        ),
{
    let time_until_task = time_until(task_time, now);
    if time_until_task.is_negative() {
        Countdown::Fire
    } else {
        Countdown::Wait(format_duration(time_until_task))
    }
}

/// The countdown fires exactly when the current time of day lies after the task time.
pub proof fn law_countdown_fires_once_passed(
    task_secs: int,
    task_frac: int,
    now_secs: int,
    now_frac: int,
)
    requires
        ClockTime::valid_parts(task_secs, task_frac),
        ClockTime::valid_parts(now_secs, now_frac),
    ensures
        clock_difference_nanos(task_secs, task_frac, now_secs, now_frac) < 0 <==> (now_secs
            > task_secs || (now_secs == task_secs && now_frac > task_frac)),
{
    if task_secs > now_secs {
        assert((task_secs - now_secs) * nanos_per_sec() >= nanos_per_sec()) by (nonlinear_arith)
            requires
                task_secs - now_secs >= 1,
        ;
    } else if task_secs < now_secs {
        assert((now_secs - task_secs) * nanos_per_sec() >= nanos_per_sec()) by (nonlinear_arith)
            requires
                now_secs - task_secs >= 1,
        ;
    }
}

/// The date written in front of the task time before it is read.
pub open spec fn task_date_prefix() -> Seq<char> {
    "2023-01-01 "@
}

/// The layout the dated task time is read with.
pub open spec fn task_time_format() -> Seq<char> {
    "%Y-%m-%d %H:%M:%S%.f"@
}

/// What `chrono::NaiveDateTime::parse_from_str(text, fmt)` yields: year, month, day, seconds
/// from midnight and nanoseconds, or nothing when the text does not fit the layout.
pub uninterp spec fn chrono_parse_date_time(text: Seq<char>, fmt: Seq<char>) -> Option<
    (i32, u32, u32, u32, u32),
>;

/// Calls `chrono::NaiveDateTime::parse_from_str` and hands back the parsed date and time of day
/// as plain numbers. The contract claims that the outcome is [`chrono_parse_date_time`] of the
/// two strings, and that the time of day has valid parts, as every `chrono::NaiveTime` has;
/// which texts chrono accepts is not restated.
#[verifier::external_body]
fn naive_date_time_parse_from_str(text: &str, fmt: &str) -> (res: Result<
    (i32, u32, u32, u32, u32),
    chrono::ParseError,
>)
    ensures
        match res {
            Ok(v) => chrono_parse_date_time(text@, fmt@) == Some(v) && ClockTime::valid_parts(
                v.3 as int,
                v.4 as int,
            ),
            Err(_) => chrono_parse_date_time(text@, fmt@) is None,
        },
{
    match NaiveDateTime::parse_from_str(text, fmt) {
        Ok(dt) => Ok((dt.year(), dt.month(), dt.day(), dt.num_seconds_from_midnight(), dt.nanosecond())),
        Err(e) => Err(e),
    }
}

/// The outside error of chrono's parsers.
#[verifier::external_type_specification]
#[verifier::external_body]
pub struct ExChronoParseError(chrono::ParseError);

/// A task time: the fixed date it was read with and the time of day the countdown aims at.
#[derive(Clone, Copy, Debug)]
pub struct TaskTime {
    pub year: i32,
    pub month: u32,
    pub day: u32,
    pub time: ClockTime,
}

/// Why a task time could not be read.
#[derive(Clone, Copy, Debug, PartialEq, Eq, Structural)]
pub enum TaskTimeError {
    /// The text is no time of day in the `HH:MM:SS[.fraction]` layout.
    Unparsable,
}

/// The task time that parsed date and time parts describe.
pub open spec fn task_time_matches(t: TaskTime, v: (i32, u32, u32, u32, u32)) -> bool {
    &&& t.year == v.0
    &&& t.month == v.1
    &&& t.day == v.2
    &&& t.time.secs_of_day() == v.3
    &&& t.time.nanos() == v.4
}

/// Turns what the date-time parser yielded into a task time.
pub fn task_time_from_parsed(parsed: Option<(i32, u32, u32, u32, u32)>) -> (res: Result<
    TaskTime,
    TaskTimeError,
>)
    ensures
        match parsed {
            Some(v) => if ClockTime::valid_parts(v.3 as int, v.4 as int) {
                res matches Ok(t) && task_time_matches(t, v)
            } else {
                res == Err::<TaskTime, TaskTimeError>(TaskTimeError::Unparsable)
            },
            None => res == Err::<TaskTime, TaskTimeError>(TaskTimeError::Unparsable),
        },
{
    match parsed {
        Some((year, month, day, secs, frac)) => match ClockTime::new(secs, frac) {
            Some(time) => Ok(TaskTime { year, month, day, time }),
            None => Err(TaskTimeError::Unparsable),
        },
        None => Err(TaskTimeError::Unparsable),
    }
}

/// Reads a task time `HH:MM:SS[.fraction]`: it is dated `2023-01-01` and read with the layout
/// `%Y-%m-%d %H:%M:%S%.f`.
pub fn parse_task_time(task_time_str: &str) -> (res: Result<TaskTime, TaskTimeError>)
    ensures
        match chrono_parse_date_time(task_date_prefix() + task_time_str@, task_time_format()) {
            Some(v) => res matches Ok(t) && task_time_matches(t, v),
            None => res == Err::<TaskTime, TaskTimeError>(TaskTimeError::Unparsable),
        },
{
    let mut text = String::from_str("2023-01-01 ");
    text.append(task_time_str);
    let parsed = match naive_date_time_parse_from_str(text.as_str(), "%Y-%m-%d %H:%M:%S%.f") {
        Ok(v) => Some(v),
        Err(_) => None,
    };
    task_time_from_parsed(parsed)
}

} // verus!
