//! The daily schedule: how long it is until the target hour, and which step
//! the scheduler takes when the clock is synchronised or a timer fires.

use vstd::prelude::*;
use chrono::Timelike;
use std::time::Duration;

verus! {

/// The hour of day at which the daily report is due.
pub const REPORT_HOUR: u32 = 8;

/// Seconds in a day.
pub const DAY_SECONDS: u64 = 86400;

/// Nanoseconds in a second.
pub const SECOND_NANOS: u64 = 1000000000;

/// Nanoseconds in a day.
pub const DAY_NANOS: u64 = 86400000000000;

/// The length of a `std::time::Duration` in nanoseconds.
pub uninterp spec fn duration_nanos(d: Duration) -> nat;

/// `Duration::new`: the duration of `secs` whole seconds and `nanos`
/// nanoseconds. With less than a second of nanoseconds nothing carries over
/// and the call cannot overflow.
#[verifier::external_body]
fn make_duration(secs: u64, nanos: u32) -> (r: Duration)
    requires
        nanos < SECOND_NANOS,
    ensures
        duration_nanos(r) == secs * SECOND_NANOS + nanos,
{
    Duration::new(secs, nanos)
}

/// `chrono::Local::now`, then `DateTime::time`, `num_seconds_from_midnight`
/// and `nanosecond`: the local time of day as seconds since midnight and
/// nanoseconds within the second. Every `NaiveTime` has less than 86400
/// seconds and less than two thousand million nanoseconds, the second
/// thousand million standing for a leap second. Which time comes back is
/// the clock's business. The clock must not stand before 1970.
#[verifier::external_body]
fn local_clock() -> (r: (u32, u32))
    ensures
        r.0 < DAY_SECONDS,
        r.1 < 2 * SECOND_NANOS,
{
    let now = chrono::Local::now().time();
    (now.num_seconds_from_midnight(), now.nanosecond())
}

/// A time of day: seconds since midnight and nanoseconds within the second.
/// A time within a leap second has its nanoseconds counted on from a
/// thousand million.
#[derive(Debug, Clone, Copy)]
pub struct TimeOfDay {
    secs: u32,
    nanos: u32,
}

impl TimeOfDay {
    /// Seconds since midnight.
    pub closed spec fn secs(&self) -> int {
        self.secs as int
    }

    /// Nanoseconds within the second.
    pub closed spec fn nanos(&self) -> int {
        self.nanos as int
    }

    #[verifier::type_invariant]
    spec fn in_range(&self) -> bool {
        self.secs < DAY_SECONDS && self.nanos < 2 * SECOND_NANOS
    }

    /// The time of day with these seconds and nanoseconds, if there is one.
    pub fn new(secs: u32, nanos: u32) -> (r: Option<TimeOfDay>)
        ensures
            r is Some <==> secs < DAY_SECONDS && nanos < 2 * SECOND_NANOS,
            r is Some ==> r.unwrap().secs() == secs && r.unwrap().nanos() == nanos,
    {
        if (secs as u64) < DAY_SECONDS && (nanos as u64) < 2 * SECOND_NANOS {
            Some(TimeOfDay { secs, nanos })
        } else {
            None
        }
    }

    /// The time of day at a full hour, minute and second, if there is one.
    pub fn from_hms(hour: u32, minute: u32, second: u32) -> (r: Option<TimeOfDay>)
        ensures
            r is Some <==> hour < 24 && minute < 60 && second < 60,
            r is Some ==> r.unwrap().secs() == hour * 3600 + minute * 60 + second
                && r.unwrap().nanos() == 0,
    {
        if hour < 24 && minute < 60 && second < 60 {
            Some(TimeOfDay { secs: hour * 3600 + minute * 60 + second, nanos: 0 })
        } else {
            None
        }
    }

    /// The local time of day, read from the clock. Which time it is, is
    /// the clock's business.
    pub fn now() -> (r: TimeOfDay)
        ensures
            0 <= r.secs() < 86400,
            0 <= r.nanos() < 2000000000,
    {
        let (secs, nanos) = local_clock();
        TimeOfDay { secs, nanos }
    }

    /// Seconds since midnight.
    pub fn seconds(&self) -> (r: u32)
        ensures
            r == self.secs(),
            r < 86400,
    {
        proof {
            use_type_invariant(self);
        }
        self.secs
    }

    /// Nanoseconds within the second.
    pub fn nanoseconds(&self) -> (r: u32)
        ensures
            r == self.nanos(),
            r < 2000000000,
    {
        proof {
            use_type_invariant(self);
        }
        self.nanos
    }
}

/// The hour of day at which something is due: 0 to 23.
#[derive(Debug, Clone, Copy)]
pub struct ScheduleTarget {
    hour: u32,
}

impl ScheduleTarget {
    /// The hour of day.
    pub closed spec fn hour_of_day(&self) -> int {
        self.hour as int
    }

    #[verifier::type_invariant]
    spec fn in_day(&self) -> bool {
        self.hour <= 23
    }

    /// The target at `hour`, if that is an hour of the day.
    pub fn new(hour: u32) -> (r: Option<ScheduleTarget>)
        ensures
            r is Some <==> hour <= 23,
            r is Some ==> r.unwrap().hour_of_day() == hour,
    {
        if hour <= 23 {
            Some(ScheduleTarget { hour })
        } else {
            None
        }
    }

    /// The hour of day.
    pub fn hour(&self) -> (r: u32)
        ensures
            r == self.hour_of_day(),
            r <= 23,
    {
        proof {
            use_type_invariant(self);
        }
        self.hour
    }

    /// How long it is from `now` to the next start of the target hour.
    /// There is always a duration, but for a `now` in a leap second at the
    /// very end of the day with midnight as the target.
    pub fn duration_from(&self, now: TimeOfDay) -> (r: Option<Duration>)
        ensures
            match nanos_until(now.secs(), now.nanos(), self.hour_of_day()) {
                Some(n) => r is Some && duration_nanos(r.unwrap()) == n,
                None => r is None,
            },
            now.nanos() < 1000000000 ==> r is Some,
    {
        proof {
            use_type_invariant(self);
            use_type_invariant(&now);
        }
        duration_until(now, self.hour)
    }
}

/// The nanoseconds from a time of day to the next start of `hour`.
///
/// Before the hour, and at its very start, it is the rest of the way to it;
/// of a leap second only the part within the second counts. After it, it is
/// a day less the time since the hour. There is none for an hour past 23,
/// and none where more than a day has gone by since the hour, which only a
/// leap second at the end of the day can bring about.
pub open spec fn nanos_until(secs: int, nanos: int, hour: int) -> Option<int> {
    let target = hour * 3600;
    if hour > 23 {
        None
    } else if secs < target || (secs == target && nanos == 0) {
        Some((target - secs) * 1000000000 - nanos % 1000000000)
    } else {
        let past = (secs - target) * 1000000000 + nanos;
        if past > 86400000000000 {
            None
        } else {
            Some(86400000000000 - past)
        }
    }
}

/// The nanoseconds from `now` to the next start of `hour`.
pub fn nanos_until_hour(now: TimeOfDay, hour: u32) -> (r: Option<u64>)
    ensures
        match nanos_until(now.secs(), now.nanos(), hour as int) {
            Some(n) => r == Some(n as u64) && n <= DAY_NANOS,
            None => r is None,
        },
{
    proof {
        use_type_invariant(&now);
    }
    if hour > 23 {
        return None;
    }
    let target: u64 = hour as u64 * 3600;
    let secs: u64 = now.secs as u64;
    let nanos: u64 = now.nanos as u64;
    if secs < target || (secs == target && nanos == 0) {
        Some((target - secs) * SECOND_NANOS - nanos % SECOND_NANOS)
    } else {
        let past: u64 = (secs - target) * SECOND_NANOS + nanos;
        if past > DAY_NANOS {
            None
        } else {
            Some(DAY_NANOS - past)
        }
    }
}

/// How long it is from `now` to the next start of `hour`.
pub fn duration_until(now: TimeOfDay, hour: u32) -> (r: Option<Duration>)
    ensures
        match nanos_until(now.secs(), now.nanos(), hour as int) {
            Some(n) => r is Some && duration_nanos(r.unwrap()) == n,
            None => r is None,
        },
{
    match nanos_until_hour(now, hour) {
        Some(total) => Some(
            make_duration(total / SECOND_NANOS, (total % SECOND_NANOS) as u32),
        ),
        None => None,
    }
}

/// How long it is from now, by the local clock, to the next start of
/// `hour`: `duration_until` of whatever time the clock gives. For an hour
/// past 23 there is none, and the clock is not asked.
pub fn get_duration_until_next(hour: u32) -> (r: Option<Duration>)
    ensures
        hour > 23 ==> r is None,
        exists|secs: int, nanos: int|
            0 <= secs < 86400 && 0 <= nanos < 2000000000 && match #[trigger] nanos_until(
                secs,
                nanos,
                hour as int,
            ) {
                Some(n) => r is Some && duration_nanos(r.unwrap()) == n,
                None => r is None,
            },
{
    if hour > 23 {
        assert(nanos_until(0, 0, hour as int) is None);
        return None;
    }
    let now = TimeOfDay::now();
    proof {
        use_type_invariant(&now);
    }
    duration_until(now, hour)
}

/// From the start of the hour it is no time at all; from any other time it
/// is more than nothing and at most a day.
pub proof fn lemma_until_within_a_day(secs: int, nanos: int, hour: int)
    requires
        0 <= secs < 86400,
        0 <= nanos < 2000000000,
        0 <= hour <= 23,
        nanos_until(secs, nanos, hour) is Some,
    ensures
        0 <= nanos_until(secs, nanos, hour)->0 <= 86400000000000,
        nanos_until(secs, nanos, hour)->0 == 0 <==> (secs == hour * 3600 && nanos == 0)
            || (secs == 86399 && hour == 0 && nanos == 1000000000),
{
}

/// Outside a leap second there is always a duration, and waiting it out
/// from `now` ends exactly at the start of the hour, today or tomorrow.
pub proof fn lemma_until_lands_on_the_hour(secs: int, nanos: int, hour: int)
    requires
        0 <= secs < 86400,
        0 <= nanos < 1000000000,
        0 <= hour <= 23,
    ensures
        nanos_until(secs, nanos, hour) is Some,
        (secs * 1000000000 + nanos + nanos_until(secs, nanos, hour)->0) % 86400000000000 == hour
            * 3600 * 1000000000,
{
    let until = nanos_until(secs, nanos, hour)->0;
    let at = secs * 1000000000 + nanos + until;
    let goal = hour * 3600 * 1000000000;
    if secs < hour * 3600 || (secs == hour * 3600 && nanos == 0) {
        assert(at == goal);
    } else {
        assert(at == goal + 86400000000000);
    }
}

/// Why the schedule came to an end.
#[derive(Debug, PartialEq, Eq, Structural, Clone, Copy)]
pub enum TimerError {
    /// There is no duration to the target hour.
    ConversionError,
    /// The timer service failed; the driver's error code.
    TimerError(i32),
}

/// Where the schedule stands.
#[derive(Debug, PartialEq, Eq, Structural, Clone, Copy)]
pub enum SchedulePhase {
    /// The clock has not been synchronised yet; nothing is computed.
    AwaitingSync,
    /// The one timer that ends at the target hour is running.
    Aligning,
    /// The daily timer is running.
    Recurring,
    /// The schedule has ended with an error.
    Stopped,
}

/// What happened outside.
#[derive(Debug, Clone, Copy)]
pub enum ScheduleEvent {
    /// The clock was synchronised; the local time of day at that moment.
    ClockSynced(TimeOfDay),
    /// The running timer fired.
    TimerFired,
    /// The timer service failed; the driver's error code.
    TimerFailed(i32),
}

/// What is to be done outside.
#[derive(Debug, PartialEq, Eq, Structural, Clone, Copy)]
pub enum ScheduleAction {
    /// Nothing.
    Idle,
    /// Invoke the callback, then run one timer of so many nanoseconds.
    InvokeThenWait(u64),
    /// Invoke the callback, then start a timer that fires every so many
    /// nanoseconds.
    InvokeThenRepeat(u64),
    /// Invoke the callback.
    Invoke,
    /// Give up with this error.
    Stop(TimerError),
}

/// The step of the schedule: the next phase and what is to be done.
///
/// Until the clock is synchronised nothing happens. The synchronisation
/// invokes the callback at once and starts the timer to the target hour,
/// or ends the schedule where there is no duration to that hour. When that
/// timer fires the callback is invoked and the daily timer starts; each
/// time the daily timer fires the callback is invoked. A failure of the
/// timer service ends the schedule. A stopped schedule stays stopped.
pub open spec fn step_of(
    phase: SchedulePhase,
    event: ScheduleEvent,
    hour: u32,
) -> (SchedulePhase, ScheduleAction) {
    match phase {
        SchedulePhase::Stopped => (SchedulePhase::Stopped, ScheduleAction::Idle),
        _ => match event {
            ScheduleEvent::TimerFailed(code) => (
                SchedulePhase::Stopped,
                ScheduleAction::Stop(TimerError::TimerError(code)),
            ),
            ScheduleEvent::ClockSynced(now) => if phase == SchedulePhase::AwaitingSync {
                match nanos_until(now.secs(), now.nanos(), hour as int) {
                    Some(n) => (SchedulePhase::Aligning, ScheduleAction::InvokeThenWait(n as u64)),
                    None => (
                        SchedulePhase::Stopped,
                        ScheduleAction::Stop(TimerError::ConversionError),
                    ),
                }
            } else {
                (phase, ScheduleAction::Idle)
            },
            ScheduleEvent::TimerFired => match phase {
                SchedulePhase::Aligning => (
                    SchedulePhase::Recurring,
                    ScheduleAction::InvokeThenRepeat(DAY_NANOS),
                ),
                SchedulePhase::Recurring => (SchedulePhase::Recurring, ScheduleAction::Invoke),
                _ => (phase, ScheduleAction::Idle),
            },
        },
    }
}

/// Takes one step of the schedule for the target hour `hour`.
pub fn shedule_event(phase: SchedulePhase, event: ScheduleEvent, hour: u32) -> (r: (
    SchedulePhase,
    ScheduleAction,
))
    ensures
        r == step_of(phase, event, hour),
{
    match phase {
        SchedulePhase::Stopped => (SchedulePhase::Stopped, ScheduleAction::Idle),
        _ => match event {
            ScheduleEvent::TimerFailed(code) => (
                SchedulePhase::Stopped,
                ScheduleAction::Stop(TimerError::TimerError(code)),
            ),
            ScheduleEvent::ClockSynced(now) => match phase {
                SchedulePhase::AwaitingSync => match nanos_until_hour(now, hour) {
                    Some(n) => (SchedulePhase::Aligning, ScheduleAction::InvokeThenWait(n)),
                    None => (
                        SchedulePhase::Stopped,
                        ScheduleAction::Stop(TimerError::ConversionError),
                    ),
                },
                _ => (phase, ScheduleAction::Idle),
            },
            ScheduleEvent::TimerFired => match phase {
                SchedulePhase::Aligning => (
                    SchedulePhase::Recurring,
                    ScheduleAction::InvokeThenRepeat(DAY_NANOS),
                ),
                SchedulePhase::Recurring => (SchedulePhase::Recurring, ScheduleAction::Invoke),
                _ => (phase, ScheduleAction::Idle),
            },
        },
    }
}

/// Whether an action invokes the callback.
pub open spec fn invokes(action: ScheduleAction) -> bool {
    action is InvokeThenWait || action is InvokeThenRepeat || action is Invoke
}

/// Before the clock is synchronised the callback is never invoked and no
/// timer is started, whatever fires.
pub proof fn lemma_nothing_before_sync(event: ScheduleEvent, hour: u32)
    requires
        !(event is ClockSynced),
    ensures
        !invokes(step_of(SchedulePhase::AwaitingSync, event, hour).1),
        step_of(SchedulePhase::AwaitingSync, event, hour).0 != SchedulePhase::Aligning,
        step_of(SchedulePhase::AwaitingSync, event, hour).0 != SchedulePhase::Recurring,
{
}

/// Once the timer to the target hour has fired, every firing invokes the
/// callback exactly where the daily timer stands, and the daily timer has a
/// period of a day.
pub proof fn lemma_daily_rhythm(hour: u32)
    ensures
        step_of(SchedulePhase::Aligning, ScheduleEvent::TimerFired, hour) == (
            SchedulePhase::Recurring,
            ScheduleAction::InvokeThenRepeat(DAY_NANOS),
        ),
        step_of(SchedulePhase::Recurring, ScheduleEvent::TimerFired, hour) == (
            SchedulePhase::Recurring,
            ScheduleAction::Invoke,
        ),
{
}

} // verus!
