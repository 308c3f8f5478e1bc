//! Instants, local times and days, as plain numbers.

use vstd::prelude::*;
use crate::calendar::{
    in_calendar, valid_time, EPOCH_DAY, MAX_DAY, MAX_SECS, MIN_DAY, MIN_SECS,
};

verus! {

/// An instant: seconds since 1970-01-01T00:00:00Z and nanoseconds within the second.
#[derive(Clone, Copy, Debug)]
pub struct UtcTime {
    secs: i64,
    nanos: u32,
}

/// What a wall clock reads: seconds since it read 1970-01-01T00:00:00 and nanoseconds within the
/// second.
#[derive(Clone, Copy, Debug)]
pub struct NaiveDateTime {
    secs: i64,
    nanos: u32,
}

/// A day of the calendar.
#[derive(Clone, Copy, Debug)]
pub struct NaiveDate {
    days_from_ce: i32,
}

impl View for UtcTime {
    type V = (i64, u32);

    closed spec fn view(&self) -> (i64, u32) {
        (self.secs, self.nanos)
    }
}

impl View for NaiveDateTime {
    type V = (i64, u32);

    closed spec fn view(&self) -> (i64, u32) {
        (self.secs, self.nanos)
    }
}

impl View for NaiveDate {
    type V = i32;

    closed spec fn view(&self) -> i32 {
        self.days_from_ce
    }
}

/// Whether the calendar can hold a point in time.
fn is_valid_time(secs: i64, nanos: u32) -> (r: bool)
    ensures
        r == valid_time(secs, nanos),
{
    MIN_SECS <= secs && secs <= MAX_SECS && nanos < 2_000_000_000
}

impl UtcTime {
    #[verifier::type_invariant]
    spec fn valid(&self) -> bool {
        valid_time(self.secs, self.nanos)
    }

    /// The instant `secs` seconds and `nanos` nanoseconds after 1970-01-01T00:00:00Z, if the
    /// calendar can hold it.
    pub fn new(secs: i64, nanos: u32) -> (r: Option<UtcTime>)
        ensures
            r is Some <==> valid_time(secs, nanos),
            r matches Some(t) ==> t@ == (secs, nanos),
    {
        if is_valid_time(secs, nanos) {
            Some(UtcTime { secs, nanos })
        } else {
            None
        }
    }

    /// The whole seconds.
    pub fn secs(&self) -> (r: i64)
        ensures
            r == self@.0,
            in_calendar(r as int),
    {
        proof {
            use_type_invariant(self);
        }
        self.secs
    }

    /// The nanoseconds within the second.
    pub fn nanos(&self) -> (r: u32)
        ensures
            r == self@.1,
            r < 2_000_000_000,
    {
        proof {
            use_type_invariant(self);
        }
        self.nanos
    }
}

impl NaiveDateTime {
    #[verifier::type_invariant]
    spec fn valid(&self) -> bool {
        valid_time(self.secs, self.nanos)
    }

    /// The local time `secs` seconds and `nanos` nanoseconds after 1970-01-01T00:00:00, if the
    /// calendar can hold it.
    pub fn new(secs: i64, nanos: u32) -> (r: Option<NaiveDateTime>)
        ensures
            r is Some <==> valid_time(secs, nanos),
            r matches Some(t) ==> t@ == (secs, nanos),
    {
        if is_valid_time(secs, nanos) {
            Some(NaiveDateTime { secs, nanos })
        } else {
            None
        }
    }

    /// The whole seconds.
    pub fn secs(&self) -> (r: i64)
        ensures
            r == self@.0,
            in_calendar(r as int),
    {
        proof {
            use_type_invariant(self);
        }
        self.secs
    }

    /// The nanoseconds within the second.
    pub fn nanos(&self) -> (r: u32)
        ensures
            r == self@.1,
            r < 2_000_000_000,
    {
        proof {
            use_type_invariant(self);
        }
        self.nanos
    }
}

/// Whether the calendar can hold the day.
pub open spec fn valid_day(days_from_ce: i32) -> bool {
    MIN_DAY <= days_from_ce <= MAX_DAY
}

/// The local time at which a day begins.
pub open spec fn start_of_day(days_from_ce: i32) -> (i64, u32) {
    (((days_from_ce - EPOCH_DAY) * 86_400) as i64, 0)
}

impl NaiveDate {
    #[verifier::type_invariant]
    spec fn valid(&self) -> bool {
        valid_day(self.days_from_ce)
    }

    /// The day with this number, counted from 0001-01-01 as day 1, if the calendar can hold it.
    pub fn from_num_days_from_ce(days_from_ce: i32) -> (r: Option<NaiveDate>)
        ensures
            r is Some <==> valid_day(days_from_ce),
            r matches Some(day) ==> day@ == days_from_ce,
    {
        if MIN_DAY <= days_from_ce && days_from_ce <= MAX_DAY {
            Some(NaiveDate { days_from_ce })
        } else {
            None
        }
    }

    /// The first second of the day.
    pub fn midnight(&self) -> (r: NaiveDateTime)
        ensures
            r@ == start_of_day(self@),
            r@.0 == (self@ - 719_163) * 86_400,
            r@.1 == 0,
    {
        proof {
            use_type_invariant(self);
        }
        let days: i64 = self.days_from_ce as i64 - EPOCH_DAY as i64;
        NaiveDateTime { secs: days * 86_400, nanos: 0 }
    }
}

/// A day begins when the clock reads 00:00:00, as many times 86,400 seconds after 1970-01-01 as
/// there are days between them, and the next day begins 86,400 seconds later.
pub proof fn days_begin_at_midnight(day: i32)
    requires
        -95_746_129 <= day <= 95_745_399,
    ensures
        start_of_day(day).0 == (day - 719_163) * 86_400,
        start_of_day(day).1 == 0,
        start_of_day(day).0 as int % 86_400 == 0,
        day == 719_163 ==> start_of_day(day).0 == 0,
        start_of_day((day + 1) as i32).0 == start_of_day(day).0 + 86_400,
        valid_time(start_of_day(day).0, start_of_day(day).1),
{
}

/// The days of the calendar are those of which it holds the first and the last second.
pub proof fn days_are_held_whole(day: i32)
    ensures
        valid_day(day) <==> -95_746_129 <= day <= 95_745_399,
        valid_day(day) <==> in_calendar((day - 719_163) * 86_400) && in_calendar(
            (day - 719_163) * 86_400 + 86_399,
        ),
{
}

} // verus!
