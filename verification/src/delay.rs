//! Delays that a caller asks for before an answer.

use vstd::prelude::*;
use vstd::string::*;

verus! {

/// The longest delay, in milliseconds.
pub const MAX_DELAY_MS: u64 = 60_000;

/// Accepts a delay of at most [`MAX_DELAY_MS`], or none.
pub fn validate_delay(delay: Option<u64>) -> (r: Result<Option<u64>, &'static str>)
    ensures
        match r {
            Ok(accepted) => accepted == delay && (delay matches Some(ms) ==> ms <= MAX_DELAY_MS),
            Err(message) => (delay matches Some(ms) && ms > MAX_DELAY_MS) && message@
                == "delay exceeds the 60000 ms limit"@,
        },
        r is Err <==> too_long(delay),
{
    match delay {
        Some(ms) => if ms > MAX_DELAY_MS {
            Err("delay exceeds the 60000 ms limit")
        } else {
            Ok(delay)
        },
        None => Ok(delay),
    }
}

/// The delay that a mean and a value drawn around it give: the mean where nothing was drawn,
/// else the value, moved to the nearer end where it is below zero or above the limit.
pub open spec fn delay_of(mean_ms: u64, drawn_ms: Option<i64>) -> int {
    match drawn_ms {
        None => mean_ms as int,
        Some(drawn) => if drawn < 0 {
            0
        } else if drawn > MAX_DELAY_MS {
            MAX_DELAY_MS as int
        } else {
            drawn as int
        },
    }
}

/// The delay to wait, from the mean and from what was drawn around it, rounded to a whole number
/// of milliseconds. Nothing is drawn without a spread, and the mean is then left unchanged.
pub fn compute_delay(mean_ms: u64, drawn_ms: Option<i64>) -> (r: u64)
    ensures
        r == delay_of(mean_ms, drawn_ms),
{
    match drawn_ms {
        None => mean_ms,
        Some(drawn) => if drawn < 0 {
            0
        } else if drawn > MAX_DELAY_MS as i64 {
            MAX_DELAY_MS
        } else {
            drawn as u64
        },
    }
}

/// An echo that was accepted: the mean of the delay, if there is to be one, and the message to
/// answer with.
#[derive(Debug, PartialEq, Eq)]
pub struct EchoStep {
    pub mean_ms: Option<u64>,
    pub message: String,
}

/// The mean of the delay that is to pass: one of zero is none.
pub open spec fn pause_of(delay: Option<u64>) -> Option<u64> {
    match delay {
        Some(ms) => if ms > 0 {
            Some(ms)
        } else {
            None
        },
        None => None,
    }
}

/// Whether a delay is above the limit.
pub open spec fn too_long(delay: Option<u64>) -> bool {
    delay matches Some(ms) && ms > MAX_DELAY_MS
}

/// Decides what an echo does: it is refused for a delay above the limit, and otherwise answers
/// with its message, after the delay.
pub fn plan_echo(message: String, delay: Option<u64>) -> (r: Result<EchoStep, &'static str>)
    ensures
        match r {
            Ok(step) => !too_long(delay) && step.message == message && step.mean_ms == pause_of(
                delay,
            ),
            Err(reason) => too_long(delay) && reason@ == "delay exceeds the 60000 ms limit"@,
        },
        delay matches Some(ms) ==> (0 < ms <= 60_000 ==> (r matches Ok(step) && step.mean_ms
            == Some(ms))),
        delay is None || delay == Some(0u64) ==> (r matches Ok(step) && step.mean_ms is None),
        delay matches Some(ms) && ms > 60_000 ==> r is Err,
{
    let accepted: Option<u64> = match validate_delay(delay) {
        Ok(accepted) => accepted,
        Err(reason) => {
            return Err(reason);
        },
    };
    let mean_ms: Option<u64> = match accepted {
        Some(ms) => if ms > 0 {
            Some(ms)
        } else {
            None
        },
        None => None,
    };
    Ok(EchoStep { mean_ms, message })
}

/// No echo that is accepted waits longer than the limit, whatever is drawn around its delay.
pub proof fn no_delay_exceeds_the_limit(delay: Option<u64>, drawn_ms: Option<i64>)
    requires
        !too_long(delay),
    ensures
        pause_of(delay) matches Some(mean_ms) ==> 0 <= delay_of(mean_ms, drawn_ms) <= MAX_DELAY_MS,
{
}

/// An echo is refused just where it asks for more than a minute. Otherwise it waits for what it
/// asks: with nothing drawn, for just as many milliseconds, and not at all for none.
pub proof fn echoes_wait_as_asked(delay: Option<u64>)
    ensures
        too_long(delay) <==> (delay matches Some(ms) && ms > 60_000),
        delay matches Some(ms) ==> (0 < ms <= 60_000 ==> (pause_of(delay) matches Some(mean_ms)
            && mean_ms == ms && delay_of(mean_ms, None) == ms)),
        delay is None || delay == Some(0u64) ==> pause_of(delay) is None,
{
}

/// What is waited where a value was drawn is the delay from zero to the limit that is nearest to
/// it, whatever the mean.
pub proof fn drawn_delays_are_moved_as_little_as_can_be(mean_ms: u64, drawn: i64, other: int)
    requires
        0 <= other <= 60_000,
    ensures
        ({
            let wait = delay_of(mean_ms, Some(drawn));
            let moved = if wait < drawn {
                drawn - wait
            } else {
                wait - drawn
            };
            let other_moved = if other < drawn {
                drawn - other
            } else {
                other - drawn
            };
            &&& 0 <= wait <= 60_000
            &&& moved <= other_moved
            &&& 0 <= drawn <= 60_000 ==> wait == drawn
        }),
{
}

} // verus!
