//! Small helpers: the wall clock, decimal text, the retry schedule and the
//! retry policy.

use crate::config::{DEFAULT_RETRY_ATTEMPTS, DEFAULT_RETRY_DELAY};
use crate::stats::FailureTime;
use chrono::Datelike;
use vstd::prelude::*;
use vstd::string::StringExecFns;

verus! {

/// One reading of the local wall clock.
pub struct LocalNow {
    /// The reading as plain numbers.
    pub time: FailureTime,
    /// The reading as `YYYY-MM-DD hh:mm:ss`, for messages.
    pub stamp: String,
}

/// Reads the local wall clock through `chrono::Local::now`. Nothing is
/// claimed of the reading: it depends on the time and the time zone of the
/// machine.
#[verifier::external_body]
pub(crate) fn local_now() -> (now: LocalNow) {
    let now = chrono::Local::now();
    LocalNow {
        time: FailureTime {
            date: now.date_naive().num_days_from_ce(),
            timestamp_millis: now.timestamp_millis(),
        },
        stamp: now.format("%Y-%m-%d %H:%M:%S").to_string(),
    }
}

/// The character of a decimal digit.
pub open spec fn digit_char(d: nat) -> char {
    if d == 0 {
        '0'
    } else if d == 1 {
        '1'
    } else if d == 2 {
        '2'
    } else if d == 3 {
        '3'
    } else if d == 4 {
        '4'
    } else if d == 5 {
        '5'
    } else if d == 6 {
        '6'
    } else if d == 7 {
        '7'
    } else if d == 8 {
        '8'
    } else {
        '9'
    }
}

/// A natural number in decimal, without leading zeros.
pub open spec fn decimal_text(n: nat) -> Seq<char>
    decreases n,
{
    if n < 10 {
        seq![digit_char(n)]
    } else {
        decimal_text(n / 10).push(digit_char(n % 10))
    }
}

fn digit_str(d: u64) -> (text: &'static str)
    requires
        d < 10,
    ensures
        text@ == seq![digit_char(d as nat)],
{
    proof {
        reveal_strlit("0");
        reveal_strlit("1");
        reveal_strlit("2");
        reveal_strlit("3");
        reveal_strlit("4");
        reveal_strlit("5");
        reveal_strlit("6");
        reveal_strlit("7");
        reveal_strlit("8");
        reveal_strlit("9");
    }
    let text = if d == 0 {
        "0"
    } else if d == 1 {
        "1"
    } else if d == 2 {
        "2"
    } else if d == 3 {
        "3"
    } else if d == 4 {
        "4"
    } else if d == 5 {
        "5"
    } else if d == 6 {
        "6"
    } else if d == 7 {
        "7"
    } else if d == 8 {
        "8"
    } else {
        "9"
    };
    assert(text@ =~= seq![digit_char(d as nat)]);
    text
}

/// Writes `n` in decimal.
pub fn decimal(n: u64) -> (text: String)
    ensures
        text@ == decimal_text(n as nat),
    decreases n,
{
    if n < 10 {
        String::from_str(digit_str(n))
    } else {
        let mut text = decimal(n / 10);
        text.append(digit_str(n % 10));
        assert(text@ =~= decimal_text(n as nat));
        text
    }
}

/// A span of `seconds` as hours, minutes below sixty and seconds below sixty.
pub open spec fn duration_text(seconds: nat) -> Seq<char> {
    decimal_text(seconds / 3600) + "h "@ + decimal_text((seconds % 3600) / 60) + "m "@
        + decimal_text(seconds % 60) + "s"@
}

/// Formats a span given in whole seconds, such as `1h 1m 1s` for 3661.
pub fn format_duration(seconds: u64) -> (text: String)
    ensures
        text@ == duration_text(seconds as nat),
{
    let hours = seconds / 3600;
    let minutes = (seconds % 3600) / 60;
    let rest = seconds % 60;
    let mut text = decimal(hours);
    text.append("h ");
    text.append(decimal(minutes).as_str());
    text.append("m ");
    text.append(decimal(rest).as_str());
    text.append("s");
    text
}

/// The longest pause between two attempts, in milliseconds.
pub const MAX_RETRY_DELAY_MS: u64 = 60_000;

/// The factor by which each pause is longer than the one before.
pub const RETRY_FACTOR: u64 = 2;

/// The product of two numbers, held at the largest `u64`.
pub open spec fn saturating_product(a: nat, b: nat) -> nat {
    if a * b > u64::MAX {
        u64::MAX as nat
    } else {
        a * b
    }
}

/// The number that `tokio_retry`'s `ExponentialBackoff` holds before it
/// yields its delay number `index` (from zero): it starts at `base` and is
/// multiplied by `base` after every delay that stayed within the cap.
pub open spec fn backoff_state(base: nat, factor: nat, max_ms: nat, index: nat) -> nat
    decreases index,
{
    if index == 0 {
        base
    } else {
        let before = backoff_state(base, factor, max_ms, (index - 1) as nat);
        if saturating_product(before, factor) > max_ms {
            before
        } else {
            saturating_product(before, base)
        }
    }
}

/// The delay number `index` (from zero) of `tokio_retry`'s
/// `ExponentialBackoff`, in milliseconds: the number it holds times
/// `factor`, or the cap where that is more.
pub open spec fn backoff_delay(base: nat, factor: nat, max_ms: nat, index: nat) -> nat {
    let delay = saturating_product(backoff_state(base, factor, max_ms, index), factor);
    if delay > max_ms {
        max_ms
    } else {
        delay
    }
}

/// Takes the first `count` delays of `tokio_retry`'s `ExponentialBackoff`
/// started at `base` with `factor` and capped at `max_ms`, each passed
/// through `tokio_retry::strategy::jitter`, in milliseconds. The backoff
/// never ends, and its delays are those of `backoff_delay`; the jitter
/// multiplies by a random factor below one. So there are `count` delays,
/// each at most the backoff's own; by how much less is left open.
#[verifier::external_body]
fn jittered_backoff(base: u64, factor: u64, max_ms: u64, count: usize) -> (delays: Vec<u64>)
    requires
        max_ms <= u32::MAX,
    ensures
        delays@.len() == count,
        forall|i: int|
            0 <= i < count ==> #[trigger] delays@[i] <= backoff_delay(
                base as nat,
                factor as nat,
                max_ms as nat,
                i as nat,
            ),
{
    tokio_retry::strategy::ExponentialBackoff::from_millis(base)
        .factor(factor)
        .max_delay(std::time::Duration::from_millis(max_ms))
        .map(tokio_retry::strategy::jitter)
        .take(count)
        .map(|delay| delay.as_millis() as u64)
        .collect()
}

/// The pause before retry number `index` (from zero), before jitter and
/// cap: the base delay, doubled for every retry before.
pub open spec fn scheduled_delay(index: nat) -> nat
    decreases index,
{
    if index == 0 {
        DEFAULT_RETRY_DELAY as nat
    } else {
        (RETRY_FACTOR as nat) * scheduled_delay((index - 1) as nat)
    }
}

/// The longest that the pause before retry number `index` can be: the
/// scheduled delay, or the cap where that is more.
pub open spec fn longest_pause(index: nat) -> nat {
    if scheduled_delay(index) > MAX_RETRY_DELAY_MS {
        MAX_RETRY_DELAY_MS as nat
    } else {
        scheduled_delay(index)
    }
}

/// The pauses, in milliseconds, between the attempts of one call: one
/// fewer than the attempts allowed, each at most the scheduled delay of its
/// position and at most the cap, shortened by a random jitter.
pub fn get_retry_strategy() -> (delays: Vec<u64>)
    ensures
        delays@.len() == DEFAULT_RETRY_ATTEMPTS - 1,
        forall|i: int| 0 <= i < delays@.len() ==> #[trigger] delays@[i] <= longest_pause(i as nat),
{
    // The backoff multiplies the number it holds by its base and yields that
    // number times its factor: held 2, 4, .. and factor 500 give 1000, 2000, ..
    let delays = jittered_backoff(
        RETRY_FACTOR,
        DEFAULT_RETRY_DELAY / RETRY_FACTOR,
        MAX_RETRY_DELAY_MS,
        (DEFAULT_RETRY_ATTEMPTS - 1) as usize,
    );
    proof {
        lemma_backoff_follows_the_schedule(0);
        lemma_backoff_follows_the_schedule(1);
        assert forall|i: int| 0 <= i < delays@.len() implies #[trigger] delays@[i] <= longest_pause(
            i as nat,
        ) by {
            if i == 0 {
            } else {
                assert(i == 1);
            }
        }
    }
    delays
}

/// The scheduled delays of the first six positions, the last ones below
/// the cap: 1000 ms, doubled from each position to the next.
pub proof fn lemma_scheduled_delays()
    ensures
        scheduled_delay(0) == 1000,
        scheduled_delay(1) == 2000,
        scheduled_delay(2) == 4000,
        scheduled_delay(3) == 8000,
        scheduled_delay(4) == 16_000,
        scheduled_delay(5) == 32_000,
{
    assert(scheduled_delay(0) == 1000);
    assert(scheduled_delay(1) == 2000);
    assert(scheduled_delay(2) == 4000);
    assert(scheduled_delay(3) == 8000);
    assert(scheduled_delay(4) == 16_000);
}

/// With the library's parameters the outside backoff gives the scheduled
/// delays: 1000 ms doubled for each position, held at the cap. Up to the
/// cap the backoff holds the scheduled delay divided by its factor; from
/// the cap on it holds 128 and yields the cap.
pub proof fn lemma_backoff_follows_the_schedule(index: nat)
    ensures
        backoff_delay(
            RETRY_FACTOR as nat,
            (DEFAULT_RETRY_DELAY / RETRY_FACTOR) as nat,
            MAX_RETRY_DELAY_MS as nat,
            index,
        ) == longest_pause(index),
        index < 6 ==> scheduled_delay(index) == 500 * backoff_state(2, 500, 60_000, index),
        index >= 6 ==> backoff_state(2, 500, 60_000, index) == 128,
        index >= 6 ==> scheduled_delay(index) >= 64_000,
    decreases index,
{
    lemma_scheduled_delays();
    if index > 0 {
        lemma_backoff_follows_the_schedule((index - 1) as nat);
        let before = backoff_state(2, 500, 60_000, (index - 1) as nat);
        if index < 7 {
            lemma_scheduled_delay_grows((index - 1) as nat, 5);
            assert(before <= 64);
            assert(saturating_product(before, 500) == before * 500);
            assert(saturating_product(before, 2) == before * 2);
        } else {
            assert(saturating_product(before, 500) == 64_000);
        }
    }
    let held = backoff_state(2, 500, 60_000, index);
    if index < 6 {
        lemma_scheduled_delay_grows(index, 5);
        assert(saturating_product(held, 500) == held * 500);
    } else {
        assert(saturating_product(held, 500) == 64_000);
    }
}

/// A later position never has a shorter scheduled delay.
pub proof fn lemma_scheduled_delay_grows(earlier: nat, later: nat)
    requires
        earlier <= later,
    ensures
        scheduled_delay(earlier) <= scheduled_delay(later),
    decreases later,
{
    if earlier < later {
        lemma_scheduled_delay_grows(earlier, (later - 1) as nat);
    }
}

/// Why a call to the remote service failed.
#[derive(Clone, Copy, Debug, PartialEq, Eq, Structural)]
pub enum CallError {
    /// The network or a rate limit: trying again may help.
    Transient,
    /// The session is not valid: trying again cannot help.
    Fatal,
}

/// What to do after a failed attempt.
#[derive(Clone, Copy, Debug, PartialEq, Eq, Structural)]
pub enum RetryDecision {
    /// Pause for this many milliseconds, then try again.
    RetryAfter(u64),
    /// Hand the error to the caller.
    GiveUp,
}

/// The retry policy: after the attempt number `attempts_made` (counted
/// from one) has failed with `error`, try again only if the error is
/// transient, fewer attempts than the maximum were made and the schedule
/// still holds a delay; the pause is the schedule's delay for that retry.
pub open spec fn retry_decision(delays: Seq<u64>, attempts_made: nat, error: CallError) -> RetryDecision {
    if error == CallError::Transient && 1 <= attempts_made < DEFAULT_RETRY_ATTEMPTS && attempts_made
        <= delays.len() {
        RetryDecision::RetryAfter(delays[attempts_made - 1])
    } else {
        RetryDecision::GiveUp
    }
}

/// Decides what follows the failure of attempt number `attempts_made`.
pub fn after_failure(delays: &Vec<u64>, attempts_made: u32, error: CallError) -> (decision:
    RetryDecision)
    ensures
        decision == retry_decision(delays@, attempts_made as nat, error),
{
    match error {
        CallError::Fatal => RetryDecision::GiveUp,
        CallError::Transient => {
            if 1 <= attempts_made && attempts_made < DEFAULT_RETRY_ATTEMPTS && (attempts_made
                as usize) <= delays.len() {
                RetryDecision::RetryAfter(delays[(attempts_made - 1) as usize])
            } else {
                RetryDecision::GiveUp
            }
        },
    }
}

/// No call is attempted more often than the maximum: once that many
/// attempts have failed, the policy gives up whatever the error and the
/// schedule.
pub proof fn lemma_attempts_are_bounded(delays: Seq<u64>, attempts_made: nat, error: CallError)
    requires
        attempts_made >= DEFAULT_RETRY_ATTEMPTS,
    ensures
        retry_decision(delays, attempts_made, error) == RetryDecision::GiveUp,
{
}

/// A failure that is not transient is never retried.
pub proof fn lemma_fatal_is_not_retried(delays: Seq<u64>, attempts_made: nat)
    ensures
        retry_decision(delays, attempts_made, CallError::Fatal) == RetryDecision::GiveUp,
{
}

/// With the library's own schedule no pause is longer than the scheduled
/// delay of its retry, nor than the cap.
pub proof fn lemma_pause_is_capped(delays: Seq<u64>, attempts_made: nat, error: CallError)
    requires
        forall|i: int| 0 <= i < delays.len() ==> #[trigger] delays[i] <= longest_pause(i as nat),
    ensures
        match retry_decision(delays, attempts_made, error) {
            RetryDecision::RetryAfter(ms) => ms <= longest_pause((attempts_made - 1) as nat) && ms
                <= MAX_RETRY_DELAY_MS,
            RetryDecision::GiveUp => true,
        },
{
}

/// A caller that retries for as long as the library's schedule holds a
/// pause makes no more attempts than are allowed: with one pause fewer than
/// attempts, the policy retries after exactly the failures that a pause
/// is left for.
pub proof fn lemma_schedule_matches_the_attempts(delays: Seq<u64>, attempts_made: nat)
    requires
        delays.len() == DEFAULT_RETRY_ATTEMPTS - 1,
    ensures
        retry_decision(delays, attempts_made, CallError::Transient) is RetryAfter <==> 1
            <= attempts_made <= delays.len(),
{
}

/// The texts of a sequence of strings.
pub open spec fn texts(strings: Seq<String>) -> Seq<Seq<char>> {
    Seq::new(strings.len(), |i: int| strings[i]@)
}

/// Copies a list of strings.
pub fn clone_strings(strings: &Vec<String>) -> (copy: Vec<String>)
    ensures
        texts(copy@) == texts(strings@),
{
    let copy = strings.clone();
    assert(copy@ =~= strings@);
    copy
}

/// One lecture with its discussions, as texts.
pub struct GroupView {
    pub lecture: Seq<char>,
    pub discussions: Seq<Seq<char>>,
}

/// One course with its lecture groups, as texts.
pub struct CourseView {
    pub department: Seq<char>,
    pub course_code: Seq<char>,
    pub sections: Seq<GroupView>,
}

} // verus!
