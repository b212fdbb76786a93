//! What follows a confirmed opening: the enrollment's outcome is counted,
//! a success clears the section's failure history, and a failure is
//! announced only while the throttle allows.

use crate::stats::{
    throttle_after, throttle_allows, with_error, with_opening, with_success, EnrollmentStats,
    FailureTime, StatsView,
};
use crate::monitor::{
    lemma_failed_recheck_is_no_action, recheck_step, should_attempt_spec, CycleStepView, SectionStatus,
};
use crate::utils::{local_now, CallError, LocalNow};
use vstd::prelude::*;
use vstd::string::StringExecFns;

verus! {

/// The key under which a section's failures are tracked:
/// department, course code, section label and term, joined by underscores.
pub open spec fn section_key_text(
    department: Seq<char>,
    course_code: Seq<char>,
    section: Seq<char>,
    term: Seq<char>,
) -> Seq<char> {
    department + "_"@ + course_code + "_"@ + section + "_"@ + term
}

/// Writes the key under which a section's failures are tracked.
pub fn section_key(department: &str, course_code: &str, section: &str, term: &str) -> (key: String)
    ensures
        key@ == section_key_text(department@, course_code@, section@, term@),
{
    let mut key = department.to_owned();
    key.append("_");
    key.append(course_code);
    key.append("_");
    key.append(section);
    key.append("_");
    key.append(term);
    key
}

/// The announcement of a successful enrollment.
pub open spec fn success_text(
    department: Seq<char>,
    course_code: Seq<char>,
    section: Seq<char>,
    stamp: Seq<char>,
) -> Seq<char> {
    "Successfully enrolled in "@ + department + " "@ + course_code + " section "@ + section
        + "!\n\nTime: "@ + stamp + "\nPlease verify on WebReg."@
}

/// The announcement of a failed enrollment.
pub open spec fn failure_text(
    department: Seq<char>,
    course_code: Seq<char>,
    section: Seq<char>,
    stamp: Seq<char>,
) -> Seq<char> {
    "Failed to enroll in "@ + department + " "@ + course_code + " section "@ + section
        + " despite available seats.\n\nTime: "@ + stamp + "\nPlease check WebReg manually."@
}

/// Writes the announcement of a successful enrollment.
pub fn success_message(department: &str, course_code: &str, section: &str, stamp: &str) -> (text:
    String)
    ensures
        text@ == success_text(department@, course_code@, section@, stamp@),
{
    let mut text = String::from_str("Successfully enrolled in ");
    text.append(department);
    text.append(" ");
    text.append(course_code);
    text.append(" section ");
    text.append(section);
    text.append("!\n\nTime: ");
    text.append(stamp);
    text.append("\nPlease verify on WebReg.");
    text
}

/// Writes the announcement of a failed enrollment.
pub fn failure_message(department: &str, course_code: &str, section: &str, stamp: &str) -> (text:
    String)
    ensures
        text@ == failure_text(department@, course_code@, section@, stamp@),
{
    let mut text = String::from_str("Failed to enroll in ");
    text.append(department);
    text.append(" ");
    text.append(course_code);
    text.append(" section ");
    text.append(section);
    text.append(" despite available seats.\n\nTime: ");
    text.append(stamp);
    text.append("\nPlease check WebReg manually.");
    text
}

/// The section that an enrollment was attempted for.
pub struct Attempt<'a> {
    pub term: &'a str,
    pub department: &'a str,
    pub course_code: &'a str,
    pub section: &'a str,
}

impl<'a> Attempt<'a> {
    /// The key under which the section's failures are tracked.
    pub open spec fn key(&self) -> Seq<char> {
        section_key_text(self.department@, self.course_code@, self.section@, self.term@)
    }
}

/// What a poll of one section came to, after its retries.
pub enum PollOutcome {
    /// Both readings showed availability: enroll in this section.
    Confirmed(String),
    /// Nothing to do.
    NoChange,
    /// The status service failed for good.
    Failed(CallError),
}

/// What an enrollment came to, after its retries.
#[derive(Clone, Copy, Debug, PartialEq, Eq, Structural)]
pub enum EnrollOutcome {
    Enrolled,
    Refused,
    Failed(CallError),
}

/// The statistics after a poll: a confirmed opening counts as an opening
/// found and an enrollment attempt, a failed poll as an error, and a poll
/// without change leaves the statistics as they were.
pub open spec fn stats_after_poll(stats: StatsView, outcome: PollOutcome) -> StatsView {
    match outcome {
        PollOutcome::Confirmed(_) => with_opening(stats),
        PollOutcome::NoChange => stats,
        PollOutcome::Failed(_) => with_error(stats),
    }
}

/// The section to enroll in after a poll: the one the poll named, after a
/// confirmed opening and only then.
pub open spec fn enrollment_target(outcome: PollOutcome) -> Option<String> {
    match outcome {
        PollOutcome::Confirmed(section_id) => Some(section_id),
        _ => None,
    }
}

/// The outcome of a poll whose cycle ended with `found`, or whose status
/// call failed for good.
pub open spec fn poll_outcome_of(result: Result<Option<String>, CallError>) -> PollOutcome {
    match result {
        Ok(Some(section_id)) => PollOutcome::Confirmed(section_id),
        Ok(None) => PollOutcome::NoChange,
        Err(e) => PollOutcome::Failed(e),
    }
}

/// The outcome of a poll from how its cycle ended.
pub fn poll_outcome(result: Result<Option<String>, CallError>) -> (outcome: PollOutcome)
    ensures
        outcome == poll_outcome_of(result),
{
    match result {
        Ok(Some(section_id)) => PollOutcome::Confirmed(section_id),
        Ok(None) => PollOutcome::NoChange,
        Err(e) => PollOutcome::Failed(e),
    }
}

/// Counts the outcome of a poll and says whether an enrollment follows:
/// it does exactly after a confirmed opening, for the section the poll
/// named.
pub fn after_poll(stats: &mut EnrollmentStats, outcome: PollOutcome) -> (enroll_in: Option<String>)
    ensures
        final(stats)@ == stats_after_poll(old(stats)@, outcome),
        enroll_in == enrollment_target(outcome),
{
    match outcome {
        PollOutcome::Confirmed(section_id) => {
            stats.record_opening();
            Some(section_id)
        },
        PollOutcome::NoChange => None,
        PollOutcome::Failed(_) => {
            stats.record_error();
            None
        },
    }
}

/// The statistics after an enrollment for the section with `key` ended at
/// `now`: a success is counted and clears the section's failures, a refusal
/// goes through the throttle, a failed call counts as an error.
pub open spec fn stats_after_enroll(
    stats: StatsView,
    key: Seq<char>,
    outcome: EnrollOutcome,
    now: FailureTime,
) -> StatsView {
    match outcome {
        EnrollOutcome::Enrolled => StatsView {
            section_failures: stats.section_failures.remove(key),
            ..with_success(stats)
        },
        EnrollOutcome::Refused => StatsView {
            section_failures: throttle_after(stats.section_failures, key, now),
            ..stats
        },
        EnrollOutcome::Failed(_) => with_error(stats),
    }
}

/// Whether the outcome of an enrollment is announced: a success always, a
/// refusal while the throttle allows, a failed call never.
pub open spec fn enroll_is_announced(
    stats: StatsView,
    key: Seq<char>,
    outcome: EnrollOutcome,
    now: FailureTime,
) -> bool {
    match outcome {
        EnrollOutcome::Enrolled => true,
        EnrollOutcome::Refused => throttle_allows(stats.section_failures, key, now),
        EnrollOutcome::Failed(_) => false,
    }
}

/// The text that announces the outcome of an enrollment.
pub open spec fn enroll_text(
    department: Seq<char>,
    course_code: Seq<char>,
    section: Seq<char>,
    outcome: EnrollOutcome,
    stamp: Seq<char>,
) -> Seq<char> {
    if outcome == EnrollOutcome::Enrolled {
        success_text(department, course_code, section, stamp)
    } else {
        failure_text(department, course_code, section, stamp)
    }
}

/// That an enrollment for `attempt` which ended as `outcome` at `now` took
/// statistics `before` to `after` and led to the announcement `notice`.
pub open spec fn enroll_settled(
    before: StatsView,
    attempt: Attempt,
    outcome: EnrollOutcome,
    now: LocalNow,
    after: StatsView,
    notice: Option<String>,
) -> bool {
    &&& after == stats_after_enroll(before, attempt.key(), outcome, now.time)
    &&& notice is Some == enroll_is_announced(before, attempt.key(), outcome, now.time)
    &&& notice matches Some(text) ==> text@ == enroll_text(
        attempt.department@,
        attempt.course_code@,
        attempt.section@,
        outcome,
        now.stamp@,
    )
}

/// Counts the outcome of an enrollment that ended at `now`, keeps the
/// failure tracker, and returns the announcement to send, if any.
pub fn after_enroll_at(
    stats: &mut EnrollmentStats,
    attempt: &Attempt,
    outcome: EnrollOutcome,
    now: &LocalNow,
) -> (notice: Option<String>)
    ensures
        enroll_settled(old(stats)@, *attempt, outcome, *now, final(stats)@, notice),
{
    let key = section_key(attempt.department, attempt.course_code, attempt.section, attempt.term);
    match outcome {
        EnrollOutcome::Enrolled => {
            stats.record_success();
            stats.clear_failures(key.as_str());
            Some(
                success_message(
                    attempt.department,
                    attempt.course_code,
                    attempt.section,
                    now.stamp.as_str(),
                ),
            )
        },
        EnrollOutcome::Refused => {
            if stats.should_notify_at(key.as_str(), now.time) {
                Some(
                    failure_message(
                        attempt.department,
                        attempt.course_code,
                        attempt.section,
                        now.stamp.as_str(),
                    ),
                )
            } else {
                None
            }
        },
        EnrollOutcome::Failed(_) => {
            stats.record_error();
            None
        },
    }
}

/// Counts the outcome of an enrollment that ended just now. The time is
/// read from the local clock, so the result is that of `after_enroll_at`
/// for some time.
pub fn after_enroll(stats: &mut EnrollmentStats, attempt: &Attempt, outcome: EnrollOutcome) -> (notice:
    Option<String>)
    ensures
        exists|now: LocalNow| #[trigger]
            enroll_settled(old(stats)@, *attempt, outcome, now, final(stats)@, notice),
{
    let now = local_now();
    let notice = after_enroll_at(stats, attempt, outcome, &now);
    assert(enroll_settled(old(stats)@, *attempt, outcome, now, stats@, notice));
    notice
}

/// The outcome of an enrollment from what the action service answered.
pub fn enroll_outcome(answer: Result<bool, CallError>) -> (outcome: EnrollOutcome)
    ensures
        outcome == (match answer {
            Ok(true) => EnrollOutcome::Enrolled,
            Ok(false) => EnrollOutcome::Refused,
            Err(e) => EnrollOutcome::Failed(e),
        }),
{
    match answer {
        Ok(true) => EnrollOutcome::Enrolled,
        Ok(false) => EnrollOutcome::Refused,
        Err(e) => EnrollOutcome::Failed(e),
    }
}

/// Flicker is filtered out: where the first reading shows availability
/// but the recheck's entry for the section does not, the cycle ends
/// without action, no enrollment follows, and the statistics stay as they
/// were: no opening and no attempt is counted.
pub proof fn lemma_debounce(
    stats: StatsView,
    first: Seq<SectionStatus>,
    index: int,
    recheck: Seq<SectionStatus>,
    section: Seq<char>,
    threshold: int,
    at: int,
)
    requires
        0 <= at < recheck.len(),
        recheck[at].section_code@ == section,
        forall|i: int| 0 <= i < at ==> (#[trigger] recheck[i]).section_code@ != section,
        !should_attempt_spec(recheck[at].available_seats as int, threshold),
    ensures
        recheck_step(first, index, recheck, section, threshold) == CycleStepView::Done(None),
        enrollment_target(poll_outcome_of(Ok(None))) is None,
        stats_after_poll(stats, poll_outcome_of(Ok(None))) == stats,
{
    lemma_failed_recheck_is_no_action(first, index, recheck, section, threshold, at);
}

/// After a success the section's next refusal counts as its first: it is
/// announced, whatever was held back before.
pub proof fn lemma_success_clears_throttle(
    stats: StatsView,
    key: Seq<char>,
    succeeded: FailureTime,
    refused: FailureTime,
)
    ensures
        enroll_is_announced(
            stats_after_enroll(stats, key, EnrollOutcome::Enrolled, succeeded),
            key,
            EnrollOutcome::Refused,
            refused,
        ),
{
}

/// What happened at one section of a sweep: how its poll ended and, where
/// the poll confirmed an opening, how the enrollment ended and when.
pub struct TargetEvent {
    /// The key under which the section's failures are tracked.
    pub key: Seq<char>,
    pub poll: PollOutcome,
    /// The outcome of the enrollment; it counts only after a confirmed
    /// opening, since no enrollment is made otherwise.
    pub enroll: EnrollOutcome,
    pub now: FailureTime,
}

/// The statistics after one section of a sweep: the poll is counted, and
/// the enrollment only where the poll confirmed an opening.
pub open spec fn stats_after_target(stats: StatsView, event: TargetEvent) -> StatsView {
    if enrollment_target(event.poll) is Some {
        stats_after_enroll(stats_after_poll(stats, event.poll), event.key, event.enroll, event.now)
    } else {
        stats_after_poll(stats, event.poll)
    }
}

/// The statistics after the sections of a sweep, in their order.
pub open spec fn stats_after_targets(stats: StatsView, events: Seq<TargetEvent>) -> StatsView
    decreases events.len(),
{
    if events.len() == 0 {
        stats
    } else {
        stats_after_target(stats_after_targets(stats, events.drop_last()), events.last())
    }
}

/// How many of the sections had an opening confirmed by both readings.
pub open spec fn confirmed_openings(events: Seq<TargetEvent>) -> nat
    decreases events.len(),
{
    if events.len() == 0 {
        0
    } else {
        confirmed_openings(events.drop_last()) + (if enrollment_target(events.last().poll)
            is Some {
            1nat
        } else {
            0nat
        })
    }
}

/// A counter raised by `by`; at the largest value it stays.
pub open spec fn raised(count: u64, by: nat) -> u64 {
    if count + by > u64::MAX {
        u64::MAX
    } else {
        (count + by) as u64
    }
}

/// Over a whole sweep the enrollment attempts and the openings found rise
/// by the number of sections that both readings confirmed, and by nothing
/// else: a section that flickers, is full, is not listed or cannot be read
/// adds no attempt.
pub proof fn lemma_sweep_counts_confirmed_openings(stats: StatsView, events: Seq<TargetEvent>)
    ensures
        stats_after_targets(stats, events).counters.enrollment_attempts == raised(
            stats.counters.enrollment_attempts,
            confirmed_openings(events),
        ),
        stats_after_targets(stats, events).counters.openings_found == raised(
            stats.counters.openings_found,
            confirmed_openings(events),
        ),
    decreases events.len(),
{
    if events.len() > 0 {
        lemma_sweep_counts_confirmed_openings(stats, events.drop_last());
    }
}

/// A section whose poll ends without change leaves the statistics of the
/// sweep as they stood before it, and no enrollment is made for it.
pub proof fn lemma_unconfirmed_section_changes_nothing(stats: StatsView, event: TargetEvent)
    requires
        event.poll == PollOutcome::NoChange,
    ensures
        enrollment_target(event.poll) is None,
        stats_after_target(stats, event) == stats,
{
}

} // verus!
