//! The counters kept for one job, and the throttle that decides which
//! failed enrollments are announced.

use crate::models::EnrollmentStatsDb;
use crate::tracker::FailureTracker;
use crate::utils::local_now;
use vstd::prelude::*;

verus! {

/// The point in time of a failure, as plain values: the calendar day in the
/// local time zone (days since the common era began) and the instant in
/// milliseconds since the Unix epoch.
#[derive(Clone, Copy, Debug, PartialEq, Eq, Structural)]
pub struct FailureTime {
    pub date: i32,
    pub timestamp_millis: i64,
}

/// How often enrollment into one section has failed on the day of
/// `last_failure`.
#[derive(Clone, Copy, Debug, PartialEq, Eq, Structural)]
pub struct SectionFailures {
    pub count: u64,
    pub last_failure: FailureTime,
}

/// Failure alerts sent per section and day before further ones are held back.
pub const DAILY_ALERT_LIMIT: u64 = 3;

/// Whether a failure of `key` at `now` is to be announced, given what the
/// tracker holds: always for a section without history or whose last
/// failure fell on an earlier day, otherwise only below the daily limit.
pub open spec fn throttle_allows(
    tracker: Map<Seq<char>, SectionFailures>,
    key: Seq<char>,
    now: FailureTime,
) -> bool {
    !tracker.contains_key(key) || tracker[key].last_failure.date < now.date || tracker[key].count
        < DAILY_ALERT_LIMIT
}

/// The tracker after a failure of `key` at `now`: a first failure, or the
/// first of a new day, starts the count at one; a further one on the same
/// day raises it; at the limit the tracker stays as it is.
pub open spec fn throttle_after(
    tracker: Map<Seq<char>, SectionFailures>,
    key: Seq<char>,
    now: FailureTime,
) -> Map<Seq<char>, SectionFailures> {
    if !tracker.contains_key(key) || tracker[key].last_failure.date < now.date {
        tracker.insert(key, SectionFailures { count: 1, last_failure: now })
    } else if tracker[key].count >= DAILY_ALERT_LIMIT {
        tracker
    } else {
        tracker.insert(
            key,
            SectionFailures { count: (tracker[key].count + 1) as u64, last_failure: now },
        )
    }
}

/// That a failure of `key` at `now` took statistics `before` to `after`
/// and was announced or not as `notify` says.
pub open spec fn throttled(
    before: StatsView,
    key: Seq<char>,
    now: FailureTime,
    notify: bool,
    after: StatsView,
) -> bool {
    &&& notify == throttle_allows(before.section_failures, key, now)
    &&& after == (StatsView {
        section_failures: throttle_after(before.section_failures, key, now),
        ..before
    })
}

/// A counter raised by one; at the largest value it stays.
pub open spec fn bumped(count: u64) -> u64 {
    if count < u64::MAX {
        (count + 1) as u64
    } else {
        count
    }
}

/// Raises a counter by one; at the largest value it stays.
pub fn bump(count: u64) -> (raised: u64)
    ensures
        raised == bumped(count),
{
    if count < u64::MAX {
        count + 1
    } else {
        count
    }
}

/// The statistics after one confirmed opening: one more opening found and
/// one more enrollment attempt.
pub open spec fn with_opening(stats: StatsView) -> StatsView {
    StatsView {
        counters: Counters {
            openings_found: bumped(stats.counters.openings_found),
            enrollment_attempts: bumped(stats.counters.enrollment_attempts),
            ..stats.counters
        },
        ..stats
    }
}

/// The statistics after one successful enrollment.
pub open spec fn with_success(stats: StatsView) -> StatsView {
    StatsView {
        counters: Counters {
            successful_enrollments: bumped(stats.counters.successful_enrollments),
            ..stats.counters
        },
        ..stats
    }
}

/// The statistics after one call that failed for good.
pub open spec fn with_error(stats: StatsView) -> StatsView {
    StatsView { counters: Counters { errors: bumped(stats.counters.errors), ..stats.counters }, ..stats }
}

/// The statistics after one completed sweep that ended at `finished`.
pub open spec fn with_sweep(stats: StatsView, finished: Seq<char>) -> StatsView {
    StatsView {
        counters: Counters {
            total_checks: bumped(stats.counters.total_checks),
            ..stats.counters
        },
        last_updated: finished,
        ..stats
    }
}

/// The count that a stored number stands for; a negative one counts as zero.
pub open spec fn loaded_count(stored: i32) -> u64 {
    if stored < 0 {
        0
    } else {
        stored as u64
    }
}

/// The number under which a count is stored; a count above the largest
/// such number is stored as that number.
pub open spec fn stored_count(count: u64) -> i32 {
    if count > i32::MAX {
        i32::MAX
    } else {
        count as i32
    }
}

/// Reads a stored count.
pub fn load_count(stored: i32) -> (count: u64)
    ensures
        count == loaded_count(stored),
{
    if stored < 0 {
        0
    } else {
        stored as u64
    }
}

/// Writes a count for the store.
pub fn store_count(count: u64) -> (stored: i32)
    ensures
        stored == stored_count(count),
{
    if count > i32::MAX as u64 {
        i32::MAX
    } else {
        count as i32
    }
}

/// A count that was stored and loaded again is unchanged, unless it was
/// too large to store.
pub proof fn lemma_count_survives_the_store(count: u64)
    requires
        count <= i32::MAX,
    ensures
        loaded_count(stored_count(count)) == count,
{
}

/// What one job has counted since it was created.
pub struct EnrollmentStats {
    pub total_checks: u64,
    pub openings_found: u64,
    pub enrollment_attempts: u64,
    pub successful_enrollments: u64,
    pub errors: u64,
    pub last_updated: String,
    pub start_time: String,
    pub section_failures: FailureTracker,
}

/// The five counters of the statistics.
pub struct Counters {
    pub total_checks: u64,
    pub openings_found: u64,
    pub enrollment_attempts: u64,
    pub successful_enrollments: u64,
    pub errors: u64,
}

/// The statistics as mathematical values.
pub struct StatsView {
    pub counters: Counters,
    pub last_updated: Seq<char>,
    pub start_time: Seq<char>,
    pub section_failures: Map<Seq<char>, SectionFailures>,
}

impl View for EnrollmentStats {
    type V = StatsView;

    open spec fn view(&self) -> StatsView {
        StatsView {
            counters: Counters {
                total_checks: self.total_checks,
                openings_found: self.openings_found,
                enrollment_attempts: self.enrollment_attempts,
                successful_enrollments: self.successful_enrollments,
                errors: self.errors,
            },
            last_updated: self.last_updated@,
            start_time: self.start_time@,
            section_failures: self.section_failures@,
        }
    }
}

impl Default for EnrollmentStats {
    /// All counters zero, both times empty, nothing tracked.
    fn default() -> (stats: Self)
        ensures
            stats@ == (StatsView {
                counters: Counters {
                    total_checks: 0,
                    openings_found: 0,
                    enrollment_attempts: 0,
                    successful_enrollments: 0,
                    errors: 0,
                },
                last_updated: Seq::<char>::empty(),
                start_time: Seq::<char>::empty(),
                section_failures: Map::<Seq<char>, SectionFailures>::empty(),
            }),
    {
        EnrollmentStats {
            total_checks: 0,
            openings_found: 0,
            enrollment_attempts: 0,
            successful_enrollments: 0,
            errors: 0,
            last_updated: String::new(),
            start_time: String::new(),
            section_failures: FailureTracker::new(),
        }
    }
}

impl EnrollmentStats {
    /// Decides whether a failure of `section_id` at `now` is announced, and
    /// records the failure in the tracker.
    pub fn should_notify_at(&mut self, section_id: &str, now: FailureTime) -> (notify: bool)
        ensures
            notify == throttle_allows(old(self)@.section_failures, section_id@, now),
            final(self)@ == (StatsView {
                section_failures: throttle_after(old(self)@.section_failures, section_id@, now),
                ..old(self)@
            }),
    {
        match self.section_failures.get(section_id) {
            Some(failures) => {
                if failures.last_failure.date < now.date {
                    self.section_failures.insert(
                        section_id,
                        SectionFailures { count: 1, last_failure: now },
                    );
                    return true;
                }
                if failures.count >= DAILY_ALERT_LIMIT {
                    return false;
                }
                self.section_failures.insert(
                    section_id,
                    SectionFailures { count: failures.count + 1, last_failure: now },
                );
                true
            },
            None => {
                self.section_failures.insert(
                    section_id,
                    SectionFailures { count: 1, last_failure: now },
                );
                true
            },
        }
    }

    /// Decides whether a failure of `section_id` right now is announced, and
    /// records the failure in the tracker. The time is read from the local
    /// clock, so the outcome is that of `should_notify_at` for some time.
    pub fn should_notify_for_section(&mut self, section_id: &str) -> (notify: bool)
        ensures
            exists|now: FailureTime| #[trigger]
                throttled(old(self)@, section_id@, now, notify, final(self)@),
    {
        let now = local_now();
        let notify = self.should_notify_at(section_id, now.time);
        assert(throttled(old(self)@, section_id@, now.time, notify, self@));
        notify
    }

    /// Counts one confirmed opening and the enrollment attempt it leads to.
    pub fn record_opening(&mut self)
        ensures
            final(self)@ == with_opening(old(self)@),
    {
        self.openings_found = bump(self.openings_found);
        self.enrollment_attempts = bump(self.enrollment_attempts);
    }

    /// Counts one successful enrollment.
    pub fn record_success(&mut self)
        ensures
            final(self)@ == with_success(old(self)@),
    {
        self.successful_enrollments = bump(self.successful_enrollments);
    }

    /// Counts one call that failed for good.
    pub fn record_error(&mut self)
        ensures
            final(self)@ == with_error(old(self)@),
    {
        self.errors = bump(self.errors);
    }

    /// Counts one completed sweep and notes when it ended.
    pub fn record_sweep(&mut self, finished: &str)
        ensures
            final(self)@ == with_sweep(old(self)@, finished@),
    {
        self.total_checks = bump(self.total_checks);
        self.last_updated = finished.to_owned();
    }

    /// The statistics that a stored record stands for, with the tracker
    /// and the two times that were stored beside it.
    pub fn from_record(
        record: &EnrollmentStatsDb,
        start_time: &str,
        last_updated: &str,
        section_failures: FailureTracker,
    ) -> (stats: Self)
        ensures
            stats@ == (StatsView {
                counters: Counters {
                    total_checks: loaded_count(record.total_checks),
                    openings_found: loaded_count(record.openings_found),
                    enrollment_attempts: loaded_count(record.enrollment_attempts),
                    successful_enrollments: loaded_count(record.successful_enrollments),
                    errors: loaded_count(record.errors),
                },
                last_updated: last_updated@,
                start_time: start_time@,
                section_failures: section_failures@,
            }),
    {
        EnrollmentStats {
            total_checks: load_count(record.total_checks),
            openings_found: load_count(record.openings_found),
            enrollment_attempts: load_count(record.enrollment_attempts),
            successful_enrollments: load_count(record.successful_enrollments),
            errors: load_count(record.errors),
            last_updated: last_updated.to_owned(),
            start_time: start_time.to_owned(),
            section_failures,
        }
    }

    /// The counters as the store holds them, for the record of job `job_id`
    /// with the record's own identifier `id`.
    pub fn to_record(&self, id: u128, job_id: u128) -> (record: EnrollmentStatsDb)
        ensures
            record == (EnrollmentStatsDb {
                id,
                job_id,
                total_checks: stored_count(self.total_checks),
                openings_found: stored_count(self.openings_found),
                enrollment_attempts: stored_count(self.enrollment_attempts),
                successful_enrollments: stored_count(self.successful_enrollments),
                errors: stored_count(self.errors),
            }),
    {
        EnrollmentStatsDb {
            id,
            job_id,
            total_checks: store_count(self.total_checks),
            openings_found: store_count(self.openings_found),
            enrollment_attempts: store_count(self.enrollment_attempts),
            successful_enrollments: store_count(self.successful_enrollments),
            errors: store_count(self.errors),
        }
    }

    /// A copy of the statistics.
    pub fn snapshot(&self) -> (copy: Self)
        ensures
            copy@ == self@,
    {
        EnrollmentStats {
            total_checks: self.total_checks,
            openings_found: self.openings_found,
            enrollment_attempts: self.enrollment_attempts,
            successful_enrollments: self.successful_enrollments,
            errors: self.errors,
            last_updated: self.last_updated.clone(),
            start_time: self.start_time.clone(),
            section_failures: self.section_failures.snapshot(),
        }
    }

    /// Forgets the failures of `section_id`, as a successful enrollment does.
    pub fn clear_failures(&mut self, section_id: &str)
        ensures
            final(self)@ == (StatsView {
                section_failures: old(self)@.section_failures.remove(section_id@),
                ..old(self)@
            }),
    {
        self.section_failures.remove(section_id);
    }
}

/// The tracker after failures of `key` at each of `times`, in order.
pub open spec fn throttle_run(
    tracker: Map<Seq<char>, SectionFailures>,
    key: Seq<char>,
    times: Seq<FailureTime>,
) -> Map<Seq<char>, SectionFailures>
    decreases times.len(),
{
    if times.len() == 0 {
        tracker
    } else {
        throttle_after(throttle_run(tracker, key, times.drop_last()), key, times.last())
    }
}

/// After `n >= 1` failures of one section on one day, starting without
/// history, the tracker holds that day and the count `n`, capped at the limit.
pub proof fn lemma_same_day_count(
    tracker: Map<Seq<char>, SectionFailures>,
    key: Seq<char>,
    times: Seq<FailureTime>,
)
    requires
        !tracker.contains_key(key),
        times.len() >= 1,
        forall|j: int| 0 <= j < times.len() ==> (#[trigger] times[j]).date == times[0].date,
    ensures
        throttle_run(tracker, key, times).contains_key(key),
        throttle_run(tracker, key, times)[key].last_failure.date == times[0].date,
        throttle_run(tracker, key, times)[key].count == (if times.len() <= DAILY_ALERT_LIMIT {
            times.len()
        } else {
            DAILY_ALERT_LIMIT as nat
        }),
    decreases times.len(),
{
    let front = times.drop_last();
    if front.len() == 0 {
        assert(throttle_run(tracker, key, front) == tracker);
    } else {
        assert forall|j: int| 0 <= j < front.len() implies (#[trigger] front[j]).date
            == front[0].date by {
            assert(front[j] == times[j]);
            assert(front[0] == times[0]);
        }
        lemma_same_day_count(tracker, key, front);
        assert(front[0] == times[0]);
    }
}

/// Of the failures of one section on one calendar day, starting without
/// history, exactly the first three are announced: the failure at position
/// `i` of `times` is announced if and only if `i` is below the daily limit.
pub proof fn lemma_same_day_alerts(
    tracker: Map<Seq<char>, SectionFailures>,
    key: Seq<char>,
    times: Seq<FailureTime>,
    i: int,
)
    requires
        !tracker.contains_key(key),
        0 <= i < times.len(),
        forall|j: int| 0 <= j < times.len() ==> (#[trigger] times[j]).date == times[0].date,
    ensures
        throttle_allows(throttle_run(tracker, key, times.take(i)), key, times[i]) == (i
            < DAILY_ALERT_LIMIT),
{
    let before = times.take(i);
    if i == 0 {
        assert(throttle_run(tracker, key, before) == tracker);
    } else {
        assert forall|j: int| 0 <= j < before.len() implies (#[trigger] before[j]).date
            == before[0].date by {
            assert(before[j] == times[j]);
            assert(before[0] == times[0]);
        }
        lemma_same_day_count(tracker, key, before);
        assert(before[0] == times[0]);
    }
}

/// A failure on a later day than the last recorded one is announced, however
/// many were held back before, and starts the count again at one.
pub proof fn lemma_new_day_resets(
    tracker: Map<Seq<char>, SectionFailures>,
    key: Seq<char>,
    now: FailureTime,
)
    requires
        tracker.contains_key(key),
        tracker[key].last_failure.date < now.date,
    ensures
        throttle_allows(tracker, key, now),
        throttle_after(tracker, key, now) == tracker.insert(
            key,
            SectionFailures { count: 1, last_failure: now },
        ),
{
}

/// Once a success has cleared a section, its next failure counts as the
/// first ever: it is announced, and the count starts at one.
pub proof fn lemma_success_forgets(
    tracker: Map<Seq<char>, SectionFailures>,
    key: Seq<char>,
    now: FailureTime,
)
    ensures
        throttle_allows(tracker.remove(key), key, now),
        throttle_after(tracker.remove(key), key, now) == tracker.remove(key).insert(
            key,
            SectionFailures { count: 1, last_failure: now },
        ),
        throttle_after(tracker.remove(key), key, now)[key].count == 1,
{
}

/// A failure of one section leaves every other section's record alone.
pub proof fn lemma_throttle_is_per_section(
    tracker: Map<Seq<char>, SectionFailures>,
    key: Seq<char>,
    other: Seq<char>,
    now: FailureTime,
)
    requires
        other != key,
    ensures
        throttle_after(tracker, key, now).contains_key(other) == tracker.contains_key(other),
        tracker.contains_key(other) ==> throttle_after(tracker, key, now)[other] == tracker[other],
{
}

/// The count that the tracker holds for a section never passes the limit,
/// provided it did not before.
pub proof fn lemma_count_stays_capped(
    tracker: Map<Seq<char>, SectionFailures>,
    key: Seq<char>,
    now: FailureTime,
)
    requires
        tracker.contains_key(key) ==> tracker[key].count <= DAILY_ALERT_LIMIT,
    ensures
        throttle_after(tracker, key, now).contains_key(key),
        1 <= throttle_after(tracker, key, now)[key].count <= DAILY_ALERT_LIMIT,
{
}

} // verus!
