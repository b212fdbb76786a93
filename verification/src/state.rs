//! The state of the single-user monitor.

use crate::api::{effective_threshold_spec, JobConfig, NotificationConfig};
use crate::config::{
    group_views, legacy_groups, to_section_groups, AppConfig, CourseConfig, CourseDetails,
    MonitoringConfig, SectionGroup,
};
use crate::multi_user_state::{course_views, CourseWithSections, SectionGroup as WatchedGroup};
use crate::utils::{clone_strings, CourseView, GroupView};
use crate::enroll::{after_poll, stats_after_poll, PollOutcome};
use crate::job_manager::{directive_for, next_phase, phase_of, Directive, Trigger};
use crate::stats::{bump, bumped, with_sweep, Counters, EnrollmentStats, SectionFailures, StatsView};
use crate::tracker::FailureTracker;
use vstd::prelude::*;
use vstd::string::StringExecFns;

verus! {

/// What the single-user monitor knows while it runs.
pub struct AppState {
    pub stats: EnrollmentStats,
    pub config: AppConfig,
    pub last_check_time: String,
    pub is_connected: bool,
    pub term: String,
}

/// The notice that the session has expired.
pub open spec fn expired_text(stamp: Seq<char>) -> Seq<char> {
    "\u{26a0}\u{fe0f}  WebReg Cookie has expired!\nTime: "@ + stamp
        + "\nPlease update the cookie in config.toml to resume monitoring."@
}

/// Writes the notice that the session has expired.
pub fn expired_message(stamp: &str) -> (text: String)
    ensures
        text@ == expired_text(stamp@),
{
    let mut text = String::from_str("\u{26a0}\u{fe0f}  WebReg Cookie has expired!\nTime: ");
    text.append(stamp);
    text.append("\nPlease update the cookie in config.toml to resume monitoring.");
    text
}

/// The lecture groups of a configured course.
pub open spec fn details_groups(details: CourseDetails) -> Seq<GroupView> {
    match details {
        CourseDetails::New(d) => group_views(d.sections@),
        CourseDetails::Legacy(d) => legacy_groups(d),
    }
}

/// The department of a configured course.
pub open spec fn details_department(details: CourseDetails) -> Seq<char> {
    match details {
        CourseDetails::New(d) => d.department@,
        CourseDetails::Legacy(d) => d.department@,
    }
}

/// The course code of a configured course.
pub open spec fn details_course_code(details: CourseDetails) -> Seq<char> {
    match details {
        CourseDetails::New(d) => d.course_code@,
        CourseDetails::Legacy(d) => d.course_code@,
    }
}

/// The two configured courses as watched courses.
pub open spec fn watched_views(courses: CourseConfig) -> Seq<CourseView> {
    seq![
        CourseView {
            department: details_department(courses.chem),
            course_code: details_course_code(courses.chem),
            sections: details_groups(courses.chem),
        },
        CourseView {
            department: courses.bild.department@,
            course_code: courses.bild.course_code@,
            sections: legacy_groups(courses.bild),
        },
    ]
}

/// Turns configured lecture groups into watched ones.
pub fn watched_groups(groups: Vec<SectionGroup>) -> (watched: Vec<WatchedGroup>)
    ensures
        watched@.len() == groups@.len(),
        forall|i: int| 0 <= i < groups@.len() ==> (#[trigger] watched@[i])@ == groups@[i]@,
{
    let mut watched: Vec<WatchedGroup> = Vec::new();
    let mut i: usize = 0;
    while i < groups.len()
        invariant
            i <= groups@.len(),
            watched@.len() == i,
            forall|k: int| 0 <= k < i ==> (#[trigger] watched@[k])@ == groups@[k]@,
        decreases groups@.len() - i,
    {
        watched.push(
            WatchedGroup {
                lecture: groups[i].lecture.clone(),
                discussions: clone_strings(&groups[i].discussions),
            },
        );
        i += 1;
    }
    watched
}

/// The statistics of a monitor that starts at the time written as `now`.
pub open spec fn fresh_stats(now: Seq<char>) -> StatsView {
    StatsView {
        counters: Counters {
            total_checks: 0,
            openings_found: 0,
            enrollment_attempts: 0,
            successful_enrollments: 0,
            errors: 0,
        },
        last_updated: now,
        start_time: now,
        section_failures: Map::<Seq<char>, SectionFailures>::empty(),
    }
}

/// The statistics after one health-counted poll that ended at the time
/// written as `now`: the poll is counted as a check, and its outcome as
/// every poll's is.
pub open spec fn stats_after_check(stats: StatsView, outcome: PollOutcome, now: Seq<char>) -> StatsView {
    let polled = stats_after_poll(
        StatsView {
            counters: Counters {
                total_checks: bumped(stats.counters.total_checks),
                ..stats.counters
            },
            ..stats
        },
        outcome,
    );
    StatsView { last_updated: now, ..polled }
}

impl AppState {
    /// The state of a monitor that starts with `config` at the time written
    /// as `now`: connected, nothing counted.
    pub fn new(config: AppConfig, now: &str) -> (state: Self)
        ensures
            state.config == config,
            state.term@ == config.webreg.term@,
            state.is_connected,
            state.last_check_time@ == now@,
            state.stats@ == fresh_stats(now@),
    {
        let term = config.webreg.term.clone();
        AppState {
            stats: EnrollmentStats {
                total_checks: 0,
                openings_found: 0,
                enrollment_attempts: 0,
                successful_enrollments: 0,
                errors: 0,
                last_updated: now.to_owned(),
                start_time: now.to_owned(),
                section_failures: FailureTracker::new(),
            },
            config,
            last_check_time: now.to_owned(),
            is_connected: true,
            term,
        }
    }

    /// Takes over what a caller configures of the job: the term, the
    /// polling interval, the cookie, and the threshold that the monitoring
    /// mode settles.
    pub fn apply_job_config(&mut self, job: &JobConfig)
        ensures
            final(self).config.webreg.term@ == job.term@,
            final(self).config.webreg.polling_interval == job.polling_interval,
            final(self).config.webreg.cookie@ == job.cookie@,
            final(self).config.monitoring == (MonitoringConfig {
                seat_threshold: effective_threshold_spec(
                    job.monitoring_mode,
                    job.seat_threshold as int,
                ) as i64,
                ..old(self).config.monitoring
            }),
            final(self).config.notifications == old(self).config.notifications,
            final(self).config.courses == old(self).config.courses,
            final(self).stats == old(self).stats,
            final(self).last_check_time == old(self).last_check_time,
            final(self).is_connected == old(self).is_connected,
            final(self).term == old(self).term,
    {
        self.config.webreg.term = job.term.clone();
        self.config.webreg.polling_interval = job.polling_interval;
        self.config.webreg.cookie = job.cookie.clone();
        self.config.monitoring.seat_threshold = job.effective_threshold();
    }

    /// Takes over the notification settings that a caller sends.
    pub fn apply_notifications(&mut self, settings: NotificationConfig)
        ensures
            final(self).config.notifications.gmail_address == settings.gmail_address,
            final(self).config.notifications.gmail_app_password == settings.gmail_app_password,
            final(self).config.notifications.email_recipients == settings.email_recipients,
            final(self).config.notifications.discord_webhook_url == settings.discord_webhook_url,
            final(self).config.webreg == old(self).config.webreg,
            final(self).config.monitoring == old(self).config.monitoring,
            final(self).config.courses == old(self).config.courses,
            final(self).stats == old(self).stats,
            final(self).last_check_time == old(self).last_check_time,
            final(self).is_connected == old(self).is_connected,
            final(self).term == old(self).term,
    {
        self.config.notifications.gmail_address = settings.gmail_address;
        self.config.notifications.gmail_app_password = settings.gmail_app_password;
        self.config.notifications.email_recipients = settings.email_recipients;
        self.config.notifications.discord_webhook_url = settings.discord_webhook_url;
    }

    /// The courses that the monitor watches, in the order in which it
    /// sweeps them: the first configured course with its lecture groups,
    /// then the second with its one group.
    pub fn watched_courses(&self) -> (courses: Vec<CourseWithSections>)
        ensures
            course_views(courses@) == watched_views(self.config.courses),
    {
        let chem = &self.config.courses.chem;
        let bild = &self.config.courses.bild;
        let mut courses: Vec<CourseWithSections> = Vec::new();
        let chem_groups = chem.section_groups();
        let first = CourseWithSections {
            department: chem.department().to_owned(),
            course_code: chem.course_code().to_owned(),
            sections: watched_groups(chem_groups),
        };
        assert(first@.sections =~= group_views(chem_groups@));
        let bild_groups = to_section_groups(bild);
        let second = CourseWithSections {
            department: bild.department.clone(),
            course_code: bild.course_code.clone(),
            sections: watched_groups(bild_groups),
        };
        assert(second@.sections =~= group_views(bild_groups@));
        assert(first@ == watched_views(self.config.courses)[0]);
        assert(second@ == watched_views(self.config.courses)[1]);
        courses.push(first);
        courses.push(second);
        assert(course_views(courses@) =~= watched_views(self.config.courses));
        courses
    }

    /// Closes a sweep that ended at the time written as `finished`, and
    /// returns the seconds to sleep before the next one.
    pub fn finish_sweep(&mut self, finished: &str) -> (sleep_seconds: u64)
        ensures
            final(self).stats@ == with_sweep(old(self).stats@, finished@),
            final(self).last_check_time@ == finished@,
            sleep_seconds == old(self).config.webreg.polling_interval,
            final(self).config == old(self).config,
            final(self).is_connected == old(self).is_connected,
            final(self).term == old(self).term,
    {
        self.stats.record_sweep(finished);
        self.last_check_time = finished.to_owned();
        self.config.webreg.polling_interval
    }

    /// Notes that the statistics are as of the time written as `now`,
    /// before they are written out.
    pub fn update_stats(&mut self, now: &str)
        ensures
            final(self).stats@ == (StatsView { last_updated: now@, ..old(self).stats@ }),
            final(self).config == old(self).config,
            final(self).last_check_time == old(self).last_check_time,
            final(self).is_connected == old(self).is_connected,
            final(self).term == old(self).term,
    {
        self.stats.last_updated = now.to_owned();
    }

    /// Counts a poll of one section and its outcome, and says whether an
    /// enrollment follows.
    pub fn monitor_section_health(&mut self, outcome: PollOutcome, now: &str) -> (enroll_in: Option<
        String,
    >)
        ensures
            final(self).stats@ == stats_after_check(old(self).stats@, outcome, now@),
            enroll_in == (match outcome {
                PollOutcome::Confirmed(section_id) => Some(section_id),
                _ => None,
            }),
            final(self).config == old(self).config,
            final(self).last_check_time == old(self).last_check_time,
            final(self).is_connected == old(self).is_connected,
            final(self).term == old(self).term,
    {
        self.stats.total_checks = bump(self.stats.total_checks);
        let enroll_in = after_poll(&mut self.stats, outcome);
        self.stats.last_updated = now.to_owned();
        enroll_in
    }
}

/// Takes the result of a session check. A session found invalid while the
/// monitor was connected disconnects it and yields the notice to send,
/// once; a session found valid connects it again.
pub fn refresh_cookie(state: &mut AppState, is_valid: bool, stamp: &str) -> (notice: Option<String>)
    ensures
        phase_of(true, final(state).is_connected) == next_phase(
            phase_of(true, old(state).is_connected),
            Trigger::Refresh(is_valid),
        ),
        notice is Some == (directive_for(
            phase_of(true, old(state).is_connected),
            Trigger::Refresh(is_valid),
        ) == Directive::NotifySessionExpired),
        notice matches Some(text) ==> text@ == expired_text(stamp@),
        final(state).stats == old(state).stats,
        final(state).config == old(state).config,
        final(state).last_check_time == old(state).last_check_time,
        final(state).term == old(state).term,
{
    if !is_valid && state.is_connected {
        state.is_connected = false;
        return Some(expired_message(stamp));
    }
    if is_valid {
        state.is_connected = true;
    }
    None
}

} // verus!
