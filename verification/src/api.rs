//! Bodies of the single-user interface, and the rule that ties the
//! monitoring mode to the seat threshold.

use crate::config::SectionGroup;
use crate::job_manager::JobManagerError;
use crate::stats::EnrollmentStats;
use vstd::prelude::*;

verus! {

/// A course in a job configuration.
#[derive(Debug, Clone)]
pub struct CourseRequest {
    pub id: Option<String>,
    pub department: String,
    pub course_code: String,
    pub sections: Vec<SectionGroup>,
}

/// What a caller configures of a job.
#[derive(Debug)]
pub struct JobConfig {
    pub term: String,
    pub polling_interval: u64,
    pub cookie: String,
    pub courses: Vec<CourseRequest>,
    pub seat_threshold: i64,
    pub monitoring_mode: MonitoringMode,
}

/// When a free seat counts.
#[derive(Debug, Clone, Copy, PartialEq, Eq, Structural)]
pub enum MonitoringMode {
    /// Any free seat counts: the threshold is zero.
    Include,
    /// Free seats count while there are at most as many as the threshold.
    Exclude,
}

/// The answer to a call that changes a job.
#[derive(Debug)]
pub struct JobResponse {
    pub job_id: String,
    pub status: String,
    pub message: String,
}

/// The state of the monitor.
#[derive(Debug)]
pub struct StatusResponse {
    pub is_running: bool,
    pub is_connected: bool,
    pub last_check_time: String,
    pub stats: StatsResponse,
    pub health: String,
}

/// The counters that the interface shows.
#[derive(Debug, Clone, Copy, PartialEq, Eq, Structural)]
pub struct StatsResponse {
    pub enrollment_attempts: u64,
    pub successful_enrollments: u64,
    pub errors: u64,
}

/// Notification settings as the interface takes them.
#[derive(Debug)]
pub struct NotificationConfig {
    pub gmail_address: String,
    pub gmail_app_password: String,
    pub email_recipients: Vec<String>,
    pub discord_webhook_url: String,
}

/// The threshold that a job runs with: zero in `Include` mode, whatever
/// the caller asked for, and the caller's threshold in `Exclude` mode.
pub open spec fn effective_threshold_spec(mode: MonitoringMode, requested: int) -> int {
    match mode {
        MonitoringMode::Include => 0,
        MonitoringMode::Exclude => requested,
    }
}

impl MonitoringMode {
    /// The threshold that a job in this mode runs with.
    pub fn effective_threshold(&self, requested: i64) -> (threshold: i64)
        ensures
            threshold == effective_threshold_spec(*self, requested as int),
    {
        match self {
            MonitoringMode::Include => 0,
            MonitoringMode::Exclude => requested,
        }
    }

    /// The mode that a threshold stands for: `Include` for zero.
    pub fn for_threshold(threshold: i64) -> (mode: MonitoringMode)
        ensures
            mode == (if threshold == 0 {
                MonitoringMode::Include
            } else {
                MonitoringMode::Exclude
            }),
    {
        if threshold == 0 {
            MonitoringMode::Include
        } else {
            MonitoringMode::Exclude
        }
    }

    /// The lower-case name of the mode.
    pub fn name(&self) -> (name: &'static str)
        ensures
            name@ == (match *self {
                MonitoringMode::Include => "include"@,
                MonitoringMode::Exclude => "exclude"@,
            }),
    {
        match self {
            MonitoringMode::Include => "include",
            MonitoringMode::Exclude => "exclude",
        }
    }
}

impl JobConfig {
    /// The threshold that the configured job runs with.
    pub fn effective_threshold(&self) -> (threshold: i64)
        ensures
            threshold == effective_threshold_spec(self.monitoring_mode, self.seat_threshold as int),
    {
        self.monitoring_mode.effective_threshold(self.seat_threshold)
    }
}

impl StatsResponse {
    /// The counters of `stats` that the interface shows.
    pub fn from_stats(stats: &EnrollmentStats) -> (shown: StatsResponse)
        ensures
            shown.enrollment_attempts == stats.enrollment_attempts,
            shown.successful_enrollments == stats.successful_enrollments,
            shown.errors == stats.errors,
    {
        StatsResponse {
            enrollment_attempts: stats.enrollment_attempts,
            successful_enrollments: stats.successful_enrollments,
            errors: stats.errors,
        }
    }
}

/// What an answer says, as texts.
pub struct AnswerView {
    pub job_id: Seq<char>,
    pub status: Seq<char>,
    pub message: Seq<char>,
}

impl View for JobResponse {
    type V = AnswerView;

    open spec fn view(&self) -> AnswerView {
        AnswerView { job_id: self.job_id@, status: self.status@, message: self.message@ }
    }
}

/// The message of a refusal of the monitor's switch.
pub open spec fn refusal_text(error: JobManagerError) -> Seq<char> {
    match error {
        JobManagerError::AlreadyRunning => "Monitoring is already running"@,
        JobManagerError::NotRunning => "Monitoring is not running"@,
    }
}

/// The answer to a call that turned the monitor's switch: the status
/// `done` with the message `done_message` if the switch obeyed, the
/// status `error` with the refusal's message if it did not. No answer of
/// this kind names a job.
pub open spec fn switch_answer(
    outcome: Result<(), JobManagerError>,
    done: Seq<char>,
    done_message: Seq<char>,
) -> AnswerView {
    match outcome {
        Ok(_) => AnswerView { job_id: ""@, status: done, message: done_message },
        Err(e) => AnswerView { job_id: ""@, status: "error"@, message: refusal_text(e) },
    }
}

impl JobResponse {
    /// An answer with the given parts.
    pub fn new(job_id: &str, status: &str, message: &str) -> (answer: JobResponse)
        ensures
            answer@ == (AnswerView { job_id: job_id@, status: status@, message: message@ }),
    {
        JobResponse {
            job_id: job_id.to_owned(),
            status: status.to_owned(),
            message: message.to_owned(),
        }
    }

    /// The answer to a request to start monitoring.
    pub fn for_start(outcome: Result<(), JobManagerError>) -> (answer: JobResponse)
        ensures
            answer@ == switch_answer(outcome, "started"@, "Monitoring started successfully"@),
    {
        match outcome {
            Ok(_) => JobResponse::new("", "started", "Monitoring started successfully"),
            Err(e) => JobResponse::new("", "error", e.message()),
        }
    }

    /// The answer to a request to stop monitoring.
    pub fn for_stop(outcome: Result<(), JobManagerError>) -> (answer: JobResponse)
        ensures
            answer@ == switch_answer(outcome, "stopped"@, "Monitoring stopped successfully"@),
    {
        match outcome {
            Ok(_) => JobResponse::new("", "stopped", "Monitoring stopped successfully"),
            Err(e) => JobResponse::new("", "error", e.message()),
        }
    }
}

impl StatusResponse {
    /// The state of the monitor as the interface shows it.
    pub fn new(
        is_running: bool,
        is_connected: bool,
        last_check_time: &str,
        stats: &EnrollmentStats,
        health: String,
    ) -> (status: StatusResponse)
        ensures
            status.is_running == is_running,
            status.is_connected == is_connected,
            status.last_check_time@ == last_check_time@,
            status.stats.enrollment_attempts == stats.enrollment_attempts,
            status.stats.successful_enrollments == stats.successful_enrollments,
            status.stats.errors == stats.errors,
            status.health == health,
    {
        StatusResponse {
            is_running,
            is_connected,
            last_check_time: last_check_time.to_owned(),
            stats: StatsResponse::from_stats(stats),
            health,
        }
    }
}

} // verus!
