use webreg_monitor::api::{
    CourseRequest, JobConfig, JobResponse, MonitoringMode,
    NotificationConfig as ApiNotificationConfig, StatsResponse, StatusResponse,
};
use webreg_monitor::auth::{AuthenticatedUser, ClerkClaims, ClerkJwtValidator};
use webreg_monitor::config::{
    default_seat_threshold, to_section_groups, AppConfig, CourseConfig, CourseDetails,
    LegacyCourseDetails, MonitoringConfig, NewCourseDetails, NotificationConfig, SectionGroup,
    WebRegConfig,
};
use webreg_monitor::encryption::{EncryptionError, EncryptionKey};
use webreg_monitor::enroll::PollOutcome;
use webreg_monitor::models::EnrollmentStatsDb;
use webreg_monitor::stats::{load_count, store_count, EnrollmentStats, FailureTime, SectionFailures};
use webreg_monitor::tracker::FailureTracker;
use webreg_monitor::job_manager::{step, Directive, JobManager, JobManagerError, JobPhase, Trigger};
use webreg_monitor::multi_user_api::ApiResponse;
use webreg_monitor::state::{expired_message, refresh_cookie, AppState};
use webreg_monitor::utils::CallError;

fn config() -> AppConfig {
    AppConfig {
        webreg: WebRegConfig {
            term: String::from("SP24"),
            polling_interval: 30,
            cookie: String::from("c"),
        },
        notifications: NotificationConfig {
            gmail_address: String::from("me@example.org"),
            gmail_app_password: String::from("pw"),
            email_recipients: vec![String::from("you@example.org")],
            discord_webhook_url: String::from("https://example.org/hook"),
        },
        courses: CourseConfig {
            chem: CourseDetails::New(NewCourseDetails {
                department: String::from("CHEM"),
                course_code: String::from("6A"),
                sections: vec![
                    SectionGroup { lecture: String::from("A00"), discussions: vec![String::from("A01")] },
                    SectionGroup { lecture: String::from("B00"), discussions: vec![] },
                ],
            }),
            bild: LegacyCourseDetails {
                department: String::from("BILD"),
                course_code: String::from("1"),
                lecture_section: String::from("C00"),
                discussion_sections: vec![String::from("C01")],
            },
        },
        monitoring: MonitoringConfig {
            log_file: String::from("log"),
            stats_file: String::from("stats"),
            cookie_refresh_interval: 480,
            max_retries: 3,
            retry_delay: 1000,
            seat_threshold: 4,
        },
    }
}

#[test]
fn test_clerk_validator_creation() {
    let result = ClerkJwtValidator::from_env(Some(String::from(
        "-----BEGIN PUBLIC KEY-----\ntest\n-----END PUBLIC KEY-----",
    )));
    assert!(result.is_ok());
    assert_eq!(
        result.ok().unwrap().clerk_public_key,
        "-----BEGIN PUBLIC KEY-----\ntest\n-----END PUBLIC KEY-----"
    );
}

#[test]
fn validator_without_a_key_is_refused() {
    match ClerkJwtValidator::from_env(None) {
        Ok(_) => panic!("accepted"),
        Err(e) => assert_eq!(e.into_message(), "CLERK_PUBLIC_KEY environment variable not set"),
    }
    let validator = ClerkJwtValidator::new(String::from("pem"));
    assert_eq!(validator.clerk_public_key, "pem");
}

#[test]
fn key_that_is_not_configured_is_a_config_error() {
    assert!(matches!(EncryptionKey::from_env(None), Err(EncryptionError::Config)));
    assert!(matches!(EncryptionKey::from_env(Some("AAAA")), Err(EncryptionError::Config)));
    let text = EncryptionKey::generate();
    assert!(EncryptionKey::from_env(Some(&text)).is_ok());
}

#[test]
fn stored_counts() {
    let mut stats = EnrollmentStats::default();
    stats.total_checks = 5;
    stats.errors = u64::MAX;
    stats.openings_found = 2_147_483_647;
    stats.enrollment_attempts = 2_147_483_648;
    let record = stats.to_record(9, 4);
    assert_eq!((record.id, record.job_id), (9, 4));
    assert_eq!(record.total_checks, 5);
    assert_eq!(record.errors, i32::MAX);
    assert_eq!(record.openings_found, i32::MAX);
    assert_eq!(record.enrollment_attempts, i32::MAX);
    assert_eq!(record.successful_enrollments, 0);
    let stored = EnrollmentStatsDb {
        id: 1,
        job_id: 2,
        total_checks: 7,
        openings_found: -1,
        enrollment_attempts: 0,
        successful_enrollments: i32::MAX,
        errors: i32::MIN,
    };
    let mut tracker = FailureTracker::new();
    tracker.insert("k", SectionFailures { count: 2, last_failure: FailureTime { date: 1, timestamp_millis: 2 } });
    let loaded = EnrollmentStats::from_record(&stored, "start", "updated", tracker);
    assert_eq!(loaded.total_checks, 7);
    assert_eq!(loaded.openings_found, 0);
    assert_eq!(loaded.enrollment_attempts, 0);
    assert_eq!(loaded.successful_enrollments, 2_147_483_647);
    assert_eq!(loaded.errors, 0);
    assert_eq!(loaded.start_time, "start");
    assert_eq!(loaded.last_updated, "updated");
    assert_eq!(loaded.section_failures.get("k").unwrap().count, 2);
    assert_eq!(load_count(-5), 0);
    assert_eq!(store_count(12), 12);
}

#[test]
fn claims_without_email_are_refused() {
    let claims = ClerkClaims { sub: String::from("user_1"), email: None, exp: 0, iat: 0, azp: None };
    match AuthenticatedUser::from_claims(claims) {
        Ok(_) => panic!("accepted"),
        Err(e) => assert_eq!(e.into_message(), "Email not found in token"),
    }
    let claims = ClerkClaims {
        sub: String::from("user_1"),
        email: Some(String::from("u@example.org")),
        exp: 9,
        iat: 1,
        azp: Some(String::from("x")),
    };
    let user = AuthenticatedUser::from_claims(claims).ok().unwrap();
    assert_eq!(user.clerk_user_id, "user_1");
    assert_eq!(user.email, "u@example.org");
}

#[test]
fn api_response_envelopes() {
    let ok = ApiResponse::success(5u32);
    assert!(ok.success);
    assert_eq!(ok.data, Some(5));
    assert_eq!(ok.error, None);
    let failed: ApiResponse<u32> = ApiResponse::error(String::from("no"));
    assert!(!failed.success);
    assert_eq!(failed.data, None);
    assert_eq!(failed.error, Some(String::from("no")));
}

#[test]
fn include_mode_forces_threshold_zero() {
    assert_eq!(MonitoringMode::Include.effective_threshold(7), 0);
    assert_eq!(MonitoringMode::Exclude.effective_threshold(7), 7);
    assert_eq!(MonitoringMode::Exclude.effective_threshold(0), 0);
    assert_eq!(MonitoringMode::for_threshold(0), MonitoringMode::Include);
    assert_eq!(MonitoringMode::for_threshold(2), MonitoringMode::Exclude);
    assert_eq!(MonitoringMode::for_threshold(-1), MonitoringMode::Exclude);
    assert_eq!(MonitoringMode::Include.name(), "include");
    assert_eq!(MonitoringMode::Exclude.name(), "exclude");
    assert_eq!(default_seat_threshold(), 0);
}

#[test]
fn job_config_is_taken_over() {
    let mut state = AppState::new(config(), "start");
    assert_eq!(state.term, "SP24");
    assert!(state.is_connected);
    assert_eq!(state.last_check_time, "start");
    assert_eq!(state.stats.start_time, "start");
    assert_eq!(state.stats.last_updated, "start");
    assert_eq!(state.stats.total_checks, 0);
    let job = JobConfig {
        term: String::from("FA24"),
        polling_interval: 10,
        cookie: String::from("new cookie"),
        courses: vec![CourseRequest {
            id: None,
            department: String::from("CSE"),
            course_code: String::from("100"),
            sections: vec![],
        }],
        seat_threshold: 9,
        monitoring_mode: MonitoringMode::Include,
    };
    assert_eq!(job.effective_threshold(), 0);
    state.apply_job_config(&job);
    assert_eq!(state.config.webreg.term, "FA24");
    assert_eq!(state.config.webreg.polling_interval, 10);
    assert_eq!(state.config.webreg.cookie, "new cookie");
    assert_eq!(state.config.monitoring.seat_threshold, 0);
    assert_eq!(state.term, "SP24");
    let job = JobConfig { monitoring_mode: MonitoringMode::Exclude, ..job };
    state.apply_job_config(&job);
    assert_eq!(state.config.monitoring.seat_threshold, 9);
    state.apply_notifications(ApiNotificationConfig {
        gmail_address: String::from("a"),
        gmail_app_password: String::from("b"),
        email_recipients: vec![String::from("c")],
        discord_webhook_url: String::from("d"),
    });
    assert_eq!(state.config.notifications.gmail_address, "a");
    assert_eq!(state.config.notifications.gmail_app_password, "b");
    assert_eq!(state.config.notifications.email_recipients, vec![String::from("c")]);
    assert_eq!(state.config.notifications.discord_webhook_url, "d");
}

#[test]
fn session_expiry_is_announced_once() {
    let mut state = AppState::new(config(), "start");
    assert_eq!(refresh_cookie(&mut state, true, "t0"), None);
    assert!(state.is_connected);
    let notice = refresh_cookie(&mut state, false, "2024-03-01 10:00:00");
    assert_eq!(
        notice.unwrap(),
        "⚠️  WebReg Cookie has expired!\nTime: 2024-03-01 10:00:00\nPlease update the cookie in config.toml to resume monitoring."
    );
    assert!(!state.is_connected);
    assert_eq!(refresh_cookie(&mut state, false, "t2"), None);
    assert!(!state.is_connected);
    assert_eq!(refresh_cookie(&mut state, true, "t3"), None);
    assert!(state.is_connected);
    assert!(refresh_cookie(&mut state, false, "t4").is_some());
    assert_eq!(expired_message(""), "⚠️  WebReg Cookie has expired!\nTime: \nPlease update the cookie in config.toml to resume monitoring.");
}

#[test]
fn health_counted_polls() {
    let mut state = AppState::new(config(), "start");
    let go = state.monitor_section_health(PollOutcome::Confirmed(String::from("id")), "t1");
    assert_eq!(go, Some(String::from("id")));
    assert_eq!(state.monitor_section_health(PollOutcome::NoChange, "t2"), None);
    assert_eq!(state.monitor_section_health(PollOutcome::Failed(CallError::Transient), "t3"), None);
    assert_eq!(state.stats.total_checks, 3);
    assert_eq!(state.stats.openings_found, 1);
    assert_eq!(state.stats.enrollment_attempts, 1);
    assert_eq!(state.stats.errors, 1);
    assert_eq!(state.stats.last_updated, "t3");
    state.update_stats("t4");
    assert_eq!(state.stats.last_updated, "t4");
    assert_eq!(state.stats.total_checks, 3);
    let shown = StatsResponse::from_stats(&state.stats);
    assert_eq!(shown, StatsResponse { enrollment_attempts: 1, successful_enrollments: 0, errors: 1 });
}

#[test]
fn manager_switch() {
    let mut manager = JobManager::new();
    assert!(!manager.is_running());
    assert_eq!(manager.stop(), Err(JobManagerError::NotRunning));
    assert_eq!(manager.start(), Ok(()));
    assert!(manager.is_running());
    assert_eq!(manager.start(), Err(JobManagerError::AlreadyRunning));
    assert_eq!(manager.stop(), Ok(()));
    assert!(manager.is_running());
    assert_eq!(manager.on_trigger(true, Trigger::Poll), (true, Directive::Sweep));
    assert_eq!(manager.on_trigger(true, Trigger::Refresh(false)), (false, Directive::NotifySessionExpired));
    assert_eq!(manager.on_trigger(false, Trigger::Poll), (false, Directive::Idle));
    assert_eq!(manager.on_trigger(false, Trigger::Cancel), (false, Directive::Exit));
    assert!(!manager.is_running());
    assert_eq!(manager.on_trigger(true, Trigger::Poll), (true, Directive::Exit));
    assert_eq!(manager.start(), Ok(()));
    assert_eq!(JobManagerError::AlreadyRunning.message(), "Monitoring is already running");
    assert_eq!(JobManagerError::NotRunning.message(), "Monitoring is not running");
}

#[test]
fn phase_table() {
    let table = [
        (JobPhase::Running, Trigger::Cancel, JobPhase::Stopped, Directive::Exit),
        (JobPhase::Running, Trigger::Refresh(true), JobPhase::Running, Directive::Wait),
        (JobPhase::Running, Trigger::Refresh(false), JobPhase::PausedDisconnected, Directive::NotifySessionExpired),
        (JobPhase::Running, Trigger::Poll, JobPhase::Running, Directive::Sweep),
        (JobPhase::PausedDisconnected, Trigger::Cancel, JobPhase::Stopped, Directive::Exit),
        (JobPhase::PausedDisconnected, Trigger::Refresh(true), JobPhase::Running, Directive::Wait),
        (JobPhase::PausedDisconnected, Trigger::Refresh(false), JobPhase::PausedDisconnected, Directive::Wait),
        (JobPhase::PausedDisconnected, Trigger::Poll, JobPhase::PausedDisconnected, Directive::Idle),
        (JobPhase::Stopped, Trigger::Cancel, JobPhase::Stopped, Directive::Exit),
        (JobPhase::Stopped, Trigger::Refresh(true), JobPhase::Stopped, Directive::Exit),
        (JobPhase::Stopped, Trigger::Refresh(false), JobPhase::Stopped, Directive::Exit),
        (JobPhase::Stopped, Trigger::Poll, JobPhase::Stopped, Directive::Exit),
    ];
    for (phase, trigger, next, directive) in table {
        assert_eq!(step(phase, trigger), (next, directive));
    }
}

#[test]
fn new_course_keeps_its_groups() {
    let c = config();
    assert_eq!(c.courses.chem.department(), "CHEM");
    assert_eq!(c.courses.chem.course_code(), "6A");
    let groups = c.courses.chem.section_groups();
    assert_eq!(groups.len(), 2);
    assert_eq!(groups[0].lecture, "A00");
    assert_eq!(groups[0].discussions, vec![String::from("A01")]);
    assert_eq!(groups[1].lecture, "B00");
    let legacy = to_section_groups(&c.courses.bild);
    assert_eq!(legacy.len(), 1);
    assert_eq!(legacy[0].lecture, "C00");
}

#[test]
fn watched_courses_follow_the_configuration() {
    let mut state = AppState::new(config(), "start");
    let courses = state.watched_courses();
    assert_eq!(courses.len(), 2);
    assert_eq!(courses[0].department, "CHEM");
    assert_eq!(courses[0].course_code, "6A");
    assert_eq!(courses[0].sections.len(), 2);
    assert_eq!(courses[0].sections[0].lecture, "A00");
    assert_eq!(courses[0].sections[0].discussions, vec![String::from("A01")]);
    assert_eq!(courses[0].sections[1].lecture, "B00");
    assert_eq!(courses[1].department, "BILD");
    assert_eq!(courses[1].course_code, "1");
    assert_eq!(courses[1].sections.len(), 1);
    assert_eq!(courses[1].sections[0].lecture, "C00");
    assert_eq!(courses[1].sections[0].discussions, vec![String::from("C01")]);
    let targets: Vec<String> =
        webreg_monitor::multi_user_state::sweep_targets(&courses).iter().map(|t| t.section.clone()).collect();
    assert_eq!(targets, vec!["A00", "A01", "B00", "C00", "C01"]);
    assert_eq!(state.finish_sweep("done"), 30);
    assert_eq!(state.last_check_time, "done");
    assert_eq!(state.stats.total_checks, 1);
    assert_eq!(state.stats.last_updated, "done");
}

#[test]
fn answers_of_the_switch() {
    let started = JobResponse::for_start(Ok(()));
    assert_eq!(
        (started.job_id.as_str(), started.status.as_str(), started.message.as_str()),
        ("", "started", "Monitoring started successfully")
    );
    let refused = JobResponse::for_start(Err(JobManagerError::AlreadyRunning));
    assert_eq!(
        (refused.job_id.as_str(), refused.status.as_str(), refused.message.as_str()),
        ("", "error", "Monitoring is already running")
    );
    let stopped = JobResponse::for_stop(Ok(()));
    assert_eq!(
        (stopped.job_id.as_str(), stopped.status.as_str(), stopped.message.as_str()),
        ("", "stopped", "Monitoring stopped successfully")
    );
    let idle = JobResponse::for_stop(Err(JobManagerError::NotRunning));
    assert_eq!(
        (idle.job_id.as_str(), idle.status.as_str(), idle.message.as_str()),
        ("", "error", "Monitoring is not running")
    );
    let created = JobResponse::new("id", "created", "saved");
    assert_eq!((created.job_id.as_str(), created.status.as_str()), ("id", "created"));
}

#[test]
fn status_shows_three_counters() {
    let mut state = AppState::new(config(), "start");
    state.stats.record_opening();
    state.stats.record_error();
    let status = StatusResponse::new(true, false, "then", &state.stats, String::from("fine"));
    assert!(status.is_running);
    assert!(!status.is_connected);
    assert_eq!(status.last_check_time, "then");
    assert_eq!(
        status.stats,
        StatsResponse { enrollment_attempts: 1, successful_enrollments: 0, errors: 1 }
    );
    assert_eq!(status.health, "fine");
}
