use webreg_monitor::config::{SectionGroup as ConfigGroup, AppConfig, CourseConfig, CourseDetails, LegacyCourseDetails, MonitoringConfig, NotificationConfig, WebRegConfig};
use webreg_monitor::encryption::{EncryptionError, EncryptionKey};
use webreg_monitor::job_manager::{Directive, Trigger};
use webreg_monitor::models::{
    Course, CourseRequest, CreateJobRequest, Job, NotificationSettings, Section, SectionRequest,
    UpdateNotificationRequest,
};
use webreg_monitor::multi_user_state::{
    clone_courses, course_from_records, sweep_targets, CourseWithSections, JobLoad, MultiUserState,
    RegistryError, SectionGroup, SectionKind, UserJob,
};
use webreg_monitor::stats::EnrollmentStats;

fn key() -> EncryptionKey {
    EncryptionKey::from_base64(&EncryptionKey::generate()).unwrap()
}

fn courses() -> Vec<CourseWithSections> {
    vec![
        CourseWithSections {
            department: String::from("CSE"),
            course_code: String::from("100"),
            sections: vec![
                SectionGroup {
                    lecture: String::from("A00"),
                    discussions: vec![String::from("A01"), String::from("A02")],
                },
                SectionGroup { lecture: String::from("B00"), discussions: vec![] },
            ],
        },
        CourseWithSections {
            department: String::from("MATH"),
            course_code: String::from("20C"),
            sections: vec![],
        },
        CourseWithSections {
            department: String::from("BILD"),
            course_code: String::from("1"),
            sections: vec![SectionGroup {
                lecture: String::from("C00"),
                discussions: vec![String::from("C01")],
            }],
        },
    ]
}

fn settings() -> NotificationSettings {
    NotificationSettings {
        id: 1,
        user_id: 7,
        gmail_address: None,
        gmail_app_password_encrypted: None,
        gmail_encryption_nonce: None,
        email_recipients: vec![String::from("a@example.org")],
        discord_webhook_url: None,
    }
}

fn job_record(state: &MultiUserState, id: u128, owner: u128) -> Job {
    let (cookie_encrypted, encryption_nonce) = state.encryption_key().encrypt("the cookie").unwrap();
    Job {
        id,
        user_id: owner,
        term: String::from("SP24"),
        polling_interval: 30,
        cookie_encrypted,
        encryption_nonce,
        seat_threshold: 3,
        monitoring_mode: String::from("exclude"),
        is_active: false,
        is_connected: false,
    }
}

fn load(state: &MultiUserState, id: u128, owner: u128) -> JobLoad {
    JobLoad {
        job: Some(job_record(state, id, owner)),
        courses: courses(),
        settings: settings(),
        stats: Some(EnrollmentStats::default()),
    }
}

#[test]
fn start_puts_the_job_into_the_registry() {
    let mut state = MultiUserState::new(key());
    assert!(!state.is_running(42));
    assert!(state.get_job_status(42).is_none());
    let l = load(&state, 42, 7);
    let credentials = state.start_job(42, 7, l, "now").ok().unwrap();
    assert_eq!(credentials.cookie, "the cookie");
    assert_eq!(credentials.notifications.gmail_address, "");
    assert_eq!(credentials.notifications.gmail_app_password, "");
    assert_eq!(credentials.notifications.discord_webhook_url, "");
    assert_eq!(credentials.notifications.email_recipients, vec![String::from("a@example.org")]);
    assert!(state.is_running(42));
    let status = state.get_job_status(42).unwrap();
    assert!(status.is_running);
    assert!(status.is_connected);
    assert_eq!(status.last_check_time, "now");
    assert_eq!(status.stats.total_checks, 0);
    assert_eq!(credentials.run, 0);
    let job = state.checkout(42, credentials.run).unwrap();
    assert_eq!((job.job_id, job.user_id, job.run), (42, 7, 0));
    assert_eq!(job.term, "SP24");
    assert_eq!(job.polling_interval, 30);
    assert_eq!(job.seat_threshold, 3);
    assert_eq!(job.courses.len(), 3);
}

#[test]
fn second_start_is_refused() {
    let mut state = MultiUserState::new(key());
    let first = load(&state, 42, 7);
    let second = load(&state, 42, 7);
    assert!(state.start_job(42, 7, first, "t1").is_ok());
    assert_eq!(state.start_job(42, 7, second, "t2").err(), Some(RegistryError::AlreadyRunning));
    assert_eq!(state.get_job_status(42).unwrap().last_check_time, "t1");
    let other = load(&state, 43, 7);
    assert!(state.start_job(43, 7, other, "t3").is_ok());
    assert_eq!(state.running_count(), 2);
}

#[test]
fn start_of_a_missing_or_foreign_job_is_not_found() {
    let mut state = MultiUserState::new(key());
    let mut missing = load(&state, 42, 7);
    missing.job = None;
    assert_eq!(state.start_job(42, 7, missing, "t").err(), Some(RegistryError::NotFound));
    let foreign = load(&state, 42, 8);
    assert_eq!(state.start_job(42, 7, foreign, "t").err(), Some(RegistryError::NotFound));
    let other_job = load(&state, 41, 7);
    assert_eq!(state.start_job(42, 7, other_job, "t").err(), Some(RegistryError::NotFound));
    let mut no_stats = load(&state, 42, 7);
    no_stats.stats = None;
    assert_eq!(state.start_job(42, 7, no_stats, "t").err(), Some(RegistryError::NotFound));
    assert!(!state.is_running(42));
    assert_eq!(state.running_count(), 0);
}

#[test]
fn not_found_comes_before_already_running() {
    let mut state = MultiUserState::new(key());
    let first = load(&state, 42, 7);
    assert!(state.start_job(42, 7, first, "t").is_ok());
    let foreign = load(&state, 42, 8);
    assert_eq!(state.start_job(42, 8, load(&state, 42, 7), "t").err(), Some(RegistryError::NotFound));
    assert_eq!(state.start_job(42, 7, foreign, "t").err(), Some(RegistryError::NotFound));
}

#[test]
fn start_with_a_secret_of_another_key_fails() {
    let mut state = MultiUserState::new(key());
    let stranger = MultiUserState::new(key());
    let l = load(&stranger, 42, 7);
    assert_eq!(state.start_job(42, 7, l, "t").err(), Some(RegistryError::Authentication));
    assert!(!state.is_running(42));

    let mut bad_password = load(&state, 42, 7);
    let (sealed, nonce) = stranger.encryption_key().encrypt("pw").unwrap();
    bad_password.settings.gmail_app_password_encrypted = Some(sealed);
    bad_password.settings.gmail_encryption_nonce = Some(nonce);
    assert_eq!(state.start_job(42, 7, bad_password, "t").err(), Some(RegistryError::Authentication));
    assert!(!state.is_running(42));
}

#[test]
fn start_decrypts_the_mail_password() {
    let mut state = MultiUserState::new(key());
    let mut l = load(&state, 42, 7);
    let (sealed, nonce) = state.encryption_key().encrypt("app password").unwrap();
    l.settings.gmail_address = Some(String::from("me@example.org"));
    l.settings.gmail_app_password_encrypted = Some(sealed.clone());
    l.settings.gmail_encryption_nonce = Some(nonce);
    l.settings.discord_webhook_url = Some(String::from("https://example.org/hook"));
    let credentials = state.start_job(42, 7, l, "t").ok().unwrap();
    assert_eq!(credentials.notifications.gmail_app_password, "app password");
    assert_eq!(credentials.notifications.gmail_address, "me@example.org");
    assert_eq!(credentials.notifications.discord_webhook_url, "https://example.org/hook");

    // a ciphertext without its nonce is left alone
    let mut half = load(&state, 43, 7);
    half.settings.gmail_app_password_encrypted = Some(sealed);
    let credentials = state.start_job(43, 7, half, "t").ok().unwrap();
    assert_eq!(credentials.notifications.gmail_app_password, "");
}

#[test]
fn negative_interval_counts_as_zero() {
    let mut state = MultiUserState::new(key());
    let mut l = load(&state, 42, 7);
    if let Some(job) = l.job.as_mut() {
        job.polling_interval = -5;
        job.seat_threshold = -2;
    }
    let run = state.start_job(42, 7, l, "t").ok().unwrap().run;
    let job = state.checkout(42, run).unwrap();
    assert_eq!(job.polling_interval, 0);
    assert_eq!(job.seat_threshold, -2);
}

#[test]
fn stop_removes_the_job_at_once() {
    let mut state = MultiUserState::new(key());
    let l = load(&state, 42, 7);
    let run = state.start_job(42, 7, l, "t").ok().unwrap().run;
    let mut working_copy = state.checkout(42, run).unwrap();
    assert_eq!(state.stop_job(42), Ok(()));
    assert!(state.get_job_status(42).is_none());
    assert!(!state.is_running(42));
    assert!(state.checkout(42, run).is_none());
    // the sweep that was under way ends and writes back: the job stays out
    working_copy.finish_sweep("late");
    assert!(!state.commit(42, working_copy));
    assert!(state.get_job_status(42).is_none());
    assert_eq!(state.stop_job(42), Err(RegistryError::NotFound));
    // and it can be started again
    let again = load(&state, 42, 7);
    assert!(state.start_job(42, 7, again, "t2").is_ok());
    assert_eq!(state.get_job_status(42).unwrap().last_check_time, "t2");
}

#[test]
fn restarted_job_shows_the_new_run_only() {
    let mut state = MultiUserState::new(key());
    let l = load(&state, 42, 7);
    let first_run = state.start_job(42, 7, l, "first").ok().unwrap().run;
    let mut old_copy = state.checkout(42, first_run).unwrap();
    old_copy.stats.record_opening();
    old_copy.is_connected = false;
    old_copy.finish_sweep("late");

    assert_eq!(state.stop_job(42), Ok(()));
    let again = load(&state, 42, 7);
    let second_run = state.start_job(42, 7, again, "second").ok().unwrap().run;
    assert_ne!(first_run, second_run);

    // the loop of the first run is still unwinding: it gets no copy and its
    // late write is dropped
    assert!(state.checkout(42, first_run).is_none());
    assert!(!state.commit(42, old_copy));
    let status = state.get_job_status(42).unwrap();
    assert!(status.is_running);
    assert!(status.is_connected);
    assert_eq!(status.last_check_time, "second");
    assert_eq!(status.stats.total_checks, 0);
    assert_eq!(status.stats.openings_found, 0);

    // the second run's own copy is kept
    let mut new_copy = state.checkout(42, second_run).unwrap();
    assert_eq!(new_copy.run, second_run);
    new_copy.finish_sweep("swept");
    assert!(state.commit(42, new_copy));
    assert_eq!(state.get_job_status(42).unwrap().last_check_time, "swept");
}

#[test]
fn copy_is_kept_only_under_its_own_job() {
    let mut state = MultiUserState::new(key());
    let five = load(&state, 5, 7);
    let seven = load(&state, 7, 7);
    let run_five = state.start_job(5, 7, five, "five").ok().unwrap().run;
    let run_seven = state.start_job(7, 7, seven, "seven").ok().unwrap().run;
    assert_eq!((run_five, run_seven), (0, 1));
    let copy_of_seven = state.checkout(7, run_seven).unwrap();
    assert!(!state.commit(5, copy_of_seven));
    assert_eq!(state.get_job_status(5).unwrap().last_check_time, "five");
    assert_eq!(state.checkout(5, run_five).unwrap().job_id, 5);

    // a copy that claims another owner or another run is dropped too
    let mut forged = state.checkout(5, run_five).unwrap();
    forged.user_id = 8;
    assert!(!state.commit(5, forged));
    let mut renumbered = state.checkout(5, run_five).unwrap();
    renumbered.run = run_seven;
    assert!(!state.commit(5, renumbered));
    assert_eq!(state.delete_job(5, 7), Ok(true));
    assert_eq!(state.delete_job(7, 7), Ok(true));
    assert_eq!(state.running_count(), 0);
}

#[test]
fn stop_of_a_job_that_does_not_run_is_not_found() {
    let mut state = MultiUserState::new(key());
    assert_eq!(state.stop_job(1), Err(RegistryError::NotFound));
    let l = load(&state, 42, 7);
    assert!(state.start_job(42, 7, l, "t").is_ok());
    assert_eq!(state.stop_job(1), Err(RegistryError::NotFound));
    assert!(state.is_running(42));
}

#[test]
fn delete_stops_a_running_job() {
    let mut state = MultiUserState::new(key());
    let l = load(&state, 42, 7);
    assert!(state.start_job(42, 7, l, "t").is_ok());
    assert_eq!(state.delete_job(42, 7), Ok(true));
    assert!(!state.is_running(42));
    assert_eq!(state.delete_job(42, 7), Ok(false));
    assert_eq!(state.delete_job(42, 8), Ok(false));
}

#[test]
fn delete_leaves_the_job_of_another_owner_alone() {
    let mut state = MultiUserState::new(key());
    let l = load(&state, 42, 7);
    assert!(state.start_job(42, 7, l, "t").is_ok());
    assert_eq!(state.delete_job(42, 8), Err(RegistryError::NotFound));
    assert!(state.is_running(42));
    assert_eq!(state.get_job_status(42).unwrap().last_check_time, "t");
    assert_eq!(state.delete_job(42, 7), Ok(true));
    assert!(state.get_job_status(42).is_none());
}

#[test]
fn commit_replaces_the_state_of_a_running_job() {
    let mut state = MultiUserState::new(key());
    let l = load(&state, 42, 7);
    let run = state.start_job(42, 7, l, "t").ok().unwrap().run;
    let mut job = state.checkout(42, run).unwrap();
    job.stats.record_opening();
    assert_eq!(job.finish_sweep("after sweep"), 30);
    assert_eq!(state.get_job_status(42).unwrap().stats.total_checks, 0);
    assert!(state.commit(42, job));
    let status = state.get_job_status(42).unwrap();
    assert_eq!(status.stats.total_checks, 1);
    assert_eq!(status.stats.openings_found, 1);
    assert_eq!(status.stats.last_updated, "after sweep");
    assert_eq!(status.last_check_time, "after sweep");
}

#[test]
fn create_encrypts_the_cookie_and_settles_the_threshold() {
    let state = MultiUserState::new(key());
    let mut request = CreateJobRequest {
        term: String::from("SP24"),
        polling_interval: 30,
        cookie: String::from("the cookie"),
        seat_threshold: 5,
        monitoring_mode: String::from("include"),
        courses: vec![CourseRequest {
            department: String::from("CSE"),
            course_code: String::from("100"),
            sections: vec![SectionRequest { lecture: String::from("A00"), discussions: vec![] }],
        }],
    };
    let draft = state.create_job(&request).unwrap();
    assert_eq!(draft.seat_threshold, 0);
    assert_eq!(draft.term, "SP24");
    assert_eq!(draft.polling_interval, 30);
    assert_eq!(draft.monitoring_mode, "include");
    assert_ne!(draft.cookie_encrypted, "the cookie");
    assert_eq!(
        state.encryption_key().decrypt(&draft.cookie_encrypted, &draft.encryption_nonce),
        Ok::<String, EncryptionError>(String::from("the cookie"))
    );
    assert_eq!(state.running_count(), 0);
    request.monitoring_mode = String::from("exclude");
    assert_eq!(state.create_job(&request).unwrap().seat_threshold, 5);
    request.monitoring_mode = String::from("Include");
    assert_eq!(state.create_job(&request).unwrap().seat_threshold, 5);
}

#[test]
fn sweep_order_is_lecture_then_discussions() {
    let targets = sweep_targets(&courses());
    let listed: Vec<(&str, &str, SectionKind, &str)> = targets
        .iter()
        .map(|t| (t.department.as_str(), t.course_code.as_str(), t.kind, t.section.as_str()))
        .collect();
    assert_eq!(
        listed,
        vec![
            ("CSE", "100", SectionKind::Lecture, "A00"),
            ("CSE", "100", SectionKind::Discussion, "A01"),
            ("CSE", "100", SectionKind::Discussion, "A02"),
            ("CSE", "100", SectionKind::Lecture, "B00"),
            ("BILD", "1", SectionKind::Lecture, "C00"),
            ("BILD", "1", SectionKind::Discussion, "C01"),
        ]
    );
    assert!(sweep_targets(&Vec::new()).is_empty());
}

#[test]
fn courses_are_copied_and_built_from_records() {
    let copy = clone_courses(&courses());
    assert_eq!(copy.len(), 3);
    assert_eq!(copy[0].sections[0].discussions, vec![String::from("A01"), String::from("A02")]);
    assert_eq!(copy[2].department, "BILD");
    let course = Course { id: 1, job_id: 2, department: String::from("CSE"), course_code: String::from("100") };
    let sections = vec![
        Section { id: 3, course_id: 1, lecture: String::from("A00"), discussions: vec![String::from("A01")] },
        Section { id: 4, course_id: 1, lecture: String::from("B00"), discussions: vec![] },
    ];
    let watched = course_from_records(&course, &sections);
    assert_eq!(watched.department, "CSE");
    assert_eq!(watched.course_code, "100");
    assert_eq!(watched.sections.len(), 2);
    assert_eq!(watched.sections[0].lecture, "A00");
    assert_eq!(watched.sections[0].discussions, vec![String::from("A01")]);
    assert_eq!(watched.sections[1].lecture, "B00");
}

fn running_job() -> UserJob {
    UserJob {
        job_id: 1,
        user_id: 2,
        run: 0,
        term: String::from("SP24"),
        stats: EnrollmentStats::default(),
        courses: courses(),
        polling_interval: 15,
        seat_threshold: 0,
        is_running: true,
        is_connected: true,
        last_check_time: String::new(),
    }
}

#[test]
fn job_loop_pauses_and_resumes() {
    let mut job = running_job();
    assert_eq!(job.on_trigger(Trigger::Poll), Directive::Sweep);
    assert_eq!(job.on_trigger(Trigger::Refresh(true)), Directive::Wait);
    assert_eq!(job.on_trigger(Trigger::Refresh(false)), Directive::NotifySessionExpired);
    assert!(job.is_running && !job.is_connected);
    assert_eq!(job.on_trigger(Trigger::Refresh(false)), Directive::Wait);
    assert_eq!(job.on_trigger(Trigger::Poll), Directive::Idle);
    assert!(job.is_running && !job.is_connected);
    assert_eq!(job.on_trigger(Trigger::Refresh(true)), Directive::Wait);
    assert!(job.is_running && job.is_connected);
    assert_eq!(job.on_trigger(Trigger::Poll), Directive::Sweep);
    assert_eq!(job.on_trigger(Trigger::Cancel), Directive::Exit);
    assert!(!job.is_running);
    assert_eq!(job.on_trigger(Trigger::Poll), Directive::Exit);
    assert_eq!(job.on_trigger(Trigger::Refresh(true)), Directive::Exit);
    assert_eq!(job.on_trigger(Trigger::Refresh(false)), Directive::Exit);
    assert!(!job.is_running);
    assert_eq!(job.stats.total_checks, 0);
}

#[test]
fn cancel_while_paused_stops() {
    let mut job = running_job();
    job.on_trigger(Trigger::Refresh(false));
    assert_eq!(job.on_trigger(Trigger::Cancel), Directive::Exit);
    assert!(!job.is_running);
    assert!(!job.is_connected);
}

#[test]
fn legacy_course_has_one_group() {
    let legacy = LegacyCourseDetails {
        department: String::from("BILD"),
        course_code: String::from("1"),
        lecture_section: String::from("C00"),
        discussion_sections: vec![String::from("C01"), String::from("C02")],
    };
    let groups = webreg_monitor::config::to_section_groups(&legacy);
    assert_eq!(groups.len(), 1);
    assert_eq!(groups[0].lecture, "C00");
    assert_eq!(groups[0].discussions, vec![String::from("C01"), String::from("C02")]);
    let details = CourseDetails::Legacy(legacy.clone());
    assert_eq!(details.department(), "BILD");
    assert_eq!(details.course_code(), "1");
    assert_eq!(details.section_groups().len(), 1);
    let _config = AppConfig {
        webreg: WebRegConfig { term: String::new(), polling_interval: 1, cookie: String::new() },
        notifications: NotificationConfig {
            gmail_address: String::new(),
            gmail_app_password: String::new(),
            email_recipients: vec![],
            discord_webhook_url: String::new(),
        },
        courses: CourseConfig { chem: details, bild: legacy },
        monitoring: MonitoringConfig {
            log_file: String::new(),
            stats_file: String::new(),
            cookie_refresh_interval: 480,
            max_retries: 3,
            retry_delay: 1000,
            seat_threshold: webreg_monitor::config::default_seat_threshold(),
        },
    };
    let _group = ConfigGroup { lecture: String::new(), discussions: vec![] };
}

#[test]
fn stale_jobs_are_the_stored_ones_that_do_not_run() {
    let mut state = MultiUserState::new(key());
    assert_eq!(state.stale_jobs(&vec![3, 1, 2]), vec![3, 1, 2]);
    let l = load(&state, 1, 7);
    assert!(state.start_job(1, 7, l, "t").is_ok());
    assert_eq!(state.stale_jobs(&vec![3, 1, 2, 1, 3]), vec![3, 2, 3]);
    assert_eq!(state.stale_jobs(&vec![1]), Vec::<u128>::new());
    assert_eq!(state.stale_jobs(&Vec::new()), Vec::<u128>::new());
}

#[test]
fn mail_password_is_stored_encrypted() {
    let mut state = MultiUserState::new(key());
    let request = UpdateNotificationRequest {
        gmail_address: Some(String::from("me@example.org")),
        gmail_app_password: Some(String::from("app password")),
        email_recipients: vec![String::from("a@example.org"), String::from("b@example.org")],
        discord_webhook_url: None,
    };
    let update = state.seal_notifications(&request).unwrap();
    assert_eq!(update.gmail_address, Some(String::from("me@example.org")));
    assert_eq!(update.discord_webhook_url, None);
    assert_eq!(update.email_recipients, request.email_recipients);
    let sealed = update.gmail_app_password_encrypted.clone().unwrap();
    let nonce = update.gmail_encryption_nonce.clone().unwrap();
    assert_ne!(sealed, "app password");
    assert_eq!(state.encryption_key().decrypt(&sealed, &nonce), Ok(String::from("app password")));

    // what was stored is what a start recovers
    let mut l = load(&state, 42, 7);
    l.settings.gmail_address = update.gmail_address;
    l.settings.gmail_app_password_encrypted = update.gmail_app_password_encrypted;
    l.settings.gmail_encryption_nonce = update.gmail_encryption_nonce;
    let credentials = state.start_job(42, 7, l, "t").ok().unwrap();
    assert_eq!(credentials.notifications.gmail_app_password, "app password");

    let without = UpdateNotificationRequest {
        gmail_address: None,
        gmail_app_password: None,
        email_recipients: vec![],
        discord_webhook_url: Some(String::from("hook")),
    };
    let update = state.seal_notifications(&without).unwrap();
    assert_eq!(update.gmail_app_password_encrypted, None);
    assert_eq!(update.gmail_encryption_nonce, None);
    assert_eq!(update.discord_webhook_url, Some(String::from("hook")));
    assert_eq!(update.gmail_address, None);
}
