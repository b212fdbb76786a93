//! The registry of running jobs, and the state that one running job owns.

use crate::config::NotificationConfig;
use crate::encryption::{decrypt_spec, sealable, EncryptionError, EncryptionKey};
use crate::models::{
    Course, CreateJobRequest, Job, NotificationSettings, Section, UpdateNotificationRequest,
};
use crate::job_manager::{directive_for, next_phase, phase, phase_of, step, Directive, JobPhase, Trigger};
use crate::stats::{with_sweep, EnrollmentStats, StatsView};
use crate::utils::{clone_strings, texts, CourseView, GroupView};
use std::collections::HashMap;
use vstd::prelude::*;
use vstd::string::StringExecFns;
use vstd::utf8::encode_utf8;

verus! {

/// One lecture with the discussions that belong to it.
#[derive(Clone)]
pub struct SectionGroup {
    pub lecture: String,
    pub discussions: Vec<String>,
}

/// A watched course with its lecture groups.
#[derive(Clone)]
pub struct CourseWithSections {
    pub department: String,
    pub course_code: String,
    pub sections: Vec<SectionGroup>,
}

impl View for SectionGroup {
    type V = GroupView;

    open spec fn view(&self) -> GroupView {
        GroupView { lecture: self.lecture@, discussions: texts(self.discussions@) }
    }
}

impl View for CourseWithSections {
    type V = CourseView;

    open spec fn view(&self) -> CourseView {
        CourseView {
            department: self.department@,
            course_code: self.course_code@,
            sections: Seq::new(self.sections@.len(), |i: int| self.sections@[i]@),
        }
    }
}

/// The views of a sequence of courses.
pub open spec fn course_views(courses: Seq<CourseWithSections>) -> Seq<CourseView> {
    Seq::new(courses.len(), |i: int| courses[i]@)
}

/// Copies a list of courses.
pub fn clone_courses(courses: &Vec<CourseWithSections>) -> (copy: Vec<CourseWithSections>)
    ensures
        course_views(copy@) == course_views(courses@),
{
    let mut copy: Vec<CourseWithSections> = Vec::new();
    let mut i: usize = 0;
    while i < courses.len()
        invariant
            i <= courses@.len(),
            copy@.len() == i,
            forall|k: int| 0 <= k < i ==> (#[trigger] copy@[k])@ == courses@[k]@,
        decreases courses@.len() - i,
    {
        let course = &courses[i];
        let mut sections: Vec<SectionGroup> = Vec::new();
        let mut j: usize = 0;
        while j < course.sections.len()
            invariant
                j <= course.sections@.len(),
                sections@.len() == j,
                forall|k: int| 0 <= k < j ==> (#[trigger] sections@[k])@ == course.sections@[k]@,
            decreases course.sections@.len() - j,
        {
            sections.push(
                SectionGroup {
                    lecture: course.sections[j].lecture.clone(),
                    discussions: clone_strings(&course.sections[j].discussions),
                },
            );
            j += 1;
        }
        let cloned = CourseWithSections {
            department: course.department.clone(),
            course_code: course.course_code.clone(),
            sections,
        };
        assert(cloned@.sections =~= course@.sections);
        copy.push(cloned);
        i += 1;
    }
    assert(course_views(copy@) =~= course_views(courses@));
    copy
}

/// Whether a watched section is a lecture or a discussion.
#[derive(Clone, Copy, Debug, PartialEq, Eq, Structural)]
pub enum SectionKind {
    Lecture,
    Discussion,
}

/// One watched section of a course.
#[derive(Clone, Debug)]
pub struct Target {
    pub department: String,
    pub course_code: String,
    pub kind: SectionKind,
    pub section: String,
}

/// A watched section as mathematical values.
pub struct TargetView {
    pub department: Seq<char>,
    pub course_code: Seq<char>,
    pub kind: SectionKind,
    pub section: Seq<char>,
}

impl View for Target {
    type V = TargetView;

    open spec fn view(&self) -> TargetView {
        TargetView {
            department: self.department@,
            course_code: self.course_code@,
            kind: self.kind,
            section: self.section@,
        }
    }
}

/// The views of a sequence of targets.
pub open spec fn target_views(targets: Seq<Target>) -> Seq<TargetView> {
    Seq::new(targets.len(), |i: int| targets[i]@)
}

/// The targets of one lecture group: the lecture, then its discussions in
/// their order.
pub open spec fn group_targets(
    department: Seq<char>,
    course_code: Seq<char>,
    group: GroupView,
) -> Seq<TargetView> {
    seq![
        TargetView { department, course_code, kind: SectionKind::Lecture, section: group.lecture },
    ] + Seq::new(
        group.discussions.len(),
        |i: int|
            TargetView {
                department,
                course_code,
                kind: SectionKind::Discussion,
                section: group.discussions[i],
            },
    )
}

/// The targets of the first `count` lecture groups of a course.
pub open spec fn course_targets(course: CourseView, count: int) -> Seq<TargetView>
    decreases count,
{
    if count <= 0 {
        Seq::empty()
    } else {
        course_targets(course, count - 1) + group_targets(
            course.department,
            course.course_code,
            course.sections[count - 1],
        )
    }
}

/// The targets of the first `count` courses: course by course, group by
/// group, each lecture before its discussions.
pub open spec fn all_targets(courses: Seq<CourseView>, count: int) -> Seq<TargetView>
    decreases count,
{
    if count <= 0 {
        Seq::empty()
    } else {
        all_targets(courses, count - 1) + course_targets(
            courses[count - 1],
            courses[count - 1].sections.len() as int,
        )
    }
}

/// Lists the sections to poll in one sweep, in the order in which they are
/// polled.
pub fn sweep_targets(courses: &Vec<CourseWithSections>) -> (targets: Vec<Target>)
    ensures
        target_views(targets@) == all_targets(course_views(courses@), courses@.len() as int),
{
    let mut targets: Vec<Target> = Vec::new();
    let mut i: usize = 0;
    while i < courses.len()
        invariant
            i <= courses@.len(),
            target_views(targets@) == all_targets(course_views(courses@), i as int),
        decreases courses@.len() - i,
    {
        let course = &courses[i];
        let ghost before_course = target_views(targets@);
        let mut j: usize = 0;
        while j < course.sections.len()
            invariant
                j <= course.sections@.len(),
                target_views(targets@) == before_course + course_targets(course@, j as int),
            decreases course.sections@.len() - j,
        {
            let group = &course.sections[j];
            let ghost before_group = target_views(targets@);
            targets.push(
                Target {
                    department: course.department.clone(),
                    course_code: course.course_code.clone(),
                    kind: SectionKind::Lecture,
                    section: group.lecture.clone(),
                },
            );
            let mut k: usize = 0;
            while k < group.discussions.len()
                invariant
                    k <= group.discussions@.len(),
                    target_views(targets@) == before_group + group_targets(
                        course.department@,
                        course.course_code@,
                        group@,
                    ).take(k + 1),
                decreases group.discussions@.len() - k,
            {
                let ghost before_push = target_views(targets@);
                targets.push(
                    Target {
                        department: course.department.clone(),
                        course_code: course.course_code.clone(),
                        kind: SectionKind::Discussion,
                        section: group.discussions[k].clone(),
                    },
                );
                assert(target_views(targets@) =~= before_push.push(targets@[targets@.len() - 1]@));
                assert(target_views(targets@) =~= before_group + group_targets(
                    course.department@,
                    course.course_code@,
                    group@,
                ).take(k + 2));
                k += 1;
            }
            proof {
                let whole = group_targets(course.department@, course.course_code@, group@);
                assert(whole.take(whole.len() as int) =~= whole);
                assert(course@.sections[j as int] == group@);
                assert(before_course + course_targets(course@, j as int) + whole =~= before_course
                    + course_targets(course@, j + 1));
            }
            j += 1;
        }
        proof {
            assert(course_views(courses@)[i as int] == course@);
            assert(course@.sections.len() == course.sections@.len());
        }
        i += 1;
    }
    targets
}

/// Seconds between two checks of a running job's session.
pub const SESSION_REFRESH_SECONDS: u64 = 480;

/// The state that one running job owns.
pub struct UserJob {
    pub job_id: u128,
    pub user_id: u128,
    /// The number of this run of the job, which the registry gave at the
    /// start. It tells the state of this run from that of any other.
    pub run: u64,
    pub term: String,
    pub stats: EnrollmentStats,
    pub courses: Vec<CourseWithSections>,
    /// Seconds between two sweeps.
    pub polling_interval: u64,
    pub seat_threshold: i64,
    pub is_running: bool,
    pub is_connected: bool,
    pub last_check_time: String,
}

/// A running job as mathematical values.
pub struct JobView {
    pub job_id: u128,
    pub user_id: u128,
    pub run: u64,
    pub term: Seq<char>,
    pub stats: StatsView,
    pub courses: Seq<CourseView>,
    pub polling_interval: u64,
    pub seat_threshold: i64,
    pub is_running: bool,
    pub is_connected: bool,
    pub last_check_time: Seq<char>,
}

impl View for UserJob {
    type V = JobView;

    open spec fn view(&self) -> JobView {
        JobView {
            job_id: self.job_id,
            user_id: self.user_id,
            run: self.run,
            term: self.term@,
            stats: self.stats@,
            courses: course_views(self.courses@),
            polling_interval: self.polling_interval,
            seat_threshold: self.seat_threshold,
            is_running: self.is_running,
            is_connected: self.is_connected,
            last_check_time: self.last_check_time@,
        }
    }
}

/// What a status query shows of a running job.
pub struct JobStatusInfo {
    pub is_running: bool,
    pub is_connected: bool,
    pub last_check_time: String,
    pub stats: EnrollmentStats,
}

/// A status as mathematical values.
pub struct StatusView {
    pub is_running: bool,
    pub is_connected: bool,
    pub last_check_time: Seq<char>,
    pub stats: StatsView,
}

impl View for JobStatusInfo {
    type V = StatusView;

    open spec fn view(&self) -> StatusView {
        StatusView {
            is_running: self.is_running,
            is_connected: self.is_connected,
            last_check_time: self.last_check_time@,
            stats: self.stats@,
        }
    }
}

/// The status that a job shows.
pub open spec fn status_of(job: JobView) -> StatusView {
    StatusView {
        is_running: job.is_running,
        is_connected: job.is_connected,
        last_check_time: job.last_check_time,
        stats: job.stats,
    }
}

/// The job after a trigger of its loop: the two flags follow the phase,
/// and nothing else changes. A job that stops keeps its connection flag.
pub open spec fn job_after_trigger(job: JobView, trigger: Trigger) -> JobView {
    match next_phase(phase_of(job.is_running, job.is_connected), trigger) {
        JobPhase::Stopped => JobView { is_running: false, ..job },
        JobPhase::Running => JobView { is_connected: true, ..job },
        JobPhase::PausedDisconnected => JobView { is_connected: false, ..job },
    }
}

/// The job after a completed sweep that ended at the time written as
/// `finished`: one more sweep is counted, and both the statistics and the
/// job note the time.
pub open spec fn job_after_sweep(job: JobView, finished: Seq<char>) -> JobView {
    JobView { stats: with_sweep(job.stats, finished), last_check_time: finished, ..job }
}

impl UserJob {
    /// A copy of the job.
    pub fn snapshot(&self) -> (copy: Self)
        ensures
            copy@ == self@,
    {
        UserJob {
            job_id: self.job_id,
            user_id: self.user_id,
            run: self.run,
            term: self.term.clone(),
            stats: self.stats.snapshot(),
            courses: clone_courses(&self.courses),
            polling_interval: self.polling_interval,
            seat_threshold: self.seat_threshold,
            is_running: self.is_running,
            is_connected: self.is_connected,
            last_check_time: self.last_check_time.clone(),
        }
    }

    /// What a status query shows of the job.
    pub fn status(&self) -> (info: JobStatusInfo)
        ensures
            info@ == status_of(self@),
    {
        JobStatusInfo {
            is_running: self.is_running,
            is_connected: self.is_connected,
            last_check_time: self.last_check_time.clone(),
            stats: self.stats.snapshot(),
        }
    }

    /// Takes one trigger of the job's loop and says what to do.
    pub fn on_trigger(&mut self, trigger: Trigger) -> (directive: Directive)
        ensures
            directive == directive_for(phase_of(old(self).is_running, old(self).is_connected), trigger),
            final(self)@ == job_after_trigger(old(self)@, trigger),
    {
        let (after, directive) = step(phase(self.is_running, self.is_connected), trigger);
        match after {
            JobPhase::Stopped => {
                self.is_running = false;
            },
            JobPhase::Running => {
                self.is_connected = true;
            },
            JobPhase::PausedDisconnected => {
                self.is_connected = false;
            },
        }
        directive
    }

    /// Closes a sweep that ended at the time written as `finished`, and
    /// returns the seconds to sleep before the next one.
    pub fn finish_sweep(&mut self, finished: &str) -> (sleep_seconds: u64)
        ensures
            final(self)@ == job_after_sweep(old(self)@, finished@),
            sleep_seconds == old(self).polling_interval,
    {
        self.stats.record_sweep(finished);
        self.last_check_time = finished.to_owned();
        self.polling_interval
    }
}

/// Why the registry refused.
#[derive(Clone, Copy, Debug, PartialEq, Eq, Structural)]
pub enum RegistryError {
    /// The job does not exist, is not owned by the caller, or is not
    /// running where a running job was asked for.
    NotFound,
    /// The job is in the registry already.
    AlreadyRunning,
    /// A stored secret of the job does not decrypt under the key.
    Authentication,
    /// The registry has given out its last run number.
    RunsExhausted,
}

/// What was read from the store for a job that is to start.
pub struct JobLoad {
    /// The job's record, if there is one for this job and owner.
    pub job: Option<Job>,
    pub courses: Vec<CourseWithSections>,
    pub settings: NotificationSettings,
    /// The job's statistics, if the store holds them.
    pub stats: Option<EnrollmentStats>,
}

/// The secrets of a started job, decrypted, for the clients that act for it.
pub struct JobCredentials {
    /// The number of the run that was started.
    pub run: u64,
    pub cookie: String,
    pub notifications: NotificationConfig,
}

/// The text of an optional string; none counts as empty.
pub open spec fn text_or_empty(text: Option<String>) -> Seq<char> {
    match text {
        Some(t) => t@,
        None => Seq::empty(),
    }
}

/// The mail password of stored settings: the decrypted one where both the
/// ciphertext and its nonce are stored, the empty one otherwise.
pub open spec fn settings_password(key: Seq<u8>, settings: NotificationSettings) -> Result<
    Seq<char>,
    EncryptionError,
> {
    match (settings.gmail_app_password_encrypted, settings.gmail_encryption_nonce) {
        (Some(sealed), Some(nonce)) => decrypt_spec(key, sealed@, nonce@),
        _ => Ok(Seq::empty()),
    }
}

/// Whether the loaded record is the record of job `job_id` of owner
/// `user_id`.
pub open spec fn is_owned_record(job: Option<Job>, job_id: u128, user_id: u128) -> bool {
    job matches Some(j) && j.id == job_id && j.user_id == user_id
}

/// Why a start is refused, if it is: a job that is missing or owned by
/// someone else is not found; a job in the registry is running already;
/// then the cookie and the mail password must decrypt; statistics must
/// have been stored for the job; and the registry must have a run number
/// left, which `next_run` below the largest number says.
pub open spec fn start_refusal(
    key: Seq<u8>,
    running: bool,
    next_run: u64,
    job_id: u128,
    user_id: u128,
    load: JobLoad,
) -> Option<RegistryError> {
    if !is_owned_record(load.job, job_id, user_id) {
        Some(RegistryError::NotFound)
    } else if running {
        Some(RegistryError::AlreadyRunning)
    } else if decrypt_spec(
        key,
        load.job->0.cookie_encrypted@,
        load.job->0.encryption_nonce@,
    ) is Err {
        Some(RegistryError::Authentication)
    } else if settings_password(key, load.settings) is Err {
        Some(RegistryError::Authentication)
    } else if load.stats is None {
        Some(RegistryError::NotFound)
    } else if next_run == u64::MAX {
        Some(RegistryError::RunsExhausted)
    } else {
        None
    }
}

/// The polling interval of a stored job in seconds; a negative one counts
/// as zero.
pub open spec fn interval_of(stored: i32) -> u64 {
    if stored < 0 {
        0
    } else {
        stored as u64
    }
}

/// The state with which a loaded job starts its run number `run`: running
/// and connected, with the stored statistics and the watched courses, last
/// checked at the time of the start.
pub open spec fn started_job(
    job_id: u128,
    user_id: u128,
    load: JobLoad,
    now: Seq<char>,
    run: u64,
) -> JobView {
    JobView {
        job_id,
        user_id,
        run,
        term: load.job->0.term@,
        stats: load.stats->0@,
        courses: course_views(load.courses@),
        polling_interval: interval_of(load.job->0.polling_interval),
        seat_threshold: load.job->0.seat_threshold as i64,
        is_running: true,
        is_connected: true,
        last_check_time: now,
    }
}

/// That `credentials` are the secrets of the loaded job, decrypted under
/// `key`, with unset settings left empty.
pub open spec fn credentials_of(key: Seq<u8>, load: JobLoad, credentials: JobCredentials) -> bool {
    &&& decrypt_spec(key, load.job->0.cookie_encrypted@, load.job->0.encryption_nonce@) == Ok::<
        Seq<char>,
        EncryptionError,
    >(credentials.cookie@)
    &&& settings_password(key, load.settings) == Ok::<Seq<char>, EncryptionError>(
        credentials.notifications.gmail_app_password@,
    )
    &&& credentials.notifications.gmail_address@ == text_or_empty(load.settings.gmail_address)
    &&& credentials.notifications.discord_webhook_url@ == text_or_empty(
        load.settings.discord_webhook_url,
    )
    &&& texts(credentials.notifications.email_recipients@) == texts(load.settings.email_recipients@)
}

/// Whether job `job_id` is running for an owner other than `user_id`.
pub open spec fn runs_for_another(registry: Map<u128, JobView>, job_id: u128, user_id: u128) -> bool {
    registry.contains_key(job_id) && registry[job_id].user_id != user_id
}

/// Whether `job` is a state of the run of job `job_id` that the registry
/// holds: the job is running, and the copy carries its identifier, its
/// owner and the number of its run.
pub open spec fn is_of_this_run(registry: Map<u128, JobView>, job_id: u128, job: JobView) -> bool {
    &&& registry.contains_key(job_id)
    &&& job.job_id == job_id
    &&& job.user_id == registry[job_id].user_id
    &&& job.run == registry[job_id].run
}

/// The registry after a working copy of job `job_id` is written back: the
/// copy replaces the job's state if it is of the run that the registry
/// holds. A copy of a job that was stopped, of an earlier run of a job that
/// was started again, or of another job is dropped.
pub open spec fn committed(registry: Map<u128, JobView>, job_id: u128, job: JobView) -> Map<
    u128,
    JobView,
> {
    if is_of_this_run(registry, job_id, job) {
        registry.insert(job_id, job)
    } else {
        registry
    }
}

/// That every job stands under its own identifier and carries a run number
/// that the registry has given out already, so below `next_run`.
pub open spec fn well_numbered(registry: Map<u128, JobView>, next_run: u64) -> bool {
    forall|id: u128| #[trigger]
        registry.contains_key(id) ==> registry[id].job_id == id && registry[id].run < next_run
}

/// Those of `ids`, in their order, that are not in the registry.
pub open spec fn not_running(registry: Map<u128, JobView>, ids: Seq<u128>) -> Seq<u128>
    decreases ids.len(),
{
    if ids.len() == 0 {
        Seq::empty()
    } else {
        let before = not_running(registry, ids.drop_last());
        if registry.contains_key(ids.last()) {
            before
        } else {
            before.push(ids.last())
        }
    }
}

/// What is stored of a job that is being created: the cookie encrypted,
/// and the threshold that the job will run with.
pub struct JobDraft {
    pub term: String,
    pub polling_interval: i32,
    pub cookie_encrypted: String,
    pub encryption_nonce: String,
    pub seat_threshold: i32,
    pub monitoring_mode: String,
}

/// What is stored of changed notification settings: the mail password
/// encrypted, with its nonce, and the rest as it was sent.
pub struct NotificationUpdate {
    pub gmail_address: Option<String>,
    pub gmail_app_password_encrypted: Option<String>,
    pub gmail_encryption_nonce: Option<String>,
    pub email_recipients: Vec<String>,
    pub discord_webhook_url: Option<String>,
}

/// The text of an optional string.
pub open spec fn optional_text(text: Option<String>) -> Option<Seq<char>> {
    match text {
        Some(t) => Some(t@),
        None => None,
    }
}

/// That `update` is `request` with the mail password, if one was sent,
/// encrypted under `key`.
pub open spec fn seals_request(
    key: Seq<u8>,
    request: UpdateNotificationRequest,
    update: NotificationUpdate,
) -> bool {
    &&& optional_text(update.gmail_address) == optional_text(request.gmail_address)
    &&& optional_text(update.discord_webhook_url) == optional_text(request.discord_webhook_url)
    &&& texts(update.email_recipients@) == texts(request.email_recipients@)
    &&& match request.gmail_app_password {
        Some(password) => {
            &&& update.gmail_app_password_encrypted is Some
            &&& update.gmail_encryption_nonce is Some
            &&& decrypt_spec(
                key,
                update.gmail_app_password_encrypted->0@,
                update.gmail_encryption_nonce->0@,
            ) == Ok::<Seq<char>, EncryptionError>(password@)
        },
        None => update.gmail_app_password_encrypted is None && update.gmail_encryption_nonce
            is None,
    }
}

/// The threshold that a job in the mode named `mode` runs with: zero in
/// the mode `include`, whatever was asked for, else what was asked for.
pub open spec fn stored_threshold(mode: Seq<char>, requested: i32) -> i32 {
    if mode == "include"@ {
        0
    } else {
        requested
    }
}

/// The registry of running jobs, with the key that protects their secrets.
/// A job is running exactly while the registry holds it. Every start gets a
/// run number of its own, so that the state of one run is never taken for
/// that of another.
pub struct MultiUserState {
    encryption_key: EncryptionKey,
    jobs: HashMap<u128, UserJob>,
    next_run: u64,
}

/// The running jobs of a map of job states, as mathematical values.
pub open spec fn job_views(jobs: Map<u128, UserJob>) -> Map<u128, JobView> {
    Map::new(|id: u128| jobs.contains_key(id), |id: u128| jobs[id]@)
}

impl View for MultiUserState {
    type V = Map<u128, JobView>;

    closed spec fn view(&self) -> Map<u128, JobView> {
        job_views(self.jobs@)
    }
}

fn clone_optional(text: &Option<String>) -> (copy: Option<String>)
    ensures
        optional_text(copy) == optional_text(*text),
{
    match text {
        Some(t) => Some(t.clone()),
        None => None,
    }
}

fn text_or_default(text: &Option<String>) -> (owned: String)
    ensures
        owned@ == text_or_empty(*text),
{
    match text {
        Some(t) => t.clone(),
        None => String::new(),
    }
}

impl MultiUserState {
    #[verifier::type_invariant]
    spec fn numbered(self) -> bool {
        well_numbered(job_views(self.jobs@), self.next_run)
    }

    /// The key that protects the stored secrets.
    pub closed spec fn key(&self) -> EncryptionKey {
        self.encryption_key
    }

    /// The number that the next run gets.
    pub closed spec fn next_run(&self) -> u64 {
        self.next_run
    }

    /// A registry without running jobs.
    pub fn new(encryption_key: EncryptionKey) -> (state: Self)
        ensures
            state@ == Map::<u128, JobView>::empty(),
            state.key() == encryption_key,
            state.next_run() == 0,
    {
        let state = MultiUserState { encryption_key, jobs: HashMap::new(), next_run: 0 };
        assert(state@ =~= Map::<u128, JobView>::empty());
        state
    }

    /// The key that protects the stored secrets.
    pub fn encryption_key(&self) -> (key: &EncryptionKey)
        ensures
            *key == self.key(),
    {
        &self.encryption_key
    }

    /// The number of running jobs.
    pub fn running_count(&self) -> (count: usize)
        ensures
            count == self@.len(),
            well_numbered(self@, self.next_run()),
    {
        broadcast use vstd::std_specs::hash::group_hash_axioms;

        proof {
            use_type_invariant(self);
            assert(self@.dom() =~= self.jobs@.dom());
        }
        self.jobs.len()
    }

    /// Prepares what is stored of a new job: the cookie is encrypted under
    /// a fresh nonce, and the monitoring mode settles the threshold. The
    /// registry is not touched: a created job does not run.
    pub fn create_job(&self, request: &CreateJobRequest) -> (draft: Result<JobDraft, EncryptionError>)
        ensures
            draft is Ok <==> sealable(encode_utf8(request.cookie@).len()),
            match draft {
                Ok(d) => {
                    &&& decrypt_spec(self.key().bytes(), d.cookie_encrypted@, d.encryption_nonce@)
                        == Ok::<Seq<char>, EncryptionError>(request.cookie@)
                    &&& d.term@ == request.term@
                    &&& d.polling_interval == request.polling_interval
                    &&& d.monitoring_mode@ == request.monitoring_mode@
                    &&& d.seat_threshold == stored_threshold(
                        request.monitoring_mode@,
                        request.seat_threshold,
                    )
                },
                Err(e) => e == EncryptionError::PlaintextTooLong,
            },
    {
        let (cookie_encrypted, encryption_nonce) = match self.encryption_key.encrypt(
            request.cookie.as_str(),
        ) {
            Ok(sealed) => sealed,
            Err(e) => {
                return Err(e);
            },
        };
        let seat_threshold = if request.monitoring_mode == String::from_str("include") {
            0
        } else {
            request.seat_threshold
        };
        Ok(
            JobDraft {
                term: request.term.clone(),
                polling_interval: request.polling_interval,
                cookie_encrypted,
                encryption_nonce,
                seat_threshold,
                monitoring_mode: request.monitoring_mode.clone(),
            },
        )
    }

    /// Prepares what is stored of changed notification settings: a mail
    /// password that was sent is encrypted under a fresh nonce, so that it
    /// is stored in no other form.
    pub fn seal_notifications(&self, request: &UpdateNotificationRequest) -> (update: Result<
        NotificationUpdate,
        EncryptionError,
    >)
        ensures
            update is Ok <==> (request.gmail_app_password matches Some(password) ==> sealable(
                encode_utf8(password@).len(),
            )),
            match update {
                Ok(u) => seals_request(self.key().bytes(), *request, u),
                Err(e) => e == EncryptionError::PlaintextTooLong,
            },
    {
        let (sealed, nonce) = match &request.gmail_app_password {
            Some(password) => match self.encryption_key.encrypt(password.as_str()) {
                Ok((sealed, nonce)) => (Some(sealed), Some(nonce)),
                Err(e) => {
                    return Err(e);
                },
            },
            None => (None, None),
        };
        Ok(
            NotificationUpdate {
                gmail_address: clone_optional(&request.gmail_address),
                gmail_app_password_encrypted: sealed,
                gmail_encryption_nonce: nonce,
                email_recipients: clone_strings(&request.email_recipients),
                discord_webhook_url: clone_optional(&request.discord_webhook_url),
            },
        )
    }

    /// Whether the job is running.
    pub fn is_running(&self, job_id: u128) -> (running: bool)
        ensures
            running == self@.contains_key(job_id),
    {
        broadcast use vstd::std_specs::hash::group_hash_axioms;

        self.jobs.contains_key(&job_id)
    }

    /// Starts the job `job_id` for its owner `user_id` from what the store
    /// holds of it. The check that the job is not running and its entry
    /// into the registry are one step. On success the job is in the
    /// registry, running and connected, under a run number that no run had
    /// before, and its decrypted secrets are returned with that number; on
    /// refusal the registry is as it was.
    pub fn start_job(&mut self, job_id: u128, user_id: u128, load: JobLoad, now: &str) -> (started:
        Result<JobCredentials, RegistryError>)
        ensures
            final(self).key() == old(self).key(),
            well_numbered(final(self)@, final(self).next_run()),
            match started {
                Ok(credentials) => {
                    &&& start_refusal(
                        old(self).key().bytes(),
                        old(self)@.contains_key(job_id),
                        old(self).next_run(),
                        job_id,
                        user_id,
                        load,
                    ) is None
                    &&& credentials_of(old(self).key().bytes(), load, credentials)
                    &&& credentials.run == old(self).next_run()
                    &&& final(self).next_run() == old(self).next_run() + 1
                    &&& final(self)@ == old(self)@.insert(
                        job_id,
                        started_job(job_id, user_id, load, now@, old(self).next_run()),
                    )
                },
                Err(e) => {
                    &&& start_refusal(
                        old(self).key().bytes(),
                        old(self)@.contains_key(job_id),
                        old(self).next_run(),
                        job_id,
                        user_id,
                        load,
                    ) == Some(e)
                    &&& final(self).next_run() == old(self).next_run()
                    &&& final(self)@ == old(self)@
                },
            },
    {
        broadcast use vstd::std_specs::hash::group_hash_axioms;

        proof {
            use_type_invariant(&*self);
        }
        let JobLoad { job, courses, settings, stats } = load;
        let job = match job {
            Some(job) => job,
            None => {
                return Err(RegistryError::NotFound);
            },
        };
        if job.id != job_id || job.user_id != user_id {
            return Err(RegistryError::NotFound);
        }
        if self.jobs.contains_key(&job_id) {
            return Err(RegistryError::AlreadyRunning);
        }
        let cookie = match self.encryption_key.decrypt(
            job.cookie_encrypted.as_str(),
            job.encryption_nonce.as_str(),
        ) {
            Ok(cookie) => cookie,
            Err(_) => {
                return Err(RegistryError::Authentication);
            },
        };
        let gmail_app_password = match (
            &settings.gmail_app_password_encrypted,
            &settings.gmail_encryption_nonce,
        ) {
            (Some(sealed), Some(nonce)) => match self.encryption_key.decrypt(
                sealed.as_str(),
                nonce.as_str(),
            ) {
                Ok(password) => password,
                Err(_) => {
                    return Err(RegistryError::Authentication);
                },
            },
            _ => String::new(),
        };
        let stats = match stats {
            Some(stats) => stats,
            None => {
                return Err(RegistryError::NotFound);
            },
        };
        if self.next_run == u64::MAX {
            return Err(RegistryError::RunsExhausted);
        }
        let notifications = NotificationConfig {
            gmail_address: text_or_default(&settings.gmail_address),
            gmail_app_password,
            email_recipients: clone_strings(&settings.email_recipients),
            discord_webhook_url: text_or_default(&settings.discord_webhook_url),
        };
        let polling_interval: u64 = if job.polling_interval < 0 {
            0
        } else {
            job.polling_interval as u64
        };
        let run = self.next_run;
        let user_job = UserJob {
            job_id,
            user_id,
            run,
            term: job.term.clone(),
            stats,
            courses,
            polling_interval,
            seat_threshold: job.seat_threshold as i64,
            is_running: true,
            is_connected: true,
            last_check_time: now.to_owned(),
        };
        assert(user_job@ == started_job(job_id, user_id, load, now@, run));
        let mut jobs = HashMap::new();
        std::mem::swap(&mut jobs, &mut self.jobs);
        proof {
            assert(job_views(self.jobs@) =~= Map::<u128, JobView>::empty());
        }
        self.next_run = run + 1;
        jobs.insert(job_id, user_job);
        proof {
            assert(job_views(jobs@) =~= old(self)@.insert(
                job_id,
                started_job(job_id, user_id, load, now@, run),
            ));
        }
        self.jobs = jobs;
        Ok(JobCredentials { run, cookie, notifications })
    }

    /// Stops the job: takes it out of the registry, from where on no status
    /// query sees it. A job that is not running is not found.
    pub fn stop_job(&mut self, job_id: u128) -> (stopped: Result<(), RegistryError>)
        ensures
            final(self).key() == old(self).key(),
            final(self).next_run() == old(self).next_run(),
            well_numbered(final(self)@, final(self).next_run()),
            final(self)@ == old(self)@.remove(job_id),
            stopped == (if old(self)@.contains_key(job_id) {
                Ok::<(), RegistryError>(())
            } else {
                Err::<(), RegistryError>(RegistryError::NotFound)
            }),
    {
        broadcast use vstd::std_specs::hash::group_hash_axioms;

        proof {
            use_type_invariant(&*self);
        }
        let mut jobs = HashMap::new();
        std::mem::swap(&mut jobs, &mut self.jobs);
        proof {
            assert(job_views(self.jobs@) =~= Map::<u128, JobView>::empty());
        }
        let removed = jobs.remove(&job_id);
        proof {
            assert(job_views(jobs@) =~= old(self)@.remove(job_id));
        }
        self.jobs = jobs;
        match removed {
            Some(_) => Ok(()),
            None => Err(RegistryError::NotFound),
        }
    }

    /// Stops the job if it is running, so that its owner `user_id` can delete
    /// its records, and says whether it was running. A job that runs for
    /// another owner is left alone and reported as not found, as a job of
    /// another owner is at every other call.
    pub fn delete_job(&mut self, job_id: u128, user_id: u128) -> (deleted: Result<
        bool,
        RegistryError,
    >)
        ensures
            final(self).key() == old(self).key(),
            final(self).next_run() == old(self).next_run(),
            well_numbered(final(self)@, final(self).next_run()),
            deleted is Err <==> runs_for_another(old(self)@, job_id, user_id),
            match deleted {
                Ok(was_running) => {
                    &&& was_running == old(self)@.contains_key(job_id)
                    &&& final(self)@ == old(self)@.remove(job_id)
                },
                Err(e) => e == RegistryError::NotFound && final(self)@ == old(self)@,
            },
    {
        broadcast use vstd::std_specs::hash::group_hash_axioms;

        proof {
            use_type_invariant(&*self);
        }
        let owner = match self.jobs.get(&job_id) {
            Some(job) => job.user_id,
            None => {
                assert(self@.remove(job_id) =~= self@);
                return Ok(false);
            },
        };
        if owner != user_id {
            return Err(RegistryError::NotFound);
        }
        let _ = self.stop_job(job_id);
        Ok(true)
    }

    /// The status of the job if it is running, nothing if it is not.
    pub fn get_job_status(&self, job_id: u128) -> (status: Option<JobStatusInfo>)
        ensures
            status is Some == self@.contains_key(job_id),
            status matches Some(info) ==> info@ == status_of(self@[job_id]),
    {
        broadcast use vstd::std_specs::hash::group_hash_axioms;

        match self.jobs.get(&job_id) {
            Some(job) => Some(job.status()),
            None => None,
        }
    }

    /// Of the jobs that the store marks as active, those that are not
    /// running. The registry decides whether a job runs: after a crash the
    /// store may still mark jobs as active that no task runs, and these are
    /// the ones whose mark is to be cleared.
    pub fn stale_jobs(&self, stored_active: &Vec<u128>) -> (stale: Vec<u128>)
        ensures
            stale@ == not_running(self@, stored_active@),
    {
        let mut stale: Vec<u128> = Vec::new();
        let mut i: usize = 0;
        while i < stored_active.len()
            invariant
                i <= stored_active@.len(),
                stale@ == not_running(self@, stored_active@.take(i as int)),
            decreases stored_active@.len() - i,
        {
            assert(stored_active@.take(i + 1).drop_last() =~= stored_active@.take(i as int));
            if !self.is_running(stored_active[i]) {
                stale.push(stored_active[i]);
            }
            i += 1;
        }
        assert(stored_active@.take(stored_active@.len() as int) =~= stored_active@);
        stale
    }

    /// A working copy of the state of run number `run` of the job, if that
    /// is the run that the registry holds. The loop of a run that was
    /// stopped gets nothing, also where the job has been started again.
    pub fn checkout(&self, job_id: u128, run: u64) -> (job: Option<UserJob>)
        ensures
            job is Some == (self@.contains_key(job_id) && self@[job_id].run == run),
            job matches Some(copy) ==> copy@ == self@[job_id] && is_of_this_run(
                self@,
                job_id,
                copy@,
            ),
            well_numbered(self@, self.next_run()),
    {
        broadcast use vstd::std_specs::hash::group_hash_axioms;

        proof {
            use_type_invariant(self);
        }
        match self.jobs.get(&job_id) {
            Some(job) => {
                if job.run == run {
                    Some(job.snapshot())
                } else {
                    None
                }
            },
            None => None,
        }
    }

    /// Writes a working copy back after a step of the job's loop, and says
    /// whether it was kept. It is kept only if it is of the run that the
    /// registry holds: the copy of a stopped job, or of an earlier run of a
    /// job that was started again, is dropped, and its loop is to end.
    pub fn commit(&mut self, job_id: u128, job: UserJob) -> (kept: bool)
        ensures
            final(self).key() == old(self).key(),
            final(self).next_run() == old(self).next_run(),
            well_numbered(final(self)@, final(self).next_run()),
            kept == is_of_this_run(old(self)@, job_id, job@),
            final(self)@ == committed(old(self)@, job_id, job@),
    {
        broadcast use vstd::std_specs::hash::group_hash_axioms;

        proof {
            use_type_invariant(&*self);
        }
        let same_run = match self.jobs.get(&job_id) {
            Some(held) => held.run == job.run && held.user_id == job.user_id && job.job_id
                == job_id,
            None => false,
        };
        if same_run {
            let mut jobs = HashMap::new();
            std::mem::swap(&mut jobs, &mut self.jobs);
            proof {
                assert(job_views(self.jobs@) =~= Map::<u128, JobView>::empty());
            }
            let ghost held = old(self)@[job_id];
            jobs.insert(job_id, job);
            proof {
                assert(old(self)@.contains_key(job_id));
                assert(held.run < self.next_run);
                assert(job_views(jobs@) =~= old(self)@.insert(job_id, job@));
                assert forall|id: u128| #[trigger]
                    job_views(jobs@).contains_key(id) implies job_views(jobs@)[id].job_id == id
                    && job_views(jobs@)[id].run < self.next_run by {
                    if id != job_id {
                        assert(old(self)@.contains_key(id));
                    }
                }
            }
            self.jobs = jobs;
            true
        } else {
            false
        }
    }
}

/// The watched course that a stored course and its stored lecture groups
/// stand for.
pub fn course_from_records(course: &Course, sections: &Vec<Section>) -> (watched: CourseWithSections)
    ensures
        watched@ == (CourseView {
            department: course.department@,
            course_code: course.course_code@,
            sections: Seq::new(sections@.len(), |i: int| sections@[i]@),
        }),
{
    let mut groups: Vec<SectionGroup> = Vec::new();
    let mut i: usize = 0;
    while i < sections.len()
        invariant
            i <= sections@.len(),
            groups@.len() == i,
            forall|k: int| 0 <= k < i ==> (#[trigger] groups@[k])@ == sections@[k]@,
        decreases sections@.len() - i,
    {
        groups.push(
            SectionGroup {
                lecture: sections[i].lecture.clone(),
                discussions: clone_strings(&sections[i].discussions),
            },
        );
        i += 1;
    }
    let watched = CourseWithSections {
        department: course.department.clone(),
        course_code: course.course_code.clone(),
        sections: groups,
    };
    assert(watched@.sections =~= Seq::new(sections@.len(), |i: int| sections@[i]@));
    watched
}

/// Of two starts of one job with no stop between them only the first
/// succeeds: once a start has put the job into the registry, a further
/// start by its owner is refused because the job is running already.
pub proof fn lemma_start_is_exclusive(
    key: Seq<u8>,
    registry: Map<u128, JobView>,
    next_run: u64,
    later_run: u64,
    job_id: u128,
    user_id: u128,
    first: JobLoad,
    second: JobLoad,
    now: Seq<char>,
)
    requires
        start_refusal(key, registry.contains_key(job_id), next_run, job_id, user_id, first) is None,
        is_owned_record(second.job, job_id, user_id),
    ensures
        !registry.contains_key(job_id),
        start_refusal(
            key,
            registry.insert(job_id, started_job(job_id, user_id, first, now, next_run)).contains_key(
                job_id,
            ),
            later_run,
            job_id,
            user_id,
            second,
        ) == Some(RegistryError::AlreadyRunning),
{
}

/// A start never touches another job: whatever else is running stays
/// running, in the state it had.
pub proof fn lemma_start_leaves_others(
    registry: Map<u128, JobView>,
    job_id: u128,
    job: JobView,
    other: u128,
)
    requires
        other != job_id,
    ensures
        registry.insert(job_id, job).contains_key(other) == registry.contains_key(other),
        registry.contains_key(other) ==> registry.insert(job_id, job)[other] == registry[other],
{
}

/// A stopped job is out of sight at once and stays so: no status query
/// finds it, and a sweep of it that ends after the stop does not bring it
/// back when its working copy is written back.
pub proof fn lemma_stopped_job_is_invisible(
    registry: Map<u128, JobView>,
    job_id: u128,
    late_copy: JobView,
)
    ensures
        !registry.remove(job_id).contains_key(job_id),
        committed(registry.remove(job_id), job_id, late_copy) == registry.remove(job_id),
{
}

/// After a stop the job can be started again: the registry no longer
/// stands in the way.
pub proof fn lemma_stop_then_start(
    key: Seq<u8>,
    registry: Map<u128, JobView>,
    next_run: u64,
    job_id: u128,
    user_id: u128,
    load: JobLoad,
)
    ensures
        start_refusal(
            key,
            registry.remove(job_id).contains_key(job_id),
            next_run,
            job_id,
            user_id,
            load,
        ) != Some(RegistryError::AlreadyRunning),
{
}

/// A job that was stopped and started again shows the new run only. The
/// working copy that the earlier run took before the stop is dropped when
/// it is written back after the restart, whatever happened to other jobs in
/// between: the registry and every status read from it stay those of the
/// new run.
pub proof fn lemma_copy_of_an_earlier_run_is_dropped(
    registry: Map<u128, JobView>,
    next_run: u64,
    job_id: u128,
    earlier: JobView,
    later: Map<u128, JobView>,
    restarted_as: u64,
)
    requires
        well_numbered(registry, next_run),
        is_of_this_run(registry, job_id, earlier),
        next_run <= restarted_as,
        later.contains_key(job_id),
        later[job_id].run == restarted_as,
    ensures
        !is_of_this_run(later, job_id, earlier),
        committed(later, job_id, earlier) == later,
        status_of(committed(later, job_id, earlier)[job_id]) == status_of(later[job_id]),
{
}

/// The case of the law above that a stop and a start in direct sequence
/// make: the restarted job has the state that the start gave it.
pub proof fn lemma_restart_shows_the_new_run(
    registry: Map<u128, JobView>,
    next_run: u64,
    job_id: u128,
    user_id: u128,
    earlier: JobView,
    load: JobLoad,
    now: Seq<char>,
)
    requires
        well_numbered(registry, next_run),
        is_of_this_run(registry, job_id, earlier),
    ensures
        committed(
            registry.remove(job_id).insert(
                job_id,
                started_job(job_id, user_id, load, now, next_run),
            ),
            job_id,
            earlier,
        )[job_id] == started_job(job_id, user_id, load, now, next_run),
{
    let later = registry.remove(job_id).insert(
        job_id,
        started_job(job_id, user_id, load, now, next_run),
    );
    lemma_copy_of_an_earlier_run_is_dropped(registry, next_run, job_id, earlier, later, next_run);
}

/// A working copy can only replace the state of its own job: written back
/// under another job's identifier it is dropped.
pub proof fn lemma_copy_stays_with_its_job(registry: Map<u128, JobView>, job_id: u128, job: JobView)
    requires
        job.job_id != job_id,
    ensures
        committed(registry, job_id, job) == registry,
{
}

/// Whatever is written back, every job stays under its own identifier and
/// keeps its owner and run number.
pub proof fn lemma_commit_keeps_identity(
    registry: Map<u128, JobView>,
    next_run: u64,
    job_id: u128,
    job: JobView,
    other: u128,
)
    requires
        well_numbered(registry, next_run),
        registry.contains_key(other),
    ensures
        well_numbered(committed(registry, job_id, job), next_run),
        committed(registry, job_id, job).contains_key(other),
        committed(registry, job_id, job)[other].user_id == registry[other].user_id,
        committed(registry, job_id, job)[other].run == registry[other].run,
{
}

/// The stale jobs are exactly the stored ones that do not run: none of
/// them is in the registry, and no stored job outside the registry is
/// missed.
pub proof fn lemma_stale_jobs_do_not_run(registry: Map<u128, JobView>, ids: Seq<u128>, id: u128)
    ensures
        not_running(registry, ids).contains(id) <==> ids.contains(id) && !registry.contains_key(id),
    decreases ids.len(),
{
    if ids.len() > 0 {
        let front = ids.drop_last();
        lemma_stale_jobs_do_not_run(registry, front, id);
        let before = not_running(registry, front);
        if ids.contains(id) {
            let k = choose|k: int| 0 <= k < ids.len() && ids[k] == id;
            if k < front.len() {
                assert(front[k] == id);
            }
        }
        if front.contains(id) {
            let k = choose|k: int| 0 <= k < front.len() && front[k] == id;
            assert(ids[k] == id);
        }
        assert(ids[ids.len() - 1] == ids.last());
        if !registry.contains_key(ids.last()) {
            let after = before.push(ids.last());
            assert(after[after.len() - 1] == ids.last());
            if before.contains(id) {
                let k = choose|k: int| 0 <= k < before.len() && before[k] == id;
                assert(after[k] == id);
            }
            if after.contains(id) {
                let k = choose|k: int| 0 <= k < after.len() && after[k] == id;
                if k < before.len() {
                    assert(before[k] == id);
                }
            }
        }
    }
}

/// A mail password that was sealed for the store is the one that a later
/// start recovers from the stored settings.
pub proof fn lemma_sealed_password_is_recovered(
    key: Seq<u8>,
    request: UpdateNotificationRequest,
    update: NotificationUpdate,
    stored: NotificationSettings,
)
    requires
        seals_request(key, request, update),
        request.gmail_app_password is Some,
        stored.gmail_app_password_encrypted == update.gmail_app_password_encrypted,
        stored.gmail_encryption_nonce == update.gmail_encryption_nonce,
    ensures
        settings_password(key, stored) == Ok::<Seq<char>, EncryptionError>(
            request.gmail_app_password->0@,
        ),
{
}

} // verus!
