//! Configuration of the single-user monitor.

use crate::utils::{clone_strings, texts, GroupView};
use vstd::prelude::*;

verus! {

/// How many attempts one call to the remote service gets.
pub const DEFAULT_RETRY_ATTEMPTS: u32 = 3;

/// The base of the retry backoff, in milliseconds.
pub const DEFAULT_RETRY_DELAY: u64 = 1000;

/// Where the configuration file is looked for.
pub const CONFIG_PATH: &'static str = "config.toml";

/// The whole configuration file.
#[derive(Debug, Clone)]
pub struct AppConfig {
    pub webreg: WebRegConfig,
    pub notifications: NotificationConfig,
    pub courses: CourseConfig,
    pub monitoring: MonitoringConfig,
}

/// The connection to the registration service.
#[derive(Debug, Clone)]
pub struct WebRegConfig {
    pub term: String,
    pub polling_interval: u64,
    pub cookie: String,
}

/// Where alerts go.
#[derive(Debug, Clone)]
pub struct NotificationConfig {
    pub gmail_address: String,
    pub gmail_app_password: String,
    pub email_recipients: Vec<String>,
    pub discord_webhook_url: String,
}

/// The two watched courses.
#[derive(Debug, Clone)]
pub struct CourseConfig {
    pub chem: CourseDetails,
    pub bild: LegacyCourseDetails,
}

/// A watched course, in the current or in the older shape of the file.
#[derive(Debug, Clone)]
pub enum CourseDetails {
    New(NewCourseDetails),
    Legacy(LegacyCourseDetails),
}

/// A course with any number of lecture groups.
#[derive(Debug, Clone)]
pub struct NewCourseDetails {
    pub department: String,
    pub course_code: String,
    pub sections: Vec<SectionGroup>,
}

/// A course with one lecture and its discussions.
#[derive(Debug, Clone)]
pub struct LegacyCourseDetails {
    pub department: String,
    pub course_code: String,
    pub lecture_section: String,
    pub discussion_sections: Vec<String>,
}

impl CourseDetails {
    /// The department, whichever shape the course has.
    pub fn department(&self) -> (name: &str)
        ensures
            name@ == (match *self {
                CourseDetails::New(details) => details.department@,
                CourseDetails::Legacy(details) => details.department@,
            }),
    {
        match self {
            CourseDetails::New(details) => details.department.as_str(),
            CourseDetails::Legacy(details) => details.department.as_str(),
        }
    }

    /// The course code, whichever shape the course has.
    pub fn course_code(&self) -> (code: &str)
        ensures
            code@ == (match *self {
                CourseDetails::New(details) => details.course_code@,
                CourseDetails::Legacy(details) => details.course_code@,
            }),
    {
        match self {
            CourseDetails::New(details) => details.course_code.as_str(),
            CourseDetails::Legacy(details) => details.course_code.as_str(),
        }
    }

    /// The lecture groups, whichever shape the course has: those of the
    /// current shape as they are, the one of the older shape.
    pub fn section_groups(&self) -> (groups: Vec<SectionGroup>)
        ensures
            group_views(groups@) == (match *self {
                CourseDetails::New(details) => group_views(details.sections@),
                CourseDetails::Legacy(details) => legacy_groups(details),
            }),
    {
        match self {
            CourseDetails::New(details) => clone_groups(&details.sections),
            CourseDetails::Legacy(details) => to_section_groups(details),
        }
    }
}

/// The views of a sequence of lecture groups.
pub open spec fn group_views(groups: Seq<SectionGroup>) -> Seq<GroupView> {
    Seq::new(groups.len(), |i: int| groups[i]@)
}

/// The single lecture group of a course in the older shape.
pub open spec fn legacy_groups(course: LegacyCourseDetails) -> Seq<GroupView> {
    seq![
        GroupView {
            lecture: course.lecture_section@,
            discussions: texts(course.discussion_sections@),
        },
    ]
}

/// Turns a course in the older shape into its one lecture group.
pub fn to_section_groups(course: &LegacyCourseDetails) -> (groups: Vec<SectionGroup>)
    ensures
        group_views(groups@) == legacy_groups(*course),
{
    let mut groups = Vec::new();
    groups.push(
        SectionGroup {
            lecture: course.lecture_section.clone(),
            discussions: clone_strings(&course.discussion_sections),
        },
    );
    assert(group_views(groups@) =~= legacy_groups(*course));
    groups
}

/// Copies a list of lecture groups.
pub fn clone_groups(groups: &Vec<SectionGroup>) -> (copy: Vec<SectionGroup>)
    ensures
        group_views(copy@) == group_views(groups@),
{
    let mut copy: Vec<SectionGroup> = Vec::new();
    let mut i: usize = 0;
    while i < groups.len()
        invariant
            i <= groups@.len(),
            copy@.len() == i,
            forall|j: int| 0 <= j < i ==> (#[trigger] copy@[j])@ == groups@[j]@,
        decreases groups@.len() - i,
    {
        copy.push(
            SectionGroup {
                lecture: groups[i].lecture.clone(),
                discussions: clone_strings(&groups[i].discussions),
            },
        );
        i += 1;
    }
    assert(group_views(copy@) =~= group_views(groups@));
    copy
}

/// One lecture with the discussions that belong to it.
#[derive(Debug, Clone)]
pub struct SectionGroup {
    pub lecture: String,
    pub discussions: Vec<String>,
}

impl View for SectionGroup {
    type V = GroupView;

    open spec fn view(&self) -> GroupView {
        GroupView { lecture: self.lecture@, discussions: texts(self.discussions@) }
    }
}

/// How the monitor runs.
#[derive(Debug, Clone)]
pub struct MonitoringConfig {
    pub log_file: String,
    pub stats_file: String,
    pub cookie_refresh_interval: u64,
    pub max_retries: u32,
    pub retry_delay: u64,
    /// Zero means any availability; a positive value means at most that
    /// many free seats.
    pub seat_threshold: i64,
}

/// The threshold of a configuration that names none: any availability.
pub fn default_seat_threshold() -> (threshold: i64)
    ensures
        threshold == 0,
{
    0
}

} // verus!
