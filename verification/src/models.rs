//! Persistent records and request bodies of the multi-tenant service, with
//! identifiers as 128-bit numbers.

use crate::utils::{texts, GroupView};
use vstd::prelude::*;

verus! {

/// A tenant.
#[derive(Debug, Clone)]
pub struct User {
    pub id: u128,
    pub clerk_user_id: String,
    pub email: String,
}

/// A stored monitoring job. The cookie is stored encrypted, with the nonce
/// it was encrypted under.
#[derive(Debug, Clone)]
pub struct Job {
    pub id: u128,
    pub user_id: u128,
    pub term: String,
    pub polling_interval: i32,
    pub cookie_encrypted: String,
    pub encryption_nonce: String,
    pub seat_threshold: i32,
    pub monitoring_mode: String,
    pub is_active: bool,
    pub is_connected: bool,
}

/// A stored course of a job.
#[derive(Debug, Clone)]
pub struct Course {
    pub id: u128,
    pub job_id: u128,
    pub department: String,
    pub course_code: String,
}

/// A stored lecture group of a course.
#[derive(Debug, Clone)]
pub struct Section {
    pub id: u128,
    pub course_id: u128,
    pub lecture: String,
    pub discussions: Vec<String>,
}

/// The stored counters of a job.
#[derive(Debug, Clone, Copy)]
pub struct EnrollmentStatsDb {
    pub id: u128,
    pub job_id: u128,
    pub total_checks: i32,
    pub openings_found: i32,
    pub enrollment_attempts: i32,
    pub successful_enrollments: i32,
    pub errors: i32,
}

/// The stored notification settings of a tenant. The mail password is
/// stored encrypted, with the nonce it was encrypted under.
#[derive(Debug, Clone)]
pub struct NotificationSettings {
    pub id: u128,
    pub user_id: u128,
    pub gmail_address: Option<String>,
    pub gmail_app_password_encrypted: Option<String>,
    pub gmail_encryption_nonce: Option<String>,
    pub email_recipients: Vec<String>,
    pub discord_webhook_url: Option<String>,
}

/// The body of a request to create a job.
#[derive(Debug)]
pub struct CreateJobRequest {
    pub term: String,
    pub polling_interval: i32,
    pub cookie: String,
    pub seat_threshold: i32,
    pub monitoring_mode: String,
    pub courses: Vec<CourseRequest>,
}

/// A course in a request to create a job.
#[derive(Debug)]
pub struct CourseRequest {
    pub department: String,
    pub course_code: String,
    pub sections: Vec<SectionRequest>,
}

/// A lecture group in a request to create a job.
#[derive(Debug)]
pub struct SectionRequest {
    pub lecture: String,
    pub discussions: Vec<String>,
}

/// The body of a request to change the notification settings.
#[derive(Debug)]
pub struct UpdateNotificationRequest {
    pub gmail_address: Option<String>,
    pub gmail_app_password: Option<String>,
    pub email_recipients: Vec<String>,
    pub discord_webhook_url: Option<String>,
}

impl View for Section {
    type V = GroupView;

    open spec fn view(&self) -> GroupView {
        GroupView { lecture: self.lecture@, discussions: texts(self.discussions@) }
    }
}

} // verus!
