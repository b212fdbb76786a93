//! Orchestration core of a course-seat monitor.
//!
//! Many independent jobs, each owned by a tenant, watch sections of courses
//! for free seats and try to enroll before the seats are gone. This
//! library holds the rules of that work, each with a contract that Verus
//! proves:
//!
//! - `encryption`: the cipher that protects tenant secrets at rest;
//! - `tracker` and `stats`: a job's counters and the throttle that holds
//!   back repeated failure alerts;
//! - `monitor` and `enroll`: the poll/verify/act cycle for one section and
//!   what follows its outcome;
//! - `utils`: the retry policy, the clock and decimal text;
//! - `job_manager`: the life of a running job as a state machine;
//! - `multi_user_state`: the registry of running jobs;
//! - `state`, `config`, `api`, `auth`, `models`, `multi_user_api`: the
//!   single-user monitor and the data that crosses the interfaces.
//!
//! Of the world outside, the library itself reads two things only: the
//! local clock, where a failure is dated, and the operating system's random
//! generator, where a key or a nonce is drawn. A program around it makes
//! the remote calls, sleeps and stores, and hands the library what came
//! back.

pub mod api;
pub mod auth;
pub mod config;
pub mod encryption;
pub mod enroll;
pub mod job_manager;
pub mod models;
pub mod monitor;
pub mod multi_user_api;
pub mod multi_user_state;
pub mod state;
pub mod stats;
pub mod tracker;
pub mod utils;
