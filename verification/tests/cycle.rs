use webreg_monitor::enroll::{after_poll, poll_outcome};
use webreg_monitor::monitor::{
    begin_cycle, continue_cycle, opening_message, should_attempt, CycleStep, SectionStatus,
};
use webreg_monitor::stats::EnrollmentStats;

fn entry(code: &str, id: &str, seats: i64) -> SectionStatus {
    SectionStatus {
        section_code: String::from(code),
        section_id: String::from(id),
        available_seats: seats,
        total_seats: 30,
        enrolled_ct: 30 - seats,
        waitlist_ct: 0,
    }
}

fn done(step: CycleStep) -> Option<String> {
    match step {
        CycleStep::Done(found) => found,
        CycleStep::Recheck(i) => panic!("recheck of {} asked for", i),
    }
}

fn recheck_index(step: CycleStep) -> usize {
    match step {
        CycleStep::Recheck(i) => i,
        CycleStep::Done(found) => panic!("cycle ended with {:?}", found),
    }
}

#[test]
fn threshold_policy_examples() {
    assert!(should_attempt(5, 0));
    assert!(!should_attempt(5, 3));
    assert!(should_attempt(2, 3));
    assert!(!should_attempt(0, 0));
    assert!(should_attempt(3, 3));
    assert!(!should_attempt(-1, 0));
    assert!(!should_attempt(0, 3));
    assert!(!should_attempt(1, -1));
    assert!(should_attempt(i64::MAX, 0));
}

#[test]
fn unlisted_section_is_no_change() {
    let first = vec![entry("A01", "1", 5), entry("A02", "2", 5)];
    assert_eq!(done(begin_cycle(&first, "B01", 0)), None);
    assert_eq!(done(begin_cycle(&Vec::new(), "B01", 0)), None);
}

#[test]
fn full_section_ends_the_cycle() {
    let first = vec![entry("A01", "1", 0), entry("A02", "2", 5)];
    assert_eq!(done(begin_cycle(&first, "A01", 0)), None);
    assert_eq!(done(begin_cycle(&first, "A02", 3)), None);
}

#[test]
fn confirmed_opening_names_the_first_reading() {
    let first = vec![entry("A01", "1", 0), entry("A02", "first-id", 2)];
    let index = recheck_index(begin_cycle(&first, "A02", 3));
    assert_eq!(index, 1);
    let recheck = vec![entry("A02", "second-id", 1), entry("A01", "1", 0)];
    assert_eq!(
        done(continue_cycle(&first, index, &recheck, "A02", 3)),
        Some(String::from("first-id"))
    );
}

#[test]
fn failed_recheck_is_a_false_positive() {
    let first = vec![entry("A02", "2", 2)];
    let index = recheck_index(begin_cycle(&first, "A02", 0));
    let recheck = vec![entry("A02", "2", 0)];
    let found = done(continue_cycle(&first, index, &recheck, "A02", 0));
    assert_eq!(found, None);
    let mut stats = EnrollmentStats::default();
    let go = after_poll(&mut stats, poll_outcome(Ok(found)));
    assert_eq!(go, None);
    assert_eq!(stats.enrollment_attempts, 0);
    assert_eq!(stats.openings_found, 0);
}

#[test]
fn recheck_above_threshold_is_a_false_positive() {
    let first = vec![entry("A02", "2", 2)];
    let recheck = vec![entry("A02", "2", 4)];
    assert_eq!(done(continue_cycle(&first, 0, &recheck, "A02", 3)), None);
}

#[test]
fn recheck_without_the_section_looks_further() {
    let first = vec![entry("A02", "x", 2), entry("A02", "y", 0), entry("A02", "z", 1)];
    let index = recheck_index(begin_cycle(&first, "A02", 0));
    assert_eq!(index, 0);
    let gone = vec![entry("A01", "1", 9)];
    let next = recheck_index(continue_cycle(&first, index, &gone, "A02", 0));
    assert_eq!(next, 2);
    let back = vec![entry("A02", "w", 1)];
    assert_eq!(done(continue_cycle(&first, next, &back, "A02", 0)), Some(String::from("z")));
    assert_eq!(done(continue_cycle(&first, next, &gone, "A02", 0)), None);
}

#[test]
fn recheck_past_the_reading_ends_the_cycle() {
    let first = vec![entry("A02", "x", 2)];
    let recheck = vec![entry("A02", "x", 2)];
    assert_eq!(done(continue_cycle(&first, 1, &recheck, "A02", 0)), None);
    assert_eq!(done(continue_cycle(&first, usize::MAX, &recheck, "A02", 0)), None);
}

#[test]
fn first_entry_of_the_recheck_decides() {
    let first = vec![entry("A02", "x", 2)];
    let recheck = vec![entry("A02", "x", 0), entry("A02", "x", 5)];
    assert_eq!(done(continue_cycle(&first, 0, &recheck, "A02", 0)), None);
}

#[test]
fn opening_message_text() {
    assert_eq!(
        opening_message("CSE", "100", "A01", "2024-03-01 10:00:00"),
        "Found opening in CSE 100 section A01!\n\nAttempting enrollment...\nTime: 2024-03-01 10:00:00"
    );
}
