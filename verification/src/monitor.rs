//! The poll/verify/act cycle for one watched section: the threshold
//! policy, the first reading, and the recheck that filters out flicker.

use vstd::prelude::*;
use vstd::string::StringExecFns;

verus! {

/// Whether a reading of `seats` free seats calls for an enrollment attempt
/// under `threshold`: some seat is free, and either the threshold is zero
/// (any availability counts) or the free seats do not exceed it.
pub open spec fn should_attempt_spec(seats: int, threshold: int) -> bool {
    seats > 0 && (threshold == 0 || seats <= threshold)
}

/// Applies the threshold policy to one reading.
pub fn should_attempt(available_seats: i64, seat_threshold: i64) -> (attempt: bool)
    ensures
        attempt == should_attempt_spec(available_seats as int, seat_threshold as int),
{
    let has_availability = available_seats > 0;
    let within_threshold = seat_threshold == 0 || available_seats <= seat_threshold;
    has_availability && within_threshold
}

/// What the status service reports of one section of a course.
#[derive(Debug, Clone)]
pub struct SectionStatus {
    /// The label of the section, such as `B01`.
    pub section_code: String,
    /// The identifier under which the section is enrolled in.
    pub section_id: String,
    pub available_seats: i64,
    pub total_seats: i64,
    pub enrolled_ct: i64,
    pub waitlist_ct: i64,
}

/// Where the cycle stands after a reading.
#[derive(Debug)]
pub enum CycleStep {
    /// The cycle is over: with the identifier of the section to enroll in,
    /// or with nothing to do.
    Done(Option<String>),
    /// The entry at this index of the first reading shows availability:
    /// read the status once more and go on with `continue_cycle`.
    Recheck(usize),
}

/// A step of the cycle as mathematical values.
pub enum CycleStepView {
    Done(Option<Seq<char>>),
    Recheck(int),
}

impl View for CycleStep {
    type V = CycleStepView;

    open spec fn view(&self) -> CycleStepView {
        match *self {
            CycleStep::Done(Some(id)) => CycleStepView::Done(Some(id@)),
            CycleStep::Done(None) => CycleStepView::Done(None),
            CycleStep::Recheck(index) => CycleStepView::Recheck(index as int),
        }
    }
}

/// The first index from `from` on whose entry carries the label `section`,
/// or the length of the reading if there is none.
pub open spec fn first_listed(reading: Seq<SectionStatus>, section: Seq<char>, from: int) -> int
    decreases reading.len() - from,
{
    if from < 0 || from >= reading.len() {
        reading.len() as int
    } else if reading[from].section_code@ == section {
        from
    } else {
        first_listed(reading, section, from + 1)
    }
}

/// Whether an entry carries the label and passes the threshold policy.
pub open spec fn is_candidate(entry: SectionStatus, section: Seq<char>, threshold: int) -> bool {
    entry.section_code@ == section && should_attempt_spec(entry.available_seats as int, threshold)
}

/// The first index from `from` on whose entry is a candidate, or the
/// length of the reading if there is none.
pub open spec fn first_candidate(
    reading: Seq<SectionStatus>,
    section: Seq<char>,
    threshold: int,
    from: int,
) -> int
    decreases reading.len() - from,
{
    if from < 0 || from >= reading.len() {
        reading.len() as int
    } else if is_candidate(reading[from], section, threshold) {
        from
    } else {
        first_candidate(reading, section, threshold, from + 1)
    }
}

/// The step that follows from looking through the first reading from
/// `from` on: a recheck for the first candidate, the end of the cycle
/// without action if there is none.
pub open spec fn scan_step(
    first: Seq<SectionStatus>,
    section: Seq<char>,
    threshold: int,
    from: int,
) -> CycleStepView {
    let at = first_candidate(first, section, threshold, from);
    if at < first.len() {
        CycleStepView::Recheck(at)
    } else {
        CycleStepView::Done(None)
    }
}

/// The step that follows the recheck for the candidate at `index` of the
/// first reading. Where the recheck lists the section, its first such entry
/// decides: if it passes the policy too, the cycle ends with the section
/// identifier of the first reading; if not, it ends without action. Where the
/// recheck does not list the section, the first reading is looked through
/// further.
pub open spec fn recheck_step(
    first: Seq<SectionStatus>,
    index: int,
    recheck: Seq<SectionStatus>,
    section: Seq<char>,
    threshold: int,
) -> CycleStepView {
    if index < 0 || index >= first.len() {
        CycleStepView::Done(None)
    } else {
        let at = first_listed(recheck, section, 0);
        if at < recheck.len() {
            if should_attempt_spec(recheck[at].available_seats as int, threshold) {
                CycleStepView::Done(Some(first[index].section_id@))
            } else {
                CycleStepView::Done(None)
            }
        } else {
            scan_step(first, section, threshold, index + 1)
        }
    }
}

fn scan_from(first: &Vec<SectionStatus>, section: &String, seat_threshold: i64, from: usize) -> (step:
    CycleStep)
    ensures
        step@ == scan_step(first@, section@, seat_threshold as int, from as int),
{
    let mut i: usize = from;
    while i < first.len()
        invariant
            from <= i,
            first_candidate(first@, section@, seat_threshold as int, from as int)
                == first_candidate(first@, section@, seat_threshold as int, i as int),
        decreases first@.len() - i,
    {
        if first[i].section_code == *section && should_attempt(
            first[i].available_seats,
            seat_threshold,
        ) {
            return CycleStep::Recheck(i);
        }
        i += 1;
    }
    CycleStep::Done(None)
}

/// Starts the cycle on the first reading of the course's sections.
pub fn begin_cycle(first: &Vec<SectionStatus>, section: &str, seat_threshold: i64) -> (step:
    CycleStep)
    ensures
        step@ == scan_step(first@, section@, seat_threshold as int, 0),
{
    let wanted = section.to_owned();
    scan_from(first, &wanted, seat_threshold, 0)
}

/// Goes on with the cycle after the recheck that `Recheck(index)` asked for.
pub fn continue_cycle(
    first: &Vec<SectionStatus>,
    index: usize,
    recheck: &Vec<SectionStatus>,
    section: &str,
    seat_threshold: i64,
) -> (step: CycleStep)
    ensures
        step@ == recheck_step(first@, index as int, recheck@, section@, seat_threshold as int),
{
    if index >= first.len() {
        return CycleStep::Done(None);
    }
    let wanted = section.to_owned();
    let mut j: usize = 0;
    while j < recheck.len()
        invariant
            wanted@ == section@,
            index < first@.len(),
            first_listed(recheck@, section@, 0) == first_listed(recheck@, section@, j as int),
        decreases recheck@.len() - j,
    {
        if recheck[j].section_code == wanted {
            if should_attempt(recheck[j].available_seats, seat_threshold) {
                return CycleStep::Done(Some(first[index].section_id.clone()));
            } else {
                return CycleStep::Done(None);
            }
        }
        j += 1;
    }
    scan_from(first, &wanted, seat_threshold, index + 1)
}

/// A section that is not listed in the first reading ends the cycle
/// without action.
pub proof fn lemma_unlisted_section_is_no_change(
    first: Seq<SectionStatus>,
    section: Seq<char>,
    threshold: int,
    from: int,
)
    requires
        forall|i: int| 0 <= i < first.len() ==> (#[trigger] first[i]).section_code@ != section,
    ensures
        scan_step(first, section, threshold, from) == CycleStepView::Done(None),
    decreases first.len() - from,
{
    if 0 <= from < first.len() {
        lemma_unlisted_section_is_no_change(first, section, threshold, from + 1);
    }
}

/// A recheck is asked for only on an entry that carries the label and
/// passes the threshold policy.
pub proof fn lemma_recheck_follows_a_candidate(
    first: Seq<SectionStatus>,
    section: Seq<char>,
    threshold: int,
    from: int,
)
    requires
        0 <= from,
    ensures
        match scan_step(first, section, threshold, from) {
            CycleStepView::Recheck(at) => from <= at < first.len() && is_candidate(
                first[at],
                section,
                threshold,
            ),
            CycleStepView::Done(found) => found is None,
        },
    decreases first.len() - from,
{
    if from < first.len() && !is_candidate(first[from], section, threshold) {
        lemma_recheck_follows_a_candidate(first, section, threshold, from + 1);
    }
}

/// The cycle proposes an enrollment only if the recheck confirms the first
/// reading: a recheck whose entry for the section fails the threshold
/// policy ends the cycle without action, whatever the first reading showed.
pub proof fn lemma_failed_recheck_is_no_action(
    first: Seq<SectionStatus>,
    index: int,
    recheck: Seq<SectionStatus>,
    section: Seq<char>,
    threshold: int,
    at: int,
)
    requires
        0 <= at < recheck.len(),
        recheck[at].section_code@ == section,
        forall|i: int| 0 <= i < at ==> (#[trigger] recheck[i]).section_code@ != section,
        !should_attempt_spec(recheck[at].available_seats as int, threshold),
    ensures
        recheck_step(first, index, recheck, section, threshold) == CycleStepView::Done(None),
{
    lemma_first_listed(recheck, section, 0, at);
}

/// Where the entry at `at` is the first from `from` on to carry the label,
/// `first_listed` finds it.
pub proof fn lemma_first_listed(reading: Seq<SectionStatus>, section: Seq<char>, from: int, at: int)
    requires
        0 <= from <= at < reading.len(),
        reading[at].section_code@ == section,
        forall|i: int| from <= i < at ==> (#[trigger] reading[i]).section_code@ != section,
    ensures
        first_listed(reading, section, from) == at,
    decreases at - from,
{
    if from < at {
        lemma_first_listed(reading, section, from + 1, at);
    }
}

/// The announcement of a confirmed opening.
pub open spec fn opening_text(
    department: Seq<char>,
    course_code: Seq<char>,
    section: Seq<char>,
    stamp: Seq<char>,
) -> Seq<char> {
    "Found opening in "@ + department + " "@ + course_code + " section "@ + section
        + "!\n\nAttempting enrollment...\nTime: "@ + stamp
}

/// Writes the announcement of a confirmed opening.
pub fn opening_message(department: &str, course_code: &str, section: &str, stamp: &str) -> (text:
    String)
    ensures
        text@ == opening_text(department@, course_code@, section@, stamp@),
{
    let mut text = String::from_str("Found opening in ");
    text.append(department);
    text.append(" ");
    text.append(course_code);
    text.append(" section ");
    text.append(section);
    text.append("!\n\nAttempting enrollment...\nTime: ");
    text.append(stamp);
    text
}

} // verus!
