//! The life of one running job as a state machine, and the switch that
//! starts and stops the single monitor.

use vstd::prelude::*;

verus! {

/// Where a job's loop stands.
#[derive(Clone, Copy, Debug, PartialEq, Eq, Structural)]
pub enum JobPhase {
    /// Polling on every poll trigger.
    Running,
    /// The session is not valid: idle until a refresh finds it valid again.
    PausedDisconnected,
    /// The loop has ended.
    Stopped,
}

/// What wakes the loop.
#[derive(Clone, Copy, Debug, PartialEq, Eq, Structural)]
pub enum Trigger {
    /// The cancellation signal.
    Cancel,
    /// The session-refresh timer fired and the session was checked; the
    /// flag says whether the session is valid.
    Refresh(bool),
    /// The poll timer fired.
    Poll,
}

/// What the loop does next.
#[derive(Clone, Copy, Debug, PartialEq, Eq, Structural)]
pub enum Directive {
    /// Leave the loop.
    Exit,
    /// Nothing: wait for the next trigger.
    Wait,
    /// Tell the owner, once, that the session has expired.
    NotifySessionExpired,
    /// Sleep for the polling interval without contacting the service.
    Idle,
    /// Poll every target, then sleep for the polling interval.
    Sweep,
}

/// The phase that the two flags of a job stand for.
pub open spec fn phase_of(is_running: bool, is_connected: bool) -> JobPhase {
    if !is_running {
        JobPhase::Stopped
    } else if is_connected {
        JobPhase::Running
    } else {
        JobPhase::PausedDisconnected
    }
}

/// The phase after a trigger. Cancellation stops the job. A refresh that
/// finds the session invalid pauses a running job, one that finds it valid
/// lets a paused job run again. A poll trigger changes nothing. A stopped
/// job stays stopped.
pub open spec fn next_phase(phase: JobPhase, trigger: Trigger) -> JobPhase {
    match (phase, trigger) {
        (JobPhase::Stopped, _) => JobPhase::Stopped,
        (_, Trigger::Cancel) => JobPhase::Stopped,
        (_, Trigger::Refresh(true)) => JobPhase::Running,
        (_, Trigger::Refresh(false)) => JobPhase::PausedDisconnected,
        (p, Trigger::Poll) => p,
    }
}

/// What the loop does on a trigger. It leaves on cancellation, and when it
/// is stopped already. It announces the expired session only on the
/// refresh that pauses a running job. On a poll trigger it sweeps while
/// running and idles while paused.
pub open spec fn directive_for(phase: JobPhase, trigger: Trigger) -> Directive {
    match (phase, trigger) {
        (JobPhase::Stopped, _) => Directive::Exit,
        (_, Trigger::Cancel) => Directive::Exit,
        (JobPhase::Running, Trigger::Refresh(false)) => Directive::NotifySessionExpired,
        (_, Trigger::Refresh(_)) => Directive::Wait,
        (JobPhase::Running, Trigger::Poll) => Directive::Sweep,
        (JobPhase::PausedDisconnected, Trigger::Poll) => Directive::Idle,
    }
}

/// One step of the loop: the next phase and what to do.
pub fn step(phase: JobPhase, trigger: Trigger) -> (next: (JobPhase, Directive))
    ensures
        next.0 == next_phase(phase, trigger),
        next.1 == directive_for(phase, trigger),
{
    match phase {
        JobPhase::Stopped => (JobPhase::Stopped, Directive::Exit),
        JobPhase::Running => match trigger {
            Trigger::Cancel => (JobPhase::Stopped, Directive::Exit),
            Trigger::Refresh(true) => (JobPhase::Running, Directive::Wait),
            Trigger::Refresh(false) => (
                JobPhase::PausedDisconnected,
                Directive::NotifySessionExpired,
            ),
            Trigger::Poll => (JobPhase::Running, Directive::Sweep),
        },
        JobPhase::PausedDisconnected => match trigger {
            Trigger::Cancel => (JobPhase::Stopped, Directive::Exit),
            Trigger::Refresh(true) => (JobPhase::Running, Directive::Wait),
            Trigger::Refresh(false) => (JobPhase::PausedDisconnected, Directive::Wait),
            Trigger::Poll => (JobPhase::PausedDisconnected, Directive::Idle),
        },
    }
}

/// The phase of a job with the given flags.
pub fn phase(is_running: bool, is_connected: bool) -> (phase: JobPhase)
    ensures
        phase == phase_of(is_running, is_connected),
{
    if !is_running {
        JobPhase::Stopped
    } else if is_connected {
        JobPhase::Running
    } else {
        JobPhase::PausedDisconnected
    }
}

/// The phase after the triggers of `triggers`, in order.
pub open spec fn phase_after(phase: JobPhase, triggers: Seq<Trigger>) -> JobPhase
    decreases triggers.len(),
{
    if triggers.len() == 0 {
        phase
    } else {
        next_phase(phase_after(phase, triggers.drop_last()), triggers.last())
    }
}

/// A stopped job stays stopped and never acts again, whatever triggers
/// follow.
pub proof fn lemma_stopped_is_final(triggers: Seq<Trigger>, trigger: Trigger)
    ensures
        phase_after(JobPhase::Stopped, triggers) == JobPhase::Stopped,
        directive_for(phase_after(JobPhase::Stopped, triggers), trigger) == Directive::Exit,
    decreases triggers.len(),
{
    if triggers.len() > 0 {
        lemma_stopped_is_final(triggers.drop_last(), trigger);
    }
}

/// A paused job contacts nobody: it never sweeps. It leaves the pause only
/// when a refresh finds the session valid, or on cancellation.
pub proof fn lemma_paused_job_is_idle(trigger: Trigger)
    ensures
        directive_for(JobPhase::PausedDisconnected, trigger) != Directive::Sweep,
        directive_for(JobPhase::PausedDisconnected, trigger) != Directive::NotifySessionExpired,
        next_phase(JobPhase::PausedDisconnected, trigger) == JobPhase::Running <==> trigger
            == Trigger::Refresh(true),
        next_phase(JobPhase::PausedDisconnected, trigger) == JobPhase::Stopped <==> trigger
            == Trigger::Cancel,
{
}

/// The expired session is announced exactly on the step that takes a
/// running job into the pause, so once for each expiry.
pub proof fn lemma_expiry_is_announced_once(phase: JobPhase, trigger: Trigger)
    ensures
        directive_for(phase, trigger) == Directive::NotifySessionExpired <==> (phase
            == JobPhase::Running && next_phase(phase, trigger) == JobPhase::PausedDisconnected),
{
}

/// Cancellation ends the loop from every phase.
pub proof fn lemma_cancel_stops(phase: JobPhase)
    ensures
        next_phase(phase, Trigger::Cancel) == JobPhase::Stopped,
        directive_for(phase, Trigger::Cancel) == Directive::Exit,
{
}

/// Why the switch of the single monitor refused.
#[derive(Clone, Copy, Debug, PartialEq, Eq, Structural)]
pub enum JobManagerError {
    /// Start was asked for while the monitor was running.
    AlreadyRunning,
    /// Stop was asked for while the monitor was not running.
    NotRunning,
}

impl JobManagerError {
    /// The message of the error.
    pub fn message(&self) -> (text: &'static str)
        ensures
            text@ == (match *self {
                JobManagerError::AlreadyRunning => "Monitoring is already running"@,
                JobManagerError::NotRunning => "Monitoring is not running"@,
            }),
    {
        match self {
            JobManagerError::AlreadyRunning => "Monitoring is already running",
            JobManagerError::NotRunning => "Monitoring is not running",
        }
    }
}

/// The switch of the single monitor: whether its loop is running.
#[derive(Debug)]
pub struct JobManager {
    pub is_running: bool,
}

impl JobManager {
    /// A switch that is off.
    pub fn new() -> (manager: Self)
        ensures
            !manager.is_running,
    {
        JobManager { is_running: false }
    }

    /// Turns the switch on. Refused while it is on, so that no two loops
    /// run at once.
    pub fn start(&mut self) -> (started: Result<(), JobManagerError>)
        ensures
            started == (if old(self).is_running {
                Err::<(), JobManagerError>(JobManagerError::AlreadyRunning)
            } else {
                Ok::<(), JobManagerError>(())
            }),
            final(self).is_running,
    {
        if self.is_running {
            return Err(JobManagerError::AlreadyRunning);
        }
        self.is_running = true;
        Ok(())
    }

    /// Asks for the loop to end. Refused while the switch is off. The
    /// switch itself goes off when the loop has seen the cancellation.
    pub fn stop(&self) -> (stopping: Result<(), JobManagerError>)
        ensures
            stopping == (if self.is_running {
                Ok::<(), JobManagerError>(())
            } else {
                Err::<(), JobManagerError>(JobManagerError::NotRunning)
            }),
    {
        if !self.is_running {
            return Err(JobManagerError::NotRunning);
        }
        Ok(())
    }

    /// Whether the loop is running.
    pub fn is_running(&self) -> (running: bool)
        ensures
            running == self.is_running,
    {
        self.is_running
    }

    /// Takes one trigger of the loop for a monitor whose session is
    /// connected or not as `is_connected` says, and returns whether it is
    /// connected afterwards and what to do.
    pub fn on_trigger(&mut self, is_connected: bool, trigger: Trigger) -> (next: (bool, Directive))
        ensures
            phase_of(final(self).is_running, next.0) == next_phase(
                phase_of(old(self).is_running, is_connected),
                trigger,
            ),
            next.1 == directive_for(phase_of(old(self).is_running, is_connected), trigger),
            final(self).is_running ==> old(self).is_running,
            !final(self).is_running ==> next.0 == is_connected,
    {
        let (after, directive) = step(phase(self.is_running, is_connected), trigger);
        match after {
            JobPhase::Stopped => {
                self.is_running = false;
                (is_connected, directive)
            },
            JobPhase::Running => (true, directive),
            JobPhase::PausedDisconnected => (false, directive),
        }
    }
}

} // verus!
