use vstd::prelude::*;

use crate::status::{classify, classify_spec, Outcome, Status};

verus! {

/// Something asked for a check. Triggers carry nothing else and any
/// number of them may be folded into one check.
#[derive(Debug, Clone, Copy, PartialEq, Eq, Structural)]
pub enum TriggerEvent {
    FileChanged,
    UserClick,
}

/// Where the coordinator stands.
#[derive(Debug, Clone, Copy, PartialEq, Eq, Structural)]
pub enum Phase {
    /// No check runs; waiting for a trigger.
    Idle,
    /// A trigger was taken; the triggers already queued behind it are being
    /// drained before the check starts.
    Collecting,
    /// A check runs.
    Running,
    /// A check runs and a trigger came in since it started.
    RunningPending,
}

/// What the loop around the coordinator hands it.
#[derive(Debug, PartialEq, Eq)]
pub enum Input {
    /// A trigger was taken from the queue.
    Trigger(TriggerEvent),
    /// The queue was found empty without waiting.
    QueueEmpty,
    /// The running check came back with this outcome.
    Finished(Outcome),
}

/// What the loop around the coordinator is to do next.
#[derive(Debug, Clone, Copy, PartialEq, Eq, Structural)]
pub enum Command {
    /// Block until a trigger arrives.
    WaitForTrigger,
    /// Take a trigger from the queue if one is there, without waiting.
    DrainQueue,
    /// Start the check.
    RunCheck,
    /// Wait for the running check to come back.
    AwaitCheck,
}

/// The answer to one input: a status to publish, if a check completed, and
/// the next command.
#[derive(Debug, Clone, PartialEq, Eq)]
pub struct Step {
    pub publish: Option<Status>,
    pub command: Command,
}

pub open spec fn is_running(p: Phase) -> bool {
    p == Phase::Running || p == Phase::RunningPending
}

/// The command that goes with waiting in a phase.
pub open spec fn command_for(p: Phase) -> Command {
    match p {
        Phase::Idle => Command::WaitForTrigger,
        Phase::Collecting => Command::DrainQueue,
        _ => Command::AwaitCheck,
    }
}

pub open spec fn next_phase(p: Phase, i: Input) -> Phase {
    match (p, i) {
        (Phase::Idle, Input::Trigger(_)) => Phase::Collecting,
        (Phase::Collecting, Input::QueueEmpty) => Phase::Running,
        (Phase::Running, Input::Trigger(_)) => Phase::RunningPending,
        (Phase::Running, Input::Finished(_)) => Phase::Idle,
        (Phase::RunningPending, Input::Finished(_)) => Phase::Collecting,
        _ => p,
    }
}

pub open spec fn next_step(p: Phase, i: Input) -> Step {
    match (p, i) {
        (Phase::Idle, Input::Trigger(_)) => Step { publish: None, command: Command::DrainQueue },
        (Phase::Collecting, Input::QueueEmpty) => Step {
            publish: None,
            command: Command::RunCheck,
        },
        (Phase::Running, Input::Finished(o)) => Step {
            publish: Some(classify_spec(o)),
            command: Command::DrainQueue,
        },
        (Phase::RunningPending, Input::Finished(o)) => Step {
            publish: Some(classify_spec(o)),
            command: Command::DrainQueue,
        },
        _ => Step { publish: None, command: command_for(next_phase(p, i)) },
    }
}

/// Folds triggers into single checks: at most one check runs at a time, a
/// burst of triggers before a check starts gives that one check, and
/// triggers that come while a check runs give one more check after it.
pub struct Coordinator {
    phase: Phase,
}

impl View for Coordinator {
    type V = Phase;

    closed spec fn view(&self) -> Phase {
        self.phase
    }
}

impl Coordinator {
    pub fn new() -> (r: Coordinator)
        ensures
            r@ == Phase::Idle,
    {
        Coordinator { phase: Phase::Idle }
    }

    pub fn phase(&self) -> (r: Phase)
        ensures
            r == self@,
    {
        self.phase
    }

    /// The command to start the loop with.
    pub fn first_command(&self) -> (r: Command)
        ensures
            r == command_for(self@),
    {
        match self.phase {
            Phase::Idle => Command::WaitForTrigger,
            Phase::Collecting => Command::DrainQueue,
            _ => Command::AwaitCheck,
        }
    }

    /// Takes one input. A check is started only from `Collecting`, so never
    /// while another one runs, and each completed check is published once.
    pub fn step(&mut self, input: Input) -> (r: Step)
        ensures
            final(self)@ == next_phase(old(self)@, input),
            r == next_step(old(self)@, input),
            r.command == Command::RunCheck ==> !is_running(old(self)@) && is_running(
                final(self)@,
            ),
            r.publish is Some <==> (is_running(old(self)@) && input is Finished),
    {
        match input {
            Input::Trigger(_) => match self.phase {
                Phase::Idle => {
                    self.phase = Phase::Collecting;
                    Step { publish: None, command: Command::DrainQueue }
                },
                Phase::Collecting => Step { publish: None, command: Command::DrainQueue },
                _ => {
                    self.phase = Phase::RunningPending;
                    Step { publish: None, command: Command::AwaitCheck }
                },
            },
            Input::QueueEmpty => match self.phase {
                Phase::Idle => Step { publish: None, command: Command::WaitForTrigger },
                Phase::Collecting => {
                    self.phase = Phase::Running;
                    Step { publish: None, command: Command::RunCheck }
                },
                _ => Step { publish: None, command: Command::AwaitCheck },
            },
            Input::Finished(o) => match self.phase {
                Phase::Idle => Step { publish: None, command: Command::WaitForTrigger },
                Phase::Collecting => Step { publish: None, command: Command::DrainQueue },
                Phase::Running => {
                    self.phase = Phase::Idle;
                    Step { publish: Some(classify(o)), command: Command::DrainQueue }
                },
                Phase::RunningPending => {
                    self.phase = Phase::Collecting;
                    Step { publish: Some(classify(o)), command: Command::DrainQueue }
                },
            },
        }
    }
}

} // verus!
