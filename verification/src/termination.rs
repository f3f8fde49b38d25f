//! Graceful termination of a process: ask politely, wait a bounded time,
//! then kill, and reap in the end.
//!
//! The routine is a sequence of steps. Each step names what is to be done to
//! the process; the outcome of doing it gives the next step.

use vstd::prelude::*;
use vstd::string::*;
use crate::config::{Platform, TERMINATION_POLL_ATTEMPTS};
use crate::text::{decimal, decimal_string, texts, push_text, push_string};

verus! {

/// What a process said when it was asked, without waiting, whether it has exited.
#[derive(Debug)]
pub enum ExitPoll {
    /// It has exited; `status` is its exit status as text.
    Exited { status: String },
    /// It is still running.
    Running,
    /// The question could not be asked.
    Failed,
}

/// What is to be done next to a process that is being terminated.
#[derive(Clone, Copy, Debug, PartialEq, Eq, Structural)]
pub enum TerminationStep {
    /// Ask whether the process has exited by itself.
    CheckExit,
    /// Send the polite termination signal.
    SoftTerminate,
    /// Ask whether the process has exited; `polls_left` such questions are left, this one included.
    AwaitExit { polls_left: u32 },
    /// Pause for the poll interval; `polls_left` questions are left after the pause.
    Pause { polls_left: u32 },
    /// Ask one last time whether the process has exited.
    FinalCheck,
    /// Kill the process.
    ForceKill,
    /// Wait for the process, so that nothing of it is left behind.
    Reap,
    /// Nothing is left to do.
    Done,
}

impl TerminationStep {
    /// Whether the step asks the process whether it has exited.
    pub open spec fn is_poll(self) -> bool {
        self is CheckExit || self is AwaitExit || self is FinalCheck
    }

    /// The step after a poll step whose question was answered by `poll`. A
    /// process that has exited needs nothing more, except after the last
    /// poll, where it is reaped as the others are. A step that asks nothing
    /// stays.
    pub open spec fn after_poll_spec(self, poll: ExitPoll) -> TerminationStep {
        match self {
            TerminationStep::CheckExit => if poll is Exited {
                TerminationStep::Done
            } else {
                TerminationStep::SoftTerminate
            },
            TerminationStep::AwaitExit { polls_left } => if poll is Exited {
                TerminationStep::Done
            } else if polls_left > 0 {
                TerminationStep::Pause { polls_left: (polls_left - 1) as u32 }
            } else {
                TerminationStep::Pause { polls_left: 0 }
            },
            TerminationStep::FinalCheck => if poll is Running {
                TerminationStep::ForceKill
            } else {
                TerminationStep::Reap
            },
            _ => self,
        }
    }

    /// The step after a step that asks nothing has been carried out. A poll step stays.
    pub open spec fn after_action_spec(self) -> TerminationStep {
        match self {
            TerminationStep::SoftTerminate => if TERMINATION_POLL_ATTEMPTS > 0 {
                TerminationStep::AwaitExit { polls_left: TERMINATION_POLL_ATTEMPTS }
            } else {
                TerminationStep::FinalCheck
            },
            TerminationStep::Pause { polls_left } => if polls_left > 0 {
                TerminationStep::AwaitExit { polls_left }
            } else {
                TerminationStep::FinalCheck
            },
            TerminationStep::ForceKill => TerminationStep::Reap,
            TerminationStep::Reap => TerminationStep::Done,
            _ => self,
        }
    }

    /// Whether the routine can come to this step.
    pub open spec fn well_formed(self) -> bool {
        match self {
            TerminationStep::AwaitExit { polls_left } => 1 <= polls_left
                <= TERMINATION_POLL_ATTEMPTS,
            TerminationStep::Pause { polls_left } => polls_left < TERMINATION_POLL_ATTEMPTS,
            _ => true,
        }
    }

    /// An upper bound of the number of steps that are still to be carried out, this one included.
    pub open spec fn steps_left(self) -> nat {
        match self {
            TerminationStep::CheckExit => 2 * TERMINATION_POLL_ATTEMPTS as nat + 5,
            TerminationStep::SoftTerminate => 2 * TERMINATION_POLL_ATTEMPTS as nat + 4,
            TerminationStep::AwaitExit { polls_left } => 2 * polls_left as nat + 3,
            TerminationStep::Pause { polls_left } => 2 * polls_left as nat + 4,
            TerminationStep::FinalCheck => 3,
            TerminationStep::ForceKill => 2,
            TerminationStep::Reap => 1,
            TerminationStep::Done => 0,
        }
    }

    /// The step that follows a poll step, given what the process answered.
    pub fn after_poll(self, poll: &ExitPoll) -> (next: TerminationStep)
        ensures
            next == self.after_poll_spec(*poll),
            self.well_formed() ==> next.well_formed(),
    {
        match self {
            TerminationStep::CheckExit => match poll {
                ExitPoll::Exited { .. } => TerminationStep::Done,
                _ => TerminationStep::SoftTerminate,
            },
            TerminationStep::AwaitExit { polls_left } => match poll {
                ExitPoll::Exited { .. } => TerminationStep::Done,
                _ => if polls_left > 0 {
                    TerminationStep::Pause { polls_left: polls_left - 1 }
                } else {
                    TerminationStep::Pause { polls_left: 0 }
                },
            },
            TerminationStep::FinalCheck => match poll {
                ExitPoll::Running => TerminationStep::ForceKill,
                _ => TerminationStep::Reap,
            },
            _ => self,
        }
    }

    /// The step that follows a step that asks nothing, once it has been carried out.
    pub fn after_action(self) -> (next: TerminationStep)
        ensures
            next == self.after_action_spec(),
            self.well_formed() ==> next.well_formed(),
    {
        match self {
            TerminationStep::SoftTerminate => if TERMINATION_POLL_ATTEMPTS > 0 {
                TerminationStep::AwaitExit { polls_left: TERMINATION_POLL_ATTEMPTS }
            } else {
                TerminationStep::FinalCheck
            },
            TerminationStep::Pause { polls_left } => if polls_left > 0 {
                TerminationStep::AwaitExit { polls_left }
            } else {
                TerminationStep::FinalCheck
            },
            TerminationStep::ForceKill => TerminationStep::Reap,
            TerminationStep::Reap => TerminationStep::Done,
            _ => self,
        }
    }
}

/// Begins the graceful termination of the process in `child_opt`, if there is
/// one: takes it out of the slot and says what is to be done to it first.
/// With an empty slot nothing is to be done.
pub fn kill_child_gracefully<H>(child_opt: &mut Option<H>) -> (begun: (Option<H>, TerminationStep))
    ensures
        *final(child_opt) is None,
        begun.0 == *old(child_opt),
        begun.1 == (if *old(child_opt) is Some {
            TerminationStep::CheckExit
        } else {
            TerminationStep::Done
        }),
        begun.1.well_formed(),
{
    let child = child_opt.take();
    let first = if child.is_some() {
        TerminationStep::CheckExit
    } else {
        TerminationStep::Done
    };
    (child, first)
}

/// A program and its arguments.
#[derive(Debug)]
pub struct CommandLine {
    pub program: String,
    pub args: Vec<String>,
}

/// The arguments with which the platform's tool sends the polite termination signal to `pid`.
pub open spec fn soft_termination_args(pid: u32, platform: Platform) -> Seq<Seq<char>> {
    match platform {
        Platform::Windows => seq!["/PID"@, decimal(pid as nat), "/T"@],
        Platform::Unix => seq!["-TERM"@, decimal(pid as nat)],
    }
}

/// The platform's tool for sending signals.
pub open spec fn soft_termination_program(platform: Platform) -> Seq<char> {
    match platform {
        Platform::Windows => "taskkill"@,
        Platform::Unix => "kill"@,
    }
}

/// The command that asks the process `pid` politely to terminate.
pub fn terminate_pid_soft(pid: u32, platform: Platform) -> (command: CommandLine)
    ensures
        command.program@ == soft_termination_program(platform),
        texts(command.args@) == soft_termination_args(pid, platform),
{
    let mut args: Vec<String> = Vec::new();
    match platform {
        Platform::Windows => {
            push_text(&mut args, "/PID");
            push_string(&mut args, decimal_string(pid as u64));
            push_text(&mut args, "/T");
            assert(texts(args@) =~= soft_termination_args(pid, platform));
            CommandLine { program: String::from_str("taskkill"), args }
        },
        Platform::Unix => {
            push_text(&mut args, "-TERM");
            push_string(&mut args, decimal_string(pid as u64));
            assert(texts(args@) =~= soft_termination_args(pid, platform));
            CommandLine { program: String::from_str("kill"), args }
        },
    }
}

/// Every step that is carried out brings the routine nearer to its end: it
/// ends after a bounded number of steps, whatever the process answers.
pub proof fn termination_makes_progress(step: TerminationStep, poll: ExitPoll)
    requires
        step.well_formed(),
        !(step is Done),
    ensures
        step.is_poll() ==> step.after_poll_spec(poll).steps_left() < step.steps_left(),
        !step.is_poll() ==> step.after_action_spec().steps_left() < step.steps_left(),
        step.steps_left() <= 2 * TERMINATION_POLL_ATTEMPTS + 5,
{
}

/// The routine ends without another step only where the process was seen to
/// have exited; otherwise it ends by reaping the process, and it kills a
/// process that is still running at the last poll.
pub proof fn termination_ends_by_exit_or_reap(step: TerminationStep, poll: ExitPoll)
    requires
        step.well_formed(),
        !(step is Done),
    ensures
        step.is_poll() && step.after_poll_spec(poll) is Done ==> poll is Exited,
        !step.is_poll() && step.after_action_spec() is Done ==> step is Reap,
        step is FinalCheck && poll is Running ==> step.after_poll_spec(poll) is ForceKill,
        step is ForceKill ==> step.after_action_spec() is Reap,
{
}

} // verus!
