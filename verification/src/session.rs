//! A dispatch session: one invocation run as a strictly ordered sequence of
//! external-tool steps, with sequential short-circuit on the first failure.
//!
//! The caller drives the session: it asks for the next planned argument list,
//! launches the external tool with it, and hands the outcome back. The
//! session decides what to report and whether any further step may run. No
//! retry, no rollback: after a failing step the session issues nothing more,
//! and whatever earlier steps changed stays changed.

use vstd::prelude::*;
use vstd::string::StringExecFns;

use crate::errors::CliError;
use crate::invocation::Invocation;
use crate::invocation::build_command;
use crate::invocation::plan_len;
use crate::invocation::planned_commands;

verus! {

/// What one subprocess invocation produced: its exit status and its captured
/// output streams.
#[derive(Debug)]
pub struct SubprocessResult {
    pub success: bool,
    pub stdout: String,
    pub stderr: String,
}

/// The outcome of trying to run one planned step.
#[derive(Debug)]
pub enum Event {
    /// The external tool was launched and exited.
    Completed(SubprocessResult),
    /// The external tool could not be launched at all.
    LaunchFailed,
}

/// The lines printed after step `step` of `inv` succeeds. Only the branch
/// listing echoes captured output; every other step prints a fixed
/// confirmation, with the branch name or the commit message spliced in.
pub open spec fn step_report(inv: Invocation, step: int, stdout: Seq<char>) -> Seq<Seq<char>> {
    match inv {
        Invocation::CreateBranch { name } => seq![
            "Successfully created and switched to branch: "@ + name@,
        ],
        Invocation::Commit { message, push } => if step == 0 {
            seq!["Staged all changes"@]
        } else if step == 1 {
            seq!["Successfully committed changes with message: "@ + message@]
        } else {
            seq!["Successfully pushed changes"@]
        },
        Invocation::ListBranches { days } => seq!["Recently active branches:"@, stdout],
    }
}

fn report_lines(inv: &Invocation, step: usize, stdout: String) -> (lines: Vec<String>)
    requires
        step < planned_commands(*inv).len(),
    ensures
        lines.deep_view() == step_report(*inv, step as int, stdout@),
{
    let mut lines: Vec<String> = Vec::new();
    match inv {
        Invocation::CreateBranch { name } => {
            lines.push(
                ("Successfully created and switched to branch: ").to_owned().concat(name.as_str()),
            );
        },
        Invocation::Commit { message, .. } => {
            if step == 0 {
                lines.push(("Staged all changes").to_owned());
            } else if step == 1 {
                lines.push(
                    ("Successfully committed changes with message: ").to_owned().concat(
                        message.as_str(),
                    ),
                );
            } else {
                lines.push(("Successfully pushed changes").to_owned());
            }
        },
        Invocation::ListBranches { .. } => {
            lines.push(("Recently active branches:").to_owned());
            lines.push(stdout);
        },
    }
    proof {
        assert(lines.deep_view() =~= step_report(*inv, step as int, stdout@));
    }
    lines
}

/// One invocation being dispatched: the operation, how many of its planned
/// steps have completed, and whether a step has failed.
pub struct Session {
    pub invocation: Invocation,
    pub done: usize,
    pub failed: bool,
}

impl Session {
    /// The session never counts more completed steps than the plan has.
    pub open spec fn wf(self) -> bool {
        self.done <= planned_commands(self.invocation).len()
    }

    /// A further step may run: nothing failed and planned steps remain.
    pub open spec fn can_issue(self) -> bool {
        !self.failed && self.done < planned_commands(self.invocation).len()
    }

    /// Every planned step completed; the invocation succeeded.
    pub open spec fn is_complete(self) -> bool {
        !self.failed && self.done == planned_commands(self.invocation).len()
    }

    /// Start dispatching `invocation`: no step has run yet.
    pub fn new(invocation: Invocation) -> (s: Session)
        ensures
            s.wf(),
            s.invocation == invocation,
            s.done == 0,
            !s.failed,
    {
        Session { invocation, done: 0, failed: false }
    }

    /// The argument list of the next planned step, or `None` once the session
    /// is complete or a step has failed.
    pub fn next_command(&self) -> (c: Option<Vec<String>>)
        requires
            self.wf(),
        ensures
            self.can_issue() ==> (c matches Some(cmd) && cmd.deep_view() == planned_commands(
                self.invocation,
            )[self.done as int]),
            !self.can_issue() ==> c is None,
    {
        if self.failed {
            None
        } else {
            let n = plan_len(&self.invocation);
            if self.done < n {
                Some(build_command(&self.invocation, self.done))
            } else {
                None
            }
        }
    }

    /// Whether the session finished with every planned step successful.
    pub fn finished(&self) -> (b: bool)
        requires
            self.wf(),
        ensures
            b == self.is_complete(),
    {
        !self.failed && self.done == plan_len(&self.invocation)
    }

    /// Record the outcome of the step that `next_command` last issued.
    ///
    /// On success the step is counted as done and the lines to print are
    /// returned. On a non-zero exit the session aborts and the error carries
    /// the captured standard-error text verbatim. On a launch failure the
    /// session aborts with the fixed launch-failure text. A failed session
    /// issues no further command.
    pub fn advance(&mut self, ev: Event) -> (r: Result<Vec<String>, CliError>)
        requires
            old(self).wf(),
            old(self).can_issue(),
        ensures
            final(self).wf(),
            final(self).invocation == old(self).invocation,
            (match ev {
                Event::Completed(res) => if res.success {
                    &&& r matches Ok(lines) && lines.deep_view() == step_report(
                        old(self).invocation,
                        old(self).done as int,
                        res.stdout@,
                    )
                    &&& final(self).done == old(self).done + 1
                    &&& !final(self).failed
                } else {
                    &&& r matches Err(e) && e == (CliError::ExternalCommandFailed {
                        stderr: res.stderr,
                    })
                    &&& final(self).failed
                    &&& final(self).done == old(self).done
                },
                Event::LaunchFailed => {
                    &&& r matches Err(e) && e matches CliError::ExecutionFailed { detail }
                        && detail@ == "Failed to execute git command"@
                    &&& final(self).failed
                    &&& final(self).done == old(self).done
                },
            }),
    {
        match ev {
            Event::LaunchFailed => {
                self.failed = true;
                Err(
                    CliError::ExecutionFailed {
                        detail: ("Failed to execute git command").to_owned(),
                    },
                )
            },
            Event::Completed(res) => {
                if res.success {
                    let lines = report_lines(&self.invocation, self.done, res.stdout);
                    self.done = self.done + 1;
                    Ok(lines)
                } else {
                    self.failed = true;
                    Err(CliError::ExternalCommandFailed { stderr: res.stderr })
                }
            },
        }
    }
}

} // verus!
