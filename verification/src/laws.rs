//! The dispatcher's guarantees, stated in one place and proved.

use vstd::prelude::*;

use crate::errors::CliError;
use crate::errors::error_text;
use crate::invocation::Invocation;
use crate::invocation::checkout_cmd;
use crate::invocation::commit_cmd;
use crate::invocation::list_cmd;
use crate::invocation::planned_commands;
use crate::invocation::push_cmd;
use crate::invocation::stage_cmd;
use crate::session::Session;
use crate::session::step_report;

verus! {

/// For every branch name, creating a branch is exactly one external call —
/// create-and-switch with that name — and the confirmation printed after the
/// call succeeds ends with the branch name. Whether the call succeeds is the
/// external tool's decision alone.
pub proof fn lemma_create_branch_plan(name: String, stdout: Seq<char>)
    ensures
        planned_commands((Invocation::CreateBranch { name })) == seq![checkout_cmd(name@)],
        step_report((Invocation::CreateBranch { name }), 0, stdout) == seq![
            "Successfully created and switched to branch: "@ + name@,
        ],
        ({
            let line = step_report((Invocation::CreateBranch { name }), 0, stdout)[0];
            &&& line.len() >= name@.len()
            &&& line.subrange(line.len() - name@.len(), line.len() as int) == name@
        }),
{
    let line = step_report((Invocation::CreateBranch { name }), 0, stdout)[0];
    assert(line.subrange(line.len() - name@.len(), line.len() as int) =~= name@);
}

/// A commit without the push flag plans exactly two steps, stage then commit,
/// and neither of them is the push command: no push step is ever invoked.
pub proof fn lemma_commit_without_push_never_pushes(message: String)
    ensures
        planned_commands((Invocation::Commit { message, push: false })) == seq![
            stage_cmd(),
            commit_cmd(message@),
        ],
        forall|i: int|
            0 <= i < planned_commands((Invocation::Commit { message, push: false })).len()
                ==> planned_commands((Invocation::Commit { message, push: false }))[i]
                != push_cmd(),
{
    assert(stage_cmd().len() == 2);
    assert(commit_cmd(message@).len() == 3);
    assert(push_cmd().len() == 1);
}

/// A commit with the push flag plans stage, then commit, then push, in that
/// exact order and nothing else.
pub proof fn lemma_commit_with_push_order(message: String)
    ensures
        planned_commands((Invocation::Commit { message, push: true })) == seq![
            stage_cmd(),
            commit_cmd(message@),
            push_cmd(),
        ],
{
}

/// Once a step has failed, a session issues no further command: the planned
/// sequence is aborted and no later step runs.
pub proof fn lemma_failure_aborts(s: Session)
    requires
        s.failed,
    ensures
        !s.can_issue(),
{
}

/// Listing branches always plans exactly one external query, the same fixed
/// argument list whatever the `days` value: the day window is accepted but
/// never applied as a filter.
pub proof fn lemma_list_branches_single_query(days: i32)
    ensures
        planned_commands((Invocation::ListBranches { days })) == seq![list_cmd()],
        planned_commands((Invocation::ListBranches { days })).len() == 1,
{
}

/// The external tool's error text is preserved verbatim: the message reported
/// for an external-command failure ends with exactly the captured
/// standard-error text.
pub proof fn lemma_error_text_verbatim(stderr: String)
    ensures
        ({
            let m = error_text((CliError::ExternalCommandFailed { stderr }));
            &&& m.len() >= stderr@.len()
            &&& m.subrange(m.len() - stderr@.len(), m.len() as int) == stderr@
        }),
{
    let m = error_text((CliError::ExternalCommandFailed { stderr }));
    assert(m.subrange(m.len() - stderr@.len(), m.len() as int) =~= stderr@);
}

} // verus!
