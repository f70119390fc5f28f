//! The three operations the dispatcher performs, and the fixed sequence of
//! external-tool invocations each one is mapped to.

use vstd::prelude::*;

verus! {

/// One parsed command-line invocation, selected once and then dispatched.
#[derive(Debug, Clone)]
pub enum Invocation {
    /// Create a new branch and switch to it.
    CreateBranch { name: String },
    /// Stage all changes, commit them, and optionally push.
    Commit { message: String, push: bool },
    /// List recently active branches. `days` is accepted but not applied as a
    /// filter: all local branches are listed regardless of its value.
    ListBranches { days: i32 },
}

/// The argument list that creates branch `name` and switches to it.
pub open spec fn checkout_cmd(name: Seq<char>) -> Seq<Seq<char>> {
    seq!["checkout"@, "-b"@, name]
}

/// The argument list that stages all working-tree changes.
pub open spec fn stage_cmd() -> Seq<Seq<char>> {
    seq!["add"@, "."@]
}

/// The argument list that commits staged changes with `message`.
pub open spec fn commit_cmd(message: Seq<char>) -> Seq<Seq<char>> {
    seq!["commit"@, "-m"@, message]
}

/// The argument list that pushes the current branch upstream.
pub open spec fn push_cmd() -> Seq<Seq<char>> {
    seq!["push"@]
}

/// The argument list of the single query that lists local branches sorted by
/// most-recent activity, each annotated with a relative last-modified time.
pub open spec fn list_cmd() -> Seq<Seq<char>> {
    seq![
        "for-each-ref"@,
        "--sort=-committerdate"@,
        "--format=%(refname:short) (last modified: %(committerdate:relative))"@,
        "refs/heads/"@,
    ]
}

/// The full, fixed sequence of external-tool invocations an operation is
/// mapped to. Each step runs only if the previous one succeeded.
pub open spec fn planned_commands(inv: Invocation) -> Seq<Seq<Seq<char>>> {
    match inv {
        Invocation::CreateBranch { name } => seq![checkout_cmd(name@)],
        Invocation::Commit { message, push } => if push {
            seq![stage_cmd(), commit_cmd(message@), push_cmd()]
        } else {
            seq![stage_cmd(), commit_cmd(message@)]
        },
        Invocation::ListBranches { days } => seq![list_cmd()],
    }
}

/// How many external-tool invocations the operation plans.
pub fn plan_len(inv: &Invocation) -> (n: usize)
    ensures
        n == planned_commands(*inv).len(),
{
    match inv {
        Invocation::CreateBranch { .. } => 1,
        Invocation::Commit { push, .. } => if *push {
            3
        } else {
            2
        },
        Invocation::ListBranches { .. } => 1,
    }
}

fn args1(a: &str) -> (v: Vec<String>)
    ensures
        v.deep_view() == seq![a@],
{
    let mut v: Vec<String> = Vec::new();
    v.push(a.to_owned());
    proof {
        assert(v.deep_view() =~~= seq![a@]);
    }
    v
}

fn args2(a: &str, b: &str) -> (v: Vec<String>)
    ensures
        v.deep_view() == seq![a@, b@],
{
    let mut v: Vec<String> = Vec::new();
    v.push(a.to_owned());
    v.push(b.to_owned());
    proof {
        assert(v.deep_view() =~~= seq![a@, b@]);
    }
    v
}

fn args3(a: &str, b: &str, c: &str) -> (v: Vec<String>)
    ensures
        v.deep_view() == seq![a@, b@, c@],
{
    let mut v: Vec<String> = Vec::new();
    v.push(a.to_owned());
    v.push(b.to_owned());
    v.push(c.to_owned());
    proof {
        assert(v.deep_view() =~~= seq![a@, b@, c@]);
    }
    v
}

fn args4(a: &str, b: &str, c: &str, d: &str) -> (v: Vec<String>)
    ensures
        v.deep_view() == seq![a@, b@, c@, d@],
{
    let mut v: Vec<String> = Vec::new();
    v.push(a.to_owned());
    v.push(b.to_owned());
    v.push(c.to_owned());
    v.push(d.to_owned());
    proof {
        assert(v.deep_view() =~~= seq![a@, b@, c@, d@]);
    }
    v
}

/// The argument list of step `step` of the operation's plan.
pub fn build_command(inv: &Invocation, step: usize) -> (cmd: Vec<String>)
    requires
        step < planned_commands(*inv).len(),
    ensures
        cmd.deep_view() == planned_commands(*inv)[step as int],
{
    match inv {
        Invocation::CreateBranch { name } => args3("checkout", "-b", name.as_str()),
        Invocation::Commit { message, .. } => {
            if step == 0 {
                args2("add", ".")
            } else if step == 1 {
                args3("commit", "-m", message.as_str())
            } else {
                args1("push")
            }
        },
        Invocation::ListBranches { .. } => args4(
            "for-each-ref",
            "--sort=-committerdate",
            "--format=%(refname:short) (last modified: %(committerdate:relative))",
            "refs/heads/",
        ),
    }
}

/// The whole plan of an operation as argument lists, in execution order.
pub fn plan(inv: &Invocation) -> (cmds: Vec<Vec<String>>)
    ensures
        cmds.deep_view() == planned_commands(*inv),
{
    let n = plan_len(inv);
    let mut cmds: Vec<Vec<String>> = Vec::new();
    let mut i: usize = 0;
    while i < n
        invariant
            n == planned_commands(*inv).len(),
            i <= n,
            cmds.deep_view() == planned_commands(*inv).subrange(0, i as int),
        decreases n - i,
    {
        let ghost prev = cmds@;
        let ghost prev_dv = cmds.deep_view();
        let c = build_command(inv, i);
        cmds.push(c);
        proof {
            assert(cmds@ == prev.push(c));
            assert(prev_dv.len() == prev.len());
            assert(prev.len() == i);
            assert forall|j: int| 0 <= j < i + 1 implies cmds.deep_view()[j] == planned_commands(
                *inv,
            ).subrange(0, i as int + 1)[j] by {
                if j < i {
                    assert(cmds@[j] == prev[j]);
                    assert(prev_dv[j] == prev[j].deep_view());
                    assert(prev_dv[j] == planned_commands(*inv).subrange(0, i as int)[j]);
                }
            }
            assert(cmds.deep_view() =~= planned_commands(*inv).subrange(0, i as int + 1));
        }
        i = i + 1;
    }
    proof {
        assert(cmds.deep_view() =~~= planned_commands(*inv));
    }
    cmds
}

} // verus!
