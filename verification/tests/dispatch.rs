use git_shortcuts::errors::CliError;
use git_shortcuts::invocation::plan;
use git_shortcuts::invocation::Invocation;
use git_shortcuts::session::Event;
use git_shortcuts::session::Session;
use git_shortcuts::session::SubprocessResult;

fn ok_result(stdout: &str) -> Event {
    Event::Completed(SubprocessResult {
        success: true,
        stdout: stdout.to_string(),
        stderr: String::new(),
    })
}

fn failed_result(stderr: &str) -> Event {
    Event::Completed(SubprocessResult {
        success: false,
        stdout: String::new(),
        stderr: stderr.to_string(),
    })
}

/// Drives a session to completion with every step succeeding, returning the
/// argument lists issued and the lines reported.
fn run_all_success(inv: Invocation, stdout: &str) -> (Vec<Vec<String>>, Vec<String>) {
    let mut session = Session::new(inv);
    let mut commands: Vec<Vec<String>> = Vec::new();
    let mut printed: Vec<String> = Vec::new();
    while let Some(cmd) = session.next_command() {
        commands.push(cmd);
        let lines = session.advance(ok_result(stdout)).expect("step reported failure");
        printed.extend(lines);
    }
    assert!(session.finished());
    (commands, printed)
}

fn strings(words: &[&str]) -> Vec<String> {
    words.iter().map(|w| w.to_string()).collect()
}

const LIST_FORMAT: &str = "--format=%(refname:short) (last modified: %(committerdate:relative))";

#[test]
fn quick_branch_plans_single_checkout() {
    let inv = Invocation::CreateBranch {
        name: "feature-x".to_string(),
    };
    let cmds = plan(&inv);
    assert_eq!(cmds, vec![strings(&["checkout", "-b", "feature-x"])]);
}

#[test]
fn quick_branch_success_prints_branch_name() {
    let inv = Invocation::CreateBranch {
        name: "feature-x".to_string(),
    };
    let (commands, printed) = run_all_success(inv, "");
    assert_eq!(commands, vec![strings(&["checkout", "-b", "feature-x"])]);
    assert_eq!(
        printed,
        vec!["Successfully created and switched to branch: feature-x".to_string()]
    );
    assert!(printed[0].contains("feature-x"));
}

#[test]
fn quick_branch_name_passed_through_unvalidated() {
    let inv = Invocation::CreateBranch {
        name: "odd name/with spaces".to_string(),
    };
    let cmds = plan(&inv);
    assert_eq!(cmds[0][2], "odd name/with spaces");
}

#[test]
fn smart_commit_with_push_three_calls_in_order() {
    let inv = Invocation::Commit {
        message: "fix bug".to_string(),
        push: true,
    };
    let (commands, printed) = run_all_success(inv, "");
    assert_eq!(
        commands,
        vec![
            strings(&["add", "."]),
            strings(&["commit", "-m", "fix bug"]),
            strings(&["push"]),
        ]
    );
    assert_eq!(
        printed,
        vec![
            "Staged all changes".to_string(),
            "Successfully committed changes with message: fix bug".to_string(),
            "Successfully pushed changes".to_string(),
        ]
    );
}

#[test]
fn smart_commit_without_push_two_calls_no_push() {
    let inv = Invocation::Commit {
        message: "wip".to_string(),
        push: false,
    };
    let (commands, _) = run_all_success(inv, "");
    assert_eq!(commands.len(), 2);
    for cmd in &commands {
        assert_ne!(cmd, &strings(&["push"]));
    }
    assert_eq!(
        commands,
        vec![strings(&["add", "."]), strings(&["commit", "-m", "wip"])]
    );
}

#[test]
fn smart_commit_aborts_after_failed_step() {
    let inv = Invocation::Commit {
        message: "fix bug".to_string(),
        push: true,
    };
    let mut session = Session::new(inv);
    let mut commands: Vec<Vec<String>> = Vec::new();

    let first = session.next_command().expect("a first step is planned");
    commands.push(first);
    session
        .advance(ok_result(""))
        .expect("staging step should be recorded as successful");

    let second = session.next_command().expect("a second step is planned");
    commands.push(second);
    let err = session
        .advance(failed_result("nothing to commit"))
        .expect_err("a failing step must be reported");
    match err {
        CliError::ExternalCommandFailed { stderr } => assert_eq!(stderr, "nothing to commit"),
        other => panic!("unexpected error kind: {:?}", other),
    }

    assert!(session.next_command().is_none());
    assert!(!session.finished());
    assert_eq!(
        commands,
        vec![strings(&["add", "."]), strings(&["commit", "-m", "fix bug"])]
    );
}

#[test]
fn list_active_branches_single_fixed_query() {
    let inv = Invocation::ListBranches { days: 3 };
    let cmds = plan(&inv);
    assert_eq!(
        cmds,
        vec![strings(&[
            "for-each-ref",
            "--sort=-committerdate",
            LIST_FORMAT,
            "refs/heads/",
        ])]
    );
}

#[test]
fn list_active_branches_ignores_day_window() {
    let three = plan(&Invocation::ListBranches { days: 3 });
    let seven = plan(&Invocation::ListBranches { days: 7 });
    let large = plan(&Invocation::ListBranches { days: i32::MAX });
    let negative = plan(&Invocation::ListBranches { days: -1 });
    assert_eq!(three.len(), 1);
    assert_eq!(three, seven);
    assert_eq!(three, large);
    assert_eq!(three, negative);
}

#[test]
fn list_active_branches_echoes_output_unmodified() {
    let captured = "main (last modified: 2 hours ago)\ndev (last modified: 3 days ago)\n";
    let inv = Invocation::ListBranches { days: 3 };
    let (commands, printed) = run_all_success(inv, captured);
    assert_eq!(commands.len(), 1);
    assert_eq!(
        printed,
        vec!["Recently active branches:".to_string(), captured.to_string()]
    );
}

#[test]
fn error_text_preserved_verbatim() {
    let inv = Invocation::CreateBranch {
        name: "main".to_string(),
    };
    let mut session = Session::new(inv);
    session.next_command().expect("one step is planned");
    let err = session
        .advance(failed_result("fatal: a branch named 'main' already exists\n"))
        .expect_err("a failing step must be reported");
    let message = err.message();
    assert_eq!(
        message,
        "Git command failed: fatal: a branch named 'main' already exists\n"
    );
    assert!(message.ends_with("fatal: a branch named 'main' already exists\n"));
}

#[test]
fn launch_failure_reports_execution_failed() {
    let inv = Invocation::ListBranches { days: 7 };
    let mut session = Session::new(inv);
    session.next_command().expect("one step is planned");
    let err = session
        .advance(Event::LaunchFailed)
        .expect_err("a launch failure must be reported");
    match &err {
        CliError::ExecutionFailed { detail } => {
            assert_eq!(detail.as_str(), "Failed to execute git command")
        }
        other => panic!("unexpected error kind: {:?}", other),
    }
    assert_eq!(err.message(), "Failed to execute git command");
    assert!(session.next_command().is_none());
}

#[test]
fn empty_commit_message_passed_through() {
    let inv = Invocation::Commit {
        message: String::new(),
        push: false,
    };
    let cmds = plan(&inv);
    assert_eq!(cmds[1], strings(&["commit", "-m", ""]));
}
