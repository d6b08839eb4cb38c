use srcman::command::{output_result, status_result, Outcome};
use srcman::error::Failure;
use srcman::opt::Opt;
use srcman::repo::{Branch, HeadTarget, Repo, RepoState, Snapshot};
use srcman::status::{Status, FileState, WT_MODIFIED, WT_NEW};
use srcman::workspace::{Src, StatusLine};

fn repo(name: &str, entries: Vec<(String, u32)>) -> Repo {
    Repo::new(Snapshot {
        path: format!("/ws/{}", name),
        git_dir: format!("/ws/{}/.git/", name),
        workdir: Some(format!("/ws/{}/", name)),
        state: RepoState::Clean,
        entries,
        branches: vec![Branch { name: "master".to_string(), is_head: true }],
        head: HeadTarget::Unborn { target: "refs/heads/master".to_string() },
    })
    .unwrap()
}

fn failed(text: &str) -> Result<(), Failure> {
    Err(Failure::CommandOutput { command: vec![], code: Some(1), stdout: String::new(), stderr: text.to_string() })
}

#[test]
fn workspace_dirty_when_any_repository_is() {
    let clean = Src::new(vec![repo("a", vec![]), repo("b", vec![])]);
    assert!(!clean.is_dirty());
    let dirty = Src::new(vec![repo("a", vec![]), repo("b", vec![("x".to_string(), WT_MODIFIED)])]);
    assert!(dirty.is_dirty());
    assert!(!Src::new(vec![]).is_dirty());
}

#[test]
fn platform_artifact_is_skipped() {
    assert!(Src::is_skipped(&".DS_Store".to_string()));
    assert!(!Src::is_skipped(&"proj".to_string()));
}

#[test]
fn one_push_per_repository() {
    let src = Src::new(vec![repo("a", vec![]), repo("b", vec![]), repo("c", vec![])]);
    let commands = src.push_commands("origin");
    assert_eq!(commands.len(), 3);
    assert_eq!(commands[1], vec!["git", "--git-dir", "/ws/b/.git/", "push", "--all", "origin"]);
}

#[test]
fn failure_report_names_exactly_the_failing_subset() {
    let src = Src::new(vec![repo("a", vec![]), repo("b", vec![]), repo("c", vec![]), repo("d", vec![])]);
    let failures = src.push_failures(vec![Ok(()), failed("b broke"), Ok(()), failed("d broke")]);
    let names: Vec<&str> = failures.iter().map(|(n, _)| n.as_str()).collect();
    assert_eq!(names, vec!["b", "d"]);
    match &failures[1].1 {
        Failure::CommandOutput { stderr, .. } => assert_eq!(stderr, "d broke"),
        other => panic!("unexpected {:?}", other),
    }
    assert!(matches!(Src::push_result("origin", &failures), Err(Failure::PushAll { remote }) if remote == "origin"));
}

#[test]
fn push_succeeds_when_nothing_failed() {
    let src = Src::new(vec![repo("a", vec![]), repo("b", vec![])]);
    let failures = src.push_failures(vec![Ok(()), Ok(())]);
    assert!(failures.is_empty());
    assert!(Src::push_result("origin", &failures).is_ok());
}

#[test]
fn push_refused_while_dirty_unless_forced() {
    let dirty = Src::new(vec![repo("a", vec![("x".to_string(), WT_MODIFIED)])]);
    assert!(matches!(Opt::push(&dirty, false), Err(Failure::PushDirty)));
    assert!(Opt::push(&dirty, true).is_ok());
    let clean = Src::new(vec![repo("a", vec![])]);
    assert!(Opt::push(&clean, false).is_ok());
}

#[test]
fn command_outcomes() {
    let cmd = || vec!["git".to_string(), "push".to_string()];
    let ok = Outcome::Exited { code: Some(0), stdout: String::new(), stderr: String::new() };
    assert!(output_result(cmd(), ok).is_ok());
    let bad = Outcome::Exited { code: Some(128), stdout: "out".to_string(), stderr: "err".to_string() };
    match output_result(cmd(), bad) {
        Err(Failure::CommandOutput { command, code, stdout, stderr }) => {
            assert_eq!(command, cmd());
            assert_eq!(code, Some(128));
            assert_eq!(stdout, "out");
            assert_eq!(stderr, "err");
        },
        other => panic!("unexpected {:?}", other),
    }
    let killed = Outcome::Exited { code: None, stdout: String::new(), stderr: String::new() };
    assert!(matches!(status_result(cmd(), killed), Err(Failure::CommandStatus { code: None, .. })));
    let missing = Outcome::NotStarted { message: "not found".to_string() };
    assert!(matches!(status_result(cmd(), missing), Err(Failure::CommandInvocation { message, .. }) if message == "not found"));
}

#[test]
fn status_listing_of_dirty_repositories() {
    let src = Src::new(vec![
        repo("a", vec![("z.txt".to_string(), WT_MODIFIED), ("b.txt".to_string(), WT_NEW)]),
        repo("clean", vec![]),
        repo("c", vec![("x".to_string(), WT_NEW)]),
    ]);
    let text: Vec<String> = src
        .status_lines()
        .into_iter()
        .map(|line| match line {
            StatusLine::Blank => String::new(),
            StatusLine::Header { text } => text,
            StatusLine::File { status, path } => format!("{} {}", status.code(), path),
        })
        .collect();
    assert_eq!(text, vec!["a:", " A b.txt", " M z.txt", "", "c:", " A x"]);
    assert!(Src::new(vec![repo("clean", vec![])]).status_lines().is_empty());
    match &src.status_lines()[1] {
        StatusLine::File { status, .. } => {
            assert_eq!(*status, Status::Changed { index: FileState::Unchanged, worktree: FileState::Added })
        },
        _ => panic!("expected a file line"),
    }
}
