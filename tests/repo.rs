use srcman::order::path_less;
use srcman::error::Failure;
use srcman::repo::{resolve_head, Branch, HeadTarget, Repo, RepoState, Snapshot};
use srcman::status::{FileState, Status, IGNORED, INDEX_MODIFIED, WT_NEW};

fn snapshot(state: RepoState, entries: Vec<(String, u32)>, branches: Vec<Branch>, head: HeadTarget) -> Snapshot {
    Snapshot {
        path: "/work/src/proj".to_string(),
        git_dir: "/work/src/proj/.git/".to_string(),
        workdir: Some("/work/src/proj/".to_string()),
        state,
        entries,
        branches,
        head,
    }
}

fn branch(name: &str, is_head: bool) -> Branch {
    Branch { name: name.to_string(), is_head }
}

fn unborn() -> HeadTarget {
    HeadTarget::Unborn { target: "refs/heads/master".to_string() }
}

#[test]
fn fresh_repository_is_clean() {
    let repo = Repo::new(snapshot(RepoState::Clean, vec![], vec![], unborn())).unwrap();
    assert!(!repo.is_dirty());
    assert_eq!(repo.changes(), 0);
    assert_eq!(repo.head(), "refs/heads/master");
    assert_eq!(repo.name(), "proj");
    assert_eq!(repo.git_dir(), "/work/src/proj/.git/");
    assert_eq!(repo.location(), "/work/src/proj/");
}

#[test]
fn untracked_file_makes_repository_dirty() {
    let entries = vec![("notes.txt".to_string(), WT_NEW)];
    let repo = Repo::new(snapshot(RepoState::Clean, entries, vec![branch("master", true)], unborn())).unwrap();
    assert!(repo.is_dirty());
    assert_eq!(repo.files().len(), 1);
    assert_eq!(repo.files()[0].0, "notes.txt");
    assert_eq!(repo.files()[0].1, Status::Changed { index: FileState::Unchanged, worktree: FileState::Added });
}

#[test]
fn ignored_entries_are_not_listed() {
    let entries = vec![("target".to_string(), IGNORED), ("src/lib.rs".to_string(), INDEX_MODIFIED)];
    let repo = Repo::new(snapshot(RepoState::Clean, entries, vec![], unborn())).unwrap();
    assert_eq!(repo.changes(), 1);
    assert_eq!(repo.files()[0].0, "src/lib.rs");
}

#[test]
fn merge_in_progress_is_dirty() {
    let repo = Repo::new(snapshot(RepoState::Merge, vec![], vec![branch("master", true)], unborn())).unwrap();
    assert!(repo.state() != RepoState::Clean);
    assert!(repo.is_dirty());
    assert_eq!(repo.changes(), 0);
}

#[test]
fn head_is_checked_out_branch() {
    let branches = vec![branch("master", false), branch("feature", true)];
    let head = HeadTarget::Commit { id: "0123456789abcdef0123456789abcdef01234567".to_string() };
    assert_eq!(resolve_head(&branches, &head), Some("feature".to_string()));
    let repo = Repo::new(snapshot(RepoState::Clean, vec![], branches, head)).unwrap();
    assert_eq!(repo.head(), "feature");
}

#[test]
fn head_of_detached_checkout_is_commit() {
    let branches = vec![branch("master", false)];
    let id = "0123456789abcdef0123456789abcdef01234567";
    let head = HeadTarget::Commit { id: id.to_string() };
    assert_eq!(resolve_head(&branches, &head), Some(id.to_string()));
}

#[test]
fn head_of_unborn_branch_is_symbolic_target() {
    assert_eq!(resolve_head(&vec![], &unborn()), Some("refs/heads/master".to_string()));
}

#[test]
fn head_failure_is_git_error() {
    let head = HeadTarget::Failed { message: "corrupt".to_string() };
    assert_eq!(resolve_head(&vec![branch("master", false)], &head), None);
    match Repo::new(snapshot(RepoState::Clean, vec![], vec![], head)) {
        Err(Failure::Git { path, message }) => {
            assert_eq!(path, "/work/src/proj");
            assert_eq!(message, "corrupt");
        },
        other => panic!("unexpected {:?}", other.map(|r| r.name().to_string())),
    }
}

#[test]
fn bare_repository_is_named_after_metadata_directory() {
    let mut s = snapshot(RepoState::Clean, vec![], vec![], unborn());
    s.workdir = None;
    s.git_dir = "/srv/proj.git".to_string();
    assert_eq!(Repo::new(s).unwrap().name(), "proj.git");
}

#[test]
fn path_without_final_component_is_internal_error() {
    let mut s = snapshot(RepoState::Clean, vec![], vec![], unborn());
    s.workdir = Some("/".to_string());
    assert!(matches!(Repo::new(s), Err(Failure::Internal { .. })));
}

#[test]
fn state_labels() {
    assert_eq!(RepoState::Clean.label(), "clean");
    assert_eq!(RepoState::CherryPickSequence.label(), "cherry pick sequence");
    assert_eq!(RepoState::ApplyMailboxOrRebase.label(), "apply mailbox or rebase");
}

#[test]
fn status_headers() {
    let clean = Repo::new(snapshot(RepoState::Clean, vec![], vec![branch("master", true)], unborn())).unwrap();
    assert_eq!(clean.status_header(), "proj:");
    let other = Repo::new(snapshot(RepoState::RebaseMerge, vec![], vec![branch("feature", true)], unborn())).unwrap();
    assert_eq!(other.status_header(), "proj@feature rebase merge:");
}

#[test]
fn later_entry_for_a_path_replaces_earlier() {
    let entries = vec![
        ("a.txt".to_string(), WT_NEW),
        ("b.txt".to_string(), INDEX_MODIFIED),
        ("a.txt".to_string(), INDEX_MODIFIED),
    ];
    let repo = Repo::new(snapshot(RepoState::Clean, entries, vec![], unborn())).unwrap();
    assert_eq!(repo.changes(), 2);
    assert_eq!(repo.files()[0].0, "a.txt");
    assert_eq!(repo.files()[0].1, Status::Changed { index: FileState::Modified, worktree: FileState::Unchanged });
    assert_eq!(repo.files()[1].0, "b.txt");
}

#[test]
fn files_come_in_path_order() {
    let entries = vec![
        ("src/main.rs".to_string(), WT_NEW),
        ("README".to_string(), INDEX_MODIFIED),
        ("src/lib.rs".to_string(), WT_NEW),
        ("Cargo.toml".to_string(), INDEX_MODIFIED),
    ];
    let repo = Repo::new(snapshot(RepoState::Clean, entries, vec![], unborn())).unwrap();
    let paths: Vec<&str> = repo.files().iter().map(|(p, _)| p.as_str()).collect();
    assert_eq!(paths, vec!["Cargo.toml", "README", "src/lib.rs", "src/main.rs"]);
}

#[test]
fn path_order_is_by_character() {
    assert!(path_less("B", "a"));
    assert!(path_less("a", "ab"));
    assert!(!path_less("ab", "ab"));
    assert!(!path_less("b", "a"));
    assert!(path_less("", "a"));
}

#[test]
fn freshly_cloned_checkout_is_clean_on_its_branch() {
    let head = HeadTarget::Commit { id: "0123456789abcdef0123456789abcdef01234567".to_string() };
    let entries = vec![("target".to_string(), IGNORED)];
    let repo = Repo::new(snapshot(RepoState::Clean, entries, vec![branch("main", true)], head)).unwrap();
    assert!(!repo.is_dirty());
    assert_eq!(repo.head(), "main");
    assert_eq!(repo.name(), "proj");
}
