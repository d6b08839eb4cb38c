//! One repository checkout: its operation state, head label and changed files.
use vstd::prelude::*;

use crate::error::Failure;
use crate::order::{lemma_lt_irreflexive, lemma_lt_total, lemma_lt_transitive, path_less, path_lt};
use crate::status::{is_change, is_listed, status_of, FileState, Status, WT_NEW};

verus! {

/// An in-progress multi-step operation of a repository, or `Clean`.
#[derive(PartialEq, Eq, Structural, Clone, Copy, Debug)]
pub enum RepoState {
    Clean,
    Merge,
    Revert,
    RevertSequence,
    CherryPick,
    CherryPickSequence,
    Bisect,
    Rebase,
    RebaseInteractive,
    RebaseMerge,
    ApplyMailbox,
    ApplyMailboxOrRebase,
}

pub open spec fn state_label(s: RepoState) -> Seq<char> {
    match s {
        RepoState::Clean => "clean"@,
        RepoState::Merge => "merge"@,
        RepoState::Revert => "revert"@,
        RepoState::RevertSequence => "revert sequence"@,
        RepoState::CherryPick => "cherry pick"@,
        RepoState::CherryPickSequence => "cherry pick sequence"@,
        RepoState::Bisect => "bisect"@,
        RepoState::Rebase => "rebase"@,
        RepoState::RebaseInteractive => "rebase interactive"@,
        RepoState::RebaseMerge => "rebase merge"@,
        RepoState::ApplyMailbox => "apply mailbox"@,
        RepoState::ApplyMailboxOrRebase => "apply mailbox or rebase"@,
    }
}

impl RepoState {
    /// The human-readable label of this state.
    pub fn label(&self) -> (r: &'static str)
        ensures
            r@ == state_label(*self),
    {
        match self {
            RepoState::Clean => "clean",
            RepoState::Merge => "merge",
            RepoState::Revert => "revert",
            RepoState::RevertSequence => "revert sequence",
            RepoState::CherryPick => "cherry pick",
            RepoState::CherryPickSequence => "cherry pick sequence",
            RepoState::Bisect => "bisect",
            RepoState::Rebase => "rebase",
            RepoState::RebaseInteractive => "rebase interactive",
            RepoState::RebaseMerge => "rebase merge",
            RepoState::ApplyMailbox => "apply mailbox",
            RepoState::ApplyMailboxOrRebase => "apply mailbox or rebase",
        }
    }
}

/// A local branch, in the order the repository lists them.
pub struct Branch {
    pub name: String,
    pub is_head: bool,
}

/// What resolving HEAD to a commit gave.
pub enum HeadTarget {
    /// HEAD resolves to the commit with this hexadecimal identifier.
    Commit { id: String },
    /// HEAD names a branch without commits; this is its symbolic target.
    Unborn { target: String },
    /// Resolution failed for another reason.
    Failed { message: String },
}

/// Everything read from a checkout on disk, before it becomes a `Repo`.
pub struct Snapshot {
    /// The path that was opened.
    pub path: String,
    /// The repository metadata directory.
    pub git_dir: String,
    /// The working directory, absent for a bare repository.
    pub workdir: Option<String>,
    pub state: RepoState,
    /// Each status entry: a repository-relative path and its raw change bits.
    pub entries: Vec<(String, u32)>,
    pub branches: Vec<Branch>,
    pub head: HeadTarget,
}

/// `i` is the first branch flagged as the current HEAD.
pub open spec fn is_first_head(bs: Seq<Branch>, i: int) -> bool {
    &&& 0 <= i < bs.len()
    &&& bs[i].is_head
    &&& forall|j: int| 0 <= j < i ==> !bs[j].is_head
}

/// The head label: the first local branch flagged as HEAD; else the commit
/// HEAD resolves to; else, for an unborn branch, HEAD's symbolic target.
/// `None` when resolution failed otherwise.
pub open spec fn head_of(bs: Seq<Branch>, t: HeadTarget) -> Option<Seq<char>> {
    if exists|i: int| is_first_head(bs, i) {
        Some(bs[choose|i: int| is_first_head(bs, i)].name@)
    } else {
        match t {
            HeadTarget::Commit { id } => Some(id@),
            HeadTarget::Unborn { target } => Some(target@),
            HeadTarget::Failed { .. } => None,
        }
    }
}

/// Some file of `fs` has path `p`.
pub open spec fn has_path(fs: Seq<(Seq<char>, Status)>, p: Seq<char>) -> bool {
    exists|j: int| 0 <= j < fs.len() && #[trigger] fs[j].0 == p
}

/// The position of the file with path `p`.
pub open spec fn path_index(fs: Seq<(Seq<char>, Status)>, p: Seq<char>) -> int {
    choose|j: int| 0 <= j < fs.len() && #[trigger] fs[j].0 == p
}

/// No two files share a path.
pub open spec fn unique_paths(fs: Seq<(Seq<char>, Status)>) -> bool {
    forall|a: int, b: int| 0 <= a < fs.len() && 0 <= b < fs.len() && #[trigger] fs[a].0 == #[trigger] fs[b].0 ==> a == b
}

/// The files of a status listing: each entry with a change, classified, in
/// the order their paths first appear; a later entry for a path replaces the
/// earlier one.
pub open spec fn listed(es: Seq<(String, u32)>) -> Seq<(Seq<char>, Status)>
    decreases es.len(),
{
    if es.len() == 0 {
        seq![]
    } else {
        let prev = listed(es.drop_last());
        let e = es.last();
        let entry = (e.0@, status_of(e.1));
        if !is_change(e.1) {
            prev
        } else if has_path(prev, e.0@) {
            prev.update(path_index(prev, e.0@), entry)
        } else {
            prev.push(entry)
        }
    }
}

pub open spec fn files_view(v: Seq<(String, Status)>) -> Seq<(Seq<char>, Status)> {
    v.map_values(|p: (String, Status)| (p.0@, p.1))
}

/// The path a repository is named after: its working directory, or its
/// metadata directory when it has none.
pub open spec fn location_of(s: Snapshot) -> Seq<char> {
    match s.workdir {
        Some(w) => w@,
        None => s.git_dir@,
    }
}

/// The final component of a path, as `std::path::Path::file_name` gives it
/// (converted lossily to text); `None` when there is none.
pub uninterp spec fn file_name_of(p: Seq<char>) -> Option<Seq<char>>;

/// Relies on `std::path::Path::file_name`: the final component of a path, a
/// function of the path text alone.
#[verifier::external_body]
fn file_name(p: &str) -> (r: Option<String>)
    ensures
        r is Some == file_name_of(p@) is Some,
        r is Some ==> r->0@ == file_name_of(p@)->0,
{
    std::path::Path::new(p).file_name().map(|n| n.to_string_lossy().into_owned())
}

/// The message of a failed head resolution.
pub open spec fn failure_message(t: HeadTarget) -> Seq<char> {
    match t {
        HeadTarget::Failed { message } => message@,
        _ => seq![],
    }
}

/// `r` is a git error at `path` with `message`.
pub open spec fn is_git_error<T>(r: Result<T, Failure>, path: Seq<char>, message: Seq<char>) -> bool {
    match r {
        Err(Failure::Git { path: p, message: m }) => p@ == path && m@ == message,
        _ => false,
    }
}

/// A repository's model: what a `Repo` records.
pub struct RepoModel {
    pub git_dir: Seq<char>,
    pub location: Seq<char>,
    pub name: Seq<char>,
    pub state: RepoState,
    pub files: Seq<(Seq<char>, Status)>,
    pub head: Seq<char>,
}

/// `m` is the record built from `s`: its changed files are those of the
/// status listing, one per path, in path order.
pub open spec fn built_from(m: RepoModel, s: Snapshot) -> bool {
    &&& m.git_dir == s.git_dir@
    &&& m.location == location_of(s)
    &&& m.name == file_name_of(location_of(s))->0
    &&& m.state == s.state
    &&& m.head == head_of(s.branches@, s.head)->0
    &&& sorted_paths(m.files)
    &&& unique_paths(m.files)
    &&& m.files.len() == listed(s.entries@).len()
    &&& forall|x: (Seq<char>, Status)| m.files.contains(x) <==> listed(s.entries@).contains(x)
}

/// A repository is dirty when an operation is in progress or a file changed.
pub open spec fn repo_dirty(r: RepoModel) -> bool {
    r.state != RepoState::Clean || r.files.len() > 0
}

/// An immutable snapshot of one checkout.
pub struct Repo {
    git_dir: String,
    location: String,
    name: String,
    state: RepoState,
    files: Vec<(String, Status)>,
    head: String,
}

impl View for Repo {
    type V = RepoModel;

    closed spec fn view(&self) -> RepoModel {
        RepoModel {
            git_dir: self.git_dir@,
            location: self.location@,
            name: self.name@,
            state: self.state,
            files: files_view(self.files@),
            head: self.head@,
        }
    }
}

/// Resolve the head label of a repository from its local branches and HEAD.
pub fn resolve_head(branches: &Vec<Branch>, head: &HeadTarget) -> (r: Option<String>)
    ensures
        r is Some == head_of(branches@, *head) is Some,
        r is Some ==> r->0@ == head_of(branches@, *head)->0,
{
    let mut i: usize = 0;
    while i < branches.len()
        invariant
            0 <= i <= branches@.len(),
            forall|j: int| 0 <= j < i ==> !branches@[j].is_head,
        decreases branches@.len() - i,
    {
        if branches[i].is_head {
            assert(is_first_head(branches@, i as int));
            assert forall|k: int| is_first_head(branches@, k) implies k == i as int by {
                if k < i as int {
                } else if k > i as int {
                    assert(!branches@[i as int].is_head);
                }
            }
            return Some(branches[i].name.clone());
        }
        i = i + 1;
    }
    assert(!exists|k: int| is_first_head(branches@, k));
    match head {
        HeadTarget::Commit { id } => Some(id.clone()),
        HeadTarget::Unborn { target } => Some(target.clone()),
        HeadTarget::Failed { .. } => None,
    }
}

/// The position of the file with path `path`, if any.
fn find_path(files: &Vec<(String, Status)>, path: &String) -> (r: Option<usize>)
    ensures
        r is None ==> !has_path(files_view(files@), path@),
        r is Some ==> r->0 < files@.len() && files_view(files@)[r->0 as int].0 == path@,
{
    let ghost fv = files_view(files@);
    let mut j: usize = 0;
    while j < files.len()
        invariant
            0 <= j <= files@.len(),
            fv == files_view(files@),
            forall|k: int| 0 <= k < j ==> fv[k].0 != path@,
        decreases files@.len() - j,
    {
        if files[j].0 == *path {
            return Some(j);
        }
        j = j + 1;
    }
    None
}

/// Classify every entry of a status listing that records a change, one file
/// per path.
pub fn list_files(entries: &Vec<(String, u32)>) -> (r: Vec<(String, Status)>)
    ensures
        files_view(r@) == listed(entries@),
        unique_paths(files_view(r@)),
{
    let mut files: Vec<(String, Status)> = Vec::new();
    let mut i: usize = 0;
    while i < entries.len()
        invariant
            0 <= i <= entries@.len(),
            files_view(files@) == listed(entries@.subrange(0, i as int)),
            unique_paths(files_view(files@)),
        decreases entries@.len() - i,
    {
        let ghost before = files_view(files@);
        let (path, bits) = &entries[i];
        assert(entries@.subrange(0, i + 1).drop_last() =~= entries@.subrange(0, i as int));
        if is_listed(*bits) {
            let entry = (path.clone(), Status::new(*bits));
            match find_path(&files, path) {
                Some(j) => {
                    proof {
                        let k = path_index(before, path@);
                        assert(before[j as int].0 == path@);
                        assert(has_path(before, path@));
                        assert(before[k].0 == before[j as int].0);
                    }
                    files.set(j, entry);
                    assert(files_view(files@) =~= before.update(j as int, (path@, status_of(*bits))));
                },
                None => {
                    files.push(entry);
                    assert(files_view(files@) =~= before.push((path@, status_of(*bits))));
                },
            }
        }
        i = i + 1;
    }
    assert(entries@.subrange(0, entries@.len() as int) =~= entries@);
    files
}

/// The branch name that the status header leaves out.
pub const PRIMARY_BRANCH: &'static str = "master";

/// The status header of a repository: its name, then `@head` unless the head
/// is the primary branch, then the state label unless it is clean, then `:`.
pub open spec fn header_of(m: RepoModel) -> Seq<char> {
    m.name + (if m.head == PRIMARY_BRANCH@ { seq![] } else { "@"@ + m.head }) + (if m.state == RepoState::Clean {
        seq![]
    } else {
        " "@ + state_label(m.state)
    }) + ":"@
}

/// An untracked file of a status listing, when no later entry names the same
/// path, is listed as new in the worktree and unchanged in the index, so the
/// listing is not empty.
pub proof fn lemma_untracked_listed(es: Seq<(String, u32)>, i: int)
    requires
        0 <= i < es.len(),
        es[i].1 == WT_NEW,
        forall|k: int| i < k < es.len() ==> (#[trigger] es[k]).0@ != es[i].0@,
    ensures
        listed(es).len() > 0,
        exists|k: int| 0 <= k < listed(es).len() && #[trigger] listed(es)[k] == (es[i].0@, Status::Changed {
            index: FileState::Unchanged,
            worktree: FileState::Added,
        }),
    decreases es.len(),
{
    let bits = es[i].1;
    assert(bits == 128u32 ==> (bits & 32768u32 == 0u32 && bits & 31u32 == 0u32 && bits & 1u32 == 0u32 && bits & 2u32 == 0u32
        && bits & 4u32 == 0u32 && bits & 8u32 == 0u32 && bits & 16u32 == 0u32 && bits & 128u32 != 0u32
        && bits & (32768u32 | 31u32 | 3968u32) != 0u32)) by (bit_vector);
    let entry = (es[i].0@, Status::Changed { index: FileState::Unchanged, worktree: FileState::Added });
    assert(status_of(bits) == Status::Changed { index: FileState::Unchanged, worktree: FileState::Added });
    let prev = es.drop_last();
    let lp = listed(prev);
    if i == es.len() - 1 {
        if has_path(lp, es[i].0@) {
            let idx = path_index(lp, es[i].0@);
            assert(listed(es) == lp.update(idx, entry));
            assert(listed(es)[idx] == entry);
        } else {
            assert(listed(es) == lp.push(entry));
            assert(listed(es)[listed(es).len() - 1] == entry);
        }
    } else {
        assert(prev[i] == es[i]);
        assert forall|k: int| i < k < prev.len() implies (#[trigger] prev[k]).0@ != prev[i].0@ by {
            assert(prev[k] == es[k]);
        }
        lemma_untracked_listed(prev, i);
        let k = choose|k: int| 0 <= k < lp.len() && #[trigger] lp[k] == entry;
        let e = es.last();
        assert(e == es[es.len() - 1]);
        if !is_change(e.1) {
            assert(listed(es)[k] == entry);
        } else if has_path(lp, e.0@) {
            let idx = path_index(lp, e.0@);
            assert(lp[idx].0 == e.0@);
            assert(idx != k);
            assert(listed(es) == lp.update(idx, (e.0@, status_of(e.1))));
            assert(listed(es)[k] == entry);
        } else {
            assert(listed(es) == lp.push((e.0@, status_of(e.1))));
            assert(listed(es)[k] == entry);
        }
    }
}

/// A record built from a listing with an untracked file, when no later entry
/// names that path, lists it as new in the worktree and unchanged in the
/// index, and is dirty.
pub proof fn lemma_untracked_dirty(m: RepoModel, s: Snapshot, i: int)
    requires
        built_from(m, s),
        0 <= i < s.entries@.len(),
        s.entries@[i].1 == WT_NEW,
        forall|k: int| i < k < s.entries@.len() ==> (#[trigger] s.entries@[k]).0@ != s.entries@[i].0@,
    ensures
        m.files.contains((s.entries@[i].0@, Status::Changed { index: FileState::Unchanged, worktree: FileState::Added })),
        repo_dirty(m),
{
    lemma_untracked_listed(s.entries@, i);
    let es = s.entries@;
    let entry = (es[i].0@, Status::Changed { index: FileState::Unchanged, worktree: FileState::Added });
    let k = choose|k: int| 0 <= k < listed(es).len() && #[trigger] listed(es)[k] == entry;
    assert(listed(es).contains(entry));
}

/// A listing without changes lists no file.
pub proof fn lemma_no_changes_listed(es: Seq<(String, u32)>)
    requires
        forall|k: int| 0 <= k < es.len() ==> !is_change(#[trigger] es[k].1),
    ensures
        listed(es).len() == 0,
    decreases es.len(),
{
    if es.len() > 0 {
        let prev = es.drop_last();
        assert forall|k: int| 0 <= k < prev.len() implies !is_change(#[trigger] prev[k].1) by {
            assert(prev[k] == es[k]);
        }
        lemma_no_changes_listed(prev);
        assert(!is_change(es[es.len() - 1].1));
    }
}

/// A fresh checkout, with no operation in progress, no changed file and the
/// branch `bs[i]` checked out, gives a clean record headed by that branch.
pub proof fn lemma_fresh_checkout_clean(m: RepoModel, s: Snapshot, i: int)
    requires
        built_from(m, s),
        s.state == RepoState::Clean,
        forall|k: int| 0 <= k < s.entries@.len() ==> !is_change(#[trigger] s.entries@[k].1),
        is_first_head(s.branches@, i),
    ensures
        !repo_dirty(m),
        m.head == s.branches@[i].name@,
{
    lemma_no_changes_listed(s.entries@);
    lemma_head_priority(s.branches@, s.head, i);
}

/// Head resolution takes, in order: the first local branch flagged as HEAD;
/// else the commit HEAD resolves to; else the symbolic target of an unborn
/// HEAD.
pub proof fn lemma_head_priority(bs: Seq<Branch>, t: HeadTarget, i: int)
    ensures
        is_first_head(bs, i) ==> head_of(bs, t) == Some(bs[i].name@),
        (forall|j: int| 0 <= j < bs.len() ==> !(#[trigger] bs[j]).is_head) ==> match t {
            HeadTarget::Commit { id } => head_of(bs, t) == Some(id@),
            HeadTarget::Unborn { target } => head_of(bs, t) == Some(target@),
            HeadTarget::Failed { .. } => head_of(bs, t) is None,
        },
{
    if is_first_head(bs, i) {
        assert forall|k: int| is_first_head(bs, k) implies k == i by {
            if k < i {
                assert(!bs[k].is_head);
            } else if k > i {
                assert(!bs[i].is_head);
            }
        }
    }
}

/// A repository in the middle of an operation is dirty, changed files or not;
/// a clean repository without changed files is not.
pub proof fn lemma_dirty_cases(m: RepoModel)
    ensures
        m.state != RepoState::Clean ==> repo_dirty(m),
        m.state == RepoState::Clean && m.files.len() == 0 ==> !repo_dirty(m),
{
}

/// The files are in strictly increasing path order.
pub open spec fn sorted_paths(fs: Seq<(Seq<char>, Status)>) -> bool {
    forall|a: int, b: int| 0 <= a < b < fs.len() ==> path_lt(#[trigger] fs[a].0, #[trigger] fs[b].0)
}

/// The same files, in path order.
pub fn sort_by_path(files: &Vec<(String, Status)>) -> (r: Vec<(String, Status)>)
    requires
        unique_paths(files_view(files@)),
    ensures
        sorted_paths(files_view(r@)),
        r@.len() == files@.len(),
        forall|x: (Seq<char>, Status)| files_view(r@).contains(x) <==> files_view(files@).contains(x),
{
    let ghost fv = files_view(files@);
    let mut out: Vec<(String, Status)> = Vec::new();
    let mut i: usize = 0;
    while i < files.len()
        invariant
            0 <= i <= files@.len(),
            fv == files_view(files@),
            unique_paths(fv),
            out@.len() == i,
            sorted_paths(files_view(out@)),
            forall|x: (Seq<char>, Status)| files_view(out@).contains(x) <==> fv.subrange(0, i as int).contains(x),
        decreases files@.len() - i,
    {
        let ghost ov = files_view(out@);
        let ghost p = fv[i as int].0;
        let mut k: usize = 0;
        while k < out.len()
            invariant
                0 <= k <= out@.len(),
                i < files@.len(),
                ov == files_view(out@),
                p == files@[i as int].0@,
                forall|a: int| 0 <= a < k ==> path_lt(#[trigger] ov[a].0, p),
            ensures
                0 <= k <= out@.len(),
                k < out@.len() ==> !path_lt(ov[k as int].0, p),
                forall|a: int| 0 <= a < k ==> path_lt(#[trigger] ov[a].0, p),
            decreases out@.len() - k,
        {
            if path_less(out[k].0.as_str(), files[i].0.as_str()) {
                k = k + 1;
            } else {
                break;
            }
        }
        let x = (files[i].0.clone(), files[i].1);
        proof {
            assert forall|b: int| k <= b < ov.len() implies path_lt(p, #[trigger] ov[b].0) by {
                assert(ov.contains(ov[k as int]));
                assert(fv.subrange(0, i as int).contains(ov[k as int]));
                let j = choose|j: int| 0 <= j < i && fv.subrange(0, i as int)[j] == ov[k as int];
                assert(fv[j] == ov[k as int]);
                assert(fv[j].0 != fv[i as int].0);
                lemma_lt_total(ov[k as int].0, p);
                if b > k {
                    lemma_lt_transitive(p, ov[k as int].0, ov[b].0);
                }
            }
        }
        out.insert(k, x);
        let ghost nv = files_view(out@);
        assert(nv =~= ov.insert(k as int, (p, fv[i as int].1)));
        assert(fv.subrange(0, i + 1) =~= fv.subrange(0, i as int).push(fv[i as int]));
        assert forall|a: int, b: int| 0 <= a < b < nv.len() implies path_lt(#[trigger] nv[a].0, #[trigger] nv[b].0) by {
            if b < k {
            } else if b == k {
            } else if a < k {
                lemma_lt_transitive(nv[a].0, p, nv[b].0);
            } else if a == k {
            } else {
                assert(nv[a] == ov[a - 1] && nv[b] == ov[b - 1]);
            }
        }
        let ghost s0 = fv.subrange(0, i as int);
        let ghost s1 = fv.subrange(0, i + 1);
        assert forall|y: (Seq<char>, Status)| nv.contains(y) <==> s1.contains(y) by {
            if nv.contains(y) {
                let a = choose|a: int| 0 <= a < nv.len() && nv[a] == y;
                if a == k {
                    assert(s1[i as int] == y);
                } else if a < k {
                    assert(ov.contains(ov[a]));
                    let j = choose|j: int| 0 <= j < i && s0[j] == ov[a];
                    assert(s1[j] == y);
                } else {
                    assert(ov.contains(ov[a - 1]));
                    let j = choose|j: int| 0 <= j < i && s0[j] == ov[a - 1];
                    assert(s1[j] == y);
                }
            }
            if s1.contains(y) {
                let j = choose|j: int| 0 <= j < i + 1 && s1[j] == y;
                if j == i {
                    assert(nv[k as int] == y);
                } else {
                    assert(s0[j] == y);
                    assert(s0.contains(y));
                    assert(ov.contains(y));
                    let a = choose|a: int| 0 <= a < ov.len() && ov[a] == y;
                    if a < k {
                        assert(nv[a] == y);
                    } else {
                        assert(nv[a + 1] == y);
                    }
                }
            }
        }
        i = i + 1;
    }
    assert(fv.subrange(0, fv.len() as int) =~= fv);
    out
}

impl Repo {
    /// The status header: the name, `@head` unless the head is the primary
    /// branch, the state label unless clean, then `:`.
    pub fn status_header(&self) -> (r: String)
        ensures
            r@ == header_of(self@),
    {
        let primary = String::from_str(PRIMARY_BRANCH);
        let mut r = self.name.clone();
        if self.head != primary {
            r = r.concat("@");
            r = r.concat(self.head.as_str());
        }
        if self.state != RepoState::Clean {
            r = r.concat(" ");
            r = r.concat(self.state.label());
        }
        r = r.concat(":");
        assert(r@ =~= header_of(self@));
        r
    }

    /// Build a repository record from what was read from its checkout.
    /// Fails with an internal error when the path it is named after has no
    /// final component, and with a git error carrying the opened path when
    /// its head cannot be resolved.
    pub fn new(snapshot: Snapshot) -> (r: Result<Repo, Failure>)
        ensures
            file_name_of(location_of(snapshot)) is None ==> (r matches Err(Failure::Internal { .. })),
            file_name_of(location_of(snapshot)) is Some && head_of(snapshot.branches@, snapshot.head) is None
                ==> is_git_error(r, snapshot.path@, failure_message(snapshot.head)),
            file_name_of(location_of(snapshot)) is Some && head_of(snapshot.branches@, snapshot.head) is Some
                ==> (r matches Ok(repo) && built_from(repo@, snapshot)),
    {
        let ghost snap = snapshot;
        let Snapshot { path, git_dir, workdir, state, entries, branches, head } = snapshot;
        let location = match workdir {
            Some(w) => w,
            None => git_dir.clone(),
        };
        let name = match file_name(location.as_str()) {
            Some(n) => n,
            None => {
                return Err(Failure::Internal { message: String::from_str("repository path has no final component") });
            },
        };
        let listing = list_files(&entries);
        let files = sort_by_path(&listing);
        proof {
            let fv = files_view(files@);
            assert forall|a: int, b: int| 0 <= a < fv.len() && 0 <= b < fv.len() && #[trigger] fv[a].0 == #[trigger] fv[b].0
                implies a == b by {
                lemma_lt_irreflexive(fv[a].0);
            }
        }
        let head_label = match resolve_head(&branches, &head) {
            Some(h) => h,
            None => {
                let message = match head {
                    HeadTarget::Failed { message } => message,
                    HeadTarget::Commit { id } => id,
                    HeadTarget::Unborn { target } => target,
                };
                return Err(Failure::Git { path, message });
            },
        };
        Ok(Repo { git_dir, location, name, state, files, head: head_label })
    }

    /// The display name: the final component of the working directory.
    pub fn name(&self) -> (r: &str)
        ensures
            r@ == self@.name,
    {
        self.name.as_str()
    }

    /// The head label: branch name, commit identifier or unborn target.
    pub fn head(&self) -> (r: &str)
        ensures
            r@ == self@.head,
    {
        self.head.as_str()
    }

    /// The repository metadata directory.
    pub fn git_dir(&self) -> (r: &str)
        ensures
            r@ == self@.git_dir,
    {
        self.git_dir.as_str()
    }

    /// The working directory, or the metadata directory of a bare repository.
    pub fn location(&self) -> (r: &str)
        ensures
            r@ == self@.location,
    {
        self.location.as_str()
    }

    pub fn state(&self) -> (r: RepoState)
        ensures
            r == self@.state,
    {
        self.state
    }

    /// The changed files with their classification.
    pub fn files(&self) -> (r: &Vec<(String, Status)>)
        ensures
            files_view(r@) == self@.files,
    {
        &self.files
    }

    /// The number of changed files.
    pub fn changes(&self) -> (r: usize)
        ensures
            r == self@.files.len(),
    {
        self.files.len()
    }

    /// Whether an operation is in progress or any file changed.
    pub fn is_dirty(&self) -> (r: bool)
        ensures
            r == repo_dirty(self@),
    {
        self.state != RepoState::Clean || self.files.len() > 0
    }
}

} // verus!
