//! The repositories of a workspace root, their aggregate dirtiness, and the
//! fan-out / fan-in of a batch push.
use vstd::prelude::*;

use crate::command::{push_command, push_command_of, strings_view};
use crate::error::Failure;
use crate::repo::{files_view, header_of, repo_dirty, Repo, RepoModel};
use crate::status::Status;

verus! {

/// The one entry of a workspace root that is not a repository.
pub const SKIPPED_ENTRY: &'static str = ".DS_Store";

pub open spec fn repos_view(rs: Seq<Repo>) -> Seq<RepoModel> {
    rs.map_values(|r: Repo| r@)
}

/// Some repository of the workspace is dirty.
pub open spec fn workspace_dirty(rs: Seq<RepoModel>) -> bool {
    exists|i: int| 0 <= i < rs.len() && repo_dirty(#[trigger] rs[i])
}

/// The failures of a batch push, in repository order: the name of each
/// repository whose push failed, with its error.
pub open spec fn failures_of(rs: Seq<RepoModel>, results: Seq<Result<(), Failure>>) -> Seq<(Seq<char>, Failure)>
    recommends
        rs.len() == results.len(),
    decreases results.len(),
{
    if results.len() == 0 {
        seq![]
    } else {
        let prev = failures_of(rs.drop_last(), results.drop_last());
        match results.last() {
            Ok(_) => prev,
            Err(e) => prev.push((rs.last().name, e)),
        }
    }
}

pub open spec fn failures_view(v: Seq<(String, Failure)>) -> Seq<(Seq<char>, Failure)> {
    v.map_values(|p: (String, Failure)| (p.0@, p.1))
}

/// One line of the status listing.
pub enum StatusLine {
    /// The separator before every dirty repository after the first.
    Blank,
    /// A repository's header: name, `@head`, state, `:`.
    Header { text: String },
    /// A changed file and its classification.
    File { status: Status, path: String },
}

pub enum LineModel {
    Blank,
    Header(Seq<char>),
    File(Status, Seq<char>),
}

pub open spec fn line_view(l: StatusLine) -> LineModel {
    match l {
        StatusLine::Blank => LineModel::Blank,
        StatusLine::Header { text } => LineModel::Header(text@),
        StatusLine::File { status, path } => LineModel::File(status, path@),
    }
}

pub open spec fn lines_view(ls: Seq<StatusLine>) -> Seq<LineModel> {
    ls.map_values(|l: StatusLine| line_view(l))
}

/// The lines of one repository: its header, then each changed file.
pub open spec fn repo_lines(m: RepoModel) -> Seq<LineModel> {
    seq![LineModel::Header(header_of(m))] + m.files.map_values(|f: (Seq<char>, Status)| LineModel::File(f.1, f.0))
}

/// The status listing: the lines of each dirty repository, in order, with a
/// blank line before every one after the first.
pub open spec fn status_report(rs: Seq<RepoModel>) -> Seq<LineModel>
    decreases rs.len(),
{
    if rs.len() == 0 {
        seq![]
    } else {
        let prev = status_report(rs.drop_last());
        let m = rs.last();
        if !repo_dirty(m) {
            prev
        } else if prev.len() == 0 {
            repo_lines(m)
        } else {
            prev + seq![LineModel::Blank] + repo_lines(m)
        }
    }
}

/// A scan of a workspace root: one record per repository, in scan order.
pub struct Src {
    repos: Vec<Repo>,
}

impl View for Src {
    type V = Seq<RepoModel>;

    closed spec fn view(&self) -> Seq<RepoModel> {
        repos_view(self.repos@)
    }
}

impl Src {
    pub fn new(repos: Vec<Repo>) -> (r: Src)
        ensures
            r@ == repos_view(repos@),
    {
        Src { repos }
    }

    /// Whether an entry of the workspace root is skipped rather than opened.
    pub fn is_skipped(file_name: &String) -> (r: bool)
        ensures
            r == (file_name@ == SKIPPED_ENTRY@),
    {
        *file_name == String::from_str(SKIPPED_ENTRY)
    }

    pub fn repos(&self) -> (r: &Vec<Repo>)
        ensures
            repos_view(r@) == self@,
    {
        &self.repos
    }

    pub fn len(&self) -> (r: usize)
        ensures
            r == self@.len(),
    {
        self.repos.len()
    }

    /// The status listing of the dirty repositories; files come in path
    /// order.
    pub fn status_lines(&self) -> (r: Vec<StatusLine>)
        ensures
            lines_view(r@) == status_report(self@),
    {
        let mut out: Vec<StatusLine> = Vec::new();
        let mut i: usize = 0;
        while i < self.repos.len()
            invariant
                0 <= i <= self.repos@.len(),
                lines_view(out@) == status_report(self@.subrange(0, i as int)),
            decreases self.repos@.len() - i,
        {
            let repo = &self.repos[i];
            let ghost m = self@[i as int];
            let ghost prev = lines_view(out@);
            assert(self@.subrange(0, i + 1).drop_last() =~= self@.subrange(0, i as int));
            assert(self@.subrange(0, i + 1).last() == m);
            if repo.is_dirty() {
                if out.len() > 0 {
                    out.push(StatusLine::Blank);
                }
                let ghost base = lines_view(out@);
                out.push(StatusLine::Header { text: repo.status_header() });
                let files = repo.files();
                let mut k: usize = 0;
                while k < files.len()
                    invariant
                        0 <= k <= files@.len(),
                        files_view(files@) == m.files,
                        lines_view(out@) == base + repo_lines(m).subrange(0, k + 1),
                    decreases files@.len() - k,
                {
                    let ghost before = lines_view(out@);
                    let line = StatusLine::File { status: files[k].1, path: files[k].0.clone() };
                    proof {
                        let fk = m.files[k as int];
                        assert(fk == files_view(files@)[k as int]);
                        assert(repo_lines(m)[k + 1] == LineModel::File(fk.1, fk.0));
                        assert(line_view(line) == repo_lines(m)[k + 1]);
                        assert(repo_lines(m).subrange(0, k + 2) =~= repo_lines(m).subrange(0, k + 1).push(repo_lines(m)[k + 1]));
                    }
                    out.push(line);
                    assert(lines_view(out@) =~= before.push(line_view(line)));
                    assert(lines_view(out@) =~= base + repo_lines(m).subrange(0, k + 2));
                    k = k + 1;
                }
                proof {
                    assert(repo_lines(m).subrange(0, files@.len() as int + 1) =~= repo_lines(m));
                    if prev.len() == 0 {
                        assert(lines_view(out@) =~= repo_lines(m));
                    } else {
                        assert(lines_view(out@) =~= prev + seq![LineModel::Blank] + repo_lines(m));
                    }
                }
            }
            i = i + 1;
        }
        assert(self@.subrange(0, self@.len() as int) =~= self@);
        out
    }

    /// Whether any repository is dirty.
    pub fn is_dirty(&self) -> (r: bool)
        ensures
            r == workspace_dirty(self@),
    {
        let mut i: usize = 0;
        while i < self.repos.len()
            invariant
                0 <= i <= self.repos@.len(),
                forall|j: int| 0 <= j < i ==> !repo_dirty(#[trigger] self@[j]),
            decreases self.repos@.len() - i,
        {
            if self.repos[i].is_dirty() {
                assert(repo_dirty(self@[i as int]));
                return true;
            }
            i = i + 1;
        }
        false
    }

    /// One push command line per repository, in order: every repository is
    /// pushed, whatever becomes of the others.
    pub fn push_commands(&self, remote: &str) -> (r: Vec<Vec<String>>)
        ensures
            r@.len() == self@.len(),
            forall|i: int| 0 <= i < r@.len() ==> strings_view(#[trigger] r@[i]@) == push_command_of(self@[i].git_dir, remote@),
    {
        let mut r: Vec<Vec<String>> = Vec::new();
        let mut i: usize = 0;
        while i < self.repos.len()
            invariant
                0 <= i <= self.repos@.len(),
                r@.len() == i,
                forall|k: int| 0 <= k < i ==> strings_view(#[trigger] r@[k]@) == push_command_of(self@[k].git_dir, remote@),
            decreases self.repos@.len() - i,
        {
            r.push(push_command(self.repos[i].git_dir(), remote));
            i = i + 1;
        }
        r
    }

    /// Pair each failed push with the name of its repository. `results[i]` is
    /// the outcome of pushing the `i`-th repository.
    pub fn push_failures(&self, results: Vec<Result<(), Failure>>) -> (r: Vec<(String, Failure)>)
        requires
            results@.len() == self@.len(),
        ensures
            failures_view(r@) == failures_of(self@, results@),
    {
        let ghost all = results@;
        let mut rest = results;
        let mut r: Vec<(String, Failure)> = Vec::new();
        let mut i: usize = 0;
        while i < self.repos.len()
            invariant
                0 <= i <= self.repos@.len(),
                all.len() == self@.len(),
                rest@ == all.subrange(i as int, all.len() as int),
                failures_view(r@) == failures_of(self@.subrange(0, i as int), all.subrange(0, i as int)),
            decreases self.repos@.len() - i,
        {
            let ghost before = r@;
            let outcome = rest.remove(0);
            assert(outcome == all[i as int]);
            assert(self@.subrange(0, i + 1).drop_last() =~= self@.subrange(0, i as int));
            assert(all.subrange(0, i + 1).drop_last() =~= all.subrange(0, i as int));
            match outcome {
                Ok(_) => {},
                Err(e) => {
                    let name = self.repos[i].name().to_owned();
                    r.push((name, e));
                    assert(failures_view(r@) =~= failures_view(before).push((self@[i as int].name, e)));
                },
            }
            assert(rest@ =~= all.subrange(i + 1, all.len() as int));
            i = i + 1;
        }
        assert(self@.subrange(0, self@.len() as int) =~= self@);
        assert(all.subrange(0, all.len() as int) =~= all);
        r
    }

    /// The verdict of a batch push: success when nothing failed, else one
    /// aggregate error naming the remote.
    pub fn push_result(remote: &str, failures: &Vec<(String, Failure)>) -> (r: Result<(), Failure>)
        ensures
            r is Ok <==> failures@.len() == 0,
            r is Err ==> (r matches Err(Failure::PushAll { remote: x }) && x@ == remote@),
    {
        if failures.len() == 0 {
            Ok(())
        } else {
            Err(Failure::PushAll { remote: remote.to_owned() })
        }
    }
}

/// Every failed push, and only those, is reported, each under the name of
/// its repository with its own error; successes add nothing.
pub proof fn lemma_failures_exact(rs: Seq<RepoModel>, results: Seq<Result<(), Failure>>)
    requires
        rs.len() == results.len(),
    ensures
        forall|i: int| 0 <= i < results.len() && results[i] is Err ==>
            exists|k: int| 0 <= k < failures_of(rs, results).len()
                && #[trigger] failures_of(rs, results)[k] == (rs[i].name, results[i]->Err_0),
        forall|k: int| 0 <= k < failures_of(rs, results).len() ==>
            exists|i: int| 0 <= i < results.len() && results[i] is Err
                && #[trigger] failures_of(rs, results)[k] == (rs[i].name, results[i]->Err_0),
    decreases results.len(),
{
    if results.len() > 0 {
        let rs0 = rs.drop_last();
        let re0 = results.drop_last();
        lemma_failures_exact(rs0, re0);
        let f0 = failures_of(rs0, re0);
        let f = failures_of(rs, results);
        let n = results.len() - 1;
        assert forall|i: int| 0 <= i < results.len() && results[i] is Err implies
            exists|k: int| 0 <= k < f.len() && #[trigger] f[k] == (rs[i].name, results[i]->Err_0) by {
            if i < n {
                assert(re0[i] == results[i]);
                assert(rs0[i] == rs[i]);
                let k = choose|k: int| 0 <= k < f0.len() && #[trigger] f0[k] == (rs0[i].name, re0[i]->Err_0);
                assert(f[k] == f0[k]);
            } else {
                assert(f[f.len() - 1] == (rs[i].name, results[i]->Err_0));
            }
        }
        assert forall|k: int| 0 <= k < f.len() implies
            exists|i: int| 0 <= i < results.len() && results[i] is Err
                && #[trigger] f[k] == (rs[i].name, results[i]->Err_0) by {
            if k < f0.len() {
                assert(f[k] == f0[k]);
                let i = choose|i: int| 0 <= i < re0.len() && re0[i] is Err
                    && #[trigger] f0[k] == (rs0[i].name, re0[i]->Err_0);
                assert(re0[i] == results[i]);
                assert(rs0[i] == rs[i]);
            } else {
                assert(results[n] is Err);
                assert(f[k] == (rs[n].name, results[n]->Err_0));
            }
        }
    }
}

} // verus!
