//! Command lines of the git invocations the library asks for, and what their
//! outcomes mean.
use vstd::prelude::*;

use crate::error::Failure;

verus! {

/// How a command ended.
pub enum Outcome {
    /// The command could not be started.
    NotStarted { message: String },
    /// The command ran; `code` is its exit code, absent when a signal ended it.
    Exited { code: Option<i32>, stdout: String, stderr: String },
}

pub open spec fn strings_view(v: Seq<String>) -> Seq<Seq<char>> {
    v.map_values(|s: String| s@)
}

/// `git --git-dir <git_dir> push --all <remote>`
pub open spec fn push_command_of(git_dir: Seq<char>, remote: Seq<char>) -> Seq<Seq<char>> {
    seq!["git"@, "--git-dir"@, git_dir, "push"@, "--all"@, remote]
}

/// `git clone --origin <provider> <url> <into>`
pub open spec fn clone_command_of(provider: Seq<char>, url: Seq<char>, into: Seq<char>) -> Seq<Seq<char>> {
    seq!["git"@, "clone"@, "--origin"@, provider, url, into]
}

/// `git remote add <name> <url>`
pub open spec fn remote_add_command_of(name: Seq<char>, url: Seq<char>) -> Seq<Seq<char>> {
    seq!["git"@, "remote"@, "add"@, name, url]
}

/// An exit code of zero is success.
pub open spec fn succeeded(code: Option<i32>) -> bool {
    code == Some(0i32)
}

/// The command line that pushes every branch of a repository to a remote.
pub fn push_command(git_dir: &str, remote: &str) -> (r: Vec<String>)
    ensures
        strings_view(r@) == push_command_of(git_dir@, remote@),
{
    let r = vec![
        String::from_str("git"),
        String::from_str("--git-dir"),
        git_dir.to_owned(),
        String::from_str("push"),
        String::from_str("--all"),
        remote.to_owned(),
    ];
    assert(strings_view(r@) =~= push_command_of(git_dir@, remote@));
    r
}

/// The command line that clones `url` into `into`, naming the remote after
/// the provider.
pub fn clone_command(provider: &str, url: &str, into: &str) -> (r: Vec<String>)
    ensures
        strings_view(r@) == clone_command_of(provider@, url@, into@),
{
    let r = vec![
        String::from_str("git"),
        String::from_str("clone"),
        String::from_str("--origin"),
        provider.to_owned(),
        url.to_owned(),
        into.to_owned(),
    ];
    assert(strings_view(r@) =~= clone_command_of(provider@, url@, into@));
    r
}

/// The command line that registers a remote on the current repository.
pub fn remote_add_command(name: &str, url: &str) -> (r: Vec<String>)
    ensures
        strings_view(r@) == remote_add_command_of(name@, url@),
{
    let r = vec![
        String::from_str("git"),
        String::from_str("remote"),
        String::from_str("add"),
        name.to_owned(),
        url.to_owned(),
    ];
    assert(strings_view(r@) =~= remote_add_command_of(name@, url@));
    r
}

/// The result of a command whose output was captured: success on exit code
/// zero, an output error carrying the captured text on any other ending, an
/// invocation error when it could not start.
pub fn output_result(command: Vec<String>, outcome: Outcome) -> (r: Result<(), Failure>)
    ensures
        r is Ok <==> (outcome matches Outcome::Exited { code, .. } && succeeded(code)),
        outcome is NotStarted ==> (r matches Err(Failure::CommandInvocation { command: c, message: m })
            && c@ == command@ && m@ == outcome->NotStarted_message@),
        outcome is Exited && !succeeded(outcome->Exited_code) ==> (r matches Err(Failure::CommandOutput { command: c, code, stdout, stderr })
            && c@ == command@ && code == outcome->Exited_code
            && stdout@ == outcome->Exited_stdout@ && stderr@ == outcome->Exited_stderr@),
{
    match outcome {
        Outcome::NotStarted { message } => Err(Failure::CommandInvocation { command, message }),
        Outcome::Exited { code, stdout, stderr } => {
            if code == Some(0i32) {
                Ok(())
            } else {
                Err(Failure::CommandOutput { command, code, stdout, stderr })
            }
        },
    }
}

/// The result of a command whose output was not captured: success on exit
/// code zero, a status error on any other ending, an invocation error when it
/// could not start.
pub fn status_result(command: Vec<String>, outcome: Outcome) -> (r: Result<(), Failure>)
    ensures
        r is Ok <==> (outcome matches Outcome::Exited { code, .. } && succeeded(code)),
        outcome is NotStarted ==> (r matches Err(Failure::CommandInvocation { command: c, message: m })
            && c@ == command@ && m@ == outcome->NotStarted_message@),
        outcome is Exited && !succeeded(outcome->Exited_code) ==> (r matches Err(Failure::CommandStatus { command: c, code })
            && c@ == command@ && code == outcome->Exited_code),
{
    match outcome {
        Outcome::NotStarted { message } => Err(Failure::CommandInvocation { command, message }),
        Outcome::Exited { code, .. } => {
            if code == Some(0i32) {
                Ok(())
            } else {
                Err(Failure::CommandStatus { command, code })
            }
        },
    }
}

} // verus!
