//! The decisions of the user-facing actions: which command line to run, where
//! a checkout goes, and when an action is refused.
use vstd::prelude::*;

use crate::command::{clone_command, clone_command_of, remote_add_command, remote_add_command_of, strings_view};
use crate::config::{joined, Config};
use crate::error::Failure;
use crate::provider::opt_view;
use crate::template::{plain_template, substituted};
use crate::spec::Spec;
use crate::workspace::{workspace_dirty, Src};

verus! {

/// The actions a user can ask for.
pub enum Opt {
    /// Register the remote of a spec on the current repository.
    Add { spec: Vec<String>, name: Option<String> },
    /// Print the dirty repositories of the workspace.
    Status,
    /// Clone the remote of a spec into the source or the temporary directory.
    Get { tmp: bool, spec: Vec<String> },
    /// Print the remote URL of a spec.
    Remote { spec: Vec<String> },
    /// Write the default configuration.
    Init { force: bool },
    /// Push every repository of the workspace to a remote.
    Push { remote: String, force: bool },
    /// Run a command in every repository of the workspace.
    All { command: Vec<String> },
}

/// The name a remote is registered under: the one given, else the provider's.
pub open spec fn remote_name_of(spec: Spec, name: Option<Seq<char>>) -> Seq<char> {
    match name {
        Some(n) => n,
        None => spec.provider.name@,
    }
}

impl Opt {
    /// The command line that registers `url`, the remote of `spec`, under
    /// `name` or else under the provider's name.
    pub fn add(spec: &Spec, url: &str, name: Option<String>) -> (r: Vec<String>)
        ensures
            strings_view(r@) == remote_add_command_of(remote_name_of(*spec, opt_view(name)), url@),
    {
        match name {
            Some(n) => remote_add_command(n.as_str(), url),
            None => remote_add_command(spec.provider.name.as_str(), url),
        }
    }

    /// Where a spec is cloned to: its project under the temporary directory
    /// when `tmp`, else under the source directory.
    pub fn destination(config: &Config, tmp: bool, spec: &Spec) -> (r: String)
        ensures
            r@ == joined(if tmp { config@.tmpdir } else { config@.srcdir }, spec.project@),
    {
        let dir = if tmp { config.tmpdir() } else { config.srcdir() };
        crate::config::join_path(dir, spec.project.as_str())
    }

    /// The command line that clones a spec to `destination`, naming the
    /// remote after the provider. Refused when the destination is `present`;
    /// fails as `Spec::remote` does when the remote URL cannot be rendered.
    pub fn get(spec: &Spec, destination: &str, present: bool) -> (r: Result<Vec<String>, Failure>)
        ensures
            present ==> (r matches Err(Failure::DestinationExists { destination: d }) && d@ == destination@),
            !present && plain_template(spec@.provider.remote_template) ==> (r is Ok && strings_view(r->Ok_0@)
                == clone_command_of(
                    spec.provider.name@,
                    substituted(spec@.provider.remote_template, spec@.user, spec@.project),
                    destination@,
                )),
            !present && r is Err ==> (r matches Err(Failure::Render { provider, .. }) && provider@ == spec.provider.name@),
    {
        if present {
            return Err(Failure::DestinationExists { destination: destination.to_owned() });
        }
        match spec.remote() {
            Ok(url) => Ok(clone_command(spec.provider.name.as_str(), url.as_str(), destination)),
            Err(e) => Err(e),
        }
    }

    /// Writing the default configuration is refused when a file exists at
    /// `path`, unless it is forced.
    pub fn init(path: &str, present: bool, force: bool) -> (r: Result<(), Failure>)
        ensures
            r is Ok <==> (!present || force),
            r is Err ==> (r matches Err(Failure::ConfigExists { path: p }) && p@ == path@),
    {
        if present && !force {
            Err(Failure::ConfigExists { path: path.to_owned() })
        } else {
            Ok(())
        }
    }

    /// A push of the whole workspace is refused while a repository is dirty,
    /// unless it is forced.
    pub fn push(src: &Src, force: bool) -> (r: Result<(), Failure>)
        ensures
            r is Ok <==> (force || !workspace_dirty(src@)),
            r is Err ==> (r matches Err(Failure::PushDirty)),
    {
        if !force && src.is_dirty() {
            Err(Failure::PushDirty)
        } else {
            Ok(())
        }
    }
}

} // verus!
