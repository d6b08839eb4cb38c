//! The library's error type.
use vstd::prelude::*;

verus! {

/// What went wrong. Each variant carries the context needed to explain the
/// failure: a path, a provider name, a command line, an exit code or output.
#[derive(Debug)]
pub enum Failure {
    /// A repository query failed.
    Git { path: String, message: String },
    /// The home directory is needed to expand `~` and could not be found.
    HomeDirectory,
    /// The configured default provider is not among the providers.
    DefaultProvider { name: String },
    /// A spec names a provider that is not configured.
    Provider { name: String },
    /// A provider's template does not parse.
    Template { name: String, source: tera::Error },
    /// A provider's template could not be rendered: tera's reason, or none
    /// when the template is not a simple one.
    Render { provider: String, source: Option<tera::Error> },
    /// The user's name is needed and could not be found.
    User,
    /// A condition that cannot arise unless there is a bug.
    Internal { message: String },
    /// A command could not be started.
    CommandInvocation { command: Vec<String>, message: String },
    /// A command ran and exited unsuccessfully.
    CommandStatus { command: Vec<String>, code: Option<i32> },
    /// A command ran and exited unsuccessfully; its output was captured.
    CommandOutput { command: Vec<String>, code: Option<i32>, stdout: String, stderr: String },
    /// The configuration file exists and overwriting it was not asked for.
    ConfigExists { path: String },
    /// A push was refused because some repository has changes.
    PushDirty,
    /// One or more repositories failed to push.
    PushAll { remote: String },
    /// The destination of a clone already exists.
    DestinationExists { destination: String },
}

} // verus!
