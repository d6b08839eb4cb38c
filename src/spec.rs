//! A resolved request for one remote repository.
use vstd::prelude::*;

use crate::error::Failure;
use crate::provider::{Provider, ProviderModel};
use crate::template::{plain_template, simple_template, substituted};

verus! {

/// A provider, a user and a project: what a remote URL is rendered from.
pub struct Spec {
    pub provider: Provider,
    pub user: String,
    pub project: String,
}

pub struct SpecModel {
    pub provider: ProviderModel,
    pub user: Seq<char>,
    pub project: Seq<char>,
}

impl View for Spec {
    type V = SpecModel;

    open spec fn view(&self) -> SpecModel {
        SpecModel { provider: self.provider@, user: self.user@, project: self.project@ }
    }
}

impl Spec {
    /// The remote URL of this spec: the provider's template rendered with the
    /// user and the project, as `Provider::remote` does it.
    pub fn remote(&self) -> (r: Result<String, Failure>)
        ensures
            plain_template(self@.provider.remote_template)
                ==> (r is Ok && r->Ok_0@ == substituted(self@.provider.remote_template, self@.user, self@.project)),
            !simple_template(self@.provider.remote_template)
                ==> (r matches Err(Failure::Render { provider, source: None }) && provider@ == self@.provider.name),
            r is Err ==> (r matches Err(Failure::Render { provider, .. }) && provider@ == self@.provider.name),
    {
        self.provider.remote(self.user.as_str(), self.project.as_str())
    }
}

} // verus!
