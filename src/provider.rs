//! Named remote-hosting conventions, each with a URL template.
use vstd::prelude::*;

use crate::error::Failure;
use crate::template::{check_template, is_simple_template, lemma_plain_is_simple, plain_template, render, simple_template, substituted, template_parses};

verus! {

/// A provider as the configuration file describes it.
pub struct RawProvider {
    pub default_user: Option<String>,
    pub remote_template: String,
}

/// A named provider: its default user, if any, and the template its remote
/// URLs are rendered from, with the substitution points `user` and `project`.
pub struct Provider {
    pub name: String,
    pub default_user: Option<String>,
    pub remote_template: String,
}

pub struct ProviderModel {
    pub name: Seq<char>,
    pub default_user: Option<Seq<char>>,
    pub remote_template: Seq<char>,
}

pub open spec fn opt_view(o: Option<String>) -> Option<Seq<char>> {
    match o {
        Some(s) => Some(s@),
        None => None,
    }
}

impl View for Provider {
    type V = ProviderModel;

    open spec fn view(&self) -> ProviderModel {
        ProviderModel {
            name: self.name@,
            default_user: opt_view(self.default_user),
            remote_template: self.remote_template@,
        }
    }
}

fn clone_opt(o: &Option<String>) -> (r: Option<String>)
    ensures
        opt_view(r) == opt_view(*o),
{
    match o {
        Some(s) => Some(s.clone()),
        None => None,
    }
}

impl Provider {
    /// Build a provider from its configuration entry. The template is parsed
    /// up front, so that a malformed one fails here, with a template error
    /// naming the provider, rather than at first use.
    pub fn from_raw(name: &str, raw: RawProvider) -> (r: Result<Provider, Failure>)
        ensures
            r is Ok == template_parses(raw.remote_template@),
            r is Ok ==> r->Ok_0@ == (ProviderModel {
                name: name@,
                default_user: opt_view(raw.default_user),
                remote_template: raw.remote_template@,
            }),
            r is Err ==> (r matches Err(Failure::Template { name: n, .. }) && n@ == name@),
    {
        match check_template(raw.remote_template.as_str()) {
            Ok(()) => Ok(Provider {
                name: name.to_owned(),
                default_user: raw.default_user,
                remote_template: raw.remote_template,
            }),
            Err(source) => Err(Failure::Template { name: name.to_owned(), source }),
        }
    }

    /// The remote URL for `user` and `project`. A plain template always
    /// renders, to the template with its placeholders replaced. Any other
    /// simple template is rendered by tera, and fails, for instance, on a
    /// variable other than `user` and `project`. A template with filters,
    /// functions or expressions is not rendered. Every failure is a render
    /// error naming the provider.
    pub fn remote(&self, user: &str, project: &str) -> (r: Result<String, Failure>)
        ensures
            plain_template(self@.remote_template)
                ==> (r is Ok && r->Ok_0@ == substituted(self@.remote_template, user@, project@)),
            !simple_template(self@.remote_template)
                ==> (r matches Err(Failure::Render { provider, source: None }) && provider@ == self@.name),
            r is Err ==> (r matches Err(Failure::Render { provider, .. }) && provider@ == self@.name),
    {
        proof {
            lemma_plain_is_simple(self@.remote_template, 0);
        }
        if !is_simple_template(self.remote_template.as_str()) {
            return Err(Failure::Render { provider: self.name.clone(), source: None });
        }
        match render(self.remote_template.as_str(), user, project) {
            Ok(url) => Ok(url),
            Err(source) => Err(Failure::Render { provider: self.name.clone(), source: Some(source) }),
        }
    }

    /// A copy of this provider.
    pub fn duplicate(&self) -> (r: Provider)
        ensures
            r@ == self@,
    {
        Provider {
            name: self.name.clone(),
            default_user: clone_opt(&self.default_user),
            remote_template: self.remote_template.clone(),
        }
    }
}

} // verus!
