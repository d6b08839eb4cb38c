//! The configuration: providers, defaults and workspace directories, and the
//! resolution of short specs against it.
use vstd::prelude::*;

use crate::command::strings_view;
use crate::error::Failure;
use crate::provider::{opt_view, Provider, ProviderModel, RawProvider};
use crate::template::template_parses;
use crate::spec::{Spec, SpecModel};

verus! {

/// The name of the configuration file.
pub const FILENAME: &'static str = "config.yaml";

/// The configuration written by default.
pub const DEFAULT: &'static str = "default-provider: github
srcdir:           ~/src
tmpdir:           ~/tmp

providers:
  github:
    remote-template: git@github.com:{{user}}/{{project}}.git
  bitbucket:
    remote-template: git@bitbucket.org:{{user}}/{{project}}.git
";

/// The path that remains of `p` once its leading `~` component is removed, as
/// `std::path::Path::strip_prefix` gives it; `None` when `p` does not start
/// with that component.
pub uninterp spec fn tilde_stripped(p: Seq<char>) -> Option<Seq<char>>;

/// `b` appended to `a` as `std::path::Path::join` does it on Unix-like
/// systems: an absolute `b` replaces `a`; otherwise a `/` goes between the
/// two unless `a` is empty or already ends with one.
pub open spec fn joined(a: Seq<char>, b: Seq<char>) -> Seq<char> {
    if b.len() > 0 && b[0] == '/' {
        b
    } else if a.len() == 0 || a.last() == '/' {
        a + b
    } else {
        a + seq!['/'] + b
    }
}

/// Relies on `std::path::Path::strip_prefix` with the prefix `~`: the rest of
/// the path, or `None` when the path does not start with that component.
#[verifier::external_body]
fn strip_tilde(p: &str) -> (r: Option<String>)
    ensures
        r is Some == tilde_stripped(p@) is Some,
        r is Some ==> r->0@ == tilde_stripped(p@)->0,
{
    std::path::Path::new(p).strip_prefix("~").ok().map(|rest| rest.to_string_lossy().into_owned())
}

/// Append path `b` to path `a`.
pub fn join_path(a: &str, b: &str) -> (r: String)
    ensures
        r@ == joined(a@, b@),
{
    let nb = b.unicode_len();
    if nb > 0 && b.get_char(0) == '/' {
        return b.to_owned();
    }
    let na = a.unicode_len();
    let mut r = a.to_owned();
    if na > 0 && a.get_char(na - 1) != '/' {
        proof {
            reveal_strlit("/");
        }
        r = r.concat("/");
    }
    let r = r.concat(b);
    assert(r@ =~= joined(a@, b@));
    r
}

/// `p` with a leading `~` component replaced by the home directory; `None`
/// when that is needed and no home directory is known.
pub open spec fn expanded(p: Seq<char>, home: Option<Seq<char>>) -> Option<Seq<char>> {
    expanded_from(p, tilde_stripped(p), home)
}

/// `p` expanded, given what remains of it once its leading `~` component is
/// removed (`None` when it has none).
pub open spec fn expanded_from(p: Seq<char>, stripped: Option<Seq<char>>, home: Option<Seq<char>>) -> Option<Seq<char>> {
    match stripped {
        None => Some(p),
        Some(rest) => match home {
            None => None,
            Some(h) => if rest.len() == 0 {
                Some(h)
            } else {
                Some(joined(h, rest))
            },
        },
    }
}

/// The start of the message for a spec with the wrong number of values.
pub const ARITY_MESSAGE: &'static str = "incorrect number of values for spec: [";

/// The values, separated by `, `.
pub open spec fn listing(vs: Seq<Seq<char>>) -> Seq<char>
    decreases vs.len(),
{
    if vs.len() == 0 {
        seq![]
    } else if vs.len() == 1 {
        vs[0]
    } else {
        listing(vs.drop_last()) + ", "@ + vs.last()
    }
}

/// The values, separated by `, `.
pub fn list_values(values: &Vec<String>) -> (r: String)
    ensures
        r@ == listing(strings_view(values@)),
{
    let mut r = String::new();
    let mut i: usize = 0;
    while i < values.len()
        invariant
            0 <= i <= values@.len(),
            r@ == listing(strings_view(values@.subrange(0, i as int))),
        decreases values@.len() - i,
    {
        let ghost prev = strings_view(values@.subrange(0, i as int));
        let ghost next = strings_view(values@.subrange(0, i + 1));
        assert(next.drop_last() =~= prev);
        if i > 0 {
            r = r.concat(", ");
        }
        r = r.concat(values[i].as_str());
        assert(r@ =~= listing(next));
        i = i + 1;
    }
    assert(values@.subrange(0, values@.len() as int) =~= values@);
    r
}

/// The user of a provider: its own default user, else the global one.
pub open spec fn user_of(p: ProviderModel, global: Seq<char>) -> Seq<char> {
    match p.default_user {
        Some(u) => u,
        None => global,
    }
}

/// `i` is the first provider named `name`.
pub open spec fn is_first_named(ps: Seq<ProviderModel>, name: Seq<char>, i: int) -> bool {
    &&& 0 <= i < ps.len()
    &&& ps[i].name == name
    &&& forall|j: int| 0 <= j < i ==> ps[j].name != name
}

/// Whether a provider named `name` exists.
pub open spec fn has_named(ps: Seq<ProviderModel>, name: Seq<char>) -> bool {
    exists|i: int| is_first_named(ps, name, i)
}

/// The first provider named `name`.
pub open spec fn named(ps: Seq<ProviderModel>, name: Seq<char>) -> ProviderModel {
    ps[choose|i: int| is_first_named(ps, name, i)]
}

pub open spec fn providers_view(ps: Seq<Provider>) -> Seq<ProviderModel> {
    ps.map_values(|p: Provider| p@)
}

/// The configuration as the configuration file describes it. `providers`
/// lists each provider under its name; names are unique.
pub struct RawConfig {
    pub default_provider: String,
    pub default_user: Option<String>,
    pub srcdir: String,
    pub tmpdir: String,
    pub providers: Vec<(String, RawProvider)>,
}

/// The provider that a configuration entry describes.
pub open spec fn raw_provider_model(e: (String, RawProvider)) -> ProviderModel {
    ProviderModel {
        name: e.0@,
        default_user: opt_view(e.1.default_user),
        remote_template: e.1.remote_template@,
    }
}

pub open spec fn raw_providers_view(es: Seq<(String, RawProvider)>) -> Seq<ProviderModel> {
    es.map_values(|e: (String, RawProvider)| raw_provider_model(e))
}

/// No two entries share a provider name.
pub open spec fn unique_names(es: Seq<(String, RawProvider)>) -> bool {
    forall|a: int, b: int| 0 <= a < es.len() && 0 <= b < es.len() && #[trigger] es[a].0@ == #[trigger] es[b].0@ ==> a == b
}

/// A template that a provider accepts: it parses.
pub open spec fn acceptable(t: Seq<char>) -> bool {
    template_parses(t)
}

/// `i` is the first entry whose template is not acceptable.
pub open spec fn is_first_malformed(es: Seq<(String, RawProvider)>, i: int) -> bool {
    &&& 0 <= i < es.len()
    &&& !acceptable(es[i].1.remote_template@)
    &&& forall|j: int| 0 <= j < i ==> acceptable(#[trigger] es[j].1.remote_template@)
}

/// Every entry's template is acceptable.
pub open spec fn all_parse(es: Seq<(String, RawProvider)>) -> bool {
    forall|i: int| 0 <= i < es.len() ==> acceptable(#[trigger] es[i].1.remote_template@)
}

/// The global default user: the configured one, else the invoking user's.
pub open spec fn global_user(raw: RawConfig, env_user: Option<Seq<char>>) -> Option<Seq<char>> {
    match opt_view(raw.default_user) {
        Some(u) => Some(u),
        None => env_user,
    }
}

pub struct ConfigModel {
    pub default_provider: ProviderModel,
    pub default_user: Seq<char>,
    pub srcdir: Seq<char>,
    pub tmpdir: Seq<char>,
    pub providers: Seq<ProviderModel>,
}

/// Process-wide settings, read-only once built.
pub struct Config {
    default_provider: Provider,
    default_user: String,
    srcdir: String,
    tmpdir: String,
    providers: Vec<Provider>,
}

impl View for Config {
    type V = ConfigModel;

    closed spec fn view(&self) -> ConfigModel {
        ConfigModel {
            default_provider: self.default_provider@,
            default_user: self.default_user@,
            srcdir: self.srcdir@,
            tmpdir: self.tmpdir@,
            providers: providers_view(self.providers@),
        }
    }
}

/// Find the first provider named `name`.
pub fn find_provider(ps: &Vec<Provider>, name: &String) -> (r: Option<usize>)
    ensures
        r is Some == has_named(providers_view(ps@), name@),
        r is Some ==> is_first_named(providers_view(ps@), name@, r->0 as int)
            && providers_view(ps@)[r->0 as int] == named(providers_view(ps@), name@),
{
    let ghost pv = providers_view(ps@);
    let mut i: usize = 0;
    while i < ps.len()
        invariant
            0 <= i <= ps@.len(),
            pv == providers_view(ps@),
            forall|j: int| 0 <= j < i ==> pv[j].name != name@,
        decreases ps@.len() - i,
    {
        if ps[i].name == *name {
            assert(is_first_named(pv, name@, i as int));
            assert forall|k: int| is_first_named(pv, name@, k) implies k == i as int by {
                if k > i as int {
                    assert(pv[i as int].name == name@);
                }
            }
            return Some(i);
        }
        i = i + 1;
    }
    None
}

impl Config {
    /// Expand a leading `~` component of a path into the home directory. Fails
    /// when the expansion is needed and `home` is absent.
    pub fn expand_tilde(path: String, home: &Option<String>) -> (r: Result<String, Failure>)
        ensures
            expanded(path@, opt_view(*home)) is None ==> (r matches Err(Failure::HomeDirectory)),
            expanded(path@, opt_view(*home)) is Some ==> (r matches Ok(p) && p@ == expanded(path@, opt_view(*home))->0),
    {
        let stripped = strip_tilde(path.as_str());
        Config::expand_stripped(path, stripped, home)
    }

    /// Expand `path` given `stripped`, what remains of it once its leading `~`
    /// component is removed: the path itself when there is none, the home
    /// directory for a bare `~`, else the rest joined to the home directory.
    pub fn expand_stripped(path: String, stripped: Option<String>, home: &Option<String>) -> (r: Result<String, Failure>)
        ensures
            expanded_from(path@, opt_view(stripped), opt_view(*home)) is None ==> (r matches Err(Failure::HomeDirectory)),
            expanded_from(path@, opt_view(stripped), opt_view(*home)) is Some
                ==> (r matches Ok(p) && p@ == expanded_from(path@, opt_view(stripped), opt_view(*home))->0),
    {
        match stripped {
            None => Ok(path),
            Some(rest) => match home {
                None => Err(Failure::HomeDirectory),
                Some(h) => {
                    if rest.as_str().unicode_len() == 0 {
                        Ok(h.clone())
                    } else {
                        Ok(join_path(h.as_str(), rest.as_str()))
                    }
                },
            },
        }
    }

    /// Build the configuration from the file's contents. `env_user` is the
    /// invoking user's name and `home` the home directory, where known.
    /// The steps fail in order: the first malformed provider template, a
    /// missing user, an unknown default provider, then a directory whose `~`
    /// cannot be expanded.
    pub fn from_raw(raw: RawConfig, env_user: Option<String>, home: Option<String>) -> (r: Result<Config, Failure>)
        requires
            unique_names(raw.providers@),
        ensures
            !all_parse(raw.providers@) ==> (r matches Err(Failure::Template { name, .. })
                && exists|i: int| is_first_malformed(raw.providers@, i) && name@ == raw.providers@[i].0@),
            all_parse(raw.providers@) && global_user(raw, opt_view(env_user)) is None ==> (r matches Err(Failure::User)),
            all_parse(raw.providers@) && global_user(raw, opt_view(env_user)) is Some
                && !has_named(raw_providers_view(raw.providers@), raw.default_provider@)
                ==> (r matches Err(Failure::DefaultProvider { name }) && name@ == raw.default_provider@),
            all_parse(raw.providers@) && global_user(raw, opt_view(env_user)) is Some
                && has_named(raw_providers_view(raw.providers@), raw.default_provider@)
                && (expanded(raw.srcdir@, opt_view(home)) is None || expanded(raw.tmpdir@, opt_view(home)) is None)
                ==> (r matches Err(Failure::HomeDirectory)),
            all_parse(raw.providers@) && global_user(raw, opt_view(env_user)) is Some
                && has_named(raw_providers_view(raw.providers@), raw.default_provider@)
                && expanded(raw.srcdir@, opt_view(home)) is Some && expanded(raw.tmpdir@, opt_view(home)) is Some
                ==> (r matches Ok(c) && c@ == (ConfigModel {
                    default_provider: named(raw_providers_view(raw.providers@), raw.default_provider@),
                    default_user: global_user(raw, opt_view(env_user))->0,
                    srcdir: expanded(raw.srcdir@, opt_view(home))->0,
                    tmpdir: expanded(raw.tmpdir@, opt_view(home))->0,
                    providers: raw_providers_view(raw.providers@),
                })),
    {
        let ghost es = raw.providers@;
        let RawConfig { default_provider, default_user, srcdir, tmpdir, providers: entries } = raw;
        let mut rest = entries;
        let mut providers: Vec<Provider> = Vec::new();
        let mut i: usize = 0;
        let n = rest.len();
        let mut failure: Option<Failure> = None;
        while i < n
            invariant_except_break
                failure is None,
                rest@ == es.subrange(i as int, n as int),
            invariant
                n == es.len(),
                0 <= i <= n,
                providers_view(providers@) == raw_providers_view(es.subrange(0, i as int)),
                forall|j: int| 0 <= j < i ==> acceptable(#[trigger] es[j].1.remote_template@),
            ensures
                failure is None ==> i == n,
                failure is Some ==> is_first_malformed(es, i as int) && (match failure->0 {
                    Failure::Template { name: x, .. } => x@ == es[i as int].0@,
                    _ => false,
                }),
            decreases n - i,
        {
            let (name, entry) = rest.remove(0);
            assert((name, entry) == es[i as int]);
            let ghost model = raw_provider_model(es[i as int]);
            match Provider::from_raw(name.as_str(), entry) {
                Ok(p) => {
                    assert(p@ == model);
                    providers.push(p);
                    assert(es.subrange(0, i + 1) =~= es.subrange(0, i as int).push(es[i as int]));
                    assert(raw_providers_view(es.subrange(0, i + 1)) =~= raw_providers_view(es.subrange(0, i as int)).push(model));
                    assert(providers_view(providers@) =~= raw_providers_view(es.subrange(0, i + 1)));
                },
                Err(e) => {
                    assert(is_first_malformed(es, i as int) && name@ == es[i as int].0@
                        && (match e { Failure::Template { name: n, .. } => n@ == es[i as int].0@, _ => false }));
                    failure = Some(e);
                    break;
                },
            }
            assert(rest@ =~= es.subrange(i + 1, n as int));
            i = i + 1;
        }
        if let Some(e) = failure {
            assert(!all_parse(es));
            return Err(e);
        }
        assert(es.subrange(0, n as int) =~= es);
        let user = match default_user {
            Some(u) => u,
            None => match env_user {
                Some(u) => u,
                None => {
                    return Err(Failure::User);
                },
            },
        };
        let default = match find_provider(&providers, &default_provider) {
            Some(k) => providers[k].duplicate(),
            None => {
                return Err(Failure::DefaultProvider { name: default_provider });
            },
        };
        let srcdir = match Config::expand_tilde(srcdir, &home) {
            Ok(p) => p,
            Err(e) => {
                return Err(e);
            },
        };
        let tmpdir = match Config::expand_tilde(tmpdir, &home) {
            Ok(p) => p,
            Err(e) => {
                return Err(e);
            },
        };
        Ok(Config { default_provider: default, default_user: user, srcdir, tmpdir, providers })
    }

    /// The text of the default configuration.
    pub fn default() -> (r: &'static str)
        ensures
            r@ == DEFAULT@,
    {
        DEFAULT
    }

    /// The name of the configuration file.
    pub fn filename() -> (r: &'static str)
        ensures
            r@ == FILENAME@,
    {
        FILENAME
    }

    /// Where permanent checkouts go.
    pub fn srcdir(&self) -> (r: &str)
        ensures
            r@ == self@.srcdir,
    {
        self.srcdir.as_str()
    }

    /// Where temporary checkouts go.
    pub fn tmpdir(&self) -> (r: &str)
        ensures
            r@ == self@.tmpdir,
    {
        self.tmpdir.as_str()
    }

    /// The user for `provider`: its own default user, else the global one.
    pub fn user<'a>(&'a self, provider: &'a Provider) -> (r: &'a str)
        ensures
            r@ == user_of(provider@, self@.default_user),
    {
        match &provider.default_user {
            Some(u) => u.as_str(),
            None => self.default_user.as_str(),
        }
    }

    /// Resolve one to three tokens into a spec: `[project]` takes the default
    /// provider; `[provider, project]` looks the provider up; both take the
    /// provider's default user, else the global one. `[provider, user,
    /// project]` takes the user as given. An unknown provider is an error, and
    /// any other number of tokens an internal error.
    pub fn spec(&self, values: Vec<String>) -> (r: Result<Spec, Failure>)
        ensures
            values@.len() == 1 ==> (r matches Ok(s) && s@ == (SpecModel {
                provider: self@.default_provider,
                user: user_of(self@.default_provider, self@.default_user),
                project: values@[0]@,
            })),
            (values@.len() == 2 || values@.len() == 3) && !has_named(self@.providers, values@[0]@)
                ==> (r matches Err(Failure::Provider { name }) && name@ == values@[0]@),
            values@.len() == 2 && has_named(self@.providers, values@[0]@) ==> (r matches Ok(s) && s@ == (SpecModel {
                provider: named(self@.providers, values@[0]@),
                user: user_of(named(self@.providers, values@[0]@), self@.default_user),
                project: values@[1]@,
            })),
            values@.len() == 3 && has_named(self@.providers, values@[0]@) ==> (r matches Ok(s) && s@ == (SpecModel {
                provider: named(self@.providers, values@[0]@),
                user: values@[1]@,
                project: values@[2]@,
            })),
            values@.len() == 0 || values@.len() > 3 ==> (r matches Err(Failure::Internal { message })
                && message@ == ARITY_MESSAGE@ + listing(strings_view(values@)) + "]"@),
    {
        let n = values.len();
        if n == 1 {
            let user = self.user(&self.default_provider).to_owned();
            Ok(Spec { provider: self.default_provider.duplicate(), user, project: values[0].clone() })
        } else if n == 2 || n == 3 {
            let found = find_provider(&self.providers, &values[0]);
            match found {
                None => Err(Failure::Provider { name: values[0].clone() }),
                Some(i) => {
                    let provider = &self.providers[i];
                    if n == 2 {
                        let user = self.user(provider).to_owned();
                        Ok(Spec { provider: provider.duplicate(), user, project: values[1].clone() })
                    } else {
                        Ok(Spec { provider: provider.duplicate(), user: values[1].clone(), project: values[2].clone() })
                    }
                },
            }
        } else {
            let mut message = String::from_str(ARITY_MESSAGE);
            message = message.concat(list_values(&values).as_str());
            message = message.concat("]");
            Err(Failure::Internal { message })
        }
    }
}

} // verus!
