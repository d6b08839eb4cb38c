use srcman::config::{join_path, Config, RawConfig, DEFAULT, FILENAME};
use srcman::error::Failure;
use srcman::opt::Opt;
use srcman::provider::{Provider, RawProvider};
use srcman::template::{is_plain_template, is_simple_template};

fn raw_provider(user: Option<&str>, template: &str) -> RawProvider {
    RawProvider { default_user: user.map(|u| u.to_string()), remote_template: template.to_string() }
}

fn raw(default_user: Option<&str>, bitbucket_user: Option<&str>) -> RawConfig {
    RawConfig {
        default_provider: "github".to_string(),
        default_user: default_user.map(|u| u.to_string()),
        srcdir: "~/src".to_string(),
        tmpdir: "/var/tmp/checkouts".to_string(),
        providers: vec![
            ("bitbucket".to_string(), raw_provider(bitbucket_user, "git@bitbucket.org:{{user}}/{{project}}.git")),
            ("github".to_string(), raw_provider(None, "git@github.com:{{user}}/{{project}}.git")),
        ],
    }
}

fn config(default_user: Option<&str>, bitbucket_user: Option<&str>) -> Config {
    Config::from_raw(raw(default_user, bitbucket_user), None, Some("/home/alice".to_string())).unwrap()
}

fn values(v: &[&str]) -> Vec<String> {
    v.iter().map(|s| s.to_string()).collect()
}

#[test]
fn expand_tilde() {
    let home = Some("/home/alice".to_string());
    assert_eq!(Config::expand_tilde("~".to_string(), &home).unwrap(), "/home/alice");
}

#[test]
fn expand_tilde_prefix_and_plain_paths() {
    let home = Some("/home/alice".to_string());
    assert_eq!(Config::expand_tilde("~/src".to_string(), &home).unwrap(), "/home/alice/src");
    assert_eq!(Config::expand_tilde("/opt/src".to_string(), &home).unwrap(), "/opt/src");
    assert_eq!(Config::expand_tilde("~src".to_string(), &home).unwrap(), "~src");
    assert!(matches!(Config::expand_tilde("~/src".to_string(), &None), Err(Failure::HomeDirectory)));
    assert_eq!(Config::expand_tilde("/opt/src".to_string(), &None).unwrap(), "/opt/src");
}

#[test]
fn built_configuration() {
    let c = config(Some("alice"), None);
    assert_eq!(c.srcdir(), "/home/alice/src");
    assert_eq!(c.tmpdir(), "/var/tmp/checkouts");
    assert_eq!(Config::filename(), "config.yaml");
    assert_eq!(FILENAME, "config.yaml");
    assert_eq!(Config::default(), DEFAULT);
    assert!(Config::default().starts_with("default-provider: github\n"));
}

#[test]
fn resolve_project_only() {
    let spec = config(Some("alice"), None).spec(values(&["proj"])).unwrap();
    assert_eq!(spec.provider.name, "github");
    assert_eq!(spec.user, "alice");
    assert_eq!(spec.project, "proj");
}

#[test]
fn resolve_provider_and_project() {
    let spec = config(Some("alice"), Some("carol")).spec(values(&["bitbucket", "proj"])).unwrap();
    assert_eq!(spec.provider.name, "bitbucket");
    assert_eq!(spec.user, "carol");
    assert_eq!(spec.project, "proj");
    let spec = config(Some("alice"), None).spec(values(&["bitbucket", "proj"])).unwrap();
    assert_eq!(spec.user, "alice");
}

#[test]
fn resolve_provider_user_and_project() {
    let spec = config(Some("alice"), Some("carol")).spec(values(&["bitbucket", "bob", "proj"])).unwrap();
    assert_eq!(spec.provider.name, "bitbucket");
    assert_eq!(spec.user, "bob");
    assert_eq!(spec.project, "proj");
}

#[test]
fn unknown_provider_and_bad_arity() {
    let c = config(Some("alice"), None);
    assert!(matches!(c.spec(values(&["gitlab", "proj"])), Err(Failure::Provider { name }) if name == "gitlab"));
    assert!(matches!(c.spec(values(&["gitlab", "bob", "proj"])), Err(Failure::Provider { .. })));
    assert!(matches!(c.spec(values(&[])), Err(Failure::Internal { .. })));
    assert!(matches!(c.spec(values(&["a", "b", "c", "d"])), Err(Failure::Internal { .. })));
}

#[test]
fn user_falls_back_to_environment_then_fails() {
    let c = Config::from_raw(raw(None, None), Some("dave".to_string()), None);
    // srcdir needs the home directory, which is absent here.
    assert!(matches!(c, Err(Failure::HomeDirectory)));
    let c = Config::from_raw(raw(None, None), Some("dave".to_string()), Some("/h".to_string())).unwrap();
    assert_eq!(c.spec(values(&["p"])).unwrap().user, "dave");
    let c = Config::from_raw(raw(None, None), None, Some("/h".to_string()));
    assert!(matches!(c, Err(Failure::User)));
}

#[test]
fn configuration_errors() {
    let mut r = raw(Some("a"), None);
    r.providers[1].1.remote_template = "git@github.com:{{user".to_string();
    let c = Config::from_raw(r, None, None);
    assert!(matches!(c, Err(Failure::Template { name, .. }) if name == "github"));
    let mut r = raw(Some("a"), None);
    r.default_provider = "gitlab".to_string();
    let c = Config::from_raw(r, None, Some("/h".to_string()));
    assert!(matches!(c, Err(Failure::DefaultProvider { name }) if name == "gitlab"));
}

#[test]
fn remote_renders_template() {
    let spec = config(Some("alice"), None).spec(values(&["proj"])).unwrap();
    assert_eq!(spec.remote().unwrap(), "git@github.com:alice/proj.git");
    assert_eq!(spec.remote().unwrap(), spec.remote().unwrap());
    let spec = config(Some("alice"), Some("carol")).spec(values(&["bitbucket", "proj"])).unwrap();
    assert_eq!(spec.remote().unwrap(), "git@bitbucket.org:carol/proj.git");
}

#[test]
fn templates_that_parse_are_accepted() {
    let p = Provider::from_raw("gh", raw_provider(None, "git@h:{{ user }}/{{ project }}")).unwrap();
    assert_eq!(p.remote("alice", "proj").unwrap(), "git@h:alice/proj");
    let p = Provider::from_raw("gh", raw_provider(None, "git@{{provider}}:{{user}}/{{project}}.git")).unwrap();
    assert!(matches!(p.remote("alice", "proj"), Err(Failure::Render { provider, source: Some(_) }) if provider == "gh"));
    let p = Provider::from_raw("gh", raw_provider(None, "git@{{ get_env(name='HOST') }}:{{user}}")).unwrap();
    assert!(matches!(p.remote("alice", "proj"), Err(Failure::Render { provider, source: None }) if provider == "gh"));
    let p = Provider::from_raw("gh", raw_provider(None, "git@h:{{ user | upper }}")).unwrap();
    assert!(matches!(p.remote("alice", "proj"), Err(Failure::Render { source: None, .. })));
}

#[test]
fn plain_templates() {
    assert!(is_plain_template("git@github.com:{{user}}/{{project}}.git"));
    assert!(is_plain_template("git@h:{{ user }}/{{  project }}"));
    assert!(is_plain_template(""));
    assert!(is_plain_template("{{project}}{{user}}"));
    assert!(is_plain_template("a{b}c"));
    assert!(!is_plain_template("git@{{provider}}:{{user}}/{{project}}.git"));
    assert!(!is_plain_template("{{user}"));
    assert!(!is_plain_template("{% if x %}{% endif %}"));
    assert!(!is_plain_template("{# note #}"));
    assert!(is_simple_template("git@{{provider}}:{{ user }}"));
    assert!(!is_simple_template("{{ user | upper }}"));
    assert!(!is_simple_template("{{ 1 + 2 }}"));
    assert!(!is_simple_template("{{-user}}"));
}

#[test]
fn plain_rendering_keeps_other_text() {
    let p = Provider::from_raw("gh", raw_provider(None, "a{b}c {{ user }}-{{project}}")).unwrap();
    assert_eq!(p.remote("u", "p").unwrap(), "a{b}c u-p");
}

#[test]
fn path_joining() {
    assert_eq!(join_path("/home/alice", "src"), "/home/alice/src");
    assert_eq!(join_path("/home/alice/", "src"), "/home/alice/src");
    assert_eq!(join_path("", "src"), "src");
    assert_eq!(join_path("/home/alice", "/opt/src"), "/opt/src");
}

#[test]
fn expansion_from_stripped_path() {
    let home = Some("/home/alice".to_string());
    assert_eq!(Config::expand_stripped("~/a".to_string(), Some("a".to_string()), &home).unwrap(), "/home/alice/a");
    assert_eq!(Config::expand_stripped("~".to_string(), Some(String::new()), &home).unwrap(), "/home/alice");
    assert_eq!(Config::expand_stripped("/x".to_string(), None, &None).unwrap(), "/x");
    assert!(matches!(Config::expand_stripped("~".to_string(), Some(String::new()), &None), Err(Failure::HomeDirectory)));
}

#[test]
fn wrong_arity_message_names_values() {
    let c = config(Some("alice"), None);
    match c.spec(values(&["a", "b", "c", "d"])) {
        Err(Failure::Internal { message }) => {
            assert_eq!(message, "incorrect number of values for spec: [a, b, c, d]")
        },
        _ => panic!("expected an internal error"),
    }
    match c.spec(values(&[])) {
        Err(Failure::Internal { message }) => assert_eq!(message, "incorrect number of values for spec: []"),
        _ => panic!("expected an internal error"),
    }
}

#[test]
fn provider_checks_template() {
    let p = Provider::from_raw("gh", raw_provider(Some("u"), "git@h:{{user}}/{{project}}")).unwrap();
    assert_eq!(p.name, "gh");
    assert_eq!(p.default_user, Some("u".to_string()));
    assert_eq!(p.remote("bob", "x").unwrap(), "git@h:bob/x");
    assert!(matches!(Provider::from_raw("gh", raw_provider(None, "{{")), Err(Failure::Template { name, .. }) if name == "gh"));
    assert!(Provider::from_raw("gh", raw_provider(None, "{% if %}")).is_err());
}

#[test]
fn add_get_and_init_decisions() {
    let c = config(Some("alice"), None);
    let spec = c.spec(values(&["proj"])).unwrap();
    assert_eq!(Opt::add(&spec, "git@h:a/p.git", None), vec!["git", "remote", "add", "github", "git@h:a/p.git"]);
    assert_eq!(Opt::add(&spec, "u", Some("up".to_string())), vec!["git", "remote", "add", "up", "u"]);
    let dst = Opt::destination(&c, false, &spec);
    assert_eq!(dst, "/home/alice/src/proj");
    assert_eq!(Opt::destination(&c, true, &spec), "/var/tmp/checkouts/proj");
    assert!(matches!(Opt::get(&spec, &dst, true), Err(Failure::DestinationExists { .. })));
    assert_eq!(
        Opt::get(&spec, &dst, false).unwrap(),
        vec!["git", "clone", "--origin", "github", "git@github.com:alice/proj.git", "/home/alice/src/proj"]
    );
    assert!(matches!(Opt::init("/c/config.yaml", true, false), Err(Failure::ConfigExists { .. })));
    assert!(Opt::init("/c/config.yaml", true, true).is_ok());
    assert!(Opt::init("/c/config.yaml", false, false).is_ok());
}

#[test]
fn default_configuration_templates_are_accepted() {
    for template in ["git@github.com:{{user}}/{{project}}.git", "git@bitbucket.org:{{user}}/{{project}}.git"] {
        assert!(DEFAULT.contains(&format!("remote-template: {}\n", template)));
        assert!(Provider::from_raw("p", raw_provider(None, template)).is_ok());
    }
}
