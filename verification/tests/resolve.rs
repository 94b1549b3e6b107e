use configme::options::{ConfigOptions, Placement};
use configme::resolver::{expand_path, expand_path_with_home, resolve};

#[test]
fn resolve_defaults_to_home_and_app_name() {
    let options = ConfigOptions::new();
    assert_eq!(resolve(&options, "demo"), "~/demo");
}

#[test]
fn resolve_prefers_the_given_name() {
    let options = ConfigOptions::new().with_name("example");
    assert_eq!(resolve(&options, "demo"), "~/example");
}

#[test]
fn resolve_is_deterministic() {
    let options = ConfigOptions::new().with_name("demo").with_hidden(true);
    let first = resolve(&options, "app");
    let second = resolve(&options, "app");
    assert_eq!(first, second);
    assert_eq!(first, "~/.demo");
}

#[test]
fn resolve_hidden_prepends_one_dot() {
    let options = ConfigOptions::new().with_name("fancyapp").with_hidden(true);
    assert_eq!(resolve(&options, "demo"), "~/.fancyapp");
}

#[test]
fn resolve_not_hidden_prepends_nothing() {
    let explicit = ConfigOptions::new().with_name("fancyapp").with_hidden(false);
    let omitted = ConfigOptions::new().with_name("fancyapp");
    assert_eq!(resolve(&explicit, "demo"), "~/fancyapp");
    assert_eq!(resolve(&omitted, "demo"), "~/fancyapp");
}

#[test]
fn resolve_hidden_twice_still_gives_one_dot() {
    let options = ConfigOptions::new().with_name("app").with_hidden(true).with_hidden(true);
    assert_eq!(resolve(&options, "demo"), "~/.app");
}

#[test]
fn resolve_does_not_sanitize_the_name() {
    let options = ConfigOptions::new().with_name("../x");
    assert_eq!(resolve(&options, "demo"), "~/../x");
}

#[test]
fn resolve_system_opt_is_rooted_at_opt() {
    let options = ConfigOptions::new().with_name("svc").with_placement(Placement::SystemOpt);
    assert_eq!(resolve(&options, "demo"), "/opt/svc");
    let hidden = ConfigOptions::new().with_placement(Placement::SystemOpt).with_hidden(true);
    assert_eq!(resolve(&hidden, "demo"), "/opt/.demo");
}

#[test]
fn resolve_home_placement_is_rooted_at_tilde() {
    let options = ConfigOptions::new().with_name("svc").with_placement(Placement::Home);
    assert_eq!(resolve(&options, "demo"), "~/svc");
}

#[test]
fn placement_from_label_knows_opt_only() {
    assert_eq!(Placement::from_label("opt"), Placement::SystemOpt);
    assert_eq!(Placement::from_label("home"), Placement::Home);
    assert_eq!(Placement::from_label("somewhere"), Placement::Home);
    assert_eq!(Placement::from_label(""), Placement::Home);
    assert_eq!(Placement::from_label("Opt"), Placement::Home);
    assert_eq!(Placement::from_label("opt "), Placement::Home);
    assert_eq!(Placement::from_label("op"), Placement::Home);
}

#[test]
fn unrecognized_placement_resolves_under_home() {
    let options =
        ConfigOptions::new().with_name("svc").with_placement(Placement::from_label("etc"));
    assert_eq!(resolve(&options, "demo"), "~/svc");
    assert_eq!(
        expand_path_with_home(&resolve(&options, "demo"), Some("/home/u")),
        "/home/u/svc"
    );
}

#[test]
fn expand_with_home_replaces_leading_tilde() {
    assert_eq!(expand_path_with_home("~/foo", Some("/home/u")), "/home/u/foo");
    assert_eq!(expand_path_with_home("~", Some("/home/u")), "/home/u");
    assert_eq!(expand_path_with_home("~/", Some("/home/u")), "/home/u/");
    assert_eq!(expand_path_with_home("~/a/b c", Some("/home/u")), "/home/u/a/b c");
}

#[test]
fn expand_with_home_leaves_other_paths_unchanged() {
    assert_eq!(expand_path_with_home("/opt/foo", Some("/home/u")), "/opt/foo");
    assert_eq!(expand_path_with_home("foo/~/bar", Some("/home/u")), "foo/~/bar");
    assert_eq!(expand_path_with_home("", Some("/home/u")), "");
    assert_eq!(expand_path_with_home("~other/foo", Some("/home/u")), "~other/foo");
    assert_eq!(expand_path_with_home("~~/foo", Some("/home/u")), "~~/foo");
}

#[test]
fn expand_without_home_leaves_tilde_in_place() {
    assert_eq!(expand_path_with_home("~/foo", None), "~/foo");
    assert_eq!(expand_path_with_home("~", None), "~");
    assert_eq!(expand_path_with_home("/opt/foo", None), "/opt/foo");
}

#[test]
fn expand_for_current_user_leaves_other_paths_unchanged() {
    assert_eq!(expand_path("/opt/foo"), "/opt/foo");
    assert_eq!(expand_path("relative/dir"), "relative/dir");
    assert_eq!(expand_path(""), "");
    assert_eq!(expand_path("~other/foo"), "~other/foo");
}

#[test]
fn expand_for_current_user_uses_one_home_directory() {
    let home = expand_path("~");
    assert_ne!(home, "~");
    assert_eq!(expand_path("~/foo"), format!("{}/foo", home));
    assert_eq!(expand_path("~/foo"), expand_path_with_home("~/foo", Some(&home)));
}
