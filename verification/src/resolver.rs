//! Where the configuration directory lives: the path that the options stand
//! for, and the expansion of a leading tilde into the home directory.

use vstd::prelude::*;
use crate::options::{placement_of, ConfigOptions, OptionsModel, Placement};

verus! {

/// The name of the directory itself: `name`, behind one dot if it is hidden.
pub open spec fn directory_label(name: Seq<char>, hidden: bool) -> Seq<char> {
    if hidden {
        seq!['.'] + name
    } else {
        name
    }
}

/// The root under which a placement puts the directory, written with the
/// tilde still in place.
pub open spec fn root_of(placement: Placement) -> Seq<char> {
    match placement {
        Placement::SystemOpt => "/opt/"@,
        Placement::Home => "~/"@,
    }
}

/// The path that `options` stand for in an application named `app_name`,
/// before any tilde is expanded.
pub open spec fn resolved(options: OptionsModel, app_name: Seq<char>) -> Seq<char> {
    root_of(options.effective_placement()) + directory_label(
        options.effective_name(app_name),
        options.effective_hidden(),
    )
}

/// Whether `path` starts with a tilde that stands for the home directory: one
/// that is followed by `/` or by nothing.
pub open spec fn tilde_led(path: Seq<char>) -> bool {
    path.len() > 0 && path[0] == '~' && (path.len() == 1 || path[1] == '/')
}

/// `path` with its leading tilde replaced by `home`. Without a leading tilde,
/// or without a home directory, it is `path` itself.
pub open spec fn tilde_expanded(path: Seq<char>, home: Option<Seq<char>>) -> Seq<char> {
    match home {
        Some(dir) if tilde_led(path) => dir + path.skip(1),
        _ => path,
    }
}

/// Whether `path` starts with a tilde and a backslash. Where the backslash
/// separates the components of a path, such a tilde stands for the home
/// directory too; elsewhere it does not.
pub open spec fn tilde_backslash_led(path: Seq<char>) -> bool {
    path.len() >= 2 && path[0] == '~' && path[1] == '\\'
}

/// Whether `expanded` is an expansion of `path` with the home directory
/// `home`. There is exactly one, but for a path that starts with a tilde and
/// a backslash, which is expanded on some systems and left alone on others.
pub open spec fn expands_to(
    path: Seq<char>,
    home: Option<Seq<char>>,
    expanded: Seq<char>,
) -> bool {
    if tilde_backslash_led(path) {
        expanded == path || (home is Some && expanded == home.unwrap() + path.skip(1))
    } else {
        expanded == tilde_expanded(path, home)
    }
}

/// The configuration directory that `options` stand for in an application
/// named `app_name`, for a user whose home directory is `home`.
pub open spec fn config_dir_of(
    options: OptionsModel,
    app_name: Seq<char>,
    home: Option<Seq<char>>,
) -> Seq<char> {
    tilde_expanded(resolved(options, app_name), home)
}

/// Calls `shellexpand::tilde_with_context` with a home directory that is
/// given rather than looked up.
///
/// Trusted: the result is `path` itself unless `path` starts with `~` followed
/// by `/` or by nothing and `home` is given, in which case it is `home`
/// followed by what stands behind the tilde. Nothing but the two possible
/// results is claimed of a path that starts with `~\`, which the function
/// expands only where `\` is a path separator.
#[verifier::external_body]
fn tilde_with_context(path: &str, home: Option<&str>) -> (expanded: String)
    ensures
        expands_to(path@, home.deep_view(), expanded@),
{
    shellexpand::tilde_with_context(path, || home).into_owned()
}

/// Calls `shellexpand::tilde`, which looks the home directory of the current
/// user up by itself.
///
/// Trusted: whatever the home directory is, and whether or not there is one,
/// the result is an expansion of `path` with it.
#[verifier::external_body]
fn tilde(path: &str) -> (expanded: String)
    ensures
        exists|home: Option<Seq<char>>| expands_to(path@, home, expanded@),
{
    shellexpand::tilde(path).into_owned()
}

/// The path that `options` stand for, before any tilde is expanded: under
/// `/opt/` for the system-wide placement and under `~/` otherwise, named after
/// the options' name or else after the application, behind a dot if hidden.
///
/// The name is taken as it is; a caller that does not trust it has to check it
/// for separators and `..` itself.
pub fn resolve(options: &ConfigOptions, app_name: &str) -> (path: String)
    ensures
        path@ == resolved(options@, app_name@),
{
    let system = match options.placement {
        Some(Placement::SystemOpt) => true,
        _ => false,
    };
    let hidden = match options.hidden {
        Some(hidden) => hidden,
        None => false,
    };
    let mut path = String::from_str(if system { "/opt/" } else { "~/" });
    let ghost root = path@;
    if hidden {
        proof {
            reveal_strlit(".");
            assert("."@ =~= seq!['.']);
        }
        path.append(".");
    }
    match &options.name {
        Some(name) => path.append(name.as_str()),
        None => path.append(app_name),
    }
    assert(path@ =~= root + directory_label(
        options@.effective_name(app_name@),
        options@.effective_hidden(),
    ));
    path
}

/// Expands a leading tilde in `path` into `home`.
///
/// A path without a leading tilde comes back unchanged, and so does every path
/// when there is no home directory. `~` alone or in front of `/` is replaced
/// by `home`. `~` in front of anything else is left alone, except that `~\`
/// may be expanded where `\` separates the components of a path.
pub fn expand_path_with_home(path: &str, home: Option<&str>) -> (expanded: String)
    ensures
        expands_to(path@, home.deep_view(), expanded@),
        !tilde_backslash_led(path@) ==> expanded@ == tilde_expanded(path@, home.deep_view()),
{
    tilde_with_context(path, home)
}

/// Expands a leading tilde in `path` into the home directory of the current
/// user. The result is what [`expand_path_with_home`] gives for that home
/// directory, whichever it is.
pub fn expand_path(path: &str) -> (expanded: String)
    ensures
        exists|home: Option<Seq<char>>| expands_to(path@, home, expanded@),
        !(path@.len() > 0 && path@[0] == '~') ==> expanded@ == path@,
{
    tilde(path)
}

/// The characters of the two roots.
pub proof fn lemma_roots()
    ensures
        root_of(Placement::SystemOpt) == seq!['/', 'o', 'p', 't', '/'],
        root_of(Placement::Home) == seq!['~', '/'],
{
    reveal_strlit("/opt/");
    reveal_strlit("~/");
    assert("/opt/"@ =~= seq!['/', 'o', 'p', 't', '/']);
    assert("~/"@ =~= seq!['~', '/']);
}

/// Hiding prepends exactly one dot to the name, and not hiding prepends
/// nothing: the hidden label is one longer than the name, starts with a dot
/// and goes on with the name, so that a name which does not itself start with
/// a dot gives a label with a single leading dot.
pub proof fn lemma_hidden_prepends_one_dot(name: Seq<char>)
    ensures
        directory_label(name, false) == name,
        directory_label(name, true).len() == name.len() + 1,
        directory_label(name, true)[0] == '.',
        directory_label(name, true).skip(1) == name,
        name.len() > 0 && name[0] != '.' ==> directory_label(name, true)[1] != '.',
{
    assert(directory_label(name, true).skip(1) =~= name);
}

/// Leaving `hidden` out is the same as saying `false`.
pub proof fn lemma_hidden_defaults_to_false(options: OptionsModel, app_name: Seq<char>)
    requires
        options.hidden is None,
    ensures
        resolved(options, app_name) == resolved(
            OptionsModel { hidden: Some(false), ..options },
            app_name,
        ),
{
}

/// The system-wide placement yields a path rooted at `/opt/`, which no home
/// directory changes.
pub proof fn lemma_system_opt_rooted(
    options: OptionsModel,
    app_name: Seq<char>,
    home: Option<Seq<char>>,
)
    requires
        options.placement == Some(Placement::SystemOpt),
    ensures
        "/opt/"@.is_prefix_of(resolved(options, app_name)),
        config_dir_of(options, app_name, home) == resolved(options, app_name),
        config_dir_of(options, app_name, home) == "/opt/"@ + directory_label(
            options.effective_name(app_name),
            options.effective_hidden(),
        ),
{
    lemma_roots();
}

/// Every other placement, and none at all, yields a path rooted at `~/`, and
/// so at the home directory once that is known.
pub proof fn lemma_home_rooted(options: OptionsModel, app_name: Seq<char>, home: Seq<char>)
    requires
        options.placement != Some(Placement::SystemOpt),
    ensures
        "~/"@.is_prefix_of(resolved(options, app_name)),
        config_dir_of(options, app_name, Some(home)) == home + seq!['/'] + directory_label(
            options.effective_name(app_name),
            options.effective_hidden(),
        ),
        config_dir_of(options, app_name, None) == resolved(options, app_name),
{
    lemma_roots();
    let label = directory_label(options.effective_name(app_name), options.effective_hidden());
    let path = resolved(options, app_name);
    assert(path =~= seq!['~', '/'] + label);
    assert(path.skip(1) =~= seq!['/'] + label);
    assert(home + (seq!['/'] + label) =~= home + seq!['/'] + label);
}

/// A label that is not known places the directory as no label does: under the
/// home directory.
pub proof fn lemma_unknown_label_is_home(
    options: OptionsModel,
    app_name: Seq<char>,
    label: Seq<char>,
)
    requires
        label != "opt"@,
    ensures
        placement_of(label) == Placement::Home,
        resolved(OptionsModel { placement: Some(placement_of(label)), ..options }, app_name)
            == resolved(OptionsModel { placement: None, ..options }, app_name),
{
}

/// A tilde in front of `/` becomes the home directory: `~/` and what follows
/// expands to the home directory, `/` and what follows.
pub proof fn lemma_tilde_becomes_home(rest: Seq<char>, home: Seq<char>)
    ensures
        tilde_expanded(seq!['~', '/'] + rest, Some(home)) == home + seq!['/'] + rest,
        expands_to(seq!['~', '/'] + rest, Some(home), home + seq!['/'] + rest),
{
    let path = seq!['~', '/'] + rest;
    assert(path.skip(1) =~= seq!['/'] + rest);
    assert(home + (seq!['/'] + rest) =~= home + seq!['/'] + rest);
}

/// A path without a leading tilde has itself as its only expansion, whatever
/// the home directory.
pub proof fn lemma_other_paths_stay(
    path: Seq<char>,
    home: Option<Seq<char>>,
    expanded: Seq<char>,
)
    requires
        !(path.len() > 0 && path[0] == '~'),
    ensures
        expands_to(path, home, expanded) <==> expanded == path,
{
}

} // verus!
