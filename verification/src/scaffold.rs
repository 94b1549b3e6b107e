//! The operations on the configuration directory: initializing it, and asking
//! for subdirectories, files and a database file inside it.
//!
//! Each operation does its part on the registry and returns the runs that the
//! host has to drive to the end.

use vstd::prelude::*;
use crate::ensure::{ensure_dir, ensure_file, ensure_sqlite, Ensure, EnsureModel, Kind};
use crate::options::{ConfigOptions, OptionsModel, Placement};
use crate::path::{join, joined};
use crate::registry::{
    get_config_dir, lookup, set_config_dir, ConfigDirRegistry, UninitializedError,
};
use crate::resolver::{
    config_dir_of, expand_path, expand_path_with_home, expands_to, lemma_roots, resolve, resolved,
    tilde_expanded,
};

verus! {

/// Makes `dir` the configuration directory: stores it, and returns the run
/// that ensures the directory exists.
pub fn initialize_at(store: &mut ConfigDirRegistry, dir: String) -> (run: Ensure)
    ensures
        final(store)@ == Some(dir@),
        run@ == EnsureModel::start(Kind::Directory, dir@),
{
    let run = ensure_dir(dir.as_str());
    set_config_dir(store, dir);
    run
}

/// Initializes the configuration directory that `options` stand for, for a
/// user whose home directory is `home`: stores its path, and returns the run
/// that ensures the directory exists.
pub fn initialize_with_home(
    store: &mut ConfigDirRegistry,
    options: &ConfigOptions,
    app_name: &str,
    home: Option<&str>,
) -> (run: Ensure)
    ensures
        final(store)@ == Some(config_dir_of(options@, app_name@, home.deep_view())),
        run@ == EnsureModel::start(
            Kind::Directory,
            config_dir_of(options@, app_name@, home.deep_view()),
        ),
{
    let path = resolve(options, app_name);
    proof {
        lemma_roots();
    }
    let dir = expand_path_with_home(path.as_str(), home);
    initialize_at(store, dir)
}

/// Initializes the configuration directory that `options` stand for, for the
/// current user: stores its path, and returns the run that ensures the
/// directory exists.
///
/// The home directory is looked up while the path is expanded. Whichever it
/// is, the path stored is the one that [`initialize_with_home`] stores for it;
/// a directory placed under `/opt` does not depend on it.
pub fn initialize(
    store: &mut ConfigDirRegistry,
    options: &ConfigOptions,
    app_name: &str,
) -> (run: Ensure)
    ensures
        exists|home: Option<Seq<char>>|
            final(store)@ == Some(#[trigger] config_dir_of(options@, app_name@, home)),
        options@.placement == Some(Placement::SystemOpt) ==> final(store)@ == Some(
            resolved(options@, app_name@),
        ),
        final(store)@ is Some,
        run@ == EnsureModel::start(Kind::Directory, final(store)@.unwrap()),
{
    let path = resolve(options, app_name);
    proof {
        lemma_roots();
    }
    let dir = expand_path(path.as_str());
    let ghost home = choose|home: Option<Seq<char>>| expands_to(path@, home, dir@);
    assert(dir@ == config_dir_of(options@, app_name@, home));
    initialize_at(store, dir)
}

/// For each of `names`, the run that ensures the subdirectory of that name
/// exists in the configuration directory. Fails if no configuration directory
/// is stored.
pub fn create_subdirectories(
    store: &ConfigDirRegistry,
    names: &[&str],
) -> (runs: Result<Vec<Ensure>, UninitializedError>)
    ensures
        match store@ {
            Some(dir) => runs matches Ok(list) && list.len() == names.len() && forall|i: int|
                0 <= i < names.len() ==> (#[trigger] list[i])@ == EnsureModel::start(
                    Kind::Directory,
                    joined(dir, names[i]@),
                ),
            None => runs is Err,
        },
{
    let dir = match get_config_dir(store) {
        Ok(dir) => dir,
        Err(error) => {
            return Err(error);
        },
    };
    let mut list: Vec<Ensure> = Vec::new();
    let mut i: usize = 0;
    while i < names.len()
        invariant
            i <= names.len(),
            list.len() == i,
            store@ == Some(dir@),
            forall|k: int|
                0 <= k < i ==> (#[trigger] list[k])@ == EnsureModel::start(
                    Kind::Directory,
                    joined(dir@, names[k]@),
                ),
        decreases names.len() - i,
    {
        let path = join(dir.as_str(), names[i]);
        list.push(ensure_dir(path.as_str()));
        i = i + 1;
    }
    Ok(list)
}

/// The run that ensures the file `name` exists in the configuration
/// directory, together with the directory that holds it. Fails if no
/// configuration directory is stored.
pub fn create_file(
    store: &ConfigDirRegistry,
    name: &str,
) -> (run: Result<Ensure, UninitializedError>)
    ensures
        match store@ {
            Some(dir) => run matches Ok(file) && file@ == EnsureModel::start(
                Kind::File,
                joined(dir, name@),
            ),
            None => run is Err,
        },
{
    match get_config_dir(store) {
        Ok(dir) => Ok(ensure_file(join(dir.as_str(), name).as_str())),
        Err(error) => Err(error),
    }
}

/// The run that ensures the SQLite database file `name` exists in the
/// configuration directory, together with the directory that holds it. Fails
/// if no configuration directory is stored.
pub fn ensure_database_file(
    store: &ConfigDirRegistry,
    name: &str,
) -> (run: Result<Ensure, UninitializedError>)
    ensures
        match store@ {
            Some(dir) => run matches Ok(database) && database@ == EnsureModel::start(
                Kind::Database,
                joined(dir, name@),
            ),
            None => run is Err,
        },
{
    match get_config_dir(store) {
        Ok(dir) => Ok(ensure_sqlite(join(dir.as_str(), name).as_str())),
        Err(error) => Err(error),
    }
}

/// Reading the registry before anything was stored fails. Once a directory was
/// initialized, reading returns exactly the path that the options stand for:
/// what they resolve to, with its tilde expanded into the home directory.
pub proof fn lemma_read_after_initialize(
    options: OptionsModel,
    app_name: Seq<char>,
    home: Option<Seq<char>>,
)
    ensures
        lookup(None) == Err::<Seq<char>, UninitializedError>(UninitializedError),
        lookup(Some(config_dir_of(options, app_name, home))) == Ok::<
            Seq<char>,
            UninitializedError,
        >(tilde_expanded(resolved(options, app_name), home)),
{
}

} // verus!
