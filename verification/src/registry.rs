//! The handle that remembers the configuration directory.
//!
//! The registry is a value that its owner passes on. It is read through a
//! shared reference and written through an exclusive one, so that at any time
//! there are many readers or one writer. A host that wants one registry for
//! the whole process puts it behind a readers-writer lock.

use vstd::prelude::*;

verus! {

/// The error of reading the configuration directory before any was stored.
#[derive(Clone, Copy, Debug, PartialEq, Eq, Structural)]
pub struct UninitializedError;

impl UninitializedError {
    /// What went wrong and how to mend it.
    pub fn message(&self) -> (text: String)
        ensures
            text@ == "Config directory has not been initialized. Call init_config! first."@,
    {
        String::from_str("Config directory has not been initialized. Call init_config! first.")
    }
}

/// One slot for the path of the configuration directory: empty until the
/// first path is stored, and holding the path stored last from then on.
#[derive(Debug)]
pub struct ConfigDirRegistry {
    slot: Option<String>,
}

impl View for ConfigDirRegistry {
    type V = Option<Seq<char>>;

    closed spec fn view(&self) -> Option<Seq<char>> {
        self.slot.deep_view()
    }
}

impl ConfigDirRegistry {
    /// A registry in which nothing is stored yet.
    pub fn new() -> (store: ConfigDirRegistry)
        ensures
            store@ is None,
    {
        ConfigDirRegistry { slot: None }
    }

    /// Whether a path has been stored.
    pub fn is_initialized(&self) -> (initialized: bool)
        ensures
            initialized == self@.is_some(),
    {
        self.slot.is_some()
    }
}

/// What reading a registry yields: the path that it holds, or the error of
/// reading one that holds none.
pub open spec fn lookup(store: Option<Seq<char>>) -> Result<Seq<char>, UninitializedError> {
    match store {
        Some(path) => Ok(path),
        None => Err(UninitializedError),
    }
}

/// The result of a read as contracts see it.
pub open spec fn read_view(
    dir: Result<String, UninitializedError>,
) -> Result<Seq<char>, UninitializedError> {
    match dir {
        Ok(path) => Ok(path@),
        Err(error) => Err(error),
    }
}

/// Stores `path` as the configuration directory. A path stored before is
/// overwritten: the last write wins.
pub fn set_config_dir(store: &mut ConfigDirRegistry, path: String)
    ensures
        final(store)@ == Some(path@),
{
    store.slot = Some(path);
}

/// The configuration directory that was stored last, or the error of asking
/// before any was stored.
pub fn get_config_dir(store: &ConfigDirRegistry) -> (dir: Result<String, UninitializedError>)
    ensures
        read_view(dir) == lookup(store@),
{
    match &store.slot {
        Some(path) => Ok(path.clone()),
        None => Err(UninitializedError),
    }
}

} // verus!
