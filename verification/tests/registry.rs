use configme::registry::{get_config_dir, set_config_dir, ConfigDirRegistry, UninitializedError};

#[test]
fn get_before_any_initialize_fails() {
    let store = ConfigDirRegistry::new();
    assert!(!store.is_initialized());
    assert_eq!(get_config_dir(&store), Err(UninitializedError));
}

#[test]
fn get_returns_what_was_set() {
    let mut store = ConfigDirRegistry::new();
    set_config_dir(&mut store, String::from("/home/u/demo"));
    assert!(store.is_initialized());
    assert_eq!(get_config_dir(&store), Ok(String::from("/home/u/demo")));
    assert_eq!(get_config_dir(&store), Ok(String::from("/home/u/demo")));
}

#[test]
fn last_write_wins() {
    let mut store = ConfigDirRegistry::new();
    set_config_dir(&mut store, String::from("/home/u/first"));
    set_config_dir(&mut store, String::from("/opt/second"));
    assert_eq!(get_config_dir(&store), Ok(String::from("/opt/second")));
}

#[test]
fn uninitialized_error_says_what_to_do() {
    assert_eq!(
        UninitializedError.message(),
        "Config directory has not been initialized. Call init_config! first."
    );
}
