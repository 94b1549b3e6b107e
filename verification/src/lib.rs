//! Per-application configuration directories: where the directory lives, the
//! handle that remembers it, and the decisions taken while the directory, its
//! subdirectories and its files are brought into existence.
//!
//! The library never touches the filesystem, a database or a log sink itself.
//! It decides what has to be done and hands the host one [`Request`] at a time;
//! the host performs it and reports back with a [`Reply`].

pub mod ensure;
pub mod log;
pub mod options;
pub mod path;
pub mod registry;
pub mod resolver;
pub mod scaffold;

pub use ensure::{ensure_dir, ensure_file, ensure_sqlite, Ensure, Kind, Phase, Reply, Request};
pub use log::{log_error, log_info, LogLevel, LogRecord};
pub use options::{ConfigOptions, Placement};
pub use registry::{get_config_dir, set_config_dir, ConfigDirRegistry, UninitializedError};
pub use resolver::{expand_path, expand_path_with_home, resolve};
pub use scaffold::{
    create_file, create_subdirectories, ensure_database_file, initialize, initialize_at,
    initialize_with_home,
};
