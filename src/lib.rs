//! A logger core: severity filtering, three line layouts (target, file and
//! line, JSON), an error-level pseudo stack trace, optional terminal colors,
//! and a write-once installation slot for the process-wide logger.
//!
//! Everything here is computation over values: the caller hands in what it
//! read from the environment and the log record, and takes back the lines
//! to print and to append to a file. The only things read from outside are
//! the local time and the terminal color settings.

pub mod env;
pub mod format;
pub mod install;
pub mod json;
pub mod laws;
pub mod level;
pub mod logger;
pub mod record;
pub mod render;
pub mod style;
pub mod text;

pub use env::Environment;
pub use install::{
    init, init_custom, init_custom_env, init_custom_env_with_file, init_custom_with_file,
    init_with_file, try_init, try_init_custom, try_init_custom_env, try_init_custom_env_with_file,
    try_init_custom_with_file, try_init_with_file, InitError, LoggerSlot,
};
pub use format::{parse_formats, LogeFormat};
pub use logger::{LogeLogger, Output};
pub use level::{parse_filters, Severity};
pub use record::{error_trace_message, LogRecord};
