//! Installing the process-wide logger. The slot is written once: the first
//! installation fills it, and every later attempt fails and leaves the first
//! logger in place. The fallible entry points report that failure; the
//! others may only be called while the slot is empty.

use vstd::prelude::*;
use crate::env::{env_lookup, Environment};
use crate::format::{format_named, parse_formats, LogeFormat};
use crate::level::{parse_filters, severity_named, Severity};
use crate::logger::LogeLogger;

verus! {

/// Why a logger could not be installed.
#[derive(Clone, Copy, Debug, PartialEq, Eq, Structural)]
pub enum InitError {
    /// A logger was already installed; it stays.
    AlreadyInstalled,
}

/// The holder of the installed logger: empty, or the logger installed first.
pub struct LoggerSlot {
    installed: Option<LogeLogger>,
}

impl View for LoggerSlot {
    type V = Option<LogeLogger>;

    closed spec fn view(&self) -> Option<LogeLogger> {
        self.installed
    }
}

/// The slot and the outcome after an attempt to install `logger` into a slot
/// holding `before`.
pub open spec fn install(before: Option<LogeLogger>, logger: LogeLogger) -> (
    Option<LogeLogger>,
    Result<(), InitError>,
) {
    match before {
        Some(l) => (Some(l), Err(InitError::AlreadyInstalled)),
        None => (Some(logger), Ok(())),
    }
}

/// The logger configured by a threshold and a layout, for the terminal.
pub open spec fn terminal_logger(level: Severity, config: LogeFormat) -> LogeLogger {
    LogeLogger { level, config, log_file: None, color: true }
}

/// The logger configured by a threshold and a layout, for the terminal and
/// a file.
pub open spec fn file_logger(level: Severity, config: LogeFormat, file: String) -> LogeLogger {
    LogeLogger { level, config, log_file: Some(file), color: true }
}

/// The threshold that a variable sets: the severity it names, or `Error`
/// when it is not set.
pub open spec fn env_severity(vars: Seq<(Seq<char>, Seq<char>)>, name: Seq<char>) -> Severity {
    match env_lookup(vars, name) {
        Some(v) => severity_named(v),
        None => Severity::Error,
    }
}

/// The layout that a variable sets: the layout it names, or `Target` when
/// it is not set.
pub open spec fn env_format(vars: Seq<(Seq<char>, Seq<char>)>, name: Seq<char>) -> LogeFormat {
    match env_lookup(vars, name) {
        Some(v) => format_named(v),
        None => LogeFormat::Target,
    }
}

impl LoggerSlot {
    /// An empty slot.
    pub fn new() -> (r: LoggerSlot)
        ensures
            r@ is None,
    {
        LoggerSlot { installed: None }
    }

    /// The installed logger, if any.
    pub fn installed(&self) -> (r: Option<&LogeLogger>)
        ensures
            r is Some <==> self@ is Some,
            r is Some ==> *r->Some_0 == self@->Some_0,
    {
        match &self.installed {
            Some(l) => Some(l),
            None => None,
        }
    }

    /// Installs a logger unless one is installed already.
    pub fn try_install(&mut self, logger: LogeLogger) -> (r: Result<(), InitError>)
        ensures
            (final(self)@, r) == install(old(self)@, logger),
    {
        if self.installed.is_some() {
            Err(InitError::AlreadyInstalled)
        } else {
            self.installed = Some(logger);
            Ok(())
        }
    }
}

fn read_severity(env: &Environment, name: &str) -> (r: Severity)
    ensures
        r == env_severity(env@, name@),
{
    match env.lookup(name) {
        Some(v) => parse_filters(v.as_str()),
        None => Severity::Error,
    }
}

fn read_format(env: &Environment, name: &str) -> (r: LogeFormat)
    ensures
        r == env_format(env@, name@),
{
    match env.lookup(name) {
        Some(v) => parse_formats(v.as_str()),
        None => LogeFormat::Target,
    }
}

/// Installs a terminal logger with the given threshold and layout; fails
/// with `AlreadyInstalled`, changing nothing, when a logger is installed.
pub fn try_init_custom(slot: &mut LoggerSlot, level: Severity, config: LogeFormat) -> (r: Result<
    (),
    InitError,
>)
    ensures
        (final(slot)@, r) == install(old(slot)@, terminal_logger(level, config)),
{
    slot.try_install(LogeLogger::new(level, config))
}

/// Installs a logger with the given threshold and layout that writes to the
/// terminal and appends to `log_file`; fails with `AlreadyInstalled`,
/// changing nothing, when a logger is installed.
pub fn try_init_custom_with_file(
    slot: &mut LoggerSlot,
    log_file: String,
    level: Severity,
    config: LogeFormat,
) -> (r: Result<(), InitError>)
    ensures
        (final(slot)@, r) == install(old(slot)@, file_logger(level, config, log_file)),
{
    slot.try_install(LogeLogger::new_with_file(level, config, log_file))
}

/// Installs a terminal logger whose threshold and layout are read from the
/// variables of the given names (`Error` and `Target` when unset); fails
/// with `AlreadyInstalled`, changing nothing, when a logger is installed.
pub fn try_init_custom_env(
    slot: &mut LoggerSlot,
    env: &Environment,
    environment_variable_log: &str,
    environment_variable_format: &str,
) -> (r: Result<(), InitError>)
    ensures
        (final(slot)@, r) == install(
            old(slot)@,
            terminal_logger(
                env_severity(env@, environment_variable_log@),
                env_format(env@, environment_variable_format@),
            ),
        ),
{
    let level = read_severity(env, environment_variable_log);
    let config = read_format(env, environment_variable_format);
    try_init_custom(slot, level, config)
}

/// Installs a logger that also appends to `log_file`, with its threshold
/// and layout read from the variables of the given names (`Error` and
/// `Target` when unset); fails with `AlreadyInstalled`, changing nothing,
/// when a logger is installed.
pub fn try_init_custom_env_with_file(
    slot: &mut LoggerSlot,
    env: &Environment,
    log_file: String,
    environment_variable_log: &str,
    environment_variable_format: &str,
) -> (r: Result<(), InitError>)
    ensures
        (final(slot)@, r) == install(
            old(slot)@,
            file_logger(
                env_severity(env@, environment_variable_log@),
                env_format(env@, environment_variable_format@),
                log_file,
            ),
        ),
{
    let level = read_severity(env, environment_variable_log);
    let config = read_format(env, environment_variable_format);
    try_init_custom_with_file(slot, log_file, level, config)
}

/// Installs a terminal logger configured by `RUST_LOG` and `LOGE_FORMAT`;
/// fails with `AlreadyInstalled`, changing nothing, when a logger is
/// installed.
pub fn try_init(slot: &mut LoggerSlot, env: &Environment) -> (r: Result<(), InitError>)
    ensures
        (final(slot)@, r) == install(
            old(slot)@,
            terminal_logger(env_severity(env@, "RUST_LOG"@), env_format(env@, "LOGE_FORMAT"@)),
        ),
{
    try_init_custom_env(slot, env, "RUST_LOG", "LOGE_FORMAT")
}

/// Installs a logger configured by `RUST_LOG` and `LOGE_FORMAT` that also
/// appends to `log_file`; fails with `AlreadyInstalled`, changing nothing,
/// when a logger is installed.
pub fn try_init_with_file(slot: &mut LoggerSlot, env: &Environment, log_file: String) -> (r:
    Result<(), InitError>)
    ensures
        (final(slot)@, r) == install(
            old(slot)@,
            file_logger(
                env_severity(env@, "RUST_LOG"@),
                env_format(env@, "LOGE_FORMAT"@),
                log_file,
            ),
        ),
{
    try_init_custom_env_with_file(slot, env, log_file, "RUST_LOG", "LOGE_FORMAT")
}

/// Installs a terminal logger configured by `RUST_LOG` and `LOGE_FORMAT`
/// into an empty slot.
pub fn init(slot: &mut LoggerSlot, env: &Environment)
    requires
        old(slot)@ is None,
    ensures
        final(slot)@ == Some(
            terminal_logger(env_severity(env@, "RUST_LOG"@), env_format(env@, "LOGE_FORMAT"@)),
        ),
{
    let r = try_init(slot, env);
    assert(r is Ok);
}

/// Installs a logger configured by `RUST_LOG` and `LOGE_FORMAT` that also
/// appends to `log_file`, into an empty slot.
pub fn init_with_file(slot: &mut LoggerSlot, env: &Environment, log_file: String)
    requires
        old(slot)@ is None,
    ensures
        final(slot)@ == Some(
            file_logger(
                env_severity(env@, "RUST_LOG"@),
                env_format(env@, "LOGE_FORMAT"@),
                log_file,
            ),
        ),
{
    let r = try_init_with_file(slot, env, log_file);
    assert(r is Ok);
}

/// Installs a terminal logger with the given threshold and layout into an
/// empty slot.
pub fn init_custom(slot: &mut LoggerSlot, level: Severity, config: LogeFormat)
    requires
        old(slot)@ is None,
    ensures
        final(slot)@ == Some(terminal_logger(level, config)),
{
    let r = try_init_custom(slot, level, config);
    assert(r is Ok);
}

/// Installs a logger with the given threshold and layout that also appends
/// to `log_file`, into an empty slot.
pub fn init_custom_with_file(
    slot: &mut LoggerSlot,
    log_file: String,
    level: Severity,
    config: LogeFormat,
)
    requires
        old(slot)@ is None,
    ensures
        final(slot)@ == Some(file_logger(level, config, log_file)),
{
    let r = try_init_custom_with_file(slot, log_file, level, config);
    assert(r is Ok);
}

/// Installs a terminal logger whose threshold and layout are read from the
/// variables of the given names, into an empty slot.
pub fn init_custom_env(
    slot: &mut LoggerSlot,
    env: &Environment,
    environment_variable_log: &str,
    environment_variable_format: &str,
)
    requires
        old(slot)@ is None,
    ensures
        final(slot)@ == Some(
            terminal_logger(
                env_severity(env@, environment_variable_log@),
                env_format(env@, environment_variable_format@),
            ),
        ),
{
    let r = try_init_custom_env(slot, env, environment_variable_log, environment_variable_format);
    assert(r is Ok);
}

/// Installs a logger that also appends to `log_file`, with its threshold
/// and layout read from the variables of the given names, into an empty
/// slot.
pub fn init_custom_env_with_file(
    slot: &mut LoggerSlot,
    env: &Environment,
    log_file: String,
    environment_variable_log: &str,
    environment_variable_format: &str,
)
    requires
        old(slot)@ is None,
    ensures
        final(slot)@ == Some(
            file_logger(
                env_severity(env@, environment_variable_log@),
                env_format(env@, environment_variable_format@),
                log_file,
            ),
        ),
{
    let r = try_init_custom_env_with_file(
        slot,
        env,
        log_file,
        environment_variable_log,
        environment_variable_format,
    );
    assert(r is Ok);
}

} // verus!
