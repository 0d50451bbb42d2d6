use loge::{
    error_trace_message, init, init_custom, init_custom_env, init_custom_env_with_file,
    init_custom_with_file, init_with_file, parse_filters, parse_formats, try_init,
    try_init_custom, try_init_custom_env, try_init_custom_env_with_file,
    try_init_custom_with_file, try_init_with_file, Environment, InitError, LogRecord,
    LogeFormat, LogeLogger, LoggerSlot, Severity,
};
use loge::render::{render_fileline, render_fileline_colored, render_target, render_target_colored};
use loge::json::{encode_object, render_json};
use loge::style::colored_level;

const ALL: [Severity; 5] =
    [Severity::Trace, Severity::Debug, Severity::Info, Severity::Warn, Severity::Error];

fn record(level: Severity, target: &str, file: Option<&str>, line: Option<u32>, msg: &str) -> LogRecord {
    LogRecord {
        level,
        target: target.to_string(),
        module: Some("app::module".to_string()),
        file: file.map(|f| f.to_string()),
        line,
        message: msg.to_string(),
    }
}

fn strip(s: &str) -> String {
    let mut out = String::new();
    let mut inside = false;
    for c in s.chars() {
        if inside {
            if c == 'm' {
                inside = false;
            }
        } else if c == '\x1b' {
            inside = true;
        } else {
            out.push(c);
        }
    }
    out
}

fn plain_logger(level: Severity, format: LogeFormat) -> LogeLogger {
    LogeLogger::new(level, format).with_color(false)
}

#[test]
fn enabled_follows_severity_order() {
    for (ti, threshold) in ALL.iter().enumerate() {
        let logger = LogeLogger::new(*threshold, LogeFormat::Target);
        for (li, level) in ALL.iter().enumerate() {
            assert_eq!(logger.enabled(*level), li >= ti, "{:?} at {:?}", level, threshold);
        }
    }
}

#[test]
fn error_message_carries_file_and_line() {
    let r = record(Severity::Error, "app", Some("app.rs"), Some(42), "boom");
    assert_eq!(error_trace_message(&r), "boom -> app.rs:42");
}

#[test]
fn error_message_defaults_when_location_unknown() {
    let r = record(Severity::Error, "app", None, None, "boom");
    assert_eq!(error_trace_message(&r), "boom -> <unknown>:-1");
}

#[test]
fn other_messages_are_unchanged() {
    for level in [Severity::Trace, Severity::Debug, Severity::Info, Severity::Warn] {
        let r = record(level, "app", Some("app.rs"), Some(42), "hello");
        assert_eq!(error_trace_message(&r), "hello");
    }
}

#[test]
fn line_numbers_render_in_decimal() {
    for (line, text) in [(0u32, "0"), (7, "7"), (10, "10"), (4294967295, "4294967295")] {
        let r = record(Severity::Error, "t", Some("f.rs"), Some(line), "m");
        assert_eq!(error_trace_message(&r), format!("m -> f.rs:{}", text));
    }
}

#[test]
fn unknown_severity_falls_back_to_error() {
    assert_eq!(parse_filters("verbose"), Severity::Error);
    assert_eq!(parse_filters(""), Severity::Error);
}

#[test]
fn unknown_format_falls_back_to_target() {
    assert_eq!(parse_formats("xml"), LogeFormat::Target);
    assert_eq!(parse_formats(""), LogeFormat::Target);
}

#[test]
fn severities_parse_in_any_case() {
    assert_eq!(parse_filters("trace"), Severity::Trace);
    assert_eq!(parse_filters("DEBUG"), Severity::Debug);
    assert_eq!(parse_filters("Info"), Severity::Info);
    assert_eq!(parse_filters("wArN"), Severity::Warn);
    assert_eq!(parse_filters("error"), Severity::Error);
    assert_eq!(parse_filters("warning"), Severity::Error);
}

#[test]
fn formats_parse_exactly() {
    assert_eq!(parse_formats("target"), LogeFormat::Target);
    assert_eq!(parse_formats("fileline"), LogeFormat::Fileline);
    assert_eq!(parse_formats("json"), LogeFormat::Json);
    assert_eq!(parse_formats("FileLine"), LogeFormat::Target);
    assert_eq!(parse_formats("JSON"), LogeFormat::Target);
    assert_eq!(parse_formats(" json"), LogeFormat::Target);
}

#[test]
fn target_line_layout() {
    let r = record(Severity::Info, "app", Some("app.rs"), Some(3), "ready");
    assert_eq!(
        render_target(Some("2024-05-01 10:00:00.000"), &r, "ready"),
        "2024-05-01 10:00:00.000 [INFO ] app ... ready"
    );
    assert_eq!(render_target(None, &r, "ready"), "[INFO ] app ... ready");
}

#[test]
fn empty_target_falls_back_to_module() {
    let r = record(Severity::Warn, "", None, None, "x");
    assert_eq!(render_target(None, &r, "x"), "[WARN ] app::module ... x");
    let mut bare = record(Severity::Warn, "", None, None, "x");
    bare.module = None;
    assert_eq!(render_target(None, &bare, "x"), "[WARN ]  ... x");
}

#[test]
fn fileline_line_layout() {
    let r = record(Severity::Debug, "app", Some("src/main.rs"), Some(12), "go");
    assert_eq!(
        render_fileline(Some("T"), &r, "go"),
        "T [DEBUG] src/main.rs - app (line 12) ... go"
    );
    let u = record(Severity::Trace, "app", None, None, "go");
    assert_eq!(render_fileline(None, &u, "go"), "[TRACE] <unknown> - app (line -1) ... go");
}

#[test]
fn json_line_has_exactly_the_keys() {
    let combos = [
        (Some("a.rs"), Some(5u32)),
        (Some("a.rs"), None),
        (None, Some(5u32)),
        (None, None),
    ];
    for (file, line) in combos {
        let r = record(Severity::Warn, "svc", file, line, "odd \"quote\" and \\ slash\n");
        let text = render_json(Some("T"), &r, "odd \"quote\" and \\ slash\n", "n", "v");
        let v: serde_json::Value = serde_json::from_str(&text).expect("valid JSON");
        let obj = v.as_object().unwrap();
        let mut keys: Vec<&String> = obj.keys().collect();
        keys.sort();
        assert_eq!(keys, vec!["level", "location", "message", "service", "time"]);
        let loc = obj["location"].as_object().unwrap();
        let mut lk: Vec<&String> = loc.keys().collect();
        lk.sort();
        assert_eq!(lk, vec!["file", "line", "target"]);
        let svc = obj["service"].as_object().unwrap();
        let mut sk: Vec<&String> = svc.keys().collect();
        sk.sort();
        assert_eq!(sk, vec!["name", "version"]);
        assert_eq!(loc["file"].as_str().unwrap(), file.unwrap_or("<unknown>"));
        assert_eq!(loc["line"].as_i64().unwrap(), line.map_or(-1, |l| l as i64));
        assert_eq!(obj["message"].as_str().unwrap(), "odd \"quote\" and \\ slash\n");
    }
}

#[test]
fn json_line_exact_text() {
    let r = record(Severity::Info, "orders::boot", Some("boot.rs"), Some(9), "ready");
    assert_eq!(
        render_json(None, &r, "ready", "orders", "1.2"),
        "{\"level\":\"INFO \",\"location\":{\"file\":\"boot.rs\",\"line\":9,\"target\":\"orders::boot\"},\"message\":\"ready\",\"service\":{\"name\":\"orders\",\"version\":\"1.2\"},\"time\":null}"
    );
}

#[test]
fn json_strings_are_escaped() {
    let r = record(Severity::Info, "t", None, None, "say \"hi\"");
    let text = render_json(None, &r, "say \"hi\"", "", "");
    assert!(text.contains("\"message\":\"say \\\"hi\\\"\""));
}

#[test]
fn encode_object_keeps_order() {
    let entries = vec![
        ("b".to_string(), "1".to_string()),
        ("a".to_string(), "\"x\"".to_string()),
    ];
    assert_eq!(encode_object(&entries), "{\"b\":1,\"a\":\"x\"}");
    assert_eq!(encode_object(&Vec::new()), "{}");
}

#[test]
fn colored_lines_strip_to_plain_lines() {
    colored::control::set_override(true);
    for level in ALL {
        let r = record(level, "app", Some("app.rs"), Some(42), "boom");
        let msg = error_trace_message(&r);
        let colored_target = render_target_colored(Some("T0"), &r, &msg);
        assert_ne!(colored_target, render_target(Some("T0"), &r, &msg));
        assert_eq!(strip(&colored_target), render_target(Some("T0"), &r, &msg));
        let colored_fileline = render_fileline_colored(None, &r, &msg);
        assert_eq!(strip(&colored_fileline), render_fileline(None, &r, &msg));
    }
}

#[test]
fn colors_use_the_documented_codes() {
    colored::control::set_override(true);
    assert_eq!(colored_level(Severity::Trace), "\x1b[36mTRACE\x1b[0m");
    assert_eq!(colored_level(Severity::Debug), "\x1b[34mDEBUG\x1b[0m");
    assert_eq!(colored_level(Severity::Info), "\x1b[32mINFO \x1b[0m");
    assert_eq!(colored_level(Severity::Warn), "\x1b[33mWARN \x1b[0m");
    assert_eq!(colored_level(Severity::Error), "\x1b[31mERROR\x1b[0m");
    let r = record(Severity::Info, "app", Some("f.rs"), Some(1), "m");
    assert_eq!(
        render_fileline_colored(Some("T"), &r, "m"),
        "\x1b[90mT\x1b[0m [\x1b[32mINFO \x1b[0m] \x1b[1mf.rs\x1b[0m - \x1b[1mapp\x1b[0m (line \x1b[35m1\x1b[0m) ... m"
    );
}

#[test]
fn logger_without_colors_prints_the_plain_line() {
    let logger = LogeLogger::new(Severity::Info, LogeFormat::Fileline).with_color(false);
    let r = record(Severity::Info, "app", Some("f.rs"), Some(2), "m");
    let out = logger.dispatch(&r, Some("T"), &Environment::new());
    assert_eq!(out.console.as_deref(), Some("T [INFO ] f.rs - app (line 2) ... m"));
}

#[test]
fn error_scenario_at_trace_threshold() {
    let logger = plain_logger(Severity::Trace, LogeFormat::Target);
    let r = record(Severity::Error, "app", Some("app.rs"), Some(42), "boom");
    let out = logger.dispatch(&r, Some("2024-01-01 00:00:00.000"), &Environment::new());
    assert_eq!(out.console.as_deref(), Some("2024-01-01 00:00:00.000 [ERROR] app ... boom -> app.rs:42"));
    assert_eq!(out.file, None);
    colored::control::set_override(true);
    let colored = LogeLogger::new(Severity::Trace, LogeFormat::Target);
    let out = colored.dispatch(&r, Some("2024-01-01 00:00:00.000"), &Environment::new());
    assert_eq!(
        strip(out.console.as_deref().unwrap()),
        "2024-01-01 00:00:00.000 [ERROR] app ... boom -> app.rs:42"
    );
}

#[test]
fn debug_below_warn_threshold_produces_nothing() {
    let logger = LogeLogger::new_with_file(Severity::Warn, LogeFormat::Target, "x.log".to_string());
    let r = record(Severity::Debug, "app", None, None, "x");
    let out = logger.dispatch(&r, Some("T"), &Environment::new());
    assert!(out.console.is_none());
    assert!(out.file.is_none());
}

#[test]
fn json_scenario_with_service_identity() {
    let mut env = Environment::new();
    env.set("SERVICE_NAME", "orders");
    env.set("SERVICE_VERSION", "1.2");
    let logger = plain_logger(Severity::Trace, LogeFormat::Json);
    let r = record(Severity::Info, "orders::boot", None, None, "ready");
    let out = logger.dispatch(&r, Some("T"), &env);
    let line = out.console.unwrap();
    assert!(line.contains("\"service\":{\"name\":\"orders\",\"version\":\"1.2\"}"));
    assert!(line.contains("\"message\":\"ready\""));
    assert!(line.contains("\"target\":\"orders::boot\""));
    colored::control::set_override(true);
    let colored = LogeLogger::new(Severity::Trace, LogeFormat::Json);
    let stripped = strip(&colored.dispatch(&r, Some("T"), &env).console.unwrap());
    assert_eq!(stripped, line);
}

#[test]
fn service_identity_precedence() {
    let mut env = Environment::new();
    assert_eq!(env.service_name(), "");
    assert_eq!(env.service_version(), "");
    env.set("CARGO_PKG_NAME", "pkg");
    env.set("CARGO_PKG_VERSION", "0.1.0");
    assert_eq!(env.service_name(), "pkg");
    assert_eq!(env.service_version(), "0.1.0");
    env.set("SERVICE_NAME", "svc");
    assert_eq!(env.service_name(), "svc");
    assert_eq!(env.service_version(), "0.1.0");
}

#[test]
fn first_variable_of_a_name_counts() {
    let mut env = Environment::new();
    env.set("RUST_LOG", "warn");
    env.set("RUST_LOG", "trace");
    assert_eq!(env.lookup("RUST_LOG"), Some("warn".to_string()));
    assert_eq!(env.lookup("LOGE_FORMAT"), None);
}

#[test]
fn file_gets_plain_line_while_terminal_is_colored() {
    colored::control::set_override(true);
    let logger = LogeLogger::new_with_file(Severity::Info, LogeFormat::Fileline, "a.log".to_string());
    let r = record(Severity::Warn, "app", Some("w.rs"), Some(8), "careful");
    let out = logger.dispatch(&r, Some("T"), &Environment::new());
    let file = out.file.unwrap();
    assert_eq!(file, "T [WARN ] w.rs - app (line 8) ... careful");
    assert!(!file.contains('\x1b'));
    let console = out.console.unwrap();
    assert!(console.contains('\x1b'));
    assert_eq!(strip(&console), file);
}

#[test]
fn colored_json_strips_to_the_plain_json_line() {
    colored::control::set_override(true);
    let mut env = Environment::new();
    env.set("SERVICE_NAME", "orders");
    env.set("SERVICE_VERSION", "1.2");
    let logger = LogeLogger::new_with_file(Severity::Trace, LogeFormat::Json, "j.log".to_string());
    let r = record(Severity::Error, "orders::boot", Some("boot.rs"), Some(7), "odd \x1b[31m text");
    let out = logger.dispatch(&r, Some("T"), &env);
    let console = out.console.unwrap();
    let file = out.file.unwrap();
    assert!(console.contains("\x1b[36m\"message\"\x1b[0m"));
    assert!(console.contains("\x1b[35m7\x1b[0m"));
    assert!(console.contains("\x1b[32m\"orders\"\x1b[0m"));
    assert_eq!(strip(&console), file);
    assert!(!file.contains('\n'));
    let v: serde_json::Value = serde_json::from_str(&file).expect("valid JSON");
    assert_eq!(v["message"].as_str(), Some("odd \x1b[31m text -> boot.rs:7"));
    assert_eq!(v["service"]["name"].as_str(), Some("orders"));
}

#[test]
fn json_escapes_control_characters() {
    let r = record(Severity::Info, "t", None, None, "a\tb\x1bc\x01");
    let text = render_json(None, &r, "a\tb\x1bc\x01", "", "");
    assert!(text.contains("\"message\":\"a\\tb\\u001bc\\u0001\""));
    assert!(!text.contains('\x1b'));
}

#[test]
fn log_below_threshold_produces_nothing() {
    let logger = LogeLogger::new(Severity::Error, LogeFormat::Target);
    let r = record(Severity::Warn, "app", None, None, "quiet");
    let out = logger.log(&r, &Environment::new());
    assert!(out.console.is_none());
    assert!(out.file.is_none());
}

#[test]
fn log_stamps_the_local_time() {
    let logger = LogeLogger::new_with_file(Severity::Trace, LogeFormat::Target, "b.log".to_string())
        .with_color(false);
    let r = record(Severity::Info, "app", None, None, "hi");
    let out = logger.log(&r, &Environment::new());
    let line = out.console.unwrap();
    assert!(line.ends_with(" [INFO ] app ... hi"));
    let time = &line[..line.len() - " [INFO ] app ... hi".len()];
    assert_eq!(time.len(), 23);
    assert_eq!(out.file.unwrap(), line);
}

#[test]
fn second_installation_fails_and_keeps_the_first() {
    let mut slot = LoggerSlot::new();
    assert!(slot.installed().is_none());
    assert_eq!(try_init_custom(&mut slot, Severity::Info, LogeFormat::Json), Ok(()));
    assert_eq!(
        try_init_custom(&mut slot, Severity::Trace, LogeFormat::Target),
        Err(InitError::AlreadyInstalled)
    );
    let installed = slot.installed().unwrap();
    assert_eq!(installed.level, Severity::Info);
    assert_eq!(installed.config, LogeFormat::Json);
    assert_eq!(installed.log_file, None);
}

#[test]
fn every_fallible_entry_point_refuses_a_second_logger() {
    let env = Environment::new();
    let mut slot = LoggerSlot::new();
    init_custom(&mut slot, Severity::Warn, LogeFormat::Fileline);
    let f = || "c.log".to_string();
    assert_eq!(try_init(&mut slot, &env), Err(InitError::AlreadyInstalled));
    assert_eq!(try_init_with_file(&mut slot, &env, f()), Err(InitError::AlreadyInstalled));
    assert_eq!(try_init_custom(&mut slot, Severity::Trace, LogeFormat::Target), Err(InitError::AlreadyInstalled));
    assert_eq!(
        try_init_custom_with_file(&mut slot, f(), Severity::Trace, LogeFormat::Target),
        Err(InitError::AlreadyInstalled)
    );
    assert_eq!(try_init_custom_env(&mut slot, &env, "A", "B"), Err(InitError::AlreadyInstalled));
    assert_eq!(
        try_init_custom_env_with_file(&mut slot, &env, f(), "A", "B"),
        Err(InitError::AlreadyInstalled)
    );
    let installed = slot.installed().unwrap();
    assert_eq!(installed.level, Severity::Warn);
    assert_eq!(installed.config, LogeFormat::Fileline);
}

#[test]
fn environment_entry_points_read_their_variables() {
    let mut env = Environment::new();
    env.set("MY_LEVEL", "debug");
    env.set("MY_FORMAT", "fileline");
    let mut slot = LoggerSlot::new();
    init_custom_env(&mut slot, &env, "MY_LEVEL", "MY_FORMAT");
    let l = slot.installed().unwrap();
    assert_eq!(l.level, Severity::Debug);
    assert_eq!(l.config, LogeFormat::Fileline);

    let mut slot = LoggerSlot::new();
    init_custom_env_with_file(&mut slot, &env, "d.log".to_string(), "MY_LEVEL", "NOT_SET");
    let l = slot.installed().unwrap();
    assert_eq!(l.level, Severity::Debug);
    assert_eq!(l.config, LogeFormat::Target);
    assert_eq!(l.log_file.as_deref(), Some("d.log"));
}

#[test]
fn unset_variables_give_the_defaults() {
    let env = Environment::new();
    let mut slot = LoggerSlot::new();
    init(&mut slot, &env);
    let l = slot.installed().unwrap();
    assert_eq!(l.level, Severity::Error);
    assert_eq!(l.config, LogeFormat::Target);
    assert!(l.color);
}

#[test]
fn file_entry_points_keep_the_path() {
    let mut env = Environment::new();
    env.set("RUST_LOG", "info");
    env.set("LOGE_FORMAT", "json");
    let mut slot = LoggerSlot::new();
    init_with_file(&mut slot, &env, "e.log".to_string());
    let l = slot.installed().unwrap();
    assert_eq!((l.level, l.config), (Severity::Info, LogeFormat::Json));
    assert_eq!(l.log_file.as_deref(), Some("e.log"));

    let mut slot = LoggerSlot::new();
    init_custom_with_file(&mut slot, "g.log".to_string(), Severity::Warn, LogeFormat::Target);
    let l = slot.installed().unwrap();
    assert_eq!((l.level, l.config), (Severity::Warn, LogeFormat::Target));
    assert_eq!(l.log_file.as_deref(), Some("g.log"));
}

fn run_events(slot: &LoggerSlot, env: &Environment) -> Vec<String> {
    let logger = slot.installed().unwrap().clone().with_color(false);
    let events = [
        (Severity::Trace, "one level deep!"),
        (Severity::Debug, "deboogging"),
        (Severity::Info, "such information"),
        (Severity::Warn, "o_O"),
        (Severity::Error, "boom"),
    ];
    let mut lines = Vec::new();
    for (level, msg) in events {
        let r = record(level, "simple_log", Some("tests/simple-log.rs"), Some(20), msg);
        if let Some(line) = logger.dispatch(&r, Some("T"), env).console {
            lines.push(line);
        }
    }
    lines
}

#[test]
fn test_loge() {
    let mut env = Environment::new();
    env.set("RUST_LOG", "trace");
    let mut slot = LoggerSlot::new();
    init(&mut slot, &env);
    let lines = run_events(&slot, &env);
    assert_eq!(lines.len(), 5);
    assert_eq!(lines[1], "T [DEBUG] simple_log ... deboogging");
    assert_eq!(lines[2], "T [INFO ] simple_log ... such information");
    assert_eq!(lines[3], "T [WARN ] simple_log ... o_O");
    assert_eq!(lines[4], "T [ERROR] simple_log ... boom -> tests/simple-log.rs:20");
}

#[test]
fn test_fileline_loge() {
    let mut env = Environment::new();
    env.set("RUST_LOG", "trace");
    env.set("LOGE_FORMAT", "json");
    let mut slot = LoggerSlot::new();
    init(&mut slot, &env);
    let lines = run_events(&slot, &env);
    assert_eq!(lines.len(), 5);
    let messages = ["one level deep!", "deboogging", "such information", "o_O", "boom -> tests/simple-log.rs:20"];
    for (line, msg) in lines.iter().zip(messages) {
        let v: serde_json::Value = serde_json::from_str(line).expect("valid JSON");
        assert_eq!(v["message"].as_str(), Some(msg));
    }
}
