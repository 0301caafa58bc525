use logger::decimal::u32_decimal;
use logger::level::LogLevel;
use logger::logger::{CaptureExt, Logger, LoggerConfig};

const LEVELS: [LogLevel; 5] = [
    LogLevel::Debug,
    LogLevel::Info,
    LogLevel::Warning,
    LogLevel::Error,
    LogLevel::Panic,
];

fn rank(lvl: LogLevel) -> u8 {
    lvl.rank()
}

#[test]
fn default_config_values() {
    let cfg = Logger::config();
    assert!(cfg.file_name);
    assert!(cfg.lines);
    assert_eq!(cfg.log_level, LogLevel::Warning);
    let d = LoggerConfig::default();
    assert!(d.file_name);
    assert!(d.lines);
    assert_eq!(d.log_level, LogLevel::Warning);
    let lg = Logger::default();
    assert!(lg.0.file_name);
    assert!(lg.0.lines);
    assert_eq!(lg.0.log_level, LogLevel::Warning);
}

#[test]
fn default_and_noop_setters_emit_identically() {
    let plain = Logger::config().build();
    let touched = Logger::config()
        .enable_file_name(true)
        .enable_lines(true)
        .set_log_level(2)
        .build();
    assert_eq!(plain.0, touched.0);
    let a = plain.render_line(LogLevel::Error, "a.rs", 12, "same call");
    let b = touched.render_line(LogLevel::Error, "a.rs", 12, "same call");
    assert_eq!(a, b);
    assert!(a.is_some());
}

#[test]
fn level_codes_map_bijectively() {
    let expected = [
        (0u8, LogLevel::Debug),
        (1, LogLevel::Info),
        (2, LogLevel::Warning),
        (3, LogLevel::Error),
        (4, LogLevel::Panic),
    ];
    for (code, lvl) in expected {
        let cfg = Logger::config().set_log_level(code);
        assert_eq!(cfg.log_level, lvl);
        let mut lg = Logger::config().build();
        lg.level(code);
        assert_eq!(lg.0.log_level, lvl);
    }
    for code in [5u8, 17, 255] {
        let cfg = Logger::config().set_log_level(code);
        assert_eq!(cfg.log_level, LogLevel::Warning);
        let mut lg = Logger::config().build();
        lg.level(code);
        assert_eq!(lg.0.log_level, LogLevel::Warning);
    }
}

#[test]
fn emission_iff_severity_at_least_minimum() {
    for min_code in 0u8..5 {
        let lg = Logger::config().set_log_level(min_code).build();
        for msg_lvl in LEVELS {
            let r = lg.render_line(msg_lvl, "t.rs", 1, "m");
            assert_eq!(r.is_some(), rank(msg_lvl) >= min_code);
        }
    }
}

#[test]
fn exact_debug_line() {
    let lg = Logger::config()
        .enable_file_name(true)
        .enable_lines(true)
        .set_log_level(0)
        .build();
    let r = lg.render_line(LogLevel::Debug, "src/main.rs", 9, "Hello from debug");
    assert_eq!(
        r.as_deref(),
        Some("\x1b[35mDEBUG: \x1b[34m[src/main.rs \x1b[34mlines: 9] \x1b[0mHello from debug")
    );
    lg.debug("src/main.rs", 9, "Hello from debug");
}

#[test]
fn five_labels_exact() {
    let lg = Logger::config()
        .enable_file_name(false)
        .enable_lines(false)
        .set_log_level(0)
        .build();
    let cases = [
        (LogLevel::Debug, "\x1b[35mDEBUG: \x1b[0mm"),
        (LogLevel::Info, "\x1b[36mLOG: \x1b[0mm"),
        (LogLevel::Warning, "\x1b[33mWARNING: \x1b[0mm"),
        (LogLevel::Error, "\x1b[31mERROR: \x1b[0mm"),
        (LogLevel::Panic, "\x1b[31m\x1b[0m\x1b[41mPANIC\x1b[0m: \x1b[0mm"),
    ];
    for (lvl, expected) in cases {
        assert_eq!(lg.render_line(lvl, "x.rs", 3, "m").as_deref(), Some(expected));
    }
}

#[test]
fn all_five_emit_at_debug_minimum() {
    let lg = Logger::config()
        .enable_file_name(true)
        .enable_lines(true)
        .set_log_level(0)
        .build();
    for lvl in LEVELS {
        assert!(lg.render_line(lvl, "demo.rs", 20, "one line per call").is_some());
    }
    lg.debug("demo.rs", 21, "Hello from debug");
    lg.info("demo.rs", 22, "Hello from info");
    lg.warning("demo.rs", 23, "Hello from warning");
    lg.error("demo.rs", 24, "Hello from error");
    lg.panic("demo.rs", 25, "Hello from panic");
}

#[test]
fn file_segment_toggles_off_independently() {
    let lg = Logger::config()
        .enable_file_name(false)
        .enable_lines(true)
        .set_log_level(0)
        .build();
    let r = lg.render_line(LogLevel::Warning, "some/file.rs", 42, "msg");
    assert_eq!(r.as_deref(), Some("\x1b[33mWARNING: \x1b[34mlines: 42] \x1b[0mmsg"));
    // The file identifier no longer influences the output at all.
    let other = lg.render_line(LogLevel::Warning, "another.rs", 42, "msg");
    assert_eq!(r, other);
}

#[test]
fn lines_segment_toggles_off_independently() {
    let lg = Logger::config()
        .enable_file_name(true)
        .enable_lines(false)
        .set_log_level(0)
        .build();
    let r = lg.render_line(LogLevel::Warning, "some/file.rs", 42, "msg");
    // The bracket opened for the file segment is still closed.
    assert_eq!(r.as_deref(), Some("\x1b[33mWARNING: \x1b[34m[some/file.rs ] \x1b[0mmsg"));
    let other = lg.render_line(LogLevel::Warning, "some/file.rs", 7, "msg");
    assert_eq!(r, other);
}

#[test]
fn in_place_setters_change_output() {
    let mut lg = Logger::config().build();
    assert!(lg.render_line(LogLevel::Info, "f.rs", 1, "m").is_none());
    lg.level(0);
    assert!(lg.render_line(LogLevel::Info, "f.rs", 1, "m").is_some());
    lg.enable_file_name(false);
    lg.enable_lines(false);
    assert_eq!(
        lg.render_line(LogLevel::Info, "f.rs", 1, "m").as_deref(),
        Some("\x1b[36mLOG: \x1b[0mm")
    );
}

#[test]
fn capture_on_error_passes_failure_through() {
    let lg = Logger::config().set_log_level(0).build();
    let res: Result<(), i32> = Err(3);
    let out = res.capture(lg, "cap.rs", 14);
    assert_eq!(out, Err(3));
    assert_eq!(out.unwrap_err(), 3);
    // The text capture hands to the logger at Info severity is the error's
    // text representation; rendered at this configuration it reads:
    let line = lg.render_line(LogLevel::Info, "cap.rs", 14, &3.to_string());
    assert_eq!(
        line.as_deref(),
        Some("\x1b[36mLOG: \x1b[34m[cap.rs \x1b[34mlines: 14] \x1b[0m3")
    );
}

#[test]
fn capture_on_success_passes_value_through() {
    let lg = Logger::config().set_log_level(0).build();
    let res: Result<i32, String> = Ok(7);
    let out = res.capture(lg, "cap.rs", 30);
    assert_eq!(out, Ok(7));
}

#[test]
fn capture_below_minimum_still_passes_through() {
    // Info falls below the default Warning minimum: nothing is emitted,
    // the result still passes through unchanged.
    let lg = Logger::config().build();
    assert!(lg.render_line(LogLevel::Info, "cap.rs", 5, "3").is_none());
    let res: Result<(), i32> = Err(3);
    assert_eq!(res.capture(lg, "cap.rs", 5), Err(3));
}

#[test]
fn decimal_rendering_exact() {
    assert_eq!(u32_decimal(0), "0");
    assert_eq!(u32_decimal(9), "9");
    assert_eq!(u32_decimal(10), "10");
    assert_eq!(u32_decimal(907), "907");
    assert_eq!(u32_decimal(4294967295), "4294967295");
}

#[test]
fn builder_chaining_keeps_other_fields() {
    let cfg = Logger::config()
        .enable_file_name(false)
        .set_log_level(4)
        .enable_lines(false);
    assert!(!cfg.file_name);
    assert!(!cfg.lines);
    assert_eq!(cfg.log_level, LogLevel::Panic);
    let lg = cfg.build();
    assert_eq!(lg.0, cfg);
}
