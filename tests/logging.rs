use logrs::{pretty, GlobalLog, LocalTime, Log, LogLevel, Timestamp};

fn discard(_line: String) {}

fn quiet() -> Log<fn(String)> {
    Log::new(discard as fn(String), false)
}

fn plain() -> Log<fn(String)> {
    Log::new_ex(discard as fn(String), false).disable_ansi().done()
}

fn noon() -> LocalTime {
    LocalTime::new(2024, 3, 7, 12, 4, 9, 56).unwrap()
}

#[allow(dead_code)]
#[derive(Debug)]
struct Field {
    field: &'static str,
}

#[allow(dead_code)]
#[derive(Debug)]
struct Count {
    n: i32,
}

#[test]
fn logrs_should_return_true_if_info_configure_and_loggin_at_error() {
    assert!(quiet().should_log(LogLevel::Error, None))
}

#[test]
fn logrs_should_return_true_if_info_configured_and_logging_at_trace_with_env_var_as_trace() {
    assert!(quiet().should_log(LogLevel::Trace, Some("trace")))
}

#[test]
fn log_should_return_true_if_info_configure_and_loggin_at_error() {
    assert!(Log::new(discard as fn(String), true).should_log(LogLevel::Error, None))
}

#[test]
fn log_should_return_true_if_info_configured_and_logging_at_trace_with_env_var_as_trace() {
    assert!(Log::new(discard as fn(String), true).should_log(LogLevel::Trace, Some("trace")))
}

#[test]
fn default_logger_settings() {
    let log = quiet();
    assert_eq!(log.log_level(), LogLevel::Info);
    assert_eq!(log.prefix(), "");
    assert_eq!(log.context(), "");
    assert_eq!(log.timestamp(), Timestamp::Off);
    assert!(!log.suppress_ansi());
    assert!(Log::new(discard as fn(String), true).suppress_ansi());
}

#[test]
fn threshold_filters_lower_levels() {
    let log = quiet();
    assert!(!log.should_log(LogLevel::Trace, None));
    assert!(!log.should_log(LogLevel::Debug, None));
    assert!(log.should_log(LogLevel::Info, None));
    assert!(log.should_log(LogLevel::Warn, None));
    assert!(log.should_log(LogLevel::Fatal, None));
    assert!(log.should_log(LogLevel::Silent, None));
}

#[test]
fn should_log_is_monotonic_in_level() {
    let levels = [
        LogLevel::Trace,
        LogLevel::Debug,
        LogLevel::Info,
        LogLevel::Warn,
        LogLevel::Error,
        LogLevel::Fatal,
    ];
    for threshold in levels {
        let log = Log::new_ex(discard as fn(String), false).set_log_level(threshold).done();
        for (i, low) in levels.iter().enumerate() {
            if log.should_log(*low, None) {
                for high in &levels[i..] {
                    assert!(log.should_log(*high, None));
                }
            }
            assert_eq!(log.should_log(*low, None), *low >= threshold);
        }
    }
}

#[test]
fn environment_override_replaces_threshold() {
    let log = quiet();
    assert!(log.should_log(LogLevel::Trace, Some("TRACE")));
    assert!(!log.should_log(LogLevel::Error, Some("fatal")));
    assert!(log.should_log(LogLevel::Fatal, Some("Fatal")));
    assert!(!log.should_log(LogLevel::Fatal, Some("silent")));
    // An override that names no level leaves the logger's own threshold.
    assert!(!log.should_log(LogLevel::Debug, Some("loud")));
    assert!(log.should_log(LogLevel::Info, Some("loud")));
}

#[test]
fn trace_override_lets_trace_through() {
    let log = plain();
    let now = noon();
    assert_eq!(log.logger(LogLevel::Trace, "hello", None, &now), None);
    assert_eq!(
        log.logger(LogLevel::Trace, "hello", Some("trace"), &now),
        Some(String::from("TRACE: hello "))
    );
}

#[test]
fn warn_line_without_colour() {
    let log = plain();
    let now = noon();
    assert_eq!(log.format_log(LogLevel::Warn, "disk low", &now), "WARN: disk low ");
    assert_eq!(
        log.logger(LogLevel::Warn, "disk low", None, &now),
        Some(String::from("WARN: disk low "))
    );
    let svc = log.child(Some("svc"));
    assert_eq!(svc.prefix(), " svc");
    assert_eq!(svc.format_log(LogLevel::Warn, "disk low", &now), "WARN: svc disk low ");
}

#[test]
fn warn_line_with_colour() {
    let log = quiet();
    let now = noon();
    assert_eq!(
        log.format_log(LogLevel::Warn, "disk low", &now),
        "\x1B[33mWARN\x1B[39m: disk low "
    );
    assert_eq!(
        log.format_log(LogLevel::Trace, "x", &now),
        "\x1B[90mTRACE\x1B[39m: x "
    );
}

#[test]
fn timestamped_lines() {
    let now = LocalTime::new(2024, 1, 2, 9, 5, 3, 7).unwrap();
    let time = Log::new_ex(discard as fn(String), true).set_timestamp(Timestamp::Time).done();
    assert_eq!(time.format_log(LogLevel::Info, "up", &now), "[09:05:03.007] INFO: up ");
    let full = Log::new_ex(discard as fn(String), true)
        .set_timestamp(Timestamp::DateAndTime)
        .done();
    assert_eq!(
        full.format_log(LogLevel::Error, "down", &now),
        "[2024-01-02 09:05:03.007] ERROR: down "
    );
    assert_eq!(Timestamp::Off.render(&now), "");
    assert_eq!(Timestamp::Time.render(&noon()), "[12:04:09.056] ");
}

#[test]
fn local_time_rejects_out_of_range_parts() {
    assert!(LocalTime::new(2024, 13, 1, 0, 0, 0, 0).is_none());
    assert!(LocalTime::new(2024, 1, 0, 0, 0, 0, 0).is_none());
    assert!(LocalTime::new(2024, 1, 1, 24, 0, 0, 0).is_none());
    assert!(LocalTime::new(2024, 1, 1, 0, 60, 0, 0).is_none());
    assert!(LocalTime::new(2024, 1, 1, 0, 0, 61, 0).is_none());
    assert!(LocalTime::new(2024, 1, 1, 0, 0, 0, 1000).is_none());
    assert!(LocalTime::new(10000, 1, 1, 0, 0, 0, 0).is_none());
    assert!(LocalTime::new(0, 12, 31, 23, 59, 60, 999).is_some());
}

#[test]
fn line_with_data_and_context() {
    let log = plain();
    let now = noon();
    let data = pretty(&Count { n: 1 });
    assert_eq!(data, "Count {\n    n: 1,\n}");
    assert_eq!(
        log.logger_with_data(LogLevel::Info, "got", &data, None, &now),
        Some(String::from("INFO: got\nCount {\n    n: 1,\n} "))
    );
    assert_eq!(log.logger_with_data(LogLevel::Debug, "got", &data, None, &now), None);
    let child = log.child_with_new_context(None, "ctx");
    assert_eq!(child.format_log(LogLevel::Info, "m", &now), "INFO: m \nContext:\nctx");
}

#[test]
fn child_derivation_leaves_parent_unchanged() {
    let parent = Log::new_ex(0u8, true)
        .set_log_level(LogLevel::Warn)
        .set_timestamp(Timestamp::Time)
        .set_logging_function(7u8)
        .done()
        .child(Some("api"));
    let a = parent.child(Some("x"));
    let b = parent.child_with_new_context(Some("y"), "ctx");
    let c = parent.child_with_additional_context(None, "more");
    assert_eq!(parent.prefix(), " api");
    assert_eq!(parent.context(), "");
    assert_eq!(parent.log_level(), LogLevel::Warn);
    assert!(parent.suppress_ansi());
    assert_eq!(parent.timestamp(), Timestamp::Time);
    for child in [&a, &b, &c] {
        assert_eq!(child.log_level(), LogLevel::Warn);
        assert!(child.suppress_ansi());
        assert_eq!(child.timestamp(), Timestamp::Time);
        assert_eq!(child.logging_function(), 7u8);
    }
    assert_eq!(a.prefix(), " api x");
    assert_eq!(b.prefix(), " api y");
    assert_eq!(c.prefix(), " api");
    assert_eq!(c.context(), "\nmore");
}

#[test]
fn context_replaced_then_accumulated() {
    let api = quiet().child(Some("api"));
    let field = pretty(&Field { field: "x" });
    assert_eq!(field, "Field {\n    field: \"x\",\n}");
    let db = api.child_with_new_context(Some("db:"), &field);
    assert_eq!(db.prefix(), " api db:");
    assert!(db.context().starts_with("\nContext:\n"));
    assert_eq!(db.context(), format!("\nContext:\n{}", field));
    let count = pretty(&Count { n: 1 });
    let more = db.child_with_additional_context(None, &count);
    assert_eq!(more.prefix(), " api db:");
    assert_eq!(more.context(), format!("\nContext:\n{}\n{}", field, count));
    assert_eq!(db.context(), format!("\nContext:\n{}", field));
}

#[test]
fn builder_setters_chain() {
    let log = Log::new_ex(0u8, false)
        .set_log_level(LogLevel::Trace)
        .set_timestamp(Timestamp::DateAndTime)
        .disable_ansi()
        .set_logging_function(7u8)
        .done();
    assert_eq!(log.log_level(), LogLevel::Trace);
    assert_eq!(log.timestamp(), Timestamp::DateAndTime);
    assert!(log.suppress_ansi());
    assert_eq!(log.logging_function(), 7u8);
}

#[test]
fn global_setters_fire_once() {
    let mut global = GlobalLog::new(0u8, false);
    global.set_log_level(LogLevel::Trace);
    global.set_log_level(LogLevel::Fatal);
    global.set_timestamp(Timestamp::Time);
    global.set_timestamp(Timestamp::DateAndTime);
    global.disable_ansi();
    global.set_logging_function(7u8);
    global.set_logging_function(9u8);
    let log = global.instance();
    assert_eq!(log.log_level(), LogLevel::Trace);
    assert_eq!(log.timestamp(), Timestamp::Time);
    assert!(log.suppress_ansi());
    assert_eq!(log.logging_function(), 7u8);
}

#[test]
fn global_logger_is_fixed_at_first_use() {
    let mut global = GlobalLog::new(discard as fn(String), false);
    let first = global.instance();
    assert_eq!(first.log_level(), LogLevel::Info);
    // This setter has not been called before, so it changes the pending
    // configuration; the logger in use stays as it was fixed.
    global.set_log_level(LogLevel::Error);
    let again = global.instance();
    assert_eq!(again.log_level(), LogLevel::Info);
    global.set_log_level(LogLevel::Trace);
    assert_eq!(global.instance().log_level(), LogLevel::Info);
}

#[test]
fn unix_time_to_calendar() {
    let epoch = LocalTime::from_unix_millis(0).unwrap();
    assert_eq!(epoch, LocalTime::new(1970, 1, 1, 0, 0, 0, 0).unwrap());
    let t = LocalTime::from_unix_millis(1_700_000_000_123).unwrap();
    assert_eq!(t, LocalTime::new(2023, 11, 14, 22, 13, 20, 123).unwrap());
    let leap = LocalTime::from_unix_millis(951_782_400_000).unwrap();
    assert_eq!(leap, LocalTime::new(2000, 2, 29, 0, 0, 0, 0).unwrap());
    let march = LocalTime::from_unix_millis(951_868_800_000).unwrap();
    assert_eq!(march, LocalTime::new(2000, 3, 1, 0, 0, 0, 0).unwrap());
    let last = LocalTime::from_unix_millis(253_402_300_799_999).unwrap();
    assert_eq!(last, LocalTime::new(9999, 12, 31, 23, 59, 59, 999).unwrap());
    assert!(LocalTime::from_unix_millis(253_402_300_800_000).is_none());
    assert_eq!(Timestamp::DateAndTime.render(&t), "[2023-11-14 22:13:20.123] ");
}
