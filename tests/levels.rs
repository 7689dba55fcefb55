use logrs::{default_colour_for, Colour, LogLevel, ParseLogLevelError};
use std::str::FromStr;

fn all() -> Vec<LogLevel> {
    vec![
        LogLevel::Trace,
        LogLevel::Debug,
        LogLevel::Info,
        LogLevel::Warn,
        LogLevel::Error,
        LogLevel::Fatal,
        LogLevel::Silent,
    ]
}

#[test]
fn levels_are_ordered_by_ordinal() {
    for (i, a) in all().iter().enumerate() {
        assert_eq!(a.rank() as usize, i + 1);
        for (j, b) in all().iter().enumerate() {
            assert_eq!(a < b, i < j);
            assert_eq!(a >= b, i >= j);
            assert_eq!(a == b, i == j);
        }
    }
    assert!(LogLevel::Fatal < LogLevel::Silent);
    assert!(LogLevel::Trace < LogLevel::Debug && LogLevel::Debug < LogLevel::Info);
}

#[test]
fn names_parse_in_any_case() {
    assert_eq!(LogLevel::parse("trace"), Ok(LogLevel::Trace));
    assert_eq!(LogLevel::parse("TRACE"), Ok(LogLevel::Trace));
    assert_eq!(LogLevel::parse("Debug"), Ok(LogLevel::Debug));
    assert_eq!(LogLevel::parse("iNfO"), Ok(LogLevel::Info));
    assert_eq!(LogLevel::parse("WARN"), Ok(LogLevel::Warn));
    assert_eq!(LogLevel::parse("Error"), Ok(LogLevel::Error));
    assert_eq!(LogLevel::parse("FATAL"), Ok(LogLevel::Fatal));
    assert_eq!(LogLevel::parse("silent"), Ok(LogLevel::Silent));
    assert_eq!(LogLevel::from_str("Warn"), Ok(LogLevel::Warn));
}

#[test]
fn parse_then_display_gives_uppercase_name() {
    let names = ["TRACE", "DEBUG", "INFO", "WARN", "ERROR", "FATAL", "SILENT"];
    for (level, name) in all().iter().zip(names.iter()) {
        assert_eq!(level.display_name(), *name);
        let lower = name.to_lowercase();
        assert_eq!(LogLevel::parse(&lower).unwrap().to_display_name(), *name);
        assert_eq!(LogLevel::parse(name).unwrap().to_display_name(), *name);
    }
}

#[test]
fn unknown_names_fail_to_parse() {
    assert_eq!(LogLevel::parse("verbose"), Err(ParseLogLevelError));
    assert_eq!(LogLevel::parse(""), Err(ParseLogLevelError));
    assert_eq!(LogLevel::parse("info "), Err(ParseLogLevelError));
    assert_eq!(LogLevel::from_lowercase_name("INFO"), Err(ParseLogLevelError));
    assert_eq!(LogLevel::from_lowercase_name("info"), Ok(LogLevel::Info));
}

#[test]
fn levels_map_to_their_colours() {
    assert_eq!(default_colour_for(LogLevel::Trace), Colour::Grey);
    assert_eq!(default_colour_for(LogLevel::Debug), Colour::Magenta);
    assert_eq!(default_colour_for(LogLevel::Info), Colour::Blue);
    assert_eq!(default_colour_for(LogLevel::Warn), Colour::Yellow);
    assert_eq!(default_colour_for(LogLevel::Error), Colour::Red);
    assert_eq!(default_colour_for(LogLevel::Fatal), Colour::Red);
    assert_eq!(default_colour_for(LogLevel::Silent), Colour::Off);
    assert_eq!(Colour::from(LogLevel::Warn), Colour::Yellow);
}
