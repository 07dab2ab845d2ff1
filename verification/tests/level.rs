use fido::level::{choose_log_level, level_from_name, parse_log_level, LogLevel};

#[test]
fn five_names_give_five_levels() {
    assert_eq!(parse_log_level("error"), Some(LogLevel::Error));
    assert_eq!(parse_log_level("warn"), Some(LogLevel::Warn));
    assert_eq!(parse_log_level("info"), Some(LogLevel::Info));
    assert_eq!(parse_log_level("debug"), Some(LogLevel::Debug));
    assert_eq!(parse_log_level("trace"), Some(LogLevel::Trace));
}

#[test]
fn case_of_the_letters_does_not_count() {
    assert_eq!(parse_log_level("ERROR"), Some(LogLevel::Error));
    assert_eq!(parse_log_level("Warn"), Some(LogLevel::Warn));
    assert_eq!(parse_log_level("iNfO"), Some(LogLevel::Info));
    assert_eq!(parse_log_level("DEBUG"), Some(LogLevel::Debug));
    assert_eq!(parse_log_level("TrAcE"), Some(LogLevel::Trace));
}

#[test]
fn other_names_give_no_level() {
    assert_eq!(parse_log_level(""), None);
    assert_eq!(parse_log_level("verbose"), None);
    assert_eq!(parse_log_level(" info"), None);
    assert_eq!(parse_log_level("info "), None);
    assert_eq!(parse_log_level("warning"), None);
}

#[test]
fn name_is_taken_as_it_stands() {
    assert_eq!(level_from_name("info"), Some(LogLevel::Info));
    assert_eq!(level_from_name("INFO"), None);
    assert_eq!(level_from_name("inf"), None);
    assert_eq!(level_from_name("infos"), None);
}

#[test]
fn unknown_name_falls_back_to_info() {
    assert_eq!(choose_log_level("debug"), (LogLevel::Debug, true));
    assert_eq!(choose_log_level("INFO"), (LogLevel::Info, true));
    assert_eq!(choose_log_level("loud"), (LogLevel::Info, false));
    assert_eq!(choose_log_level(""), (LogLevel::Info, false));
}

#[test]
fn level_is_the_one_that_its_name_gives() {
    for level in [LogLevel::Error, LogLevel::Warn, LogLevel::Info, LogLevel::Debug, LogLevel::Trace] {
        assert_eq!(parse_log_level(level.name()), Some(level));
    }
    assert_eq!(LogLevel::Error.name(), "error");
    assert_eq!(LogLevel::Warn.name(), "warn");
    assert_eq!(LogLevel::Info.name(), "info");
    assert_eq!(LogLevel::Debug.name(), "debug");
    assert_eq!(LogLevel::Trace.name(), "trace");
}
