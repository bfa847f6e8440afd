use logging_toolkit::config::{format_place, min_log_level, root_logger_config, use_json_logger, LoggerConfig};
use logging_toolkit::decimal::to_decimal;
use logging_toolkit::level::LogLevel;

#[test]
fn unset_level_is_info() {
    assert_eq!(min_log_level(None), LogLevel::Info);
}

#[test]
fn level_numbers_select_levels() {
    assert_eq!(min_log_level(Some("1")), LogLevel::Critical);
    assert_eq!(min_log_level(Some("2")), LogLevel::Error);
    assert_eq!(min_log_level(Some("3")), LogLevel::Warning);
    assert_eq!(min_log_level(Some("4")), LogLevel::Info);
    assert_eq!(min_log_level(Some("5")), LogLevel::Debug);
    assert_eq!(min_log_level(Some("6")), LogLevel::Trace);
}

#[test]
fn level_number_written_in_decimal_selects_it() {
    let levels = [
        (1u64, LogLevel::Critical),
        (2, LogLevel::Error),
        (3, LogLevel::Warning),
        (4, LogLevel::Info),
        (5, LogLevel::Debug),
        (6, LogLevel::Trace),
    ];
    for (n, l) in levels.iter() {
        assert_eq!(min_log_level(Some(&to_decimal(*n))), *l);
    }
}

#[test]
fn other_level_texts_fall_back_to_info() {
    assert_eq!(min_log_level(Some("0")), LogLevel::Info);
    assert_eq!(min_log_level(Some("7")), LogLevel::Info);
    assert_eq!(min_log_level(Some("")), LogLevel::Info);
    assert_eq!(min_log_level(Some("debug")), LogLevel::Info);
    assert_eq!(min_log_level(Some("-5")), LogLevel::Info);
    assert_eq!(min_log_level(Some("5 ")), LogLevel::Info);
    assert_eq!(min_log_level(Some("18446744073709551616")), LogLevel::Info);
}

#[test]
fn level_text_read_as_std_reads_numbers() {
    assert_eq!(min_log_level(Some("+3")), LogLevel::Warning);
    assert_eq!(min_log_level(Some("0005")), LogLevel::Debug);
}

#[test]
fn json_only_for_exact_true() {
    assert!(use_json_logger(Some("true")));
    assert!(!use_json_logger(Some("True")));
    assert!(!use_json_logger(Some("true ")));
    assert!(!use_json_logger(Some("tru")));
    assert!(!use_json_logger(Some("1")));
    assert!(!use_json_logger(Some("")));
    assert!(!use_json_logger(None));
}

#[test]
fn config_from_both_variables() {
    assert_eq!(
        root_logger_config(Some("true"), Some("5")),
        LoggerConfig { use_json: true, min_level: LogLevel::Debug }
    );
    assert_eq!(
        root_logger_config(None, None),
        LoggerConfig { use_json: false, min_level: LogLevel::Info }
    );
    assert_eq!(
        root_logger_config(Some("false"), Some("9")),
        LoggerConfig { use_json: false, min_level: LogLevel::Info }
    );
}

#[test]
fn place_is_file_line_module() {
    assert_eq!(format_place("src/lib.rs", 42, "my_crate::net"), "src/lib.rs:42 my_crate::net");
    assert_eq!(format_place("a.rs", 0, "m"), "a.rs:0 m");
    assert_eq!(format_place("", 4294967295, ""), ":4294967295 ");
}
