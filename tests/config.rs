use better_export::{level_filter, Config, ConfigError, LogLevel, Options};

fn opts(
    src: Option<&str>,
    path: Option<&str>,
    default_path: Option<&str>,
    date: Option<&str>,
    reset: bool,
) -> Options {
    Options::new(
        src.map(String::from),
        path.map(String::from),
        default_path.map(String::from),
        date.map(String::from),
        reset,
        None,
        0,
    )
}

#[test]
fn override_path_resolves_with_source_extension() {
    let conf = Config::from(opts(Some("data.json"), Some("out"), None, None, false), None).unwrap();
    assert_eq!(conf.path_dst(), Ok("out.json".to_string()));
}

#[test]
fn reset_ignores_explicit_path() {
    let stored = "default-path=file{DATE}\npath=elsewhere\ndate=%Y\n";
    let conf = Config::from(opts(None, Some("custom"), None, None, true), Some(stored)).unwrap();
    assert_eq!(conf.value("path"), Some("file{DATE}".to_string()));
    assert_eq!(conf.value("default-path"), Some("file{DATE}".to_string()));
}

#[test]
fn reset_uses_new_default() {
    let stored = "default-path=file{DATE}\npath=elsewhere\ndate=%Y\n";
    let conf = Config::from(opts(None, Some("custom"), Some("new"), None, true), Some(stored)).unwrap();
    assert_eq!(conf.value("path"), Some("new".to_string()));
}

#[test]
fn overrides_replace_stored_values() {
    let stored = "default-path=d\npath=p\ndate=%Y\n";
    let conf = Config::from(opts(None, Some("q"), None, Some("%m"), false), Some(stored)).unwrap();
    assert_eq!(conf.value("path"), Some("q".to_string()));
    assert_eq!(conf.value("date"), Some("%m".to_string()));
    assert_eq!(conf.value("default-path"), Some("d".to_string()));
}

#[test]
fn absent_overrides_keep_stored_values() {
    let stored = "default-path=d\npath=p.txt\ndate=%Y\n";
    let conf = Config::from(opts(None, None, None, None, false), Some(stored)).unwrap();
    assert_eq!(conf.value("path"), Some("p.txt".to_string()));
    assert_eq!(conf.path_dst(), Ok("p.txt".to_string()));
}

#[test]
fn missing_file_gets_defaults() {
    let conf = Config::from(opts(None, None, None, None, false), None).unwrap();
    assert_eq!(conf.value("default-path"), Some("file{DATE}".to_string()));
    assert_eq!(conf.value("path"), Some("file{DATE}".to_string()));
    assert_eq!(conf.value("date"), Some("%Y%m%d_%H%M%S".to_string()));
    assert!(conf.rebuilt);
    let text = conf.to_text();
    assert!(text.contains("default-path=file{DATE}"));
    assert!(text.contains("path=file{DATE}"));
    assert!(text.contains("date=%Y%m%d_%H%M%S"));
}

#[test]
fn corrupt_file_gets_defaults() {
    let conf = Config::from(opts(None, None, None, None, false), Some("[broken\n")).unwrap();
    assert!(conf.rebuilt);
    assert_eq!(conf.value("path"), Some("file{DATE}".to_string()));
    assert_eq!(conf.value("date"), Some("%Y%m%d_%H%M%S".to_string()));
}

#[test]
fn file_without_general_section_gets_defaults() {
    let conf = Config::from(opts(None, None, None, None, false), Some("[other]\npath=x\n")).unwrap();
    assert_eq!(conf.value("path"), Some("file{DATE}".to_string()));
}

#[test]
fn fresh_store_takes_overrides() {
    let conf = Config::from(opts(None, Some("out"), Some("base"), Some("%Y"), false), None).unwrap();
    assert_eq!(conf.value("path"), Some("out".to_string()));
    assert_eq!(conf.value("default-path"), Some("base".to_string()));
    assert_eq!(conf.value("date"), Some("%Y".to_string()));
}

#[test]
fn missing_keys_are_errors() {
    let conf = Config::from(opts(Some("a.txt"), None, None, None, false), Some("date=%Y\n")).unwrap();
    assert_eq!(conf.path_dst(), Err(ConfigError::MissingPath));
    let conf = Config::from(opts(Some("a.txt"), None, None, None, false), Some("path=x\n")).unwrap();
    assert_eq!(conf.path_dst(), Err(ConfigError::MissingDateFormat));
}

#[test]
fn date_placeholder_uses_current_time() {
    let conf = Config::from(opts(Some("a.csv"), Some("x{DATE}"), None, Some("%Y"), false), None).unwrap();
    let dst = conf.path_dst().unwrap();
    assert!(dst.starts_with('x'));
    assert!(dst.ends_with(".csv"));
    assert_eq!(dst.len(), 9);
    assert!(dst[1..5].chars().all(|c| c.is_ascii_digit()));
}

#[test]
fn invalid_date_format_is_an_error() {
    let conf = Config::from(opts(Some("a.csv"), Some("x{DATE}"), None, Some("%Q"), false), None).unwrap();
    assert_eq!(conf.path_dst(), Err(ConfigError::DateFormat));
}

#[test]
fn source_path_passed_through() {
    let conf = Config::from(opts(Some("a.csv"), None, None, None, false), None).unwrap();
    assert_eq!(conf.path_src(), Some("a.csv".to_string()));
}

#[test]
fn config_path_resolution() {
    let o = Options::new(None, None, None, None, false, Some("my.ini".to_string()), 0);
    assert_eq!(o.path_conf(Some("/opt/app")), Ok("my.ini".to_string()));
    let o = Options::new(None, None, None, None, false, None, 0);
    assert_eq!(o.path_conf(Some("/opt/app")), Ok("/opt/app/config.ini".to_string()));
    assert_eq!(o.path_conf(None), Err(ConfigError::ConfigAccess));
}

#[test]
fn verbosity_levels() {
    let level = |v: u64| level_filter(&Options::new(None, None, None, None, false, None, v));
    assert_eq!(level(0), LogLevel::Warn);
    assert_eq!(level(1), LogLevel::Info);
    assert_eq!(level(2), LogLevel::Debug);
    assert_eq!(level(7), LogLevel::Trace);
}

#[test]
fn update_needed_only_with_overrides() {
    assert!(!opts(Some("a"), None, None, None, false).do_update_conf());
    assert!(opts(None, None, None, None, true).do_update_conf());
    assert!(opts(None, None, None, Some("%Y"), false).do_update_conf());
}

#[test]
fn reset_without_default_is_an_error() {
    let stored = "path=elsewhere.txt\ndate=%Y\n";
    let r = Config::from(opts(Some("a.csv"), None, None, None, true), Some(stored));
    assert_eq!(r.err(), Some(ConfigError::MissingDefaultPath));
    let conf = Config::from(opts(Some("a.csv"), None, Some("base"), None, true), Some(stored)).unwrap();
    assert_eq!(conf.value("path"), Some("base".to_string()));
}

#[test]
fn written_text_holds_values_unescaped() {
    let stored = "default-path=C:\\out\\{DATE}\npath=p\ndate=%Y\n";
    let conf = Config::from(opts(None, None, None, None, false), Some(stored)).unwrap();
    assert!(!conf.rebuilt);
    let text = conf.to_text();
    assert!(text.contains("default-path=C:\\out\\{DATE}"));
    let again = Config::from(opts(None, None, None, None, false), Some(&text)).unwrap();
    assert_eq!(again.value("default-path"), conf.value("default-path"));
    assert_eq!(again.value("path"), Some("p".to_string()));
    assert_eq!(again.to_text(), text);
}

#[test]
fn merge_keeps_unrelated_keys() {
    let stored = "default-path=d\npath=p\ndate=%Y\nextra=kept\n";
    let conf = Config::from(opts(None, Some("q"), Some("e"), Some("%m"), true), Some(stored)).unwrap();
    assert_eq!(conf.value("extra"), Some("kept".to_string()));
    assert_eq!(conf.value("path"), Some("e".to_string()));
}
