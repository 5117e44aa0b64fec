use better_export::paths::{extension, join_path, with_extension};
use better_export::text::{contains_str, replace_str};
use better_export::{resolve_destination, ConfigError};

#[test]
fn date_substituted_and_extension_inherited() {
    let r = resolve_destination("archive{DATE}", "2024", Some("report.csv"));
    assert_eq!(r, Ok("archive2024.csv".to_string()));
}

#[test]
fn plain_template_takes_source_extension() {
    let r = resolve_destination("out", "", Some("data.json"));
    assert_eq!(r, Ok("out.json".to_string()));
}

#[test]
fn every_placeholder_gets_the_same_date() {
    let r = resolve_destination("{DATE}/a{DATE}b{DATE}.txt", "X", None);
    assert_eq!(r, Ok("X/aXbX.txt".to_string()));
}

#[test]
fn existing_extension_is_kept() {
    let r = resolve_destination("out.txt", "", Some("data.json"));
    assert_eq!(r, Ok("out.txt".to_string()));
    let r = resolve_destination("{DATE}.log", "2024", Some("data.json"));
    assert_eq!(r, Ok("2024.log".to_string()));
}

#[test]
fn source_without_extension_leaves_destination() {
    let r = resolve_destination("out", "", Some("dir.d/README"));
    assert_eq!(r, Ok("out".to_string()));
}

#[test]
fn missing_source_is_an_error_without_extension() {
    assert_eq!(resolve_destination("out", "", None), Err(ConfigError::SourceRequired));
}

#[test]
fn resolution_without_placeholder_is_stable() {
    let a = resolve_destination("backup/out", "2024", Some("x.tar"));
    let b = resolve_destination("backup/out", "1999", Some("x.tar"));
    assert_eq!(a, b);
    assert_eq!(a, Ok("backup/out.tar".to_string()));
}

#[test]
fn hidden_file_name_has_no_extension() {
    assert_eq!(extension(".bashrc"), None);
    assert_eq!(extension("a.d/file"), None);
    assert_eq!(extension("file."), Some("".to_string()));
    assert_eq!(extension("dir/arch.tar.gz"), Some("gz".to_string()));
    assert_eq!(extension(".."), None);
    assert_eq!(extension("dir/"), None);
}

#[test]
fn extension_appended_after_dot() {
    assert_eq!(with_extension("a/b", "txt"), "a/b.txt");
    assert_eq!(with_extension(".hidden", "txt"), ".hidden.txt");
    assert_eq!(with_extension("a/", "txt"), "a.txt");
    assert_eq!(with_extension("a/.", "txt"), "a.txt");
    assert_eq!(with_extension("/", "txt"), "/");
    assert_eq!(with_extension("a/..", "txt"), "a/..");
    assert_eq!(with_extension("a", ""), "a");
    assert_eq!(with_extension("out/", ""), "out");
}

#[test]
fn hidden_destination_takes_extension() {
    let r = resolve_destination(".out", "", Some("data.json"));
    assert_eq!(r, Ok(".out.json".to_string()));
}

#[test]
fn replace_and_contains() {
    assert!(contains_str("ab{DATE}", "{DATE}"));
    assert!(!contains_str("ab{DAT", "{DATE}"));
    assert_eq!(replace_str("aaa", "aa", "b"), "ba");
    assert_eq!(replace_str("été {DATE}", "{DATE}", "ü"), "été ü");
}

#[test]
fn join_inserts_separator() {
    assert_eq!(join_path("/opt/app", "config.ini"), "/opt/app/config.ini");
    assert_eq!(join_path("/opt/app/", "config.ini"), "/opt/app/config.ini");
    assert_eq!(join_path("", "config.ini"), "config.ini");
}

#[test]
fn trailing_separator_is_dropped_before_extension() {
    assert_eq!(resolve_destination("out/", "", Some("data.csv")), Ok("out.csv".to_string()));
    assert_eq!(resolve_destination("out/./", "", Some("data.csv")), Ok("out.csv".to_string()));
    assert_eq!(resolve_destination("out/", "", Some("data.")), Ok("out".to_string()));
    assert_eq!(extension("dir/a.txt/"), Some("txt".to_string()));
}
