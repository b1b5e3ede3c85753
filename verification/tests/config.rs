use git_facade::error::ErrorKind;
use git_facade::facade::App;
use git_facade::gitconfig::{interpret_lookup, ConfigLookup};
use std::path::Path;

#[test]
fn set_then_get_round_trips_exact_value() {
    let mut cfg = git2::Config::open(Path::new("/tmp/git_facade_roundtrip.gitconfig")).unwrap();
    let written = App::git_set_global_config(&mut cfg, "test.roundtrip", "value-one").unwrap();
    assert_eq!(written, "value-one");
    let got = App::git_get_global_config(&cfg, "test.roundtrip").unwrap();
    assert_eq!(got, Some("value-one".to_string()));

    // overwriting round-trips the new value as well
    App::git_set_global_config(&mut cfg, "test.roundtrip", "value-two").unwrap();
    let got = App::git_get_global_config(&cfg, "test.roundtrip").unwrap();
    assert_eq!(got, Some("value-two".to_string()));
}

#[test]
fn get_unset_key_is_absent_not_error() {
    let cfg = git2::Config::open(Path::new("/tmp/git_facade_absent.gitconfig")).unwrap();
    let got = App::git_get_global_config(&cfg, "test.neverset").unwrap();
    assert_eq!(got, None);
}

#[test]
fn keys_are_case_insensitive_in_section_and_name() {
    let mut cfg = git2::Config::open(Path::new("/tmp/git_facade_case.gitconfig")).unwrap();
    App::git_set_global_config(&mut cfg, "Test.CaseFold", "kept").unwrap();
    let got = App::git_get_global_config(&cfg, "test.casefold").unwrap();
    assert_eq!(got, Some("kept".to_string()));
}

#[test]
fn failed_lookup_maps_to_config_error_with_message() {
    let r = interpret_lookup(ConfigLookup::Failed("store unreadable".to_string()));
    let err = r.unwrap_err();
    assert_eq!(err.kind, ErrorKind::ConfigError);
    assert_eq!(err.context, "store unreadable");
}

#[test]
fn present_and_absent_lookups_normalize_without_error() {
    assert_eq!(
        interpret_lookup(ConfigLookup::Present("v".to_string())).unwrap(),
        Some("v".to_string())
    );
    assert_eq!(interpret_lookup(ConfigLookup::Absent).unwrap(), None);
}
