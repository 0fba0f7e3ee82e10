use tuigreet::watcher::{apply_reload, on_file_event, watched_file};
use tuigreet::config::Config;
use tuigreet::error::ConfigError;
use tuigreet::parser::ConfigError as FileConfigError;
use tuigreet::schema::Config as FileConfig;
use tuigreet::watcher::{is_config_event, keep_logger_settings, reload_outcome, validated_reload, WatchEventKind};

fn paths(p: &[&str]) -> Vec<String> {
    p.iter().map(|s| s.to_string()).collect()
}

#[test]
fn only_changes_to_watched_files_count() {
    let watched = paths(&["/etc/tuigreet/config.toml", "/home/u/.config/tuigreet/config.toml"]);
    let touched = paths(&["/etc/tuigreet/other.toml", "/etc/tuigreet/config.toml"]);
    assert!(is_config_event(WatchEventKind::Modify, &touched, &watched));
    assert!(is_config_event(WatchEventKind::Create, &touched, &watched));
    assert!(!is_config_event(WatchEventKind::Remove, &touched, &watched));
    assert!(!is_config_event(WatchEventKind::Access, &touched, &watched));
    assert!(!is_config_event(WatchEventKind::Modify, &paths(&["/etc/tuigreet/config.toml.swp"]), &watched));
    assert!(!is_config_event(WatchEventKind::Modify, &Vec::new(), &watched));
}

#[test]
fn reload_keeps_a_configuration_with_warnings_only() {
    let mut config = Config::defaults();
    config.layout.width = 150;
    let loaded = Ok((config, vec![ConfigError::Warning("w".to_string())]));
    assert_eq!(reload_outcome(loaded).unwrap().layout.width, 150);

    let failed_without_errors =
        Err(Box::new((Config::defaults(), Vec::new(), vec![ConfigError::Warning("w".to_string())])));
    assert!(reload_outcome(failed_without_errors).is_ok());
}

#[test]
fn reload_reports_every_error() {
    let failed = Err(Box::new((
        Config::defaults(),
        vec![ConfigError::DuplicateKeybindings, ConfigError::InvalidTimeFormat],
        Vec::new(),
    )));
    assert_eq!(
        reload_outcome(failed).unwrap_err(),
        "duplicate keybindings detected, invalid time format string"
    );
}

#[test]
fn logger_settings_stay() {
    let mut config = Config::defaults();
    config.general.debug = true;
    config.general.log_file = "/var/log/other.log".to_string();
    config.layout.width = 99;
    let (kept, changed) = keep_logger_settings(config, false, "/tmp/tuigreet.log".to_string());
    assert!(changed);
    assert!(!kept.general.debug);
    assert_eq!(kept.general.log_file, "/tmp/tuigreet.log");
    assert_eq!(kept.layout.width, 99);

    let (_, changed) = keep_logger_settings(Config::defaults(), false, "/tmp/tuigreet.log".to_string());
    assert!(!changed);
}

#[test]
fn file_reload_validation() {
    let config = FileConfig::default();
    let validation = config.validate(None);
    assert!(validated_reload(config, validation).is_ok());

    let err = validated_reload(FileConfig::default(), Err(FileConfigError::DuplicateKeybindings));
    assert_eq!(
        err.unwrap_err(),
        "Config validation failed after reload: Duplicate keybindings detected"
    );
}

#[test]
fn file_to_watch() {
    assert_eq!(watched_file(Some("/x.toml".to_string()), Some("/u.toml".to_string()), true), "/x.toml");
    assert_eq!(watched_file(None, Some("/u.toml".to_string()), true), "/u.toml");
    assert_eq!(watched_file(None, Some("/u.toml".to_string()), false), "/etc/tuigreet/config.toml");
    assert_eq!(watched_file(None, None, true), "/etc/tuigreet/config.toml");
}

#[test]
fn a_reload_applies_or_changes_nothing() {
    let mut current = Config::defaults();
    current.general.debug = true;
    current.layout.width = 70;

    let mut reloaded = Config::defaults();
    reloaded.layout.width = 100;
    reloaded.general.log_file = "/var/log/x.log".to_string();
    let step = apply_reload(current.clone(), Ok((reloaded, Vec::new())));
    assert!(step.refresh);
    assert!(step.error.is_none());
    assert!(step.logging_changed);
    assert_eq!(step.config.layout.width, 100);
    assert!(step.config.general.debug);
    assert_eq!(step.config.general.log_file, "/tmp/tuigreet.log");

    let failed = Err(Box::new((Config::defaults(), vec![ConfigError::InvalidTimeFormat], Vec::new())));
    let step = apply_reload(current.clone(), failed);
    assert!(!step.refresh);
    assert_eq!(step.error.as_deref(), Some("invalid time format string"));
    assert_eq!(step.config, current);
}

#[test]
fn file_events_reload_only_on_watched_changes() {
    let watched = paths(&["/etc/tuigreet/config.toml"]);
    let current = Config::defaults();

    let mut called = false;
    let step = on_file_event(current.clone(), WatchEventKind::Access, &watched, &watched, || {
        called = true;
        Ok((Config::defaults(), Vec::new()))
    });
    assert!(!called);
    assert!(!step.refresh);
    assert_eq!(step.config, current);

    let mut reloaded = Config::defaults();
    reloaded.layout.width = 42;
    let step = on_file_event(current.clone(), WatchEventKind::Modify, &watched, &watched, || {
        Ok((reloaded.clone(), Vec::new()))
    });
    assert!(step.refresh);
    assert_eq!(step.config.layout.width, 42);
}
