use tuigreet::config::{OutputConfig, TerminalConfig};
use tuigreet::parser::ConfigError;
use tuigreet::schema::Config;
use tuigreet::validation::WrapperLookup;

fn output(connector: &str, enabled: bool, primary: bool) -> OutputConfig {
    OutputConfig { connector: connector.to_string(), enabled, primary }
}

/// A configuration with only the given connector set in one `[[outputs]]`
/// entry (`enabled` and `primary` at their defaults).
fn with_connector(connector: &str) -> Config {
    let mut config = Config::default();
    config.outputs = vec![output(connector, true, false)];
    config
}

fn nothing_found() -> Option<WrapperLookup> {
    Some(WrapperLookup { session_wrapper_found: false, xsession_wrapper_found: false })
}

#[test]
fn test_mutual_exclusive_remember_flags() {
    // [remember] username = true, session = true, user_session = true
    let mut config = Config::default();
    config.remember.username = true;
    config.remember.session = true;
    config.remember.user_session = true;

    assert!(config.remember.session);
    assert!(config.remember.user_session);

    let result = config.validate(None);
    assert!(
        result.is_ok(),
        "Both remember.session and remember.user_session being true should produce a warning, not an error"
    );

    let warnings = result.unwrap();
    assert!(
        warnings
            .iter()
            .any(|w| { w.contains("remember.session") && w.contains("remember.user_session") }),
        "Expected a warning about conflicting remember options, got: {:?}",
        warnings
    );
}

#[test]
fn test_keybindings_distinctness_in_config() {
    // [keybindings] command = 3, sessions = 3, power = 7
    let mut config = Config::default();
    config.keybindings.command = 3;
    config.keybindings.sessions = 3;
    config.keybindings.power = 7;
    let validation_result = config.validate(None);

    match validation_result {
        Err(ConfigError::DuplicateKeybindings) => {},
        _ => {
            panic!("Expected DuplicateKeybindings error, got: {:?}", validation_result);
        },
    }
}

#[test]
fn test_wrapper_validation_empty_string() {
    // [session] session_wrapper = ""
    let mut config = Config::default();
    config.session.session_wrapper = Some(String::new());

    config.session.xsession_wrapper = None;

    let result = config.validate(nothing_found());

    assert!(result.is_err(), "Empty wrapper command should fail validation");
}

#[test]
fn test_outputs_toml_roundtrip() {
    let mut config = Config::default();
    config.outputs = vec![output("DP-1", true, true), output("HDMI-A-1", false, false)];

    assert_eq!(config.outputs.len(), 2);
    assert_eq!(config.outputs[0].connector, "DP-1");
    assert!(config.outputs[0].primary);
    assert!(config.outputs[0].enabled);
    assert_eq!(config.outputs[1].connector, "HDMI-A-1");
    assert!(!config.outputs[1].primary);
    assert!(!config.outputs[1].enabled);

    assert!(config.validate(None).is_ok());
}

#[test]
fn test_outputs_multiple_primary_is_error() {
    let mut config = Config::default();
    config.outputs = vec![output("DP-1", true, true), output("HDMI-A-1", true, true)];
    let result = config.validate(None);
    assert!(
        matches!(result, Err(ConfigError::Validation(_))),
        "Multiple primary outputs should be a Validation error, got: {:?}",
        result
    );
}

#[test]
fn test_outputs_empty_connector_is_error() {
    let config = with_connector("");
    let result = config.validate(None);
    assert!(
        matches!(result, Err(ConfigError::Validation(_))),
        "Empty connector name should be a Validation error, got: {:?}",
        result
    );
}

#[test]
fn test_outputs_path_separator_in_connector_is_error() {
    for bad in &["../DP-1", "/sys/class/drm/DP-1", "foo/bar"] {
        let config = with_connector(bad);
        let result = config.validate(None);
        assert!(
            matches!(result, Err(ConfigError::Validation(_))),
            "Connector '{}' with path separator should be a Validation error, got: {:?}",
            bad,
            result
        );
    }
}

#[test]
fn test_outputs_valid_connector_names() {
    for good in &["DP-1", "HDMI-A-1", "DisplayPort-2", "eDP-1", "VGA-1", "DVI-D-1"] {
        let config = with_connector(good);
        assert!(
            config.validate(None).is_ok(),
            "Connector '{}' should be valid, but validation failed",
            good
        );
    }
}

#[test]
fn test_outputs_all_disabled_is_warning() {
    let mut config = Config::default();
    config.outputs = vec![output("DP-1", false, false), output("HDMI-A-1", false, false)];
    let result = config.validate(None);
    assert!(result.is_ok(), "All-disabled outputs should not be an error");
    let warnings = result.unwrap();
    assert!(
        warnings.iter().any(|w| w.contains("enabled = false")),
        "Expected a warning about all outputs being disabled, got: {:?}",
        warnings
    );
}

#[test]
fn test_outputs_single_primary_passes() {
    let mut config = Config::default();
    config.outputs = vec![output("DP-1", true, true), output("HDMI-A-1", true, false)];
    assert!(config.validate(None).is_ok());
}

#[test]
fn test_terminal_both_set_passes() {
    let mut config = Config::default();
    config.terminal = TerminalConfig { cols: Some(237), rows: Some(52) };
    assert_eq!(config.terminal.cols, Some(237));
    assert_eq!(config.terminal.rows, Some(52));
    assert!(config.validate(None).is_ok());
}

#[test]
fn test_terminal_cols_without_rows_is_error() {
    let mut config = Config::default();
    config.terminal = TerminalConfig { cols: Some(237), rows: None };
    let result = config.validate(None);
    assert!(
        matches!(result, Err(ConfigError::Validation(_))),
        "cols without rows should be a Validation error, got: {:?}",
        result
    );
}

#[test]
fn test_terminal_rows_without_cols_is_error() {
    let mut config = Config::default();
    config.terminal = TerminalConfig { cols: None, rows: Some(52) };
    let result = config.validate(None);
    assert!(
        matches!(result, Err(ConfigError::Validation(_))),
        "rows without cols should be a Validation error, got: {:?}",
        result
    );
}

#[test]
fn test_terminal_neither_set_passes() {
    let config = Config::default();
    assert!(config.validate(None).is_ok());
}

#[test]
fn test_terminal_zero_cols_is_error() {
    let mut config = Config::default();
    config.terminal.cols = Some(0);
    config.terminal.rows = Some(52);
    let result = config.validate(None);
    assert!(
        matches!(result, Err(ConfigError::Validation(_))),
        "cols = 0 should be a Validation error, got: {:?}",
        result
    );
}

#[test]
fn test_terminal_zero_rows_is_error() {
    let mut config = Config::default();
    config.terminal.cols = Some(237);
    config.terminal.rows = Some(0);
    let result = config.validate(None);
    assert!(
        matches!(result, Err(ConfigError::Validation(_))),
        "rows = 0 should be a Validation error, got: {:?}",
        result
    );
}

#[test]
fn test_wrapper_validation_whitespace_only() {
    // [session] session_wrapper = "   "
    let mut config = Config::default();
    config.session.session_wrapper = Some("   ".to_string());

    config.session.xsession_wrapper = None;

    let result = config.validate(nothing_found());

    assert!(result.is_err(), "Whitespace-only wrapper command should fail validation");
}
