use tuigreet::loader::{args_to_clear, ValueOrigin};
use tuigreet::loader::{config_layers, ConfigLayer};
use tuigreet::loader::expand_tilde;
use tuigreet::config::{
    Config, OutputConfig, SecretMode, TerminalConfig, WidgetPosition, DEFAULT_LOG_FILE,
};
use tuigreet::error::ConfigError;
use tuigreet::loader::{finish_load, layer_failure};
use tuigreet::validation::{wrapper_executable, WrapperLookup};

fn lookup() -> Option<WrapperLookup> {
    Some(WrapperLookup { session_wrapper_found: true, xsession_wrapper_found: true })
}

fn errors_of(config: &Config) -> Vec<String> {
    match config.validate(None) {
        Ok(_) => Vec::new(),
        Err((errors, _)) => errors.iter().map(|e| e.message()).collect(),
    }
}

#[test]
fn defaults_when_nothing_provided() {
    let cfg = Config::defaults();
    let validation = cfg.validate(lookup());
    let (cfg, warnings) = finish_load(cfg, validation, Vec::new()).unwrap();

    assert!(!cfg.general.debug);
    assert_eq!(cfg.general.log_file, DEFAULT_LOG_FILE.to_string());
    assert_eq!(cfg.general.numlock, false);
    assert!(warnings.is_empty(), "Expected no warnings");
}

#[test]
fn every_broken_rule_is_reported_in_order() {
    let mut config = Config::defaults();
    config.display.issue = true;
    config.display.greeting = Some("hello".to_string());
    config.remember.user_session = true;
    config.user_menu.min_uid = 5000;
    config.user_menu.max_uid = 10;
    config.layout.width = 0;
    config.layout.prompt_padding = 11;
    config.keybindings.power = 2;
    config.keybindings.background = 13;
    assert_eq!(
        errors_of(&config),
        vec![
            "options 'display.issue' and 'display.greeting' are mutually exclusive".to_string(),
            "dependency error: remember.user_session requires remember.username".to_string(),
            "invalid range: user_menu.min_uid must not exceed user_menu.max_uid".to_string(),
            "validation error: layout.width must be greater than 0".to_string(),
            "validation error: layout.prompt_padding must not exceed 10".to_string(),
            "duplicate keybindings detected".to_string(),
            "invalid F-key value for 'background': F13 (must be F1-F12)".to_string(),
        ]
    );
}

#[test]
fn structure_rules() {
    let mut config = Config::defaults();
    config.outputs = vec![
        OutputConfig { connector: "DP-1".to_string(), enabled: true, primary: true },
        OutputConfig { connector: "a..b".to_string(), enabled: true, primary: true },
    ];
    config.secret.mode = SecretMode::Characters;
    config.secret.characters = String::new();
    config.session.environments = vec!["A=1".to_string(), "BROKEN".to_string()];
    config.terminal = TerminalConfig { cols: Some(0), rows: Some(10) };
    assert_eq!(
        errors_of(&config),
        vec![
            "validation error: At most one output may be marked `primary = true`, but 2 are"
                .to_string(),
            "validation error: Output connector name 'a..b' must not contain path separators"
                .to_string(),
            "validation error: When using characters secret mode, cannot have empty secret characters"
                .to_string(),
            "validation error: malformed environment variable definition for 'BROKEN'".to_string(),
            "validation error: `terminal.cols` must be greater than 0".to_string(),
        ]
    );
}

#[test]
fn unreadable_time_format() {
    let mut config = Config::defaults();
    config.display.time_format = Some("%Q".to_string());
    assert_eq!(errors_of(&config), vec!["invalid time format string".to_string()]);
    config.display.time_format = Some("%Y-%m-%d %H:%M".to_string());
    assert!(config.validate(None).is_ok());
    // The check can also be handed its answer.
    assert!(config.validate_resolved(None, true).is_err());
}

#[test]
fn wrapper_checks() {
    let mut config = Config::defaults();
    config.session.session_wrapper = Some("".to_string());
    match config.validate(lookup()) {
        Err((errors, _)) => {
            assert_eq!(errors.len(), 1);
            assert!(matches!(&errors[0], ConfigError::WrapperExecutableNotFound(p) if p.is_empty()));
        },
        Ok(_) => panic!("a blank wrapper must be refused"),
    }
    let missing = Some(WrapperLookup { session_wrapper_found: true, xsession_wrapper_found: false });
    match Config::defaults().validate(missing) {
        Err((errors, _)) => assert_eq!(
            errors[0].message(),
            "session wrapper executable not found: startx"
        ),
        Ok(_) => panic!("startx was not found"),
    }
    assert_eq!(wrapper_executable("  sway --unsupported-gpu"), Some("sway".to_string()));
    assert_eq!(wrapper_executable(" \t "), None);
    assert!(Config::defaults().validate_wrapper_command("startx /usr/bin/env", true).is_none());
}

#[test]
fn warnings_are_kept_beside_errors() {
    let mut config = Config::defaults();
    config.layout.width = 0;
    config.layout.widgets.time_position = WidgetPosition::Hidden;
    config.display.show_time = true;
    match config.validate(None) {
        Err((errors, warnings)) => {
            assert_eq!(errors.len(), 1);
            assert_eq!(warnings.len(), 1);
            assert_eq!(
                warnings[0].message(),
                "non-fatal config issue found: time widget is hidden but show_time is enabled"
            );
        },
        Ok(_) => panic!("width 0 is refused"),
    }
}

#[test]
fn warnings_of_a_valid_configuration() {
    let mut config = Config::defaults();
    config.outputs = vec![OutputConfig { connector: "DP-1".to_string(), enabled: false, primary: false }];
    config.layout.container_padding = 10;
    config.layout.window_padding = 10;
    config.user_menu.enabled = true;
    config.user_menu.min_uid = 65001;
    config.user_menu.max_uid = 65002;
    config.session.sessions_dirs = vec!["/usr/share/xsessions".to_string()];
    config.session.xsessions_dirs = vec!["/usr/share/xsessions".to_string()];
    config.power.suspend = Some("systemctl suspend".to_string());
    config.power.use_setsid = false;
    config.display.time_format = Some(String::new());
    config.remember.username = true;
    config.remember.session = true;
    config.remember.user_session = true;
    let warnings: Vec<String> = config.validate(None).unwrap().iter().map(|w| w.message()).collect();
    assert_eq!(
        warnings,
        vec![
            "non-fatal config issue found: All [[outputs]] entries have `enabled = false`; no output will be used for terminal sizing".to_string(),
            "non-fatal config issue found: user_menu.min_uid is very high, you may not see any users".to_string(),
            "non-fatal config issue found: Duplicate session directories detected in sessions_dirs and xsessions_dirs".to_string(),
            "non-fatal config issue found: suspend command without setsid or privilege escalation may fail".to_string(),
            "non-fatal config issue found: time_format is empty, this will result in no time display".to_string(),
            "non-fatal config issue found: Both remember.session and remember.user_session are enabled".to_string(),
        ]
    );
    assert_eq!(config.check_warnings().len(), 5);
}

#[test]
fn terminal_reasons() {
    let t = TerminalConfig { cols: Some(10), rows: None };
    assert_eq!(
        t.invalid_reason().as_deref(),
        Some("`terminal.cols` is set but `terminal.rows` is missing; both must be provided together")
    );
    let t = TerminalConfig { cols: None, rows: Some(10) };
    assert_eq!(
        t.invalid_reason().as_deref(),
        Some("`terminal.rows` is set but `terminal.cols` is missing; both must be provided together")
    );
    let t = TerminalConfig { cols: Some(10), rows: Some(0) };
    assert_eq!(t.invalid_reason().as_deref(), Some("`terminal.rows` must be greater than 0"));
    assert_eq!(TerminalConfig { cols: Some(1), rows: Some(1) }.invalid_reason(), None);
    assert_eq!(TerminalConfig { cols: None, rows: None }.invalid_reason(), None);
}

#[test]
fn loading_results() {
    let failed = layer_failure(Config::defaults(), "bad toml".to_string());
    match failed {
        Err(b) => {
            assert_eq!(b.1.len(), 1);
            assert_eq!(b.1[0].message(), "config error: bad toml");
            assert!(b.2.is_empty());
        },
        Ok(_) => panic!("a failed layer fails the load"),
    }

    let extra = vec![ConfigError::Warning("display.asterisks is deprecated".to_string())];
    let mut config = Config::defaults();
    config.layout.width = 300;
    let validation = config.validate(None);
    let (_, warnings) = finish_load(config, validation, extra).unwrap();
    assert_eq!(warnings.len(), 2);
    assert_eq!(
        warnings[1].message(),
        "non-fatal config issue found: display.asterisks is deprecated"
    );

    let mut config = Config::defaults();
    config.layout.width = 0;
    let validation = config.validate(None);
    match finish_load(config, validation, Vec::new()) {
        Err(b) => assert_eq!(b.1.len(), 1),
        Ok(_) => panic!("validation errors fail the load"),
    }
}

#[test]
fn defaults_hold_the_documented_values() {
    let c = Config::defaults();
    assert_eq!(c.session.xsession_wrapper, "startx /usr/bin/env");
    assert!(c.session.sessions_dirs.is_empty());
    assert!(c.session.xsessions_dirs.is_empty());
    assert_eq!(c.user_menu.min_uid, 1000);
    assert_eq!(c.user_menu.max_uid, 60000);
    assert_eq!(c.keybindings.command, 2);
    assert_eq!(c.keybindings.sessions, 3);
    assert_eq!(c.keybindings.power, 12);
    assert_eq!(c.keybindings.background, 4);
    assert_eq!(c.layout.width, 80);
    assert_eq!(c.background.fps, 30);
    assert_eq!(f32::from_bits(c.background.matrix.min_speed_bits), 0.30);
    assert_eq!(f32::from_bits(c.background.matrix.max_speed_bits), 1.10);
    assert!(c.power.use_setsid);
}

#[test]
fn layers_come_lowest_priority_first() {
    let names = |layers: Vec<ConfigLayer>| -> Vec<String> {
        layers
            .iter()
            .map(|l| match l {
                ConfigLayer::Defaults => "defaults".to_string(),
                ConfigLayer::SystemFile(p) => format!("system {}", p),
                ConfigLayer::UserFile(p) => format!("user {}", p),
                ConfigLayer::Environment => "env".to_string(),
                ConfigLayer::CommandLine => "cli".to_string(),
            })
            .collect()
    };
    assert_eq!(
        names(config_layers(false, "/etc/t.toml".to_string(), true, "/home/u/t.toml".to_string(), true)),
        vec!["defaults", "system /etc/t.toml", "user /home/u/t.toml", "env", "cli"]
    );
    assert_eq!(
        names(config_layers(false, "/etc/t.toml".to_string(), false, "/home/u/t.toml".to_string(), true)),
        vec!["defaults", "user /home/u/t.toml", "env", "cli"]
    );
    assert_eq!(
        names(config_layers(true, "/etc/t.toml".to_string(), true, "/home/u/t.toml".to_string(), true)),
        vec!["defaults", "env", "cli"]
    );
}

#[test]
fn tilde_expansion() {
    assert_eq!(expand_tilde("~/.config/tuigreet/config.toml", Some("/home/u")), "/home/u/.config/tuigreet/config.toml");
    assert_eq!(expand_tilde("~", Some("/home/u")), "/home/u");
    assert_eq!(expand_tilde("~other/x", Some("/home/u")), "~other/x");
    assert_eq!(expand_tilde("/etc/x", Some("/home/u")), "/etc/x");
    assert_eq!(expand_tilde("~/x", None), "~/x");
}

#[test]
fn only_arguments_at_their_default_are_cleared() {
    let args = vec![
        ("width".to_string(), Some(ValueOrigin::DefaultValue)),
        ("debug".to_string(), Some(ValueOrigin::CommandLine)),
        ("greeting".to_string(), None),
        ("log_file".to_string(), Some(ValueOrigin::DefaultValue)),
        ("time".to_string(), Some(ValueOrigin::EnvVariable)),
    ];
    assert_eq!(args_to_clear(&args), vec!["width".to_string(), "log_file".to_string()]);
    assert!(args_to_clear(&Vec::new()).is_empty());
}
