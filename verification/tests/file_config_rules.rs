use tuigreet::parser::combine_file_configs;
use tuigreet::config::OutputConfig;
use tuigreet::parser::{merge_configs, toml_error, ConfigError};
use tuigreet::schema::Config;
use tuigreet::validation::WrapperLookup;

fn found(session: bool, xsession: bool) -> Option<WrapperLookup> {
    Some(WrapperLookup { session_wrapper_found: session, xsession_wrapper_found: xsession })
}

#[test]
fn merge_takes_what_the_user_file_sets() {
    let mut system = Config::default();
    system.display.greeting = Some("system".to_string());
    system.layout.width = 70;

    let mut user = Config::default();
    user.display.greeting = Some("user".to_string());
    user.keybindings.power = 11;
    user.power.shutdown = Some("poweroff".to_string());
    user.power.reboot = Some("reboot".to_string());
    user.remember.default_user = Some("alice".to_string());

    merge_configs(&mut system, user);

    assert_eq!(system.display.greeting.as_deref(), Some("user"));
    assert_eq!(system.power.shutdown.as_deref(), Some("poweroff"));
    assert_eq!(system.power.reboot.as_deref(), Some("reboot"));
    assert_eq!(system.remember.default_user.as_deref(), Some("alice"));
    // The user file left the width at its default: the system value stays.
    assert_eq!(system.layout.width, 70);
    assert_eq!(system.keybindings.power, 11);
}

#[test]
fn merging_a_file_of_defaults_changes_nothing() {
    let mut system = Config::default();
    system.display.show_time = true;
    system.user_menu.min_uid = 1500;
    system.outputs = vec![OutputConfig { connector: "DP-1".to_string(), enabled: true, primary: true }];
    let before = system.clone();

    merge_configs(&mut system, Config::default());

    assert_eq!(system, before);
}

#[test]
fn merging_twice_is_merging_once() {
    let mut user = Config::default();
    user.display.issue = true;
    user.session.environments = vec!["A=1".to_string()];
    user.terminal.cols = Some(100);

    let mut once = Config::default();
    once.layout.width = 90;
    merge_configs(&mut once, user.clone());
    let mut twice = once.clone();
    merge_configs(&mut twice, user);

    assert_eq!(once, twice);
}

#[test]
fn merge_replaces_outputs_and_terminal_sizes_that_are_set() {
    let mut system = Config::default();
    system.outputs = vec![OutputConfig { connector: "DP-1".to_string(), enabled: true, primary: false }];
    system.terminal.cols = Some(80);
    system.terminal.rows = Some(24);

    let mut user = Config::default();
    user.terminal.rows = Some(50);
    merge_configs(&mut system, user);
    assert_eq!(system.outputs.len(), 1);
    assert_eq!(system.terminal.cols, Some(80));
    assert_eq!(system.terminal.rows, Some(50));

    let mut user = Config::default();
    user.outputs = vec![OutputConfig { connector: "HDMI-A-1".to_string(), enabled: false, primary: false }];
    merge_configs(&mut system, user);
    assert_eq!(system.outputs.len(), 1);
    assert_eq!(system.outputs[0].connector, "HDMI-A-1");
}

#[test]
fn the_first_broken_rule_is_reported() {
    let mut config = Config::default();
    config.display.issue = true;
    config.display.greeting = Some("hi".to_string());
    config.keybindings.power = 13;
    match config.validate(None) {
        Err(ConfigError::MutuallyExclusive(a, b)) => {
            assert_eq!(a, "display.issue");
            assert_eq!(b, "display.greeting");
        },
        other => panic!("unexpected {:?}", other),
    }
}

#[test]
fn dependency_and_range_errors() {
    let mut config = Config::default();
    config.remember.user_session = true;
    match config.validate(None) {
        Err(ConfigError::Dependency(m)) => {
            assert_eq!(m, "remember.user_session requires remember.username")
        },
        other => panic!("unexpected {:?}", other),
    }

    let mut config = Config::default();
    config.user_menu.min_uid = 2000;
    config.user_menu.max_uid = 1000;
    match config.validate(None) {
        Err(e @ ConfigError::InvalidRange(_)) => assert_eq!(
            e.message(),
            "Invalid range: user_menu.min_uid must not exceed user_menu.max_uid"
        ),
        other => panic!("unexpected {:?}", other),
    }
}

#[test]
fn function_key_out_of_range() {
    let mut config = Config::default();
    config.keybindings.sessions = 0;
    match config.validate(None) {
        Err(e @ ConfigError::InvalidFKey(_, 0)) => assert_eq!(
            e.message(),
            "Invalid F-key value for 'sessions': F0 (must be F1-F12)"
        ),
        other => panic!("unexpected {:?}", other),
    }
}

#[test]
fn unreadable_time_format_is_an_error() {
    let mut config = Config::default();
    config.display.time_format = Some("%Q".to_string());
    assert!(matches!(config.validate(None), Err(ConfigError::InvalidTimeFormat)));

    config.display.time_format = Some("%H:%M".to_string());
    assert!(config.validate(None).is_ok());
}

#[test]
fn wrapper_lookup_decides() {
    let mut config = Config::default();
    config.session.session_wrapper = Some("  my-wrapper --flag".to_string());
    assert!(config.validate(found(true, true)).is_ok());
    match config.validate(found(false, true)) {
        Err(ConfigError::WrapperExecutableNotFound(w)) => assert_eq!(w, "my-wrapper"),
        other => panic!("unexpected {:?}", other),
    }
    // The default X11 wrapper names `startx`.
    config.session.session_wrapper = None;
    match config.validate(found(true, false)) {
        Err(ConfigError::WrapperExecutableNotFound(w)) => assert_eq!(w, "startx"),
        other => panic!("unexpected {:?}", other),
    }
    // Without a lookup the wrappers are not checked.
    assert!(config.validate(None).is_ok());
}

#[test]
fn blank_wrapper_is_reported_under_its_own_text() {
    let config = Config::default();
    match config.validate_wrapper_command("  ", true) {
        Err(ConfigError::WrapperExecutableNotFound(w)) => assert_eq!(w, "  "),
        other => panic!("unexpected {:?}", other),
    }
    assert!(config.validate_wrapper_command("startx /usr/bin/env", true).is_ok());
}

#[test]
fn warnings_come_in_order() {
    let mut config = Config::default();
    config.layout.window_padding = Some(12);
    config.layout.width = 250;
    config.power.shutdown = Some("poweroff".to_string());
    config.power.use_setsid = false;
    let warnings = config.validate(None).expect("no rule is broken");
    assert_eq!(
        warnings,
        vec![
            "window_padding is very high (12), this may cause display issues".to_string(),
            "width is very high (250), this may cause display issues on smaller terminals"
                .to_string(),
            "shutdown command without setsid or privilege escalation may fail".to_string(),
        ]
    );

    let mut more = vec!["first".to_string()];
    config.check_warnings(&mut more);
    assert_eq!(more.len(), 4);
    assert_eq!(more[0], "first");

    config.power.shutdown = Some("sudo poweroff".to_string());
    assert_eq!(config.validate(None).unwrap().len(), 2);
}

#[test]
fn default_file_configuration_raises_nothing() {
    let config = Config::default();
    assert_eq!(config.validate(None).unwrap(), Vec::<String>::new());
}

#[test]
fn error_texts() {
    assert_eq!(ConfigError::Io("denied".to_string()).message(), "I/O error: denied");
    assert_eq!(ConfigError::Parse("bad".to_string()).message(), "TOML parse error: bad");
    assert_eq!(
        ConfigError::MutuallyExclusive("a".to_string(), "b".to_string()).message(),
        "Options 'a' and 'b' are mutually exclusive"
    );
    assert_eq!(ConfigError::DuplicateKeybindings.message(), "Duplicate keybindings detected");
    assert_eq!(ConfigError::InvalidTimeFormat.message(), "Invalid time format string");
    assert_eq!(
        ConfigError::WrapperExecutableNotFound("x".to_string()).message(),
        "Session wrapper executable not found: x"
    );
    let e = ConfigError::ParseWithContext {
        file: "/etc/tuigreet/config.toml".to_string(),
        line: 3,
        column: 5,
        context: vec!["one".to_string(), "two".to_string()],
        original_message: "invalid value".to_string(),
    };
    assert_eq!(
        e.message(),
        "TOML parse error: invalid value\nFile: /etc/tuigreet/config.toml\nLine: 3, Column: 5\n\none\ntwo\n"
    );
}

#[test]
fn toml_error_shows_the_lines_around_the_error() {
    let content = "a = 1\nb = \nc = 3\n";
    match toml_error("conf.toml", content, Some(10), "expected a value", "full text") {
        ConfigError::ParseWithContext { file, line, column, context, original_message } => {
            assert_eq!(file, "conf.toml");
            assert_eq!(line, 2);
            assert_eq!(column, 5);
            assert_eq!(original_message, "expected a value");
            assert_eq!(
                context,
                vec![
                    "      1:    a = 1".to_string(),
                    "  >   2:5  b = ".to_string(),
                    "           ^".to_string(),
                    "      3:    c = 3".to_string(),
                ]
            );
        },
        other => panic!("unexpected {:?}", other),
    }
}

#[test]
fn toml_error_at_the_start_of_a_line() {
    let content = "a = 1\nb = \nc = 3\nd = 4\ne = 5\nf = 6\n";
    match toml_error("f", content, Some(11), "m", "t") {
        ConfigError::ParseWithContext { line, column, context, .. } => {
            assert_eq!(line, 3);
            assert_eq!(column, 1);
            assert_eq!(
                context,
                vec![
                    "      1:    a = 1".to_string(),
                    "      2:    b = ".to_string(),
                    "  >   3:1  c = 3".to_string(),
                    "           ^".to_string(),
                    "      4:    d = 4".to_string(),
                    "      5:    e = 5".to_string(),
                ]
            );
        },
        other => panic!("unexpected {:?}", other),
    }
}

#[test]
fn toml_error_counts_columns_in_bytes() {
    match toml_error("f", "é = 1\r\nx", Some(2), "m", "t") {
        ConfigError::ParseWithContext { line, column, context, .. } => {
            assert_eq!(line, 1);
            assert_eq!(column, 3);
            assert_eq!(
                context,
                vec![
                    "  >   1:3  é = 1".to_string(),
                    "           ^".to_string(),
                    "      2:    x".to_string()
                ]
            );
        },
        other => panic!("unexpected {:?}", other),
    }
}

#[test]
fn toml_error_without_a_usable_span_keeps_the_text() {
    for span in [None, Some(1), Some(100)] {
        match toml_error("f", "é = 1", span, "m", "the whole text") {
            ConfigError::Parse(t) => assert_eq!(t, "the whole text"),
            other => panic!("unexpected {:?}", other),
        }
    }
}

#[test]
fn toml_error_at_the_documented_position() {
    let content = "[layout]\nwidth = = 123\n";
    match toml_error("config.toml", content, Some(17), "extra `=`, expected nothing", "t") {
        ConfigError::ParseWithContext { file, line, column, .. } => {
            assert_eq!(file, "config.toml");
            assert_eq!(line, 2);
            assert_eq!(column, 9);
        },
        other => panic!("unexpected {:?}", other),
    }
}

#[test]
fn toml_error_from_the_library_error() {
    let content = "a = \n";
    let err = toml::from_str::<toml::Table>(content).unwrap_err();
    let span = err.span().map(|r| r.start);
    let e = toml_error("conf.toml", content, span, err.message(), &err.to_string());
    match e {
        ConfigError::ParseWithContext { file, original_message, line, .. } => {
            assert!(span.is_some());
            assert_eq!(file, "conf.toml");
            assert_eq!(line, 1);
            assert_eq!(original_message, err.message());
        },
        ConfigError::Parse(t) => {
            assert!(span.is_none());
            assert_eq!(t, err.to_string())
        },
        other => panic!("unexpected {:?}", other),
    }
}

#[test]
fn system_and_user_files_combine() {
    let mut system = Config::default();
    system.layout.width = 120;
    let mut user = Config::default();
    user.display.show_time = true;

    let both = combine_file_configs(Ok(system.clone()), Ok(user.clone())).unwrap();
    assert_eq!(both.layout.width, 120);
    assert!(both.display.show_time);

    match combine_file_configs(Ok(system.clone()), Err(ConfigError::Parse("bad user".to_string()))) {
        Err(ConfigError::Parse(m)) => assert_eq!(m, "bad user"),
        other => panic!("unexpected {:?}", other),
    }
    match combine_file_configs(Err(ConfigError::Io("bad system".to_string())), Ok(user)) {
        Err(ConfigError::Io(m)) => assert_eq!(m, "bad system"),
        other => panic!("unexpected {:?}", other),
    }
    match combine_file_configs(
        Err(ConfigError::Io("first".to_string())),
        Err(ConfigError::Io("second".to_string())),
    ) {
        Err(ConfigError::Io(m)) => assert_eq!(m, "first"),
        other => panic!("unexpected {:?}", other),
    }
}
