use tuigreet::power::power_run;
use tuigreet::power::{power, power_outcome, CommandOutcome, PowerAction, PowerEntry, PowerOption, PowerPostAction};

fn entries() -> Vec<PowerEntry> {
    vec![
        PowerEntry { action: PowerOption::Shutdown, command: None },
        PowerEntry { action: PowerOption::Reboot, command: Some("sudo reboot now".to_string()) },
        PowerEntry { action: PowerOption::Suspend, command: None },
        PowerEntry { action: PowerOption::Reboot, command: Some("ignored".to_string()) },
    ]
}

fn run_of(action: PowerAction) -> (String, Vec<String>) {
    match action {
        PowerAction::Run(c) => (c.program, c.args),
        other => panic!("expected a command, got {:?}", other),
    }
}

#[test]
fn mock_mode_ends_the_session() {
    assert!(matches!(power(true, &entries(), true, PowerOption::Shutdown), PowerAction::Exit));
}

#[test]
fn default_commands() {
    assert_eq!(
        run_of(power(false, &entries(), false, PowerOption::Shutdown)),
        ("shutdown".to_string(), vec!["-h".to_string(), "now".to_string()])
    );
    // Built-in commands go through setsid as configured ones do.
    assert_eq!(
        run_of(power(false, &entries(), true, PowerOption::Shutdown)),
        (
            "setsid".to_string(),
            vec!["shutdown".to_string(), "-h".to_string(), "now".to_string()]
        )
    );
    assert_eq!(
        run_of(power(false, &entries(), false, PowerOption::Suspend)),
        ("loginctl".to_string(), vec!["suspend".to_string()])
    );
}

#[test]
fn configured_command_runs_through_setsid() {
    assert_eq!(
        run_of(power(false, &entries(), true, PowerOption::Reboot)),
        (
            "setsid".to_string(),
            vec!["sudo".to_string(), "reboot".to_string(), "now".to_string()]
        )
    );
}

#[test]
fn configured_command_runs_as_is_without_setsid() {
    assert_eq!(
        run_of(power(false, &entries(), false, PowerOption::Reboot)),
        ("sudo".to_string(), vec!["reboot".to_string(), "now".to_string()])
    );
}

#[test]
fn option_without_an_entry_does_nothing() {
    assert!(matches!(
        power(false, &entries(), true, PowerOption::Hibernate),
        PowerAction::Nothing
    ));
}

#[test]
fn default_option_is_shutdown() {
    assert_eq!(PowerOption::default(), PowerOption::Shutdown);
}

#[test]
fn outcome_of_a_command() {
    let ok = CommandOutcome::Exited {
        success: true,
        status: "exit status: 0".to_string(),
        stderr: String::new(),
    };
    assert_eq!(power_outcome(&ok, "Command exited with", "Command failed"), (PowerPostAction::ClearScreen, None));

    let failed = CommandOutcome::Exited {
        success: false,
        status: "exit status: 1".to_string(),
        stderr: "permission denied".to_string(),
    };
    assert_eq!(
        power_outcome(&failed, "Command exited with", "Command failed"),
        (
            PowerPostAction::Noop,
            Some("Command exited with exit status: 1\npermission denied".to_string())
        )
    );

    let missing = CommandOutcome::Failed("No such file or directory".to_string());
    assert_eq!(
        power_outcome(&missing, "Command exited with", "Command failed"),
        (PowerPostAction::Noop, Some("Command failed: No such file or directory".to_string()))
    );
}

#[derive(Debug, Clone, Copy, PartialEq, Eq)]
enum Mode {
    Idle,
    Processing,
}

#[test]
fn greeter_mode_around_a_power_command() {
    let ok = CommandOutcome::Exited { success: true, status: "exit status: 0".to_string(), stderr: String::new() };
    let r = power_run(Mode::Processing, Mode::Idle, Some("earlier".to_string()), &ok, "exited", "failed");
    assert_eq!(r.during, Mode::Processing);
    assert_eq!(r.after, Mode::Processing);
    assert_eq!(r.post, PowerPostAction::ClearScreen);
    // The greeter's message is kept on success.
    assert_eq!(r.message.as_deref(), Some("earlier"));
    let r = power_run(Mode::Processing, Mode::Idle, None, &ok, "exited", "failed");
    assert!(r.message.is_none());

    let bad = CommandOutcome::Failed("no such file".to_string());
    let r = power_run(Mode::Processing, Mode::Idle, Some("earlier".to_string()), &bad, "exited", "failed");
    assert_eq!(r.during, Mode::Processing);
    assert_eq!(r.after, Mode::Idle);
    assert_eq!(r.post, PowerPostAction::Noop);
    assert_eq!(r.message.as_deref(), Some("failed: no such file"));
}
