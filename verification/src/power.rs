//! Power actions: which command shuts down, reboots, suspends or hibernates
//! the machine, and what the greeter does once it has run.
use vstd::prelude::*;
use vstd::string::*;

use crate::text::{concat3, split_at_char, split_on, views};

verus! {

/// Power management options.
#[derive(Debug, Clone, Copy, PartialEq, Eq, Hash, Structural)]
pub enum PowerOption {
    Shutdown,
    Reboot,
    Suspend,
    Hibernate,
}

impl Default for PowerOption {
    fn default() -> (r: Self)
        ensures
            r == PowerOption::Shutdown,
    {
        PowerOption::Shutdown
    }
}

/// An entry of the power menu: the action it stands for and the command
/// configured for it, if any.
#[derive(Debug, Clone)]
pub struct PowerEntry {
    pub action: PowerOption,
    pub command: Option<String>,
}

/// A command to run: the program and its arguments.
#[derive(Debug, Clone)]
pub struct CommandSpec {
    pub program: String,
    pub args: Vec<String>,
}

/// What the greeter does when a power option is chosen.
#[derive(Debug, Clone)]
pub enum PowerAction {
    /// Mock-up mode: end the session as cancelled instead of running anything.
    Exit,
    /// Run this command, with its standard streams closed.
    Run(CommandSpec),
    /// The menu has no entry for the option: nothing happens.
    Nothing,
}

/// A [`PowerAction`] with its texts as character sequences.
pub enum PowerActionView {
    Exit,
    Run(Seq<char>, Seq<Seq<char>>),
    Nothing,
}

impl View for PowerAction {
    type V = PowerActionView;

    open spec fn view(&self) -> PowerActionView {
        match self {
            PowerAction::Exit => PowerActionView::Exit,
            PowerAction::Run(c) => PowerActionView::Run(c.program@, views(c.args@)),
            PowerAction::Nothing => PowerActionView::Nothing,
        }
    }
}

/// The index of the first entry for `option`, or `entries.len()`.
pub open spec fn entry_index(entries: Seq<PowerEntry>, option: PowerOption, i: int) -> int
    decreases entries.len() - i,
{
    if i < 0 || i >= entries.len() {
        entries.len() as int
    } else if entries[i].action == option {
        i
    } else {
        entry_index(entries, option, i + 1)
    }
}

/// The command line that carries out `option` when no command is
/// configured: the program, then its arguments.
pub open spec fn default_line(option: PowerOption) -> Seq<Seq<char>> {
    match option {
        PowerOption::Shutdown => seq!["shutdown"@, "-h"@, "now"@],
        PowerOption::Reboot => seq!["shutdown"@, "-r"@, "now"@],
        PowerOption::Suspend => seq!["loginctl"@, "suspend"@],
        PowerOption::Hibernate => seq!["loginctl"@, "hibernate"@],
    }
}

/// The command that runs the command line `line` (program first): through
/// `setsid` when `use_setsid`, otherwise as it is.
pub open spec fn run_line(line: Seq<Seq<char>>, use_setsid: bool) -> PowerActionView {
    if use_setsid {
        PowerActionView::Run("setsid"@, line)
    } else {
        PowerActionView::Run(line[0], line.skip(1))
    }
}

/// The command for a configured command line, split at each space.
pub open spec fn configured_command(line: Seq<char>, use_setsid: bool) -> PowerActionView {
    run_line(split_on(line, ' '), use_setsid)
}

/// What choosing `option` does.
pub open spec fn power_action(
    mock: bool,
    entries: Seq<PowerEntry>,
    use_setsid: bool,
    option: PowerOption,
) -> PowerActionView {
    if mock {
        PowerActionView::Exit
    } else {
        let i = entry_index(entries, option, 0);
        if i >= entries.len() {
            PowerActionView::Nothing
        } else {
            match entries[i].command {
                Some(line) => configured_command(line@, use_setsid),
                None => run_line(default_line(option), use_setsid),
            }
        }
    }
}

proof fn lemma_split_nonempty(s: Seq<char>, sep: char)
    ensures
        split_on(s, sep).len() >= 1,
{
}

fn default_line_of(option: PowerOption) -> (r: Vec<String>)
    ensures
        views(r@) == default_line(option),
{
    let mut v: Vec<String> = Vec::new();
    match option {
        PowerOption::Shutdown => {
            v.push("shutdown".to_owned());
            v.push("-h".to_owned());
            v.push("now".to_owned());
        },
        PowerOption::Reboot => {
            v.push("shutdown".to_owned());
            v.push("-r".to_owned());
            v.push("now".to_owned());
        },
        PowerOption::Suspend => {
            v.push("loginctl".to_owned());
            v.push("suspend".to_owned());
        },
        PowerOption::Hibernate => {
            v.push("loginctl".to_owned());
            v.push("hibernate".to_owned());
        },
    }
    assert(views(v@) =~= default_line(option));
    v
}

fn run_pieces(pieces: Vec<String>, use_setsid: bool) -> (r: PowerAction)
    requires
        pieces@.len() >= 1,
    ensures
        r@ == run_line(views(pieces@), use_setsid),
{
    if use_setsid {
        PowerAction::Run(CommandSpec { program: "setsid".to_owned(), args: pieces })
    } else {
        let mut rest = pieces;
        let ghost all = views(rest@);
        let program = rest.remove(0);
        assert(views(rest@) =~= all.skip(1));
        PowerAction::Run(CommandSpec { program, args: rest })
    }
}

/// What choosing the power option `option` does: in mock-up mode the
/// session ends as cancelled; otherwise the first menu entry for the option
/// gives the command, its configured command line or the default one, run
/// through `setsid` when `use_setsid`.
pub fn power(mock: bool, entries: &Vec<PowerEntry>, use_setsid: bool, option: PowerOption) -> (r:
    PowerAction)
    ensures
        r@ == power_action(mock, entries@, use_setsid, option),
{
    if mock {
        return PowerAction::Exit;
    }
    let mut i: usize = 0;
    while i < entries.len() && entries[i].action != option
        invariant
            i <= entries@.len(),
            entry_index(entries@, option, 0) == entry_index(entries@, option, i as int),
        decreases entries@.len() - i,
    {
        i = i + 1;
    }
    if i >= entries.len() {
        return PowerAction::Nothing;
    }
    match &entries[i].command {
        Some(line) => {
            let pieces = split_at_char(line.as_str(), ' ');
            proof {
                lemma_split_nonempty(line@, ' ');
            }
            run_pieces(pieces, use_setsid)
        },
        None => run_pieces(default_line_of(option), use_setsid),
    }
}

/// What follows a power command.
#[derive(Debug, Clone, Copy, PartialEq, Eq, Structural)]
pub enum PowerPostAction {
    /// Stay in the greeter, showing the message.
    Noop,
    /// The command succeeded: clear the screen and leave.
    ClearScreen,
}

/// How a power command ended.
#[derive(Debug, Clone)]
pub enum CommandOutcome {
    /// It ran and exited: whether with success, how (as text), and what it
    /// wrote on its error stream.
    Exited { success: bool, status: String, stderr: String },
    /// It could not be run: the reason, as text.
    Failed(String),
}

/// The message shown after a power command: none on success; for a failed
/// exit, the `exited` label, the status and the error output on the next
/// line; when it could not be run, the `failed` label and the reason.
pub open spec fn outcome_message(o: CommandOutcome, exited: Seq<char>, failed: Seq<char>) -> Option<
    Seq<char>,
> {
    match o {
        CommandOutcome::Exited { success, status, stderr } => if success {
            None
        } else {
            Some(exited + " "@ + status@ + "\n"@ + stderr@)
        },
        CommandOutcome::Failed(reason) => Some(failed + ": "@ + reason@),
    }
}

/// The message to show after a power command and what the greeter does
/// next: it clears the screen and leaves exactly when there is no message.
/// `exited` and `failed` are the (translated) labels of the two failures.
pub fn power_outcome(outcome: &CommandOutcome, exited: &str, failed: &str) -> (r: (
    PowerPostAction,
    Option<String>,
))
    ensures
        r.1 matches Some(m) ==> outcome_message(*outcome, exited@, failed@) == Some(m@),
        r.1 is None ==> outcome_message(*outcome, exited@, failed@) is None,
        r.0 == (if r.1 is None {
            PowerPostAction::ClearScreen
        } else {
            PowerPostAction::Noop
        }),
{
    let message = match outcome {
        CommandOutcome::Exited { success, status, stderr } => {
            if *success {
                None
            } else {
                let mut m = concat3(exited, " ", status.as_str());
                m.append("\n");
                m.append(stderr.as_str());
                Some(m)
            }
        },
        CommandOutcome::Failed(reason) => Some(concat3(failed, ": ", reason.as_str())),
    };
    if message.is_none() {
        (PowerPostAction::ClearScreen, message)
    } else {
        (PowerPostAction::Noop, message)
    }
}

/// The greeter's screen modes around a power command, what follows it and
/// the message it leaves.
#[derive(Debug, Clone)]
pub struct PowerRun<M> {
    /// The mode while the command runs.
    pub during: M,
    /// The mode once it has ended.
    pub after: M,
    /// What the greeter does next.
    pub post: PowerPostAction,
    /// The message the greeter shows afterwards.
    pub message: Option<String>,
}

/// A power command run from the greeter, which showed `message`: the
/// greeter shows `processing` while it runs; on success it stays so, keeps
/// its message, clears the screen and leaves; on failure it goes back to
/// `previous_mode` and shows the failure (see [`outcome_message`]).
pub fn power_run<M: Copy>(
    processing: M,
    previous_mode: M,
    message: Option<String>,
    outcome: &CommandOutcome,
    exited: &str,
    failed: &str,
) -> (r: PowerRun<M>)
    ensures
        r.during == processing,
        match outcome_message(*outcome, exited@, failed@) {
            None => r.post == PowerPostAction::ClearScreen && r.after == processing && r.message
                == message,
            Some(m) => r.post == PowerPostAction::Noop && r.after == previous_mode && (
            r.message matches Some(t) && t@ == m),
        },
{
    let (post, failure) = power_outcome(outcome, exited, failed);
    match failure {
        None => PowerRun { during: processing, after: processing, post, message },
        Some(t) => PowerRun { during: processing, after: previous_mode, post, message: Some(t) },
    }
}

proof fn lemma_first_entry(entries: Seq<PowerEntry>, option: PowerOption, i: int, k: int)
    requires
        0 <= k <= i < entries.len(),
        entries[i].action == option,
        forall|j: int| 0 <= j < i ==> entries[j].action != option,
    ensures
        entry_index(entries, option, k) == i,
    decreases i - k,
{
    if k < i {
        lemma_first_entry(entries, option, i, k + 1);
    }
}

/// The built-in commands: when the first menu entry for `option` has no
/// command of its own, shutting down runs `shutdown -h now`, rebooting
/// `shutdown -r now`, suspending `loginctl suspend` and hibernating
/// `loginctl hibernate`, each through `setsid` when `use_setsid`.
pub proof fn lemma_builtin_commands(entries: Seq<PowerEntry>, use_setsid: bool, option: PowerOption, i: int)
    requires
        0 <= i < entries.len(),
        entries[i].action == option,
        entries[i].command is None,
        forall|j: int| 0 <= j < i ==> entries[j].action != option,
    ensures
        option == PowerOption::Shutdown && !use_setsid ==> power_action(false, entries, use_setsid, option) == PowerActionView::Run("shutdown"@, seq!["-h"@, "now"@]),
        option == PowerOption::Shutdown && use_setsid ==> power_action(false, entries, use_setsid, option) == PowerActionView::Run("setsid"@, seq!["shutdown"@, "-h"@, "now"@]),
        option == PowerOption::Reboot && !use_setsid ==> power_action(false, entries, use_setsid, option) == PowerActionView::Run("shutdown"@, seq!["-r"@, "now"@]),
        option == PowerOption::Reboot && use_setsid ==> power_action(false, entries, use_setsid, option) == PowerActionView::Run("setsid"@, seq!["shutdown"@, "-r"@, "now"@]),
        option == PowerOption::Suspend && !use_setsid ==> power_action(false, entries, use_setsid, option) == PowerActionView::Run("loginctl"@, seq!["suspend"@]),
        option == PowerOption::Suspend && use_setsid ==> power_action(false, entries, use_setsid, option) == PowerActionView::Run("setsid"@, seq!["loginctl"@, "suspend"@]),
        option == PowerOption::Hibernate && !use_setsid ==> power_action(false, entries, use_setsid, option) == PowerActionView::Run("loginctl"@, seq!["hibernate"@]),
        option == PowerOption::Hibernate && use_setsid ==> power_action(false, entries, use_setsid, option) == PowerActionView::Run("setsid"@, seq!["loginctl"@, "hibernate"@]),
{
    lemma_first_entry(entries, option, i, 0);
    let line = default_line(option);
    assert(line.skip(1) =~= match option {
        PowerOption::Shutdown => seq!["-h"@, "now"@],
        PowerOption::Reboot => seq!["-r"@, "now"@],
        PowerOption::Suspend => seq!["suspend"@],
        PowerOption::Hibernate => seq!["hibernate"@],
    });
}

} // verus!
