//! Rules checked on the fully resolved [`Config`], once the TOML files, the
//! environment and the command line are merged.
use vstd::prelude::*;
use vstd::string::*;

use crate::config::{
    is_default_config, string_views, terminal_reason, Config, KeybindingsConfig, OutputConfig,
    SecretMode, TerminalConfig, WidgetPosition,
};
use crate::error::{error_views, ConfigError, ConfigErrorView};
use crate::text::{
    concat2, concat3, concat_number, contains_char, contains_str, decimal, first_word,
    first_word_of, has_substring, str_eq,
};

verus! {

/// What a lookup of each wrapper's executable found: an absolute path that
/// exists and is executable, or a bare name found executable in a `PATH`
/// directory. The lookup itself reads the file system and the environment.
#[derive(Debug, Clone, Copy)]
pub struct WrapperLookup {
    /// The executable named by `session.session_wrapper` was found.
    pub session_wrapper_found: bool,
    /// The executable named by `session.xsession_wrapper` was found.
    pub xsession_wrapper_found: bool,
}

/// The name given to what chrono's strftime reader reports on a format
/// string: whether one of the items it reads from `fmt` is an error.
pub uninterp spec fn strftime_has_error(fmt: Seq<char>) -> bool;

/// Reads `fmt` with chrono's `StrftimeItems` and reports whether an
/// `Item::Error` comes out. The contract claims only that the answer is the
/// named function of the characters of `fmt`.
#[verifier::external_body]
pub(crate) fn time_format_unreadable(fmt: &str) -> (r: bool)
    ensures
        r == strftime_has_error(fmt@),
{
    chrono::format::StrftimeItems::new(fmt).any(|item| matches!(item, chrono::format::Item::Error))
}

/// Whether the configured time format, if any, is one chrono cannot read.
pub open spec fn time_format_invalid(c: Config) -> bool {
    match c.display.time_format {
        Some(f) => strftime_has_error(f@),
        None => false,
    }
}

/// The executable that a wrapper command names: its first word, or `None`
/// when the command is blank.
pub fn wrapper_executable(command: &str) -> (r: Option<String>)
    ensures
        r matches Some(w) ==> first_word(command@) == Some(w@),
        r is None ==> first_word(command@) is None,
{
    first_word_of(command)
}

/// The error a wrapper command gives, when the lookup of its executable
/// gave `found`: a blank command is never found, under its own text.
pub open spec fn wrapper_error(command: Seq<char>, found: bool) -> Option<ConfigErrorView> {
    match first_word(command) {
        None => Some(ConfigErrorView::WrapperExecutableNotFound(command)),
        Some(w) => if found {
            None
        } else {
            Some(ConfigErrorView::WrapperExecutableNotFound(w))
        },
    }
}

/// The error of an optional check, as a sequence of zero or one element.
pub open spec fn opt_seq(e: Option<ConfigErrorView>) -> Seq<ConfigErrorView> {
    match e {
        Some(x) => seq![x],
        None => Seq::empty(),
    }
}

/// `e` when `cond` holds, else nothing.
pub open spec fn when(cond: bool, e: ConfigErrorView) -> Seq<ConfigErrorView> {
    if cond {
        seq![e]
    } else {
        Seq::empty()
    }
}

pub open spec fn padding_error(name: Seq<char>, padding: u16) -> Seq<ConfigErrorView> {
    when(padding > 10, ConfigErrorView::Validation(name + " must not exceed 10"@))
}

pub open spec fn keys_distinct(k: KeybindingsConfig) -> bool {
    &&& k.command != k.sessions
    &&& k.command != k.power
    &&& k.command != k.background
    &&& k.sessions != k.power
    &&& k.sessions != k.background
    &&& k.power != k.background
}

pub open spec fn fkey_error(name: Seq<char>, key: u8) -> Seq<ConfigErrorView> {
    when(!(1 <= key <= 12), ConfigErrorView::InvalidFKey(name, key))
}

pub open spec fn fkey_errors(k: KeybindingsConfig) -> Seq<ConfigErrorView> {
    fkey_error("command"@, k.command) + fkey_error("sessions"@, k.sessions) + fkey_error(
        "power"@,
        k.power,
    ) + fkey_error("background"@, k.background)
}

pub open spec fn wrapper_errors(c: Config, wrappers: Option<WrapperLookup>) -> Seq<
    ConfigErrorView,
> {
    match wrappers {
        None => Seq::empty(),
        Some(l) => (match c.session.session_wrapper {
            Some(w) => opt_seq(wrapper_error(w@, l.session_wrapper_found)),
            None => Seq::empty(),
        }) + (if c.session.xsession_wrapper@.len() > 0 {
            opt_seq(wrapper_error(c.session.xsession_wrapper@, l.xsession_wrapper_found))
        } else {
            Seq::empty()
        }),
    }
}

/// How many outputs are marked primary.
pub open spec fn count_primary(outs: Seq<OutputConfig>) -> nat
    decreases outs.len(),
{
    if outs.len() == 0 {
        0
    } else {
        count_primary(outs.drop_last()) + if outs.last().primary {
            1nat
        } else {
            0nat
        }
    }
}

pub open spec fn connector_errors(o: OutputConfig) -> Seq<ConfigErrorView> {
    when(
        o.connector@.contains('/') || has_substring(o.connector@, ".."@),
        ConfigErrorView::Validation(
            "Output connector name '"@ + o.connector@ + "' must not contain path separators"@,
        ),
    ) + when(
        o.connector@.len() == 0,
        ConfigErrorView::Validation("Output connector name must not be empty"@),
    )
}

pub open spec fn outputs_errors(outs: Seq<OutputConfig>) -> Seq<ConfigErrorView>
    decreases outs.len(),
{
    if outs.len() == 0 {
        Seq::empty()
    } else {
        outputs_errors(outs.drop_last()) + connector_errors(outs.last())
    }
}

pub open spec fn env_errors(envs: Seq<String>) -> Seq<ConfigErrorView>
    decreases envs.len(),
{
    if envs.len() == 0 {
        Seq::empty()
    } else {
        env_errors(envs.drop_last()) + when(
            !envs.last()@.contains('='),
            ConfigErrorView::Validation(
                "malformed environment variable definition for '"@ + envs.last()@ + "'"@,
            ),
        )
    }
}

pub open spec fn terminal_errors(t: TerminalConfig) -> Seq<ConfigErrorView> {
    match terminal_reason(t) {
        Some(m) => seq![ConfigErrorView::Validation(m)],
        None => Seq::empty(),
    }
}

/// The errors about single settings: exclusive, dependent and ranged options.
pub open spec fn setting_errors(c: Config) -> Seq<ConfigErrorView> {
    when(
        c.display.issue && c.display.greeting is Some,
        ConfigErrorView::MutuallyExclusive("display.issue"@, "display.greeting"@),
    ) + when(
        c.remember.user_session && !c.remember.username,
        ConfigErrorView::Dependency("remember.user_session requires remember.username"@),
    ) + when(
        c.user_menu.min_uid > c.user_menu.max_uid,
        ConfigErrorView::InvalidRange("user_menu.min_uid must not exceed user_menu.max_uid"@),
    ) + when(
        c.layout.width == 0,
        ConfigErrorView::Validation("layout.width must be greater than 0"@),
    ) + padding_error("layout.window_padding"@, c.layout.window_padding) + padding_error(
        "layout.container_padding"@,
        c.layout.container_padding,
    ) + padding_error("layout.prompt_padding"@, c.layout.prompt_padding)
}

/// The errors about the keybindings and the time format.
pub open spec fn key_errors(c: Config, time_invalid: bool) -> Seq<ConfigErrorView> {
    when(!keys_distinct(c.keybindings), ConfigErrorView::DuplicateKeybindings) + fkey_errors(
        c.keybindings,
    ) + when(c.display.time_format is Some && time_invalid, ConfigErrorView::InvalidTimeFormat)
}

/// The errors about outputs, secret characters, environments and the
/// terminal size.
pub open spec fn structure_errors(c: Config) -> Seq<ConfigErrorView> {
    when(
        count_primary(c.outputs@) > 1,
        ConfigErrorView::Validation(
            "At most one output may be marked `primary = true`, but "@ + decimal(
                count_primary(c.outputs@),
            ) + " are"@,
        ),
    ) + outputs_errors(c.outputs@) + when(
        c.secret.mode == SecretMode::Characters && c.secret.characters@.len() == 0,
        ConfigErrorView::Validation(
            "When using characters secret mode, cannot have empty secret characters"@,
        ),
    ) + env_errors(c.session.environments@) + terminal_errors(c.terminal)
}

/// Every error `validate` reports, in the order it checks the rules, when
/// the wrapper lookups gave `wrappers` (`None`: wrappers are not checked) and
/// the time format is unreadable exactly when `time_invalid`.
pub open spec fn validation_errors(
    c: Config,
    wrappers: Option<WrapperLookup>,
    time_invalid: bool,
) -> Seq<ConfigErrorView> {
    setting_errors(c) + key_errors(c, time_invalid) + wrapper_errors(c, wrappers)
        + structure_errors(c)
}

/// Some output is configured, and none is enabled.
pub open spec fn all_outputs_disabled(outs: Seq<OutputConfig>) -> bool {
    outs.len() > 0 && forall|i: int| 0 <= i < outs.len() ==> !(#[trigger] outs[i]).enabled
}

/// Two entries of `s` are equal.
pub open spec fn has_duplicate(s: Seq<Seq<char>>) -> bool {
    exists|i: int, j: int| 0 <= i < j < s.len() && s[i] == s[j]
}

pub open spec fn power_warning(cmd: Option<String>, use_setsid: bool, text: Seq<char>) -> Seq<
    ConfigErrorView,
> {
    match cmd {
        Some(c) => when(
            !use_setsid && !has_substring(c@, "sudo"@) && !has_substring(c@, "doas"@),
            ConfigErrorView::Warning(text),
        ),
        None => Seq::empty(),
    }
}

/// The warnings about the layout, the user menu and the session
/// directories.
pub open spec fn layout_warnings(c: Config) -> Seq<ConfigErrorView> {
    when(
        c.layout.window_padding > 10,
        ConfigErrorView::Warning(
            "window_padding is very high ("@ + decimal(c.layout.window_padding as nat)
                + "), this may cause display issues"@,
        ),
    ) + when(
        c.layout.container_padding > 10,
        ConfigErrorView::Warning(
            "container_padding is very high ("@ + decimal(c.layout.container_padding as nat)
                + "), this may cause display issues"@,
        ),
    ) + when(
        c.layout.width > 200,
        ConfigErrorView::Warning(
            "width is very high ("@ + decimal(c.layout.width as nat)
                + "), this may cause display issues on smaller terminals"@,
        ),
    ) + when(
        c.user_menu.enabled && c.user_menu.min_uid > 65000,
        ConfigErrorView::Warning("user_menu.min_uid is very high, you may not see any users"@),
    ) + when(
        has_duplicate(string_views(c.session.sessions_dirs) + string_views(c.session.xsessions_dirs)),
        ConfigErrorView::Warning(
            "Duplicate session directories detected in sessions_dirs and xsessions_dirs"@,
        ),
    ) + when(
        c.layout.widgets.time_position == WidgetPosition::Hidden && c.display.show_time,
        ConfigErrorView::Warning("time widget is hidden but show_time is enabled"@),
    )
}

/// The warnings about power commands and the remaining options. Empty
/// session directory lists raise no warning: they are the default, and
/// sessions are then looked up under `$XDG_DATA_DIRS`.
pub open spec fn command_warnings(c: Config) -> Seq<ConfigErrorView> {
    power_warning(
        c.power.shutdown,
        c.power.use_setsid,
        "shutdown command without setsid or privilege escalation may fail"@,
    ) + power_warning(
        c.power.reboot,
        c.power.use_setsid,
        "reboot command without setsid or privilege escalation may fail"@,
    ) + power_warning(
        c.power.suspend,
        c.power.use_setsid,
        "suspend command without setsid or privilege escalation may fail"@,
    ) + power_warning(
        c.power.hibernate,
        c.power.use_setsid,
        "hibernate command without setsid or privilege escalation may fail"@,
    ) + when(
        c.display.time_format matches Some(f) && f@.len() == 0,
        ConfigErrorView::Warning("time_format is empty, this will result in no time display"@),
    ) + when(
        c.remember.session && c.remember.user_session,
        ConfigErrorView::Warning("Both remember.session and remember.user_session are enabled"@),
    ) + when(
        c.background.fps == 0,
        ConfigErrorView::Warning("Background fps is set to 0, this will be ignored"@),
    )
}

/// The warnings of `check_warnings`, in order.
pub open spec fn config_warnings(c: Config) -> Seq<ConfigErrorView> {
    layout_warnings(c) + command_warnings(c)
}

/// Every warning `validate` reports, in order.
pub open spec fn validation_warnings(c: Config) -> Seq<ConfigErrorView> {
    when(
        all_outputs_disabled(c.outputs@),
        ConfigErrorView::Warning(
            "All [[outputs]] entries have `enabled = false`; no output will be used for terminal sizing"@,
        ),
    ) + config_warnings(c)
}

/// `r` is what `validate` answers for the given errors and warnings: the
/// warnings alone when there is no error, else both lists.
pub open spec fn outcome_matches(
    r: Result<Vec<ConfigError>, (Vec<ConfigError>, Vec<ConfigError>)>,
    errors: Seq<ConfigErrorView>,
    warnings: Seq<ConfigErrorView>,
) -> bool {
    match r {
        Ok(w) => errors.len() == 0 && error_views(w@) == warnings,
        Err((e, w)) => errors.len() > 0 && error_views(e@) == errors && error_views(w@)
            == warnings,
    }
}

fn one(cond: bool, e: ConfigError) -> (r: Vec<ConfigError>)
    ensures
        error_views(r@) == when(cond, e@),
{
    let mut r: Vec<ConfigError> = Vec::new();
    if cond {
        r.push(e);
    }
    assert(error_views(r@) =~= when(cond, e@));
    r
}

fn padding_check(name: &str, padding: u16) -> (r: Vec<ConfigError>)
    ensures
        error_views(r@) == padding_error(name@, padding),
{
    if padding > 10 {
        one(true, ConfigError::Validation(concat2(name, " must not exceed 10")))
    } else {
        one(false, ConfigError::DuplicateKeybindings)
    }
}

fn fkey_check(name: &str, key: u8) -> (r: Vec<ConfigError>)
    ensures
        error_views(r@) == fkey_error(name@, key),
{
    let bad = !(1 <= key && key <= 12);
    one(bad, ConfigError::InvalidFKey(name.to_owned(), key))
}

fn join_errors(a: Vec<ConfigError>, b: Vec<ConfigError>) -> (r: Vec<ConfigError>)
    ensures
        error_views(r@) == error_views(a@) + error_views(b@),
{
    let ghost a0 = a@;
    let ghost b0 = b@;
    let mut a = a;
    let mut b = b;
    a.append(&mut b);
    assert(error_views(a@) =~= error_views(a0) + error_views(b0));
    a
}

fn outputs_check(outs: &Vec<OutputConfig>) -> (r: Vec<ConfigError>)
    ensures
        error_views(r@) == outputs_errors(outs@),
{
    let mut r: Vec<ConfigError> = Vec::new();
    let mut i: usize = 0;
    while i < outs.len()
        invariant
            i <= outs@.len(),
            error_views(r@) == outputs_errors(outs@.take(i as int)),
        decreases outs@.len() - i,
    {
        let c = &outs[i].connector;
        let sep = contains_char(c.as_str(), '/') || contains_str(c.as_str(), "..");
        let mut a = one(
            sep,
            ConfigError::Validation(
                concat3(
                    "Output connector name '",
                    c.as_str(),
                    "' must not contain path separators",
                ),
            ),
        );
        let mut b = one(
            c.as_str().is_empty(),
            ConfigError::Validation("Output connector name must not be empty".to_owned()),
        );
        let ghost before = r@;
        r.append(&mut a);
        r.append(&mut b);
        proof {
            assert(outs@.take(i + 1).drop_last() =~= outs@.take(i as int));
            assert(error_views(r@) =~= error_views(before) + connector_errors(outs@[i as int]));
        }
        i = i + 1;
    }
    assert(outs@.take(i as int) =~= outs@);
    r
}

fn env_check(envs: &Vec<String>) -> (r: Vec<ConfigError>)
    ensures
        error_views(r@) == env_errors(envs@),
{
    let mut r: Vec<ConfigError> = Vec::new();
    let mut i: usize = 0;
    while i < envs.len()
        invariant
            i <= envs@.len(),
            error_views(r@) == env_errors(envs@.take(i as int)),
        decreases envs@.len() - i,
    {
        let e = envs[i].as_str();
        let mut a = one(
            !contains_char(e, '='),
            ConfigError::Validation(
                concat3("malformed environment variable definition for '", e, "'"),
            ),
        );
        let ghost before = r@;
        let ghost a0 = a@;
        r.append(&mut a);
        proof {
            assert(envs@.take(i + 1).drop_last() =~= envs@.take(i as int));
            assert(envs@.take(i + 1).last() == envs@[i as int]);
            assert(error_views(r@) =~= error_views(before) + error_views(a0));
        }
        i = i + 1;
    }
    assert(envs@.take(i as int) =~= envs@);
    r
}

pub(crate) fn primary_count(outs: &Vec<OutputConfig>) -> (n: usize)
    ensures
        n == count_primary(outs@),
{
    let mut n: usize = 0;
    let mut i: usize = 0;
    while i < outs.len()
        invariant
            i <= outs@.len(),
            n == count_primary(outs@.take(i as int)),
            n <= i,
        decreases outs@.len() - i,
    {
        assert(outs@.take(i + 1).drop_last() =~= outs@.take(i as int));
        if outs[i].primary {
            n = n + 1;
        }
        i = i + 1;
    }
    assert(outs@.take(i as int) =~= outs@);
    n
}

fn terminal_check(t: &TerminalConfig) -> (r: Vec<ConfigError>)
    ensures
        error_views(r@) == terminal_errors(*t),
{
    let mut r: Vec<ConfigError> = Vec::new();
    if let Some(reason) = t.invalid_reason() {
        r.push(ConfigError::Validation(reason));
    }
    assert(error_views(r@) =~= terminal_errors(*t));
    r
}

pub(crate) fn session_dirs_repeat(a: &Vec<String>, b: &Vec<String>) -> (r: bool)
    ensures
        r == has_duplicate(string_views(*a) + string_views(*b)),
{
    let ghost s = string_views(*a) + string_views(*b);
    let mut all: Vec<&str> = Vec::new();
    let mut k: usize = 0;
    while k < a.len()
        invariant
            k <= a@.len(),
            all@.len() == k,
            forall|p: int| 0 <= p < k ==> (#[trigger] all@[p])@ == s[p],
            s == string_views(*a) + string_views(*b),
        decreases a@.len() - k,
    {
        all.push(a[k].as_str());
        k = k + 1;
    }
    let mut k: usize = 0;
    while k < b.len()
        invariant
            k <= b@.len(),
            all@.len() == a@.len() + k,
            forall|p: int| 0 <= p < a@.len() + k ==> (#[trigger] all@[p])@ == s[p],
            s == string_views(*a) + string_views(*b),
        decreases b@.len() - k,
    {
        all.push(b[k].as_str());
        k = k + 1;
    }
    let n = all.len();
    let mut i: usize = 0;
    while i < n
        invariant
            s == string_views(*a) + string_views(*b),
            n == all@.len(),
            n == s.len(),
            forall|p: int| 0 <= p < n ==> (#[trigger] all@[p])@ == s[p],
            i <= n,
            forall|p: int, q: int| 0 <= p < i && p < q < n ==> s[p] != s[q],
        decreases n - i,
    {
        let mut j: usize = i + 1;
        while j < n
            invariant
                s == string_views(*a) + string_views(*b),
                n == all@.len(),
                n == s.len(),
                forall|p: int| 0 <= p < n ==> (#[trigger] all@[p])@ == s[p],
                i < j <= n,
                forall|q: int| i < q < j ==> s[i as int] != s[q],
            decreases n - j,
        {
            if str_eq(all[i], all[j]) {
                assert(all@[i as int]@ == s[i as int] && all@[j as int]@ == s[j as int]);
                assert(0 <= i < j < s.len() && s[i as int] == s[j as int]);
                assert(has_duplicate(s));
                return true;
            }
            assert(all@[i as int]@ == s[i as int] && all@[j as int]@ == s[j as int]);
            j = j + 1;
        }
        i = i + 1;
    }
    false
}

fn power_check(cmd: &Option<String>, use_setsid: bool, text: &str) -> (r: Vec<ConfigError>)
    ensures
        error_views(r@) == power_warning(*cmd, use_setsid, text@),
{
    match cmd {
        Some(c) => {
            let cond = !use_setsid && !contains_str(c.as_str(), "sudo") && !contains_str(
                c.as_str(),
                "doas",
            );
            one(cond, ConfigError::Warning(text.to_owned()))
        },
        None => {
            let r: Vec<ConfigError> = Vec::new();
            assert(error_views(r@) =~= Seq::empty());
            r
        },
    }
}

pub(crate) fn outputs_all_disabled(outs: &Vec<OutputConfig>) -> (r: bool)
    ensures
        r == all_outputs_disabled(outs@),
{
    if outs.len() == 0 {
        return false;
    }
    let mut i: usize = 0;
    while i < outs.len()
        invariant
            i <= outs@.len(),
            forall|k: int| 0 <= k < i ==> !(#[trigger] outs@[k]).enabled,
        decreases outs@.len() - i,
    {
        if outs[i].enabled {
            return false;
        }
        i = i + 1;
    }
    true
}

impl Config {
    /// Checks the rules of a resolved configuration, when the wrapper lookups
    /// gave `wrappers` (`None`: wrappers are not checked) and the configured
    /// time format is unreadable exactly when `time_invalid`.
    ///
    /// Returns the warnings when no rule is broken, else the errors and the
    /// warnings.
    pub fn validate_resolved(&self, wrappers: Option<WrapperLookup>, time_invalid: bool) -> (r:
        Result<Vec<ConfigError>, (Vec<ConfigError>, Vec<ConfigError>)>)
        ensures
            outcome_matches(
                r,
                validation_errors(*self, wrappers, time_invalid),
                validation_warnings(*self),
            ),
    {
        let errors = join_errors(
            join_errors(
                join_errors(self.setting_check(), self.key_check(time_invalid)),
                self.wrapper_check(wrappers),
            ),
            self.structure_check(),
        );
        let w1 = one(
            outputs_all_disabled(&self.outputs),
            ConfigError::Warning(
                "All [[outputs]] entries have `enabled = false`; no output will be used for terminal sizing".to_owned(),
            ),
        );
        let warnings = join_errors(w1, self.check_warnings());
        if errors.len() == 0 {
            Ok(warnings)
        } else {
            Err((errors, warnings))
        }
    }

    fn setting_check(&self) -> (r: Vec<ConfigError>)
        ensures
            error_views(r@) == setting_errors(*self),
    {
        let e1 = one(
            self.display.issue && self.display.greeting.is_some(),
            ConfigError::MutuallyExclusive(
                "display.issue".to_owned(),
                "display.greeting".to_owned(),
            ),
        );
        let e2 = one(
            self.remember.user_session && !self.remember.username,
            ConfigError::Dependency("remember.user_session requires remember.username".to_owned()),
        );
        let e3 = one(
            self.user_menu.min_uid > self.user_menu.max_uid,
            ConfigError::InvalidRange(
                "user_menu.min_uid must not exceed user_menu.max_uid".to_owned(),
            ),
        );
        let e4 = one(
            self.layout.width == 0,
            ConfigError::Validation("layout.width must be greater than 0".to_owned()),
        );
        let e5 = padding_check("layout.window_padding", self.layout.window_padding);
        let e6 = padding_check("layout.container_padding", self.layout.container_padding);
        let e7 = padding_check("layout.prompt_padding", self.layout.prompt_padding);
        join_errors(
            join_errors(join_errors(join_errors(join_errors(join_errors(e1, e2), e3), e4), e5), e6),
            e7,
        )
    }

    fn key_check(&self, time_invalid: bool) -> (r: Vec<ConfigError>)
        ensures
            error_views(r@) == key_errors(*self, time_invalid),
    {
        let k = &self.keybindings;
        let distinct = k.command != k.sessions && k.command != k.power && k.command
            != k.background && k.sessions != k.power && k.sessions != k.background && k.power
            != k.background;
        let e8 = one(!distinct, ConfigError::DuplicateKeybindings);
        let e9 = join_errors(
            join_errors(fkey_check("command", k.command), fkey_check("sessions", k.sessions)),
            join_errors(fkey_check("power", k.power), fkey_check("background", k.background)),
        );
        let e10 = one(
            self.display.time_format.is_some() && time_invalid,
            ConfigError::InvalidTimeFormat,
        );
        join_errors(join_errors(e8, e9), e10)
    }

    fn structure_check(&self) -> (r: Vec<ConfigError>)
        ensures
            error_views(r@) == structure_errors(*self),
    {
        let primaries = primary_count(&self.outputs);
        let e12 = if primaries > 1 {
            one(
                true,
                ConfigError::Validation(
                    concat_number(
                        "At most one output may be marked `primary = true`, but ",
                        primaries as u64,
                        " are",
                    ),
                ),
            )
        } else {
            one(false, ConfigError::DuplicateKeybindings)
        };
        let e13 = outputs_check(&self.outputs);
        let e14 = one(
            self.secret.mode == SecretMode::Characters && self.secret.characters.as_str().is_empty(),
            ConfigError::Validation(
                "When using characters secret mode, cannot have empty secret characters".to_owned(),
            ),
        );
        let e15 = env_check(&self.session.environments);
        let e16 = terminal_check(&self.terminal);
        join_errors(join_errors(join_errors(join_errors(e12, e13), e14), e15), e16)
    }

    /// Checks the rules of a resolved configuration; `wrappers` carries what
    /// the lookups of the wrapper executables found, or `None` when wrappers
    /// are not to be checked.
    ///
    /// Returns the warnings when no rule is broken, else the errors and the
    /// warnings.
    pub fn validate(&self, wrappers: Option<WrapperLookup>) -> (r: Result<
        Vec<ConfigError>,
        (Vec<ConfigError>, Vec<ConfigError>),
    >)
        ensures
            outcome_matches(
                r,
                validation_errors(*self, wrappers, time_format_invalid(*self)),
                validation_warnings(*self),
            ),
    {
        let time_invalid = match &self.display.time_format {
            Some(f) => time_format_unreadable(f.as_str()),
            None => false,
        };
        self.validate_resolved(wrappers, time_invalid)
    }

    fn wrapper_check(&self, wrappers: Option<WrapperLookup>) -> (r: Vec<ConfigError>)
        ensures
            error_views(r@) == wrapper_errors(*self, wrappers),
    {
        match wrappers {
            None => {
                let r: Vec<ConfigError> = Vec::new();
                assert(error_views(r@) =~= Seq::empty());
                r
            },
            Some(l) => {
                let mut r: Vec<ConfigError> = Vec::new();
                match &self.session.session_wrapper {
                    Some(w) => {
                        if let Some(e) = self.validate_wrapper_command(
                            w.as_str(),
                            l.session_wrapper_found,
                        ) {
                            r.push(e);
                        }
                    },
                    None => {},
                }
                if !self.session.xsession_wrapper.as_str().is_empty() {
                    if let Some(e) = self.validate_wrapper_command(
                        self.session.xsession_wrapper.as_str(),
                        l.xsession_wrapper_found,
                    ) {
                        r.push(e);
                    }
                }
                assert(error_views(r@) =~= wrapper_errors(*self, wrappers));
                r
            },
        }
    }

    /// The error for a wrapper command whose executable lookup gave `found`:
    /// a blank command is reported under its own text, a command whose first
    /// word was not found under that word.
    pub fn validate_wrapper_command(&self, command: &str, found: bool) -> (r: Option<ConfigError>)
        ensures
            r matches Some(e) ==> wrapper_error(command@, found) == Some(e@),
            r is None ==> wrapper_error(command@, found) is None,
    {
        match first_word_of(command) {
            None => Some(ConfigError::WrapperExecutableNotFound(command.to_owned())),
            Some(w) => {
                if found {
                    None
                } else {
                    Some(ConfigError::WrapperExecutableNotFound(w))
                }
            },
        }
    }

    /// The non-fatal warnings about a configuration, in order.
    pub fn check_warnings(&self) -> (r: Vec<ConfigError>)
        ensures
            error_views(r@) == config_warnings(*self),
    {
        join_errors(self.layout_warning_check(), self.command_warning_check())
    }

    fn layout_warning_check(&self) -> (r: Vec<ConfigError>)
        ensures
            error_views(r@) == layout_warnings(*self),
    {
        let w1 = if self.layout.window_padding > 10 {
            one(
                true,
                ConfigError::Warning(
                    concat_number(
                        "window_padding is very high (",
                        self.layout.window_padding as u64,
                        "), this may cause display issues",
                    ),
                ),
            )
        } else {
            one(false, ConfigError::DuplicateKeybindings)
        };
        let w2 = if self.layout.container_padding > 10 {
            one(
                true,
                ConfigError::Warning(
                    concat_number(
                        "container_padding is very high (",
                        self.layout.container_padding as u64,
                        "), this may cause display issues",
                    ),
                ),
            )
        } else {
            one(false, ConfigError::DuplicateKeybindings)
        };
        let w3 = if self.layout.width > 200 {
            one(
                true,
                ConfigError::Warning(
                    concat_number(
                        "width is very high (",
                        self.layout.width as u64,
                        "), this may cause display issues on smaller terminals",
                    ),
                ),
            )
        } else {
            one(false, ConfigError::DuplicateKeybindings)
        };
        let w4 = one(
            self.user_menu.enabled && self.user_menu.min_uid > 65000,
            ConfigError::Warning(
                "user_menu.min_uid is very high, you may not see any users".to_owned(),
            ),
        );
        let w5 = one(
            session_dirs_repeat(&self.session.sessions_dirs, &self.session.xsessions_dirs),
            ConfigError::Warning(
                "Duplicate session directories detected in sessions_dirs and xsessions_dirs".to_owned(),
            ),
        );
        let w6 = one(
            self.layout.widgets.time_position == WidgetPosition::Hidden && self.display.show_time,
            ConfigError::Warning("time widget is hidden but show_time is enabled".to_owned()),
        );
        join_errors(join_errors(join_errors(join_errors(join_errors(w1, w2), w3), w4), w5), w6)
    }

    fn command_warning_check(&self) -> (r: Vec<ConfigError>)
        ensures
            error_views(r@) == command_warnings(*self),
    {
        let w7 = power_check(
            &self.power.shutdown,
            self.power.use_setsid,
            "shutdown command without setsid or privilege escalation may fail",
        );
        let w8 = power_check(
            &self.power.reboot,
            self.power.use_setsid,
            "reboot command without setsid or privilege escalation may fail",
        );
        let w9 = power_check(
            &self.power.suspend,
            self.power.use_setsid,
            "suspend command without setsid or privilege escalation may fail",
        );
        let w10 = power_check(
            &self.power.hibernate,
            self.power.use_setsid,
            "hibernate command without setsid or privilege escalation may fail",
        );
        let empty_format = match &self.display.time_format {
            Some(f) => f.as_str().is_empty(),
            None => false,
        };
        let w12 = one(
            empty_format,
            ConfigError::Warning(
                "time_format is empty, this will result in no time display".to_owned(),
            ),
        );
        let w13 = one(
            self.remember.session && self.remember.user_session,
            ConfigError::Warning(
                "Both remember.session and remember.user_session are enabled".to_owned(),
            ),
        );
        let w14 = one(
            self.background.fps == 0,
            ConfigError::Warning("Background fps is set to 0, this will be ignored".to_owned()),
        );
        join_errors(
            join_errors(
                join_errors(
                    join_errors(join_errors(join_errors(w7, w8), w9), w10),
                    w12,
                ),
                w13,
            ),
            w14,
        )
    }
}

proof fn lemma_no_output_errors(outs: Seq<OutputConfig>)
    requires
        outputs_errors(outs).len() == 0,
    ensures
        forall|i: int|
            0 <= i < outs.len() ==> (#[trigger] outs[i]).connector@.len() > 0 && !outs[i].connector@.contains('/')
                && !has_substring(outs[i].connector@, ".."@),
    decreases outs.len(),
{
    if outs.len() > 0 {
        lemma_no_output_errors(outs.drop_last());
        assert forall|i: int| 0 <= i < outs.len() implies (#[trigger] outs[i]).connector@.len() > 0
            && !outs[i].connector@.contains('/') && !has_substring(outs[i].connector@, ".."@) by {
            if i < outs.len() - 1 {
                assert(outs[i] == outs.drop_last()[i]);
            }
        }
    }
}

proof fn lemma_no_env_errors(envs: Seq<String>)
    requires
        env_errors(envs).len() == 0,
    ensures
        forall|i: int| 0 <= i < envs.len() ==> (#[trigger] envs[i])@.contains('='),
    decreases envs.len(),
{
    if envs.len() > 0 {
        lemma_no_env_errors(envs.drop_last());
        assert forall|i: int| 0 <= i < envs.len() implies (#[trigger] envs[i])@.contains('=') by {
            if i < envs.len() - 1 {
                assert(envs[i] == envs.drop_last()[i]);
            }
        }
    }
}

/// A configuration that validation accepts keeps every rule: no exclusive
/// options together, no missing dependency, an ordered UID range, a usable
/// layout, distinct function keys from F1 to F12, a readable time format, at
/// most one primary output, connector names that are plain names, secret
/// characters when they are shown, environment entries of the form
/// `NAME=value`, and a complete terminal size when one is given.
pub proof fn lemma_accepted_config_keeps_rules(
    c: Config,
    wrappers: Option<WrapperLookup>,
    time_invalid: bool,
)
    requires
        validation_errors(c, wrappers, time_invalid).len() == 0,
    ensures
        !(c.display.issue && c.display.greeting is Some),
        c.remember.user_session ==> c.remember.username,
        c.user_menu.min_uid <= c.user_menu.max_uid,
        c.layout.width > 0,
        c.layout.window_padding <= 10,
        c.layout.container_padding <= 10,
        c.layout.prompt_padding <= 10,
        c.keybindings.command != c.keybindings.sessions,
        c.keybindings.command != c.keybindings.power,
        c.keybindings.command != c.keybindings.background,
        c.keybindings.sessions != c.keybindings.power,
        c.keybindings.sessions != c.keybindings.background,
        c.keybindings.power != c.keybindings.background,
        1 <= c.keybindings.command <= 12,
        1 <= c.keybindings.sessions <= 12,
        1 <= c.keybindings.power <= 12,
        1 <= c.keybindings.background <= 12,
        c.display.time_format is Some ==> !time_invalid,
        count_primary(c.outputs@) <= 1,
        forall|i: int|
            0 <= i < c.outputs@.len() ==> (#[trigger] c.outputs@[i]).connector@.len() > 0
                && !c.outputs@[i].connector@.contains('/')
                && !has_substring(c.outputs@[i].connector@, ".."@),
        c.secret.mode == SecretMode::Characters ==> c.secret.characters@.len() > 0,
        forall|i: int|
            0 <= i < c.session.environments@.len() ==> (#[trigger] c.session.environments@[i])@.contains('='),
        terminal_reason(c.terminal) is None,
{
    lemma_no_output_errors(c.outputs@);
    lemma_no_env_errors(c.session.environments@);
}

/// The default configuration breaks no rule, whatever the time format
/// check says (it sets none) and whichever session wrapper was found,
/// provided the default X11 wrapper's executable (`startx`) was found; and
/// it raises no warning.
pub proof fn lemma_defaults_are_valid(c: Config, wrappers: WrapperLookup, time_invalid: bool)
    requires
        is_default_config(c),
        wrappers.xsession_wrapper_found,
    ensures
        validation_errors(c, Some(wrappers), time_invalid).len() == 0,
        validation_errors(c, None, time_invalid).len() == 0,
        validation_warnings(c).len() == 0,
{
    reveal_strlit("startx /usr/bin/env");
    reveal_strlit("*");
    assert(first_word(c.session.xsession_wrapper@) is Some);
    assert(outputs_errors(c.outputs@) =~= Seq::empty());
    assert(env_errors(c.session.environments@) =~= Seq::empty());
    assert(count_primary(c.outputs@) == 0);
    assert(string_views(c.session.sessions_dirs) + string_views(c.session.xsessions_dirs) =~= Seq::<Seq<char>>::empty());
}

/// Two menus bound to the same function key are refused: when any two of
/// the command, sessions, power and background keys are equal, validation
/// reports duplicate keybindings.
pub proof fn lemma_shared_key_refused(c: Config, wrappers: Option<WrapperLookup>, time_invalid: bool)
    requires
        c.keybindings.command == c.keybindings.sessions || c.keybindings.command
            == c.keybindings.power || c.keybindings.command == c.keybindings.background
            || c.keybindings.sessions == c.keybindings.power || c.keybindings.sessions
            == c.keybindings.background || c.keybindings.power == c.keybindings.background,
    ensures
        validation_errors(c, wrappers, time_invalid).contains(ConfigErrorView::DuplicateKeybindings),
{
    let e = validation_errors(c, wrappers, time_invalid);
    let k = setting_errors(c).len();
    assert(key_errors(c, time_invalid)[0] == ConfigErrorView::DuplicateKeybindings);
    assert(e[k as int] == ConfigErrorView::DuplicateKeybindings);
}

} // verus!
