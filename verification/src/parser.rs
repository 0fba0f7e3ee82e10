//! Errors of the file-based configuration, merging of a user file over the
//! system file, and the rules a file-based configuration must keep.
use vstd::prelude::*;
use vstd::string::*;

use crate::config::{string_views, terminal_reason, OutputConfig};
use crate::schema::{
    is_default_file_config, same_outputs, same_settings, AlignGreeting, Config, DisplayConfig, GeneralConfig, KeybindingsConfig, LayoutConfig,
    PowerConfig, RememberConfig, SecretConfig, SecretMode, SessionConfig, ThemeConfig,
    UserMenuConfig, WidgetPosition,
};
use crate::text::{
    byte_len, char_vec, char_width, concat2, concat3, concat_number, contains_char, contains_str,
    decimal, decimal_string, first_word, first_word_of, has_substring, lemma_byte_len_prefix,
    lemma_byte_len_take, lines_of, spaces, spaces_string, str_eq, text_lines,
    views,
};
use crate::validation::{all_outputs_disabled, count_primary, has_duplicate, WrapperLookup};

verus! {

/// Errors that can occur during configuration loading or validation.
#[derive(Debug, Clone)]
pub enum ConfigError {
    /// I/O error when reading config files, as its text.
    Io(String),
    /// TOML parsing error, as its text.
    Parse(String),
    /// TOML parsing error with file context.
    ParseWithContext {
        file: String,
        line: usize,
        column: usize,
        context: Vec<String>,
        original_message: String,
    },
    /// General validation error with description.
    Validation(String),
    /// Two options that cannot be used together.
    MutuallyExclusive(String, String),
    /// Option that depends on another option.
    Dependency(String),
    /// Invalid range (e.g. `min_uid` > `max_uid`).
    InvalidRange(String),
    /// Duplicate keybindings.
    DuplicateKeybindings,
    /// Invalid F-key value.
    InvalidFKey(String, u8),
    /// Invalid time format string.
    InvalidTimeFormat,
    /// Session wrapper executable not found (the path or name looked for).
    WrapperExecutableNotFound(String),
}

/// A [`ConfigError`] with its texts as character sequences.
pub enum ConfigErrorView {
    Io(Seq<char>),
    Parse(Seq<char>),
    ParseWithContext {
        file: Seq<char>,
        line: nat,
        column: nat,
        context: Seq<Seq<char>>,
        original_message: Seq<char>,
    },
    Validation(Seq<char>),
    MutuallyExclusive(Seq<char>, Seq<char>),
    Dependency(Seq<char>),
    InvalidRange(Seq<char>),
    DuplicateKeybindings,
    InvalidFKey(Seq<char>, u8),
    InvalidTimeFormat,
    WrapperExecutableNotFound(Seq<char>),
}

impl View for ConfigError {
    type V = ConfigErrorView;

    open spec fn view(&self) -> ConfigErrorView {
        match self {
            ConfigError::Io(m) => ConfigErrorView::Io(m@),
            ConfigError::Parse(m) => ConfigErrorView::Parse(m@),
            ConfigError::ParseWithContext { file, line, column, context, original_message } =>
                ConfigErrorView::ParseWithContext {
                file: file@,
                line: *line as nat,
                column: *column as nat,
                context: views(context@),
                original_message: original_message@,
            },
            ConfigError::Validation(m) => ConfigErrorView::Validation(m@),
            ConfigError::MutuallyExclusive(a, b) => ConfigErrorView::MutuallyExclusive(a@, b@),
            ConfigError::Dependency(m) => ConfigErrorView::Dependency(m@),
            ConfigError::InvalidRange(m) => ConfigErrorView::InvalidRange(m@),
            ConfigError::DuplicateKeybindings => ConfigErrorView::DuplicateKeybindings,
            ConfigError::InvalidFKey(n, k) => ConfigErrorView::InvalidFKey(n@, *k),
            ConfigError::InvalidTimeFormat => ConfigErrorView::InvalidTimeFormat,
            ConfigError::WrapperExecutableNotFound(p) => ConfigErrorView::WrapperExecutableNotFound(
                p@,
            ),
        }
    }
}

/// The text of each line, each followed by a line break.
pub open spec fn lines_text(lines: Seq<Seq<char>>) -> Seq<char>
    decreases lines.len(),
{
    if lines.len() == 0 {
        Seq::empty()
    } else {
        lines_text(lines.drop_last()) + lines.last() + "\n"@
    }
}

/// The text that describes an error to the user.
pub open spec fn message_of(e: ConfigErrorView) -> Seq<char> {
    match e {
        ConfigErrorView::Io(m) => "I/O error: "@ + m,
        ConfigErrorView::Parse(m) => "TOML parse error: "@ + m,
        ConfigErrorView::ParseWithContext { file, line, column, context, original_message } =>
            "TOML parse error: "@ + original_message + "\n"@ + "File: "@ + file + "\n"@
            + "Line: "@ + decimal(line) + ", Column: "@ + decimal(column) + "\n"@ + "\n"@
            + lines_text(context),
        ConfigErrorView::Validation(m) => "Validation error: "@ + m,
        ConfigErrorView::MutuallyExclusive(a, b) => "Options '"@ + a + "' and '"@ + b
            + "' are mutually exclusive"@,
        ConfigErrorView::Dependency(m) => "Dependency error: "@ + m,
        ConfigErrorView::InvalidRange(m) => "Invalid range: "@ + m,
        ConfigErrorView::DuplicateKeybindings => "Duplicate keybindings detected"@,
        ConfigErrorView::InvalidFKey(n, k) => "Invalid F-key value for '"@ + n + "': F"@
            + decimal(k as nat) + " (must be F1-F12)"@,
        ConfigErrorView::InvalidTimeFormat => "Invalid time format string"@,
        ConfigErrorView::WrapperExecutableNotFound(p) => "Session wrapper executable not found: "@
            + p,
    }
}

impl ConfigError {
    /// The text that describes this error to the user.
    pub fn message(&self) -> (s: String)
        ensures
            s@ == message_of(self@),
    {
        match self {
            ConfigError::Io(m) => concat2("I/O error: ", m.as_str()),
            ConfigError::Parse(m) => concat2("TOML parse error: ", m.as_str()),
            ConfigError::ParseWithContext { file, line, column, context, original_message } => {
                let mut s = concat3("TOML parse error: ", original_message.as_str(), "\n");
                s.append("File: ");
                s.append(file.as_str());
                s.append("\n");
                s.append("Line: ");
                s.append(decimal_string(*line as u64).as_str());
                s.append(", Column: ");
                s.append(decimal_string(*column as u64).as_str());
                s.append("\n");
                s.append("\n");
                let ghost head = s@;
                let mut i: usize = 0;
                while i < context.len()
                    invariant
                        i <= context@.len(),
                        s@ == head + lines_text(views(context@).take(i as int)),
                    decreases context@.len() - i,
                {
                    let ghost before = views(context@).take(i as int);
                    s.append(context[i].as_str());
                    s.append("\n");
                    i = i + 1;
                    assert(views(context@).take(i as int).drop_last() =~= before);
                }
                assert(views(context@).take(i as int) =~= views(context@));
                s
            },
            ConfigError::Validation(m) => concat2("Validation error: ", m.as_str()),
            ConfigError::MutuallyExclusive(a, b) => {
                let mut s = concat3("Options '", a.as_str(), "' and '");
                s.append(b.as_str());
                s.append("' are mutually exclusive");
                s
            },
            ConfigError::Dependency(m) => concat2("Dependency error: ", m.as_str()),
            ConfigError::InvalidRange(m) => concat2("Invalid range: ", m.as_str()),
            ConfigError::DuplicateKeybindings => "Duplicate keybindings detected".to_owned(),
            ConfigError::InvalidFKey(n, k) => {
                let mut s = concat3("Invalid F-key value for '", n.as_str(), "': F");
                s.append(decimal_string(*k as u64).as_str());
                s.append(" (must be F1-F12)");
                s
            },
            ConfigError::InvalidTimeFormat => "Invalid time format string".to_owned(),
            ConfigError::WrapperExecutableNotFound(p) => concat2(
                "Session wrapper executable not found: ",
                p.as_str(),
            ),
        }
    }
}

// ---------------------------------------------------------------------------
// Merging
// ---------------------------------------------------------------------------

/// The characters of an optional string.
pub open spec fn opt_view(o: Option<String>) -> Option<Seq<char>> {
    match o {
        Some(s) => Some(s@),
        None => None,
    }
}

/// `s` when `changed`, else `d`.
pub open spec fn pick<T>(changed: bool, s: T, d: T) -> T {
    if changed {
        s
    } else {
        d
    }
}

pub open spec fn merge_general(d: crate::schema::GeneralConfig, s: crate::schema::GeneralConfig) -> crate::schema::GeneralConfig {
    crate::schema::GeneralConfig {
        debug: pick(s.debug != false, s.debug, d.debug),
        log_file: pick(
            s.log_file@ != "/tmp/tuigreet.log"@,
            s.log_file,
            d.log_file,
        ),
    }
}

pub open spec fn merge_session(d: crate::schema::SessionConfig, s: crate::schema::SessionConfig) -> crate::schema::SessionConfig {
    crate::schema::SessionConfig {
        command: pick(s.command is Some, s.command, d.command),
        sessions_dirs: pick(s.sessions_dirs@.len() != 0, s.sessions_dirs, d.sessions_dirs),
        xsessions_dirs: pick(s.xsessions_dirs@.len() != 0, s.xsessions_dirs, d.xsessions_dirs),
        session_wrapper: pick(
            s.session_wrapper is Some,
            s.session_wrapper,
            d.session_wrapper,
        ),
        xsession_wrapper: pick(
            opt_view(s.xsession_wrapper) != Some("startx"@),
            s.xsession_wrapper,
            d.xsession_wrapper,
        ),
        environments: pick(
            s.environments@.len() != 0,
            s.environments,
            d.environments,
        ),
    }
}

pub open spec fn merge_display(d: crate::schema::DisplayConfig, s: crate::schema::DisplayConfig) -> crate::schema::DisplayConfig {
    crate::schema::DisplayConfig {
        show_time: pick(s.show_time != false, s.show_time, d.show_time),
        time_format: pick(
            s.time_format is Some,
            s.time_format,
            d.time_format,
        ),
        greeting: pick(s.greeting is Some, s.greeting, d.greeting),
        show_title: pick(
            s.show_title != false,
            s.show_title,
            d.show_title,
        ),
        issue: pick(s.issue != false, s.issue, d.issue),
        align_greeting: pick(
            s.align_greeting != crate::config::AlignGreeting::Center,
            s.align_greeting,
            d.align_greeting,
        ),
    }
}

pub open spec fn merge_remember(d: crate::config::RememberConfig, s: crate::config::RememberConfig) -> crate::config::RememberConfig {
    crate::config::RememberConfig {
        default_user: pick(s.default_user is Some, s.default_user, d.default_user),
        username: pick(s.username != false, s.username, d.username),
        session: pick(s.session != false, s.session, d.session),
        user_session: pick(
            s.user_session != false,
            s.user_session,
            d.user_session,
        ),
    }
}

pub open spec fn merge_user_menu(d: crate::config::UserMenuConfig, s: crate::config::UserMenuConfig) -> crate::config::UserMenuConfig {
    crate::config::UserMenuConfig {
        enabled: pick(s.enabled != false, s.enabled, d.enabled),
        min_uid: pick(s.min_uid != 1000, s.min_uid, d.min_uid),
        max_uid: pick(s.max_uid != 60000, s.max_uid, d.max_uid),
    }
}

pub open spec fn merge_secret(d: crate::config::SecretConfig, s: crate::config::SecretConfig) -> crate::config::SecretConfig {
    crate::config::SecretConfig {
        mode: pick(s.mode != SecretMode::Hidden, s.mode, d.mode),
        characters: pick(
            s.characters@ != "*"@,
            s.characters,
            d.characters,
        ),
    }
}

pub open spec fn merge_layout(d: crate::schema::LayoutConfig, s: crate::schema::LayoutConfig) -> crate::schema::LayoutConfig {
    crate::schema::LayoutConfig {
        width: pick(s.width != 80, s.width, d.width),
        window_padding: pick(
            s.window_padding is Some,
            s.window_padding,
            d.window_padding,
        ),
        container_padding: pick(
            s.container_padding is Some,
            s.container_padding,
            d.container_padding,
        ),
        prompt_padding: pick(
            s.prompt_padding is Some,
            s.prompt_padding,
            d.prompt_padding,
        ),
        widgets: crate::schema::WidgetConfig {
            time_position: pick(
                s.widgets.time_position != WidgetPosition::Default,
                s.widgets.time_position,
                d.widgets.time_position,
            ),
            status_position: pick(
                s.widgets.status_position != WidgetPosition::Default,
                s.widgets.status_position,
                d.widgets.status_position,
            ),
        },
    }
}

pub open spec fn merge_power(d: crate::schema::PowerConfig, s: crate::schema::PowerConfig) -> crate::schema::PowerConfig {
    crate::schema::PowerConfig {
        shutdown: pick(s.shutdown is Some, s.shutdown, d.shutdown),
        reboot: pick(s.reboot is Some, s.reboot, d.reboot),
        use_setsid: pick(s.use_setsid != true, s.use_setsid, d.use_setsid),
    }
}

pub open spec fn merge_keybindings(d: KeybindingsConfig, s: KeybindingsConfig) -> KeybindingsConfig {
    KeybindingsConfig {
        command: pick(
            s.command != 2,
            s.command,
            d.command,
        ),
        sessions: pick(
            s.sessions != 3,
            s.sessions,
            d.sessions,
        ),
        power: pick(s.power != 12, s.power, d.power),
    }
}

pub open spec fn merge_theme(d: crate::config::ThemeConfig, s: crate::config::ThemeConfig) -> crate::config::ThemeConfig {
    crate::config::ThemeConfig {
        border: pick(s.border is Some, s.border, d.border),
        text: pick(s.text is Some, s.text, d.text),
        time: pick(s.time is Some, s.time, d.time),
        container: pick(s.container is Some, s.container, d.container),
        title: pick(s.title is Some, s.title, d.title),
        greet: pick(s.greet is Some, s.greet, d.greet),
        prompt: pick(s.prompt is Some, s.prompt, d.prompt),
        input: pick(s.input is Some, s.input, d.input),
        action: pick(s.action is Some, s.action, d.action),
        button: pick(s.button is Some, s.button, d.button),
    }
}

pub open spec fn merge_terminal(d: crate::config::TerminalConfig, s: crate::config::TerminalConfig) -> crate::config::TerminalConfig {
    crate::config::TerminalConfig {
        cols: pick(s.cols is Some, s.cols, d.cols),
        rows: pick(s.rows is Some, s.rows, d.rows),
    }
}

/// What `merge_configs(d, s)` leaves in `d`: every merged field of `s` whose
/// value differs from the field's default replaces the field of `d`; the
/// outputs of `s` replace those of `d` when `s` has any; a terminal size of
/// `s` that is set replaces that of `d`. Optional fields (such as
/// `remember.default_user`, `power.shutdown` and `power.reboot`) count as
/// differing from their default when `s` sets them.
pub open spec fn merge_result(d: Config, s: Config) -> Config {
    Config {
        general: merge_general(d.general, s.general),
        session: merge_session(d.session, s.session),
        display: merge_display(d.display, s.display),
        remember: merge_remember(d.remember, s.remember),
        user_menu: merge_user_menu(d.user_menu, s.user_menu),
        secret: merge_secret(d.secret, s.secret),
        layout: merge_layout(d.layout, s.layout),
        power: merge_power(d.power, s.power),
        keybindings: merge_keybindings(d.keybindings, s.keybindings),
        theme: merge_theme(d.theme, s.theme),
        outputs: pick(s.outputs@.len() != 0, s.outputs, d.outputs),
        terminal: merge_terminal(d.terminal, s.terminal),
    }
}

/// Whether two optional strings hold the same characters.
pub fn opt_string_eq(a: &Option<String>, b: &Option<String>) -> (r: bool)
    ensures
        r == (opt_view(*a) == opt_view(*b)),
{
    match (a, b) {
        (Some(x), Some(y)) => str_eq(x.as_str(), y.as_str()),
        (None, None) => true,
        _ => false,
    }
}

/// Whether two optional numbers are equal.
fn opt_u16_eq(a: Option<u16>, b: Option<u16>) -> (r: bool)
    ensures
        r == (a == b),
{
    match (a, b) {
        (Some(x), Some(y)) => x == y,
        (None, None) => true,
        _ => false,
    }
}

/// Whether two vectors of strings hold the same strings.
pub fn strings_eq(a: &Vec<String>, b: &Vec<String>) -> (r: bool)
    ensures
        r == (string_views(*a) == string_views(*b)),
{
    if a.len() != b.len() {
        assert(string_views(*a).len() != string_views(*b).len());
        return false;
    }
    let mut i: usize = 0;
    while i < a.len()
        invariant
            a@.len() == b@.len(),
            i <= a@.len(),
            forall|k: int| 0 <= k < i ==> a@[k]@ == b@[k]@,
        decreases a@.len() - i,
    {
        if !str_eq(a[i].as_str(), b[i].as_str()) {
            assert(string_views(*a)[i as int] != string_views(*b)[i as int]);
            return false;
        }
        i = i + 1;
    }
    assert(string_views(*a) =~= string_views(*b));
    true
}

fn merge_general_into(dest: &mut GeneralConfig, src: GeneralConfig, defaults: &GeneralConfig)
    requires
        !defaults.debug,
        defaults.log_file@ == "/tmp/tuigreet.log"@,
    ensures
        *final(dest) == merge_general(*old(dest), src),
{
    if src.debug != defaults.debug {
        dest.debug = src.debug;
    }
    if !str_eq(src.log_file.as_str(), defaults.log_file.as_str()) {
        dest.log_file = src.log_file;
    }
}

fn merge_session_into(dest: &mut SessionConfig, src: SessionConfig, defaults: &SessionConfig)
    requires
        defaults.command is None,
        defaults.sessions_dirs@.len() == 0,
        defaults.xsessions_dirs@.len() == 0,
        defaults.session_wrapper is None,
        defaults.xsession_wrapper matches Some(w) && w@ == "startx"@,
        defaults.environments@.len() == 0,
    ensures
        *final(dest) == merge_session(*old(dest), src),
{
    assert(string_views(defaults.environments) =~= Seq::<Seq<char>>::empty());
    assert(string_views(defaults.sessions_dirs) =~= Seq::<Seq<char>>::empty());
    assert(string_views(defaults.xsessions_dirs) =~= Seq::<Seq<char>>::empty());
    proof {
        if src.environments@.len() == 0 {
            assert(string_views(src.environments) =~= Seq::<Seq<char>>::empty());
        }
        if src.sessions_dirs@.len() == 0 {
            assert(string_views(src.sessions_dirs) =~= Seq::<Seq<char>>::empty());
        }
        if src.xsessions_dirs@.len() == 0 {
            assert(string_views(src.xsessions_dirs) =~= Seq::<Seq<char>>::empty());
        }
    }
    if !opt_string_eq(&src.command, &defaults.command) {
        dest.command = src.command;
    }
    if !strings_eq(&src.sessions_dirs, &defaults.sessions_dirs) {
        dest.sessions_dirs = src.sessions_dirs;
    }
    if !strings_eq(&src.xsessions_dirs, &defaults.xsessions_dirs) {
        dest.xsessions_dirs = src.xsessions_dirs;
    }
    if !opt_string_eq(&src.session_wrapper, &defaults.session_wrapper) {
        dest.session_wrapper = src.session_wrapper;
    }
    if !opt_string_eq(&src.xsession_wrapper, &defaults.xsession_wrapper) {
        dest.xsession_wrapper = src.xsession_wrapper;
    }
    if !strings_eq(&src.environments, &defaults.environments) {
        dest.environments = src.environments;
    }
}

fn merge_display_into(dest: &mut DisplayConfig, src: DisplayConfig, defaults: &DisplayConfig)
    requires
        !defaults.show_time,
        defaults.time_format is None,
        defaults.greeting is None,
        !defaults.show_title,
        !defaults.issue,
        defaults.align_greeting == AlignGreeting::Center,
    ensures
        *final(dest) == merge_display(*old(dest), src),
{
    if src.show_time != defaults.show_time {
        dest.show_time = src.show_time;
    }
    if !opt_string_eq(&src.time_format, &defaults.time_format) {
        dest.time_format = src.time_format;
    }
    if !opt_string_eq(&src.greeting, &defaults.greeting) {
        dest.greeting = src.greeting;
    }
    if src.show_title != defaults.show_title {
        dest.show_title = src.show_title;
    }
    if src.issue != defaults.issue {
        dest.issue = src.issue;
    }
    if src.align_greeting != defaults.align_greeting {
        dest.align_greeting = src.align_greeting;
    }
}

fn merge_remember_into(dest: &mut RememberConfig, src: RememberConfig, defaults: &RememberConfig)
    requires
        defaults.default_user is None,
        !defaults.username,
        !defaults.session,
        !defaults.user_session,
    ensures
        *final(dest) == merge_remember(*old(dest), src),
{
    if !opt_string_eq(&src.default_user, &defaults.default_user) {
        dest.default_user = src.default_user;
    }
    if src.username != defaults.username {
        dest.username = src.username;
    }
    if src.session != defaults.session {
        dest.session = src.session;
    }
    if src.user_session != defaults.user_session {
        dest.user_session = src.user_session;
    }
}

fn merge_user_menu_into(dest: &mut UserMenuConfig, src: UserMenuConfig, defaults: &UserMenuConfig)
    requires
        !defaults.enabled,
        defaults.min_uid == 1000,
        defaults.max_uid == 60000,
    ensures
        *final(dest) == merge_user_menu(*old(dest), src),
{
    if src.enabled != defaults.enabled {
        dest.enabled = src.enabled;
    }
    if src.min_uid != defaults.min_uid {
        dest.min_uid = src.min_uid;
    }
    if src.max_uid != defaults.max_uid {
        dest.max_uid = src.max_uid;
    }
}

fn merge_secret_into(dest: &mut SecretConfig, src: SecretConfig, defaults: &SecretConfig)
    requires
        defaults.mode == SecretMode::Hidden,
        defaults.characters@ == "*"@,
    ensures
        *final(dest) == merge_secret(*old(dest), src),
{
    if src.mode != defaults.mode {
        dest.mode = src.mode;
    }
    if !str_eq(src.characters.as_str(), defaults.characters.as_str()) {
        dest.characters = src.characters;
    }
}

fn merge_layout_into(dest: &mut LayoutConfig, src: LayoutConfig, defaults: &LayoutConfig)
    requires
        defaults.width == 80,
        defaults.window_padding is None,
        defaults.container_padding is None,
        defaults.prompt_padding is None,
        defaults.widgets.time_position == WidgetPosition::Default,
        defaults.widgets.status_position == WidgetPosition::Default,
    ensures
        *final(dest) == merge_layout(*old(dest), src),
{
    if src.width != defaults.width {
        dest.width = src.width;
    }
    if !opt_u16_eq(src.window_padding, defaults.window_padding) {
        dest.window_padding = src.window_padding;
    }
    if !opt_u16_eq(src.container_padding, defaults.container_padding) {
        dest.container_padding = src.container_padding;
    }
    if !opt_u16_eq(src.prompt_padding, defaults.prompt_padding) {
        dest.prompt_padding = src.prompt_padding;
    }
    if src.widgets.time_position != defaults.widgets.time_position {
        dest.widgets.time_position = src.widgets.time_position;
    }
    if src.widgets.status_position != defaults.widgets.status_position {
        dest.widgets.status_position = src.widgets.status_position;
    }
}

fn merge_power_into(dest: &mut PowerConfig, src: PowerConfig, defaults: &PowerConfig)
    requires
        defaults.shutdown is None,
        defaults.reboot is None,
        defaults.use_setsid,
    ensures
        *final(dest) == merge_power(*old(dest), src),
{
    if !opt_string_eq(&src.shutdown, &defaults.shutdown) {
        dest.shutdown = src.shutdown;
    }
    if !opt_string_eq(&src.reboot, &defaults.reboot) {
        dest.reboot = src.reboot;
    }
    if src.use_setsid != defaults.use_setsid {
        dest.use_setsid = src.use_setsid;
    }
}

fn merge_keybindings_into(dest: &mut KeybindingsConfig, src: KeybindingsConfig, defaults: &KeybindingsConfig)
    requires
        defaults.command == 2,
        defaults.sessions == 3,
        defaults.power == 12,
    ensures
        *final(dest) == merge_keybindings(*old(dest), src),
{
    if src.command != defaults.command {
        dest.command = src.command;
    }
    if src.sessions != defaults.sessions {
        dest.sessions = src.sessions;
    }
    if src.power != defaults.power {
        dest.power = src.power;
    }
}

fn merge_theme_into(dest: &mut ThemeConfig, src: ThemeConfig, defaults: &ThemeConfig)
    requires
        defaults.border is None,
        defaults.text is None,
        defaults.time is None,
        defaults.container is None,
        defaults.title is None,
        defaults.greet is None,
        defaults.prompt is None,
        defaults.input is None,
        defaults.action is None,
        defaults.button is None,
    ensures
        *final(dest) == merge_theme(*old(dest), src),
{
    if !opt_string_eq(&src.border, &defaults.border) {
        dest.border = src.border;
    }
    if !opt_string_eq(&src.text, &defaults.text) {
        dest.text = src.text;
    }
    if !opt_string_eq(&src.time, &defaults.time) {
        dest.time = src.time;
    }
    if !opt_string_eq(&src.container, &defaults.container) {
        dest.container = src.container;
    }
    if !opt_string_eq(&src.title, &defaults.title) {
        dest.title = src.title;
    }
    if !opt_string_eq(&src.greet, &defaults.greet) {
        dest.greet = src.greet;
    }
    if !opt_string_eq(&src.prompt, &defaults.prompt) {
        dest.prompt = src.prompt;
    }
    if !opt_string_eq(&src.input, &defaults.input) {
        dest.input = src.input;
    }
    if !opt_string_eq(&src.action, &defaults.action) {
        dest.action = src.action;
    }
    if !opt_string_eq(&src.button, &defaults.button) {
        dest.button = src.button;
    }
}

/// Merges the user configuration `src` over `dest`: a field of `src` whose
/// value differs from the default overwrites the field of `dest`; outputs of
/// `src`, when it has any, replace the whole list; each terminal size that
/// `src` sets replaces that of `dest`.
pub fn merge_configs(dest: &mut Config, src: Config)
    ensures
        *final(dest) == merge_result(*old(dest), src),
{
    let defaults = Config::default();
    merge_general_into(&mut dest.general, src.general, &defaults.general);
    merge_session_into(&mut dest.session, src.session, &defaults.session);
    merge_display_into(&mut dest.display, src.display, &defaults.display);
    merge_remember_into(&mut dest.remember, src.remember, &defaults.remember);
    merge_user_menu_into(&mut dest.user_menu, src.user_menu, &defaults.user_menu);
    merge_secret_into(&mut dest.secret, src.secret, &defaults.secret);
    merge_layout_into(&mut dest.layout, src.layout, &defaults.layout);
    merge_power_into(&mut dest.power, src.power, &defaults.power);
    merge_keybindings_into(&mut dest.keybindings, src.keybindings, &defaults.keybindings);
    merge_theme_into(&mut dest.theme, src.theme, &defaults.theme);
    if !src.outputs.is_empty() {
        dest.outputs = src.outputs;
    }
    if src.terminal.cols.is_some() {
        dest.terminal.cols = src.terminal.cols;
    }
    if src.terminal.rows.is_some() {
        dest.terminal.rows = src.terminal.rows;
    }
}

/// The file-based configuration once the system and the user files were
/// read (a file that is not there reads as a file of defaults): the user
/// file merged over the system file; the error of the system file, else of
/// the user file, when one could not be read or parsed.
pub fn combine_file_configs(system: Result<Config, ConfigError>, user: Result<Config, ConfigError>) -> (r:
    Result<Config, ConfigError>)
    ensures
        match (system, user) {
            (Ok(s), Ok(u)) => r == Ok::<Config, ConfigError>(merge_result(s, u)),
            (Ok(_), Err(e)) => r == Err::<Config, ConfigError>(e),
            (Err(e), _) => r == Err::<Config, ConfigError>(e),
        },
{
    let mut config = match system {
        Ok(s) => s,
        Err(e) => {
            return Err(e);
        },
    };
    match user {
        Ok(u) => {
            merge_configs(&mut config, u);
            Ok(config)
        },
        Err(e) => Err(e),
    }
}

/// `r` is `s` when the user file set the field (`set`), else `d`.
pub open spec fn from_user<T>(r: T, d: T, s: T, set: bool) -> bool {
    if set {
        r == s
    } else {
        r == d
    }
}

/// A setting the user file makes always wins, whatever the system file
/// holds; a field the user file leaves at its default keeps the system
/// file's value. Here `z` is the configuration of defaults, a field "set"
/// when it differs from `z`; the outputs are set when the user file lists
/// any; the terminal sizes when the user file gives them.
pub proof fn lemma_user_settings_win(d: Config, s: Config, z: Config)
    requires
        is_default_file_config(z),
    ensures
        ({
            let r = merge_result(d, s);
            &&& from_user(r.session.command, d.session.command, s.session.command, opt_view(s.session.command) != opt_view(z.session.command))
            &&& from_user(r.session.session_wrapper, d.session.session_wrapper, s.session.session_wrapper, opt_view(s.session.session_wrapper) != opt_view(z.session.session_wrapper))
            &&& from_user(r.session.xsession_wrapper, d.session.xsession_wrapper, s.session.xsession_wrapper, opt_view(s.session.xsession_wrapper) != opt_view(z.session.xsession_wrapper))
            &&& from_user(r.display.time_format, d.display.time_format, s.display.time_format, opt_view(s.display.time_format) != opt_view(z.display.time_format))
            &&& from_user(r.display.greeting, d.display.greeting, s.display.greeting, opt_view(s.display.greeting) != opt_view(z.display.greeting))
            &&& from_user(r.remember.default_user, d.remember.default_user, s.remember.default_user, opt_view(s.remember.default_user) != opt_view(z.remember.default_user))
            &&& from_user(r.power.shutdown, d.power.shutdown, s.power.shutdown, opt_view(s.power.shutdown) != opt_view(z.power.shutdown))
            &&& from_user(r.power.reboot, d.power.reboot, s.power.reboot, opt_view(s.power.reboot) != opt_view(z.power.reboot))
            &&& from_user(r.theme.border, d.theme.border, s.theme.border, opt_view(s.theme.border) != opt_view(z.theme.border))
            &&& from_user(r.theme.text, d.theme.text, s.theme.text, opt_view(s.theme.text) != opt_view(z.theme.text))
            &&& from_user(r.theme.time, d.theme.time, s.theme.time, opt_view(s.theme.time) != opt_view(z.theme.time))
            &&& from_user(r.theme.container, d.theme.container, s.theme.container, opt_view(s.theme.container) != opt_view(z.theme.container))
            &&& from_user(r.theme.title, d.theme.title, s.theme.title, opt_view(s.theme.title) != opt_view(z.theme.title))
            &&& from_user(r.theme.greet, d.theme.greet, s.theme.greet, opt_view(s.theme.greet) != opt_view(z.theme.greet))
            &&& from_user(r.theme.prompt, d.theme.prompt, s.theme.prompt, opt_view(s.theme.prompt) != opt_view(z.theme.prompt))
            &&& from_user(r.theme.input, d.theme.input, s.theme.input, opt_view(s.theme.input) != opt_view(z.theme.input))
            &&& from_user(r.theme.action, d.theme.action, s.theme.action, opt_view(s.theme.action) != opt_view(z.theme.action))
            &&& from_user(r.theme.button, d.theme.button, s.theme.button, opt_view(s.theme.button) != opt_view(z.theme.button))
            &&& from_user(r.session.sessions_dirs, d.session.sessions_dirs, s.session.sessions_dirs, string_views(s.session.sessions_dirs) != string_views(z.session.sessions_dirs))
            &&& from_user(r.session.xsessions_dirs, d.session.xsessions_dirs, s.session.xsessions_dirs, string_views(s.session.xsessions_dirs) != string_views(z.session.xsessions_dirs))
            &&& from_user(r.session.environments, d.session.environments, s.session.environments, string_views(s.session.environments) != string_views(z.session.environments))
            &&& from_user(r.general.log_file, d.general.log_file, s.general.log_file, s.general.log_file@ != z.general.log_file@)
            &&& from_user(r.secret.characters, d.secret.characters, s.secret.characters, s.secret.characters@ != z.secret.characters@)
            &&& from_user(r.general.debug, d.general.debug, s.general.debug, s.general.debug != z.general.debug)
            &&& from_user(r.display.show_time, d.display.show_time, s.display.show_time, s.display.show_time != z.display.show_time)
            &&& from_user(r.display.show_title, d.display.show_title, s.display.show_title, s.display.show_title != z.display.show_title)
            &&& from_user(r.display.issue, d.display.issue, s.display.issue, s.display.issue != z.display.issue)
            &&& from_user(r.display.align_greeting, d.display.align_greeting, s.display.align_greeting, s.display.align_greeting != z.display.align_greeting)
            &&& from_user(r.remember.username, d.remember.username, s.remember.username, s.remember.username != z.remember.username)
            &&& from_user(r.remember.session, d.remember.session, s.remember.session, s.remember.session != z.remember.session)
            &&& from_user(r.remember.user_session, d.remember.user_session, s.remember.user_session, s.remember.user_session != z.remember.user_session)
            &&& from_user(r.user_menu.enabled, d.user_menu.enabled, s.user_menu.enabled, s.user_menu.enabled != z.user_menu.enabled)
            &&& from_user(r.user_menu.min_uid, d.user_menu.min_uid, s.user_menu.min_uid, s.user_menu.min_uid != z.user_menu.min_uid)
            &&& from_user(r.user_menu.max_uid, d.user_menu.max_uid, s.user_menu.max_uid, s.user_menu.max_uid != z.user_menu.max_uid)
            &&& from_user(r.secret.mode, d.secret.mode, s.secret.mode, s.secret.mode != z.secret.mode)
            &&& from_user(r.layout.width, d.layout.width, s.layout.width, s.layout.width != z.layout.width)
            &&& from_user(r.layout.window_padding, d.layout.window_padding, s.layout.window_padding, s.layout.window_padding != z.layout.window_padding)
            &&& from_user(r.layout.container_padding, d.layout.container_padding, s.layout.container_padding, s.layout.container_padding != z.layout.container_padding)
            &&& from_user(r.layout.prompt_padding, d.layout.prompt_padding, s.layout.prompt_padding, s.layout.prompt_padding != z.layout.prompt_padding)
            &&& from_user(r.layout.widgets.time_position, d.layout.widgets.time_position, s.layout.widgets.time_position, s.layout.widgets.time_position != z.layout.widgets.time_position)
            &&& from_user(r.layout.widgets.status_position, d.layout.widgets.status_position, s.layout.widgets.status_position, s.layout.widgets.status_position != z.layout.widgets.status_position)
            &&& from_user(r.power.use_setsid, d.power.use_setsid, s.power.use_setsid, s.power.use_setsid != z.power.use_setsid)
            &&& from_user(r.keybindings.command, d.keybindings.command, s.keybindings.command, s.keybindings.command != z.keybindings.command)
            &&& from_user(r.keybindings.sessions, d.keybindings.sessions, s.keybindings.sessions, s.keybindings.sessions != z.keybindings.sessions)
            &&& from_user(r.keybindings.power, d.keybindings.power, s.keybindings.power, s.keybindings.power != z.keybindings.power)
            &&& from_user(r.terminal.cols, d.terminal.cols, s.terminal.cols, s.terminal.cols != z.terminal.cols)
            &&& from_user(r.terminal.rows, d.terminal.rows, s.terminal.rows, s.terminal.rows != z.terminal.rows)
            &&& from_user(r.outputs, d.outputs, s.outputs, s.outputs@.len() != 0)
        }),
{
    reveal_strlit("startx");
    reveal_strlit("/tmp/tuigreet.log");
    reveal_strlit("*");
    if s.session.sessions_dirs@.len() == 0 {
        assert(string_views(s.session.sessions_dirs) =~= string_views(z.session.sessions_dirs));
    } else {
        assert(string_views(s.session.sessions_dirs).len() != string_views(z.session.sessions_dirs).len());
    }
    if s.session.xsessions_dirs@.len() == 0 {
        assert(string_views(s.session.xsessions_dirs) =~= string_views(z.session.xsessions_dirs));
    } else {
        assert(string_views(s.session.xsessions_dirs).len() != string_views(z.session.xsessions_dirs).len());
    }
    if s.session.environments@.len() == 0 {
        assert(string_views(s.session.environments) =~= string_views(z.session.environments));
    } else {
        assert(string_views(s.session.environments).len() != string_views(z.session.environments).len());
    }
}

/// A user file that sets nothing changes nothing: merging a configuration
/// that holds only defaults over `d` leaves `d` as it was.
pub proof fn lemma_merge_default_source(d: Config, s: Config)
    requires
        is_default_file_config(s),
    ensures
        merge_result(d, s) == d,
{
}

/// Merging the same user file a second time changes nothing more.
pub proof fn lemma_merge_idempotent(d: Config, s: Config)
    ensures
        merge_result(merge_result(d, s), s) == merge_result(d, s),
{
}

/// Over a system configuration that holds only defaults, the user file's
/// settings come through whole: the result holds the same settings as the
/// user file.
pub proof fn lemma_merge_over_defaults(d: Config, s: Config)
    requires
        is_default_file_config(d),
    ensures
        same_settings(merge_result(d, s), s),
{
    let m = merge_result(d, s);
    if s.session.environments@.len() == 0 {
        assert(string_views(s.session.environments) =~= string_views(d.session.environments));
    }
    if s.session.sessions_dirs@.len() == 0 {
        assert(string_views(s.session.sessions_dirs) =~= string_views(d.session.sessions_dirs));
    }
    if s.session.xsessions_dirs@.len() == 0 {
        assert(string_views(s.session.xsessions_dirs) =~= string_views(d.session.xsessions_dirs));
    }
    if s.outputs@.len() == 0 {
        assert(same_outputs(m.outputs@, s.outputs@));
    }
    assert(same_outputs(m.outputs@, s.outputs@));
}

// ---------------------------------------------------------------------------
// Validation
// ---------------------------------------------------------------------------

/// `e` when `cond` holds, else nothing.
pub open spec fn when_err(cond: bool, e: ConfigErrorView) -> Seq<ConfigErrorView> {
    if cond {
        seq![e]
    } else {
        Seq::empty()
    }
}

/// `text` when `cond` holds, else nothing.
pub open spec fn when_text(cond: bool, text: Seq<char>) -> Seq<Seq<char>> {
    if cond {
        seq![text]
    } else {
        Seq::empty()
    }
}

/// The error a wrapper command gives when the lookup of its executable gave
/// `found`: a blank command is reported under its own text, a command whose
/// first word was not found under that word.
pub open spec fn file_wrapper_error(command: Seq<char>, found: bool) -> Seq<ConfigErrorView> {
    match first_word(command) {
        None => seq![ConfigErrorView::WrapperExecutableNotFound(command)],
        Some(w) => when_err(!found, ConfigErrorView::WrapperExecutableNotFound(w)),
    }
}

pub open spec fn keys_distinct3(k: KeybindingsConfig) -> bool {
    k.command != k.sessions && k.command != k.power && k.sessions != k.power
}

pub open spec fn file_fkey_error(name: Seq<char>, key: u8) -> Seq<ConfigErrorView> {
    when_err(!(1 <= key <= 12), ConfigErrorView::InvalidFKey(name, key))
}

/// The errors about exclusive, dependent and ranged options.
pub open spec fn file_setting_errors(c: Config) -> Seq<ConfigErrorView> {
    when_err(
        c.display.issue && c.display.greeting is Some,
        ConfigErrorView::MutuallyExclusive("display.issue"@, "display.greeting"@),
    ) + when_err(
        c.remember.user_session && !c.remember.username,
        ConfigErrorView::Dependency("remember.user_session requires remember.username"@),
    ) + when_err(
        c.user_menu.min_uid > c.user_menu.max_uid,
        ConfigErrorView::InvalidRange("user_menu.min_uid must not exceed user_menu.max_uid"@),
    )
}

/// The errors about keybindings and the time format.
pub open spec fn file_key_errors(c: Config, time_invalid: bool) -> Seq<ConfigErrorView> {
    when_err(!keys_distinct3(c.keybindings), ConfigErrorView::DuplicateKeybindings)
        + file_fkey_error("command"@, c.keybindings.command) + file_fkey_error(
        "sessions"@,
        c.keybindings.sessions,
    ) + file_fkey_error("power"@, c.keybindings.power) + when_err(
        c.display.time_format is Some && time_invalid,
        ConfigErrorView::InvalidTimeFormat,
    )
}

/// The errors about wrapper executables, when they are checked.
pub open spec fn file_wrapper_errors(c: Config, wrappers: Option<WrapperLookup>) -> Seq<
    ConfigErrorView,
> {
    match wrappers {
        None => Seq::empty(),
        Some(l) => (match c.session.session_wrapper {
            Some(w) => file_wrapper_error(w@, l.session_wrapper_found),
            None => Seq::empty(),
        }) + (match c.session.xsession_wrapper {
            Some(w) => file_wrapper_error(w@, l.xsession_wrapper_found),
            None => Seq::empty(),
        }),
    }
}

pub open spec fn file_connector_errors(o: OutputConfig) -> Seq<ConfigErrorView> {
    when_err(
        o.connector@.contains('/') || has_substring(o.connector@, ".."@),
        ConfigErrorView::Validation(
            "Output connector name '"@ + o.connector@ + "' must not contain path separators"@,
        ),
    ) + when_err(
        o.connector@.len() == 0,
        ConfigErrorView::Validation("Output connector name must not be empty"@),
    )
}

pub open spec fn file_outputs_errors(outs: Seq<OutputConfig>) -> Seq<ConfigErrorView>
    decreases outs.len(),
{
    if outs.len() == 0 {
        Seq::empty()
    } else {
        file_outputs_errors(outs.drop_last()) + file_connector_errors(outs.last())
    }
}

/// The errors about outputs and the terminal size.
pub open spec fn file_structure_errors(c: Config) -> Seq<ConfigErrorView> {
    when_err(
        count_primary(c.outputs@) > 1,
        ConfigErrorView::Validation(
            "At most one output may be marked `primary = true`, but "@ + decimal(
                count_primary(c.outputs@),
            ) + " are"@,
        ),
    ) + file_outputs_errors(c.outputs@) + match terminal_reason(c.terminal) {
        Some(m) => seq![ConfigErrorView::Validation(m)],
        None => Seq::empty(),
    }
}

/// Every rule a file-based configuration breaks, in the order they are
/// checked; `validate` reports the first.
pub open spec fn file_errors(c: Config, wrappers: Option<WrapperLookup>, time_invalid: bool) -> Seq<
    ConfigErrorView,
> {
    file_setting_errors(c) + file_key_errors(c, time_invalid) + file_wrapper_errors(c, wrappers)
        + file_structure_errors(c)
}

pub open spec fn file_power_warning(cmd: Option<String>, use_setsid: bool, text: Seq<char>) -> Seq<
    Seq<char>,
> {
    match cmd {
        Some(c) => when_text(
            !use_setsid && !has_substring(c@, "sudo"@) && !has_substring(c@, "doas"@),
            text,
        ),
        None => Seq::empty(),
    }
}

/// The warnings about the layout, the user menu and session directories.
pub open spec fn file_layout_warnings(c: Config) -> Seq<Seq<char>> {
    when_text(
        c.layout.window_padding matches Some(p) && p > 10,
        "window_padding is very high ("@ + decimal(c.layout.window_padding.unwrap() as nat)
            + "), this may cause display issues"@,
    ) + when_text(
        c.layout.container_padding matches Some(p) && p > 10,
        "container_padding is very high ("@ + decimal(c.layout.container_padding.unwrap() as nat)
            + "), this may cause display issues"@,
    ) + when_text(
        c.layout.width > 200,
        "width is very high ("@ + decimal(c.layout.width as nat)
            + "), this may cause display issues on smaller terminals"@,
    ) + when_text(
        c.user_menu.enabled && c.user_menu.min_uid > 65000,
        "user_menu.min_uid is very high, you may not see any users"@,
    ) + when_text(
        has_duplicate(string_views(c.session.sessions_dirs) + string_views(c.session.xsessions_dirs)),
        "Duplicate session directories detected in sessions_dirs and xsessions_dirs"@,
    ) + when_text(
        c.layout.widgets.time_position == WidgetPosition::Hidden && c.display.show_time,
        "time widget is hidden but show_time is enabled"@,
    )
}

/// The warnings about power commands and the remaining options. Empty
/// session directory lists raise no warning: they are the default, and
/// sessions are then looked up under `$XDG_DATA_DIRS`.
pub open spec fn file_command_warnings(c: Config) -> Seq<Seq<char>> {
    file_power_warning(
        c.power.shutdown,
        c.power.use_setsid,
        "shutdown command without setsid or privilege escalation may fail"@,
    ) + file_power_warning(
        c.power.reboot,
        c.power.use_setsid,
        "reboot command without setsid or privilege escalation may fail"@,
    ) + when_text(
        c.display.time_format matches Some(f) && f@.len() == 0,
        "time_format is empty, this will result in no time display"@,
    ) + when_text(
        c.remember.session && c.remember.user_session,
        "Both remember.session and remember.user_session are enabled"@,
    )
}

/// The warnings of `check_warnings`, in order.
pub open spec fn file_config_warnings(c: Config) -> Seq<Seq<char>> {
    file_layout_warnings(c) + file_command_warnings(c)
}

/// Every warning `validate` reports when no rule is broken, in order.
pub open spec fn file_warnings(c: Config) -> Seq<Seq<char>> {
    when_text(
        all_outputs_disabled(c.outputs@),
        "All [[outputs]] entries have `enabled = false`; no output will be used for terminal sizing"@,
    ) + file_config_warnings(c)
}

/// The views of a sequence of errors.
pub open spec fn file_error_views(v: Seq<ConfigError>) -> Seq<ConfigErrorView> {
    v.map_values(|e: ConfigError| e@)
}

/// `r` is what `validate` answers: the warnings when no rule is broken, else
/// the first error.
pub open spec fn file_outcome_matches(
    r: Result<Vec<String>, ConfigError>,
    errors: Seq<ConfigErrorView>,
    warnings: Seq<Seq<char>>,
) -> bool {
    match r {
        Ok(w) => errors.len() == 0 && views(w@) == warnings,
        Err(e) => errors.len() > 0 && e@ == errors[0],
    }
}

fn one_err(cond: bool, e: ConfigError) -> (r: Vec<ConfigError>)
    ensures
        file_error_views(r@) == when_err(cond, e@),
{
    let mut r: Vec<ConfigError> = Vec::new();
    if cond {
        r.push(e);
    }
    assert(file_error_views(r@) =~= when_err(cond, e@));
    r
}

fn join_errs(a: Vec<ConfigError>, b: Vec<ConfigError>) -> (r: Vec<ConfigError>)
    ensures
        file_error_views(r@) == file_error_views(a@) + file_error_views(b@),
{
    let ghost a0 = a@;
    let ghost b0 = b@;
    let mut a = a;
    let mut b = b;
    a.append(&mut b);
    assert(file_error_views(a@) =~= file_error_views(a0) + file_error_views(b0));
    a
}

fn one_text(cond: bool, text: String) -> (r: Vec<String>)
    ensures
        views(r@) == when_text(cond, text@),
{
    let mut r: Vec<String> = Vec::new();
    if cond {
        r.push(text);
    }
    assert(views(r@) =~= when_text(cond, text@));
    r
}

fn join_texts(a: Vec<String>, b: Vec<String>) -> (r: Vec<String>)
    ensures
        views(r@) == views(a@) + views(b@),
{
    let ghost a0 = a@;
    let ghost b0 = b@;
    let mut a = a;
    let mut b = b;
    a.append(&mut b);
    assert(views(a@) =~= views(a0) + views(b0));
    a
}

fn file_outputs_check(outs: &Vec<OutputConfig>) -> (r: Vec<ConfigError>)
    ensures
        file_error_views(r@) == file_outputs_errors(outs@),
{
    let mut r: Vec<ConfigError> = Vec::new();
    let mut i: usize = 0;
    while i < outs.len()
        invariant
            i <= outs@.len(),
            file_error_views(r@) == file_outputs_errors(outs@.take(i as int)),
        decreases outs@.len() - i,
    {
        let c = &outs[i].connector;
        let sep = contains_char(c.as_str(), '/') || contains_str(c.as_str(), "..");
        let a = one_err(
            sep,
            ConfigError::Validation(
                concat3(
                    "Output connector name '",
                    c.as_str(),
                    "' must not contain path separators",
                ),
            ),
        );
        let b = one_err(
            c.as_str().is_empty(),
            ConfigError::Validation("Output connector name must not be empty".to_owned()),
        );
        let ghost before = r@;
        r = join_errs(r, join_errs(a, b));
        proof {
            assert(outs@.take(i + 1).drop_last() =~= outs@.take(i as int));
            assert(outs@.take(i + 1).last() == outs@[i as int]);
        }
        i = i + 1;
    }
    assert(outs@.take(i as int) =~= outs@);
    r
}

fn file_power_check(cmd: &Option<String>, use_setsid: bool, text: &str) -> (r: Vec<String>)
    ensures
        views(r@) == file_power_warning(*cmd, use_setsid, text@),
{
    match cmd {
        Some(c) => {
            let cond = !use_setsid && !contains_str(c.as_str(), "sudo") && !contains_str(
                c.as_str(),
                "doas",
            );
            one_text(cond, text.to_owned())
        },
        None => {
            let r: Vec<String> = Vec::new();
            assert(views(r@) =~= Seq::<Seq<char>>::empty());
            r
        },
    }
}

fn high_padding_check(lead: &str, padding: Option<u16>) -> (r: Vec<String>)
    ensures
        views(r@) == when_text(
            padding matches Some(p) && p > 10,
            lead@ + decimal(padding.unwrap() as nat) + "), this may cause display issues"@,
        ),
{
    match padding {
        Some(p) => {
            if p > 10 {
                one_text(true, concat_number(lead, p as u64, "), this may cause display issues"))
            } else {
                one_text(false, String::new())
            }
        },
        None => one_text(false, String::new()),
    }
}

impl Config {
    /// Checks the rules of a configuration, when the wrapper lookups gave
    /// `wrappers` (`None`: wrappers are not checked) and the configured time
    /// format is unreadable exactly when `time_invalid`.
    ///
    /// Returns the warnings when no rule is broken, else the first error.
    pub fn validate_resolved(&self, wrappers: Option<WrapperLookup>, time_invalid: bool) -> (r:
        Result<Vec<String>, ConfigError>)
        ensures
            file_outcome_matches(
                r,
                file_errors(*self, wrappers, time_invalid),
                file_warnings(*self),
            ),
    {
        let mut e = self.file_setting_check();
        if e.len() > 0 {
            return Err(e.remove(0));
        }
        let mut e = self.file_key_check(time_invalid);
        if e.len() > 0 {
            return Err(e.remove(0));
        }
        let mut e = self.file_wrapper_check(wrappers);
        if e.len() > 0 {
            return Err(e.remove(0));
        }
        let mut e = self.file_structure_check();
        if e.len() > 0 {
            return Err(e.remove(0));
        }
        let mut warnings = one_text(
            crate::validation::outputs_all_disabled(&self.outputs),
            "All [[outputs]] entries have `enabled = false`; no output will be used for terminal sizing".to_owned(),
        );
        self.check_warnings(&mut warnings);
        Ok(warnings)
    }

    /// Checks the rules of a configuration; `wrappers` carries what the
    /// lookups of the wrapper executables found, or `None` when wrappers are
    /// not to be checked.
    ///
    /// Returns the warnings when no rule is broken, else the first error.
    pub fn validate(&self, wrappers: Option<WrapperLookup>) -> (r: Result<Vec<String>, ConfigError>)
        ensures
            file_outcome_matches(
                r,
                file_errors(*self, wrappers, file_time_format_invalid(*self)),
                file_warnings(*self),
            ),
    {
        let time_invalid = match &self.display.time_format {
            Some(f) => crate::validation::time_format_unreadable(f.as_str()),
            None => false,
        };
        self.validate_resolved(wrappers, time_invalid)
    }

    fn file_setting_check(&self) -> (r: Vec<ConfigError>)
        ensures
            file_error_views(r@) == file_setting_errors(*self),
    {
        let e1 = one_err(
            self.display.issue && self.display.greeting.is_some(),
            ConfigError::MutuallyExclusive(
                "display.issue".to_owned(),
                "display.greeting".to_owned(),
            ),
        );
        let e2 = one_err(
            self.remember.user_session && !self.remember.username,
            ConfigError::Dependency("remember.user_session requires remember.username".to_owned()),
        );
        let e3 = one_err(
            self.user_menu.min_uid > self.user_menu.max_uid,
            ConfigError::InvalidRange(
                "user_menu.min_uid must not exceed user_menu.max_uid".to_owned(),
            ),
        );
        join_errs(join_errs(e1, e2), e3)
    }

    fn file_key_check(&self, time_invalid: bool) -> (r: Vec<ConfigError>)
        ensures
            file_error_views(r@) == file_key_errors(*self, time_invalid),
    {
        let k = &self.keybindings;
        let distinct = k.command != k.sessions && k.command != k.power && k.sessions != k.power;
        let e1 = one_err(!distinct, ConfigError::DuplicateKeybindings);
        let e2 = one_err(
            !(1 <= k.command && k.command <= 12),
            ConfigError::InvalidFKey("command".to_owned(), k.command),
        );
        let e3 = one_err(
            !(1 <= k.sessions && k.sessions <= 12),
            ConfigError::InvalidFKey("sessions".to_owned(), k.sessions),
        );
        let e4 = one_err(
            !(1 <= k.power && k.power <= 12),
            ConfigError::InvalidFKey("power".to_owned(), k.power),
        );
        let e5 = one_err(
            self.display.time_format.is_some() && time_invalid,
            ConfigError::InvalidTimeFormat,
        );
        join_errs(join_errs(join_errs(join_errs(e1, e2), e3), e4), e5)
    }

    fn wrapper_errs(&self, command: &str, found: bool) -> (r: Vec<ConfigError>)
        ensures
            file_error_views(r@) == file_wrapper_error(command@, found),
    {
        let mut r: Vec<ConfigError> = Vec::new();
        if let Err(e) = self.validate_wrapper_command(command, found) {
            r.push(e);
        }
        assert(file_error_views(r@) =~= file_wrapper_error(command@, found));
        r
    }

    fn file_wrapper_check(&self, wrappers: Option<WrapperLookup>) -> (r: Vec<ConfigError>)
        ensures
            file_error_views(r@) == file_wrapper_errors(*self, wrappers),
    {
        match wrappers {
            None => {
                let r: Vec<ConfigError> = Vec::new();
                assert(file_error_views(r@) =~= Seq::empty());
                r
            },
            Some(l) => {
                let a = match &self.session.session_wrapper {
                    Some(w) => self.wrapper_errs(w.as_str(), l.session_wrapper_found),
                    None => one_err(false, ConfigError::DuplicateKeybindings),
                };
                let b = match &self.session.xsession_wrapper {
                    Some(w) => self.wrapper_errs(w.as_str(), l.xsession_wrapper_found),
                    None => one_err(false, ConfigError::DuplicateKeybindings),
                };
                join_errs(a, b)
            },
        }
    }

    fn file_structure_check(&self) -> (r: Vec<ConfigError>)
        ensures
            file_error_views(r@) == file_structure_errors(*self),
    {
        let primaries = crate::validation::primary_count(&self.outputs);
        let e1 = if primaries > 1 {
            one_err(
                true,
                ConfigError::Validation(
                    concat_number(
                        "At most one output may be marked `primary = true`, but ",
                        primaries as u64,
                        " are",
                    ),
                ),
            )
        } else {
            one_err(false, ConfigError::DuplicateKeybindings)
        };
        let e2 = file_outputs_check(&self.outputs);
        let mut e3: Vec<ConfigError> = Vec::new();
        if let Some(reason) = self.terminal.invalid_reason() {
            e3.push(ConfigError::Validation(reason));
        }
        assert(file_error_views(e3@) =~= match terminal_reason(self.terminal) {
            Some(m) => seq![ConfigErrorView::Validation(m)],
            None => Seq::empty(),
        });
        join_errs(join_errs(e1, e2), e3)
    }

    /// Appends the non-fatal warnings about this configuration to
    /// `warnings`, in order.
    pub fn check_warnings(&self, warnings: &mut Vec<String>)
        ensures
            views(final(warnings)@) == views(old(warnings)@) + file_config_warnings(*self),
    {
        let ghost start = views(warnings@);
        let mut found = join_texts(self.layout_warnings(), self.command_warnings());
        warnings.append(&mut found);
        assert(views(warnings@) =~= start + file_config_warnings(*self));
    }

    fn layout_warnings(&self) -> (r: Vec<String>)
        ensures
            views(r@) == file_layout_warnings(*self),
    {
        let w1 = high_padding_check("window_padding is very high (", self.layout.window_padding);
        let w2 = high_padding_check(
            "container_padding is very high (",
            self.layout.container_padding,
        );
        let w3 = if self.layout.width > 200 {
            one_text(
                true,
                concat_number(
                    "width is very high (",
                    self.layout.width as u64,
                    "), this may cause display issues on smaller terminals",
                ),
            )
        } else {
            one_text(false, String::new())
        };
        let w4 = one_text(
            self.user_menu.enabled && self.user_menu.min_uid > 65000,
            "user_menu.min_uid is very high, you may not see any users".to_owned(),
        );
        let w5 = one_text(
            crate::validation::session_dirs_repeat(
                &self.session.sessions_dirs,
                &self.session.xsessions_dirs,
            ),
            "Duplicate session directories detected in sessions_dirs and xsessions_dirs".to_owned(),
        );
        let w6 = one_text(
            self.layout.widgets.time_position == WidgetPosition::Hidden && self.display.show_time,
            "time widget is hidden but show_time is enabled".to_owned(),
        );
        join_texts(join_texts(join_texts(join_texts(join_texts(w1, w2), w3), w4), w5), w6)
    }

    fn command_warnings(&self) -> (r: Vec<String>)
        ensures
            views(r@) == file_command_warnings(*self),
    {
        let w1 = file_power_check(
            &self.power.shutdown,
            self.power.use_setsid,
            "shutdown command without setsid or privilege escalation may fail",
        );
        let w2 = file_power_check(
            &self.power.reboot,
            self.power.use_setsid,
            "reboot command without setsid or privilege escalation may fail",
        );
        let empty_format = match &self.display.time_format {
            Some(f) => f.as_str().is_empty(),
            None => false,
        };
        let w4 = one_text(
            empty_format,
            "time_format is empty, this will result in no time display".to_owned(),
        );
        let w5 = one_text(
            self.remember.session && self.remember.user_session,
            "Both remember.session and remember.user_session are enabled".to_owned(),
        );
        join_texts(join_texts(join_texts(w1, w2), w4), w5)
    }

    /// Checks that a wrapper command names an executable, when the lookup of
    /// its first word gave `found`: a blank command is reported under its
    /// own text, a command whose executable was not found under that word.
    pub fn validate_wrapper_command(&self, command: &str, found: bool) -> (r: Result<
        (),
        ConfigError,
    >)
        ensures
            r matches Err(e) ==> file_wrapper_error(command@, found) == seq![e@],
            r is Ok ==> file_wrapper_error(command@, found).len() == 0,
    {
        match first_word_of(command) {
            None => Err(ConfigError::WrapperExecutableNotFound(command.to_owned())),
            Some(w) => {
                if found {
                    Ok(())
                } else {
                    Err(ConfigError::WrapperExecutableNotFound(w))
                }
            },
        }
    }
}

proof fn lemma_no_file_output_errors(outs: Seq<OutputConfig>)
    requires
        file_outputs_errors(outs).len() == 0,
    ensures
        forall|i: int|
            0 <= i < outs.len() ==> (#[trigger] outs[i]).connector@.len() > 0 && !outs[i].connector@.contains('/')
                && !has_substring(outs[i].connector@, ".."@),
    decreases outs.len(),
{
    if outs.len() > 0 {
        lemma_no_file_output_errors(outs.drop_last());
        assert forall|i: int| 0 <= i < outs.len() implies (#[trigger] outs[i]).connector@.len() > 0
            && !outs[i].connector@.contains('/') && !has_substring(outs[i].connector@, ".."@) by {
            if i < outs.len() - 1 {
                assert(outs[i] == outs.drop_last()[i]);
            }
        }
    }
}

/// A configuration file that validation accepts keeps every rule: no
/// exclusive options together, no missing dependency, an ordered UID
/// range, distinct function keys from F1 to F12, a readable time format, at
/// most one primary output, connector names that are plain names, and a
/// complete terminal size when one is given.
pub proof fn lemma_accepted_file_keeps_rules(c: Config, wrappers: Option<WrapperLookup>, time_invalid: bool)
    requires
        file_errors(c, wrappers, time_invalid).len() == 0,
    ensures
        !(c.display.issue && c.display.greeting is Some),
        c.remember.user_session ==> c.remember.username,
        c.user_menu.min_uid <= c.user_menu.max_uid,
        c.keybindings.command != c.keybindings.sessions,
        c.keybindings.command != c.keybindings.power,
        c.keybindings.sessions != c.keybindings.power,
        1 <= c.keybindings.command <= 12,
        1 <= c.keybindings.sessions <= 12,
        1 <= c.keybindings.power <= 12,
        c.display.time_format is Some ==> !time_invalid,
        count_primary(c.outputs@) <= 1,
        forall|i: int|
            0 <= i < c.outputs@.len() ==> (#[trigger] c.outputs@[i]).connector@.len() > 0
                && !c.outputs@[i].connector@.contains('/')
                && !has_substring(c.outputs@[i].connector@, ".."@),
        terminal_reason(c.terminal) is None,
{
    lemma_no_file_output_errors(c.outputs@);
}

/// Whether the configured time format, if any, is one chrono cannot read.
pub open spec fn file_time_format_invalid(c: Config) -> bool {
    match c.display.time_format {
        Some(f) => crate::validation::strftime_has_error(f@),
        None => false,
    }
}

// ---------------------------------------------------------------------------
// Where a TOML error stands in the file

/// The number of line feeds in `s`.
pub open spec fn newline_count(s: Seq<char>) -> nat
    decreases s.len(),
{
    if s.len() == 0 {
        0
    } else {
        newline_count(s.drop_last()) + if s.last() == '\n' {
            1nat
        } else {
            0nat
        }
    }
}

proof fn lemma_newline_count_step(s: Seq<char>, k: int)
    requires
        0 <= k < s.len(),
    ensures
        newline_count(s.take(k + 1)) == newline_count(s.take(k)) + if s[k] == '\n' {
            1nat
        } else {
            0nat
        },
        newline_count(s.take(k)) <= k,
    decreases k,
{
    assert(s.take(k + 1).drop_last() =~= s.take(k));
    if k > 0 {
        lemma_newline_count_step(s, k - 1);
    }
}

/// Byte offset `b` of `s` falls between two characters (or at either end).
pub open spec fn on_char_boundary(s: Seq<char>, b: int) -> bool {
    exists|k: int| 0 <= k <= s.len() && byte_len(s.take(k)) == b
}

/// The number of characters of `s` before byte offset `b`.
pub open spec fn char_offset(s: Seq<char>, b: int) -> int {
    choose|k: int| 0 <= k <= s.len() && byte_len(s.take(k)) == b
}

/// The index of the first character of the line that holds character `k`
/// of `s`: one past the last line feed before it, or 0.
pub open spec fn line_start(s: Seq<char>, k: int) -> int
    decreases k,
{
    if k <= 0 {
        0
    } else if s[k - 1] == '\n' {
        k
    } else {
        line_start(s, k - 1)
    }
}

proof fn lemma_line_start(s: Seq<char>, k: int)
    ensures
        0 <= line_start(s, k),
        k >= 0 ==> line_start(s, k) <= k,
    decreases k,
{
    if k > 0 {
        lemma_line_start(s, k - 1);
    }
}

/// `n` right-aligned in three columns (what `{:3}` gives).
pub open spec fn pad3(n: nat) -> Seq<char> {
    let d = decimal(n);
    if d.len() < 3 {
        spaces((3 - d.len()) as nat) + d
    } else {
        d
    }
}

/// The prefix of the line shown where the error is.
pub open spec fn marked_prefix(number: nat, column: nat) -> Seq<char> {
    "  > "@ + pad3(number) + ":"@ + decimal(column) + "  "@
}

/// The context shown for line `idx` (0-based) of `lines`, the error being
/// on line `line + 1` at 0-based byte column `col`: that line is marked and,
/// when the column is under 80, followed by a caret under the line's start.
pub open spec fn context_entry(lines: Seq<Seq<char>>, idx: int, line: nat, col: nat) -> Seq<
    Seq<char>,
> {
    let number = (idx + 1) as nat;
    if number == line + 1 {
        let prefix = marked_prefix(number, col + 1);
        if col < 80 {
            seq![prefix + lines[idx], spaces(prefix.len()) + "^"@]
        } else {
            seq![prefix + lines[idx]]
        }
    } else {
        seq!["    "@ + pad3(number) + ":    "@ + lines[idx]]
    }
}

/// The context shown for lines `start` to `end` (exclusive).
pub open spec fn context_lines(lines: Seq<Seq<char>>, line: nat, col: nat, start: int, end: int) -> Seq<
    Seq<char>,
>
    decreases end - start,
{
    if end <= start {
        Seq::empty()
    } else {
        context_lines(lines, line, col, start, end - 1) + context_entry(lines, end - 1, line, col)
    }
}

/// The error made of a TOML error whose span starts at byte `span_start` of
/// `content`, with message `message` and full text `text`: with no span (or
/// one that does not fall between characters), the full text; else the
/// line (1-based: one more than the line feeds before the error) and column
/// (1-based, counted in bytes from the start of that line), up to two lines
/// of context before and after, and the message.
pub open spec fn toml_error_view(
    path: Seq<char>,
    content: Seq<char>,
    span_start: Option<usize>,
    message: Seq<char>,
    text: Seq<char>,
) -> ConfigErrorView {
    match span_start {
        Some(b) if on_char_boundary(content, b as int) => {
            let k = char_offset(content, b as int);
            let line = newline_count(content.take(k));
            let col = (b - byte_len(content.take(line_start(content, k)))) as nat;
            let lines = text_lines(content);
            let start: int = if line >= 2 {
                line - 2
            } else {
                0
            };
            let end: int = if line + 3 < lines.len() {
                (line + 3) as int
            } else {
                lines.len() as int
            };
            ConfigErrorView::ParseWithContext {
                file: path,
                line: line + 1,
                column: col + 1,
                context: context_lines(lines, line, col, start, end),
                original_message: message,
            }
        },
        _ => ConfigErrorView::Parse(text),
    }
}

fn pad3_string(n: usize) -> (r: String)
    ensures
        r@ == pad3(n as nat),
{
    let d = decimal_string(n as u64);
    let len = d.as_str().unicode_len();
    if len < 3 {
        let mut r = spaces_string(3 - len);
        r.append(d.as_str());
        r
    } else {
        d
    }
}

fn context_entry_lines(lines: &Vec<String>, idx: usize, line: usize, col: usize, out: &mut Vec<
    String,
>)
    requires
        idx < lines.len(),
        line < usize::MAX,
        col < usize::MAX,
    ensures
        views(final(out)@) == views(old(out)@) + context_entry(views(lines@), idx as int, line as nat, col as nat),
{
    let number = idx + 1;
    assert(views(lines@)[idx as int] == lines@[idx as int]@);
    if number == line + 1 {
        let mut prefix = concat2("  > ", pad3_string(number).as_str());
        prefix.append(":");
        prefix.append(decimal_string((col + 1) as u64).as_str());
        prefix.append("  ");
        proof {
            reveal_strlit("  > ");
            reveal_strlit(":");
            reveal_strlit("  ");
        }
        assert(prefix@ == marked_prefix(number as nat, (col + 1) as nat));
        let shown = concat2(prefix.as_str(), lines[idx].as_str());
        let ghost before = out@;
        out.push(shown);
        if col < 80 {
            let mut caret = spaces_string(prefix.as_str().unicode_len());
            caret.append("^");
            out.push(caret);
            assert(views(out@) =~= views(before) + context_entry(views(lines@), idx as int, line as nat, col as nat));
        } else {
            assert(views(out@) =~= views(before) + context_entry(views(lines@), idx as int, line as nat, col as nat));
        }
    } else {
        let mut shown = concat2("    ", pad3_string(number).as_str());
        shown.append(":    ");
        shown.append(lines[idx].as_str());
        let ghost before = out@;
        out.push(shown);
        assert(views(out@) =~= views(before) + context_entry(views(lines@), idx as int, line as nat, col as nat));
    }
}

/// The error for a TOML document `content` read from `path` that did not
/// parse, when the parser's error reports a span starting at byte
/// `span_start` (if any), the message `message`, and the full text `text`
/// (see [`toml_error_view`]): with the line, column and surrounding lines
/// where the span can be placed, else the full text.
pub fn toml_error(
    path: &str,
    content: &str,
    span_start: Option<usize>,
    message: &str,
    text: &str,
) -> (r: ConfigError)
    requires
        byte_len(content@) < usize::MAX,
    ensures
        r@ == toml_error_view(path@, content@, span_start, message@, text@),
{
    let b = match span_start {
        Some(b) => b,
        None => {
            return ConfigError::Parse(text.to_owned());
        },
    };
    let cs = char_vec(content);
    let n = cs.len();
    let ghost s = content@;
    let mut k: usize = 0;
    let mut acc: usize = 0;
    let mut begin: usize = 0;
    let mut line: usize = 0;
    while k < n && acc < b
        invariant
            cs@ == s,
            n == s.len(),
            byte_len(s) < usize::MAX,
            k <= n,
            line == newline_count(s.take(k as int)),
            line <= k,
            acc == byte_len(s.take(k as int)),
            begin == byte_len(s.take(line_start(s, k as int))),
            forall|j: int| 0 <= j < k ==> byte_len(s.take(j)) < b,
        decreases n - k,
    {
        proof {
            lemma_byte_len_prefix(s, k as int, k + 1);
            lemma_byte_len_take(s, k + 1);
            lemma_newline_count_step(s, k as int);
        }
        let w = char_width(cs[k]);
        acc = acc + w;
        if cs[k] == '\n' {
            begin = acc;
            line = line + 1;
        }
        k = k + 1;
    }
    if acc != b {
        proof {
            assert forall|j: int| 0 <= j <= s.len() implies byte_len(s.take(j)) != b by {
                if j > k {
                    lemma_byte_len_prefix(s, k as int, j);
                }
            }
        }
        return ConfigError::Parse(text.to_owned());
    }
    proof {
        assert(on_char_boundary(s, b as int));
        let c = char_offset(s, b as int);
        if c < k {
            lemma_byte_len_prefix(s, c, k as int);
        } else if c > k {
            lemma_byte_len_prefix(s, k as int, c);
        }
        assert(c == k);
        lemma_line_start(s, k as int);
        lemma_byte_len_prefix(s, line_start(s, k as int), k as int);
        lemma_byte_len_prefix(s, k as int, n as int);
    }
    let col = b - begin;
    let lines = lines_of(content);
    assert(col == b - byte_len(s.take(line_start(s, k as int))));
    assert(views(lines@) == text_lines(s));
    let start = line.saturating_sub(2);
    let end = if line.saturating_add(3) < lines.len() {
        line + 3
    } else {
        lines.len()
    };
    let mut context: Vec<String> = Vec::new();
    let mut i: usize = start;
    while i < end
        invariant
            start <= i,
            i <= end || i == start,
            end <= lines@.len(),
            line < usize::MAX,
            col < usize::MAX,
            views(context@) == context_lines(views(lines@), line as nat, col as nat, start as int, i as int),
        decreases end - i,
    {
        context_entry_lines(&lines, i, line, col, &mut context);
        i = i + 1;
    }
    assert(views(context@) == context_lines(views(lines@), line as nat, col as nat, start as int, end as int));
    assert(start == (if line >= 2 { line - 2 } else { 0 }));
    assert(end == (if line + 3 < lines@.len() { line + 3 } else { lines@.len() as int }));
    ConfigError::ParseWithContext {
        file: path.to_owned(),
        line: line + 1,
        column: col + 1,
        context,
        original_message: message.to_owned(),
    }
}

} // verus!
