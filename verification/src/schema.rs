//! The configuration read from a TOML file: every section may be left out,
//! and every field of a section has its own default.
use vstd::prelude::*;
use vstd::string::*;

pub use crate::config::{
    AlignGreeting, OutputConfig, RememberConfig, SecretConfig, SecretMode, TerminalConfig,
    ThemeConfig, UserMenuConfig, WidgetPosition,
};

use crate::config::string_views;

verus! {

/// Root configuration structure.
#[derive(Debug, Clone, PartialEq)]
pub struct Config {
    pub general: GeneralConfig,
    pub session: SessionConfig,
    pub display: DisplayConfig,
    pub remember: RememberConfig,
    pub user_menu: UserMenuConfig,
    pub secret: SecretConfig,
    pub layout: LayoutConfig,
    pub power: PowerConfig,
    pub keybindings: KeybindingsConfig,
    pub theme: ThemeConfig,
    /// The `[[outputs]]` tables.
    pub outputs: Vec<OutputConfig>,
    /// The `[terminal]` size override.
    pub terminal: TerminalConfig,
}

/// General configuration options.
#[derive(Debug, Clone, PartialEq, Eq)]
pub struct GeneralConfig {
    /// Enable debug logging.
    pub debug: bool,
    /// Log file path.
    pub log_file: String,
}

/// Session management configuration.
#[derive(Debug, Clone, PartialEq, Eq)]
pub struct SessionConfig {
    /// Override session with a specific command.
    pub command: Option<String>,
    /// Directories containing Wayland session files.
    pub sessions_dirs: Vec<String>,
    /// Directories containing X11 session files.
    pub xsessions_dirs: Vec<String>,
    /// Wrapper command for non-X11 sessions.
    pub session_wrapper: Option<String>,
    /// Wrapper command for X11 sessions.
    pub xsession_wrapper: Option<String>,
    /// Environment variables for the default session.
    pub environments: Vec<String>,
}

/// Display and visual configuration.
#[derive(Debug, Clone, PartialEq, Eq)]
pub struct DisplayConfig {
    /// Show current time.
    pub show_time: bool,
    /// Custom time format (strftime).
    pub time_format: Option<String>,
    /// Custom greeting message.
    pub greeting: Option<String>,
    /// Show login form title.
    pub show_title: bool,
    /// Show /etc/issue file.
    pub issue: bool,
    /// Greeting text alignment.
    pub align_greeting: AlignGreeting,
}

/// Layout and sizing configuration.
#[derive(Debug, Clone, PartialEq, Eq)]
pub struct LayoutConfig {
    /// Width of the main prompt container.
    pub width: u16,
    /// Padding around the terminal window.
    pub window_padding: Option<u16>,
    /// Padding inside the main container.
    pub container_padding: Option<u16>,
    /// Padding between prompt rows.
    pub prompt_padding: Option<u16>,
    /// Widget positioning options.
    pub widgets: WidgetConfig,
}

/// Widget positioning configuration.
#[derive(Debug, Clone, PartialEq, Eq)]
pub struct WidgetConfig {
    /// Position of time widget.
    pub time_position: WidgetPosition,
    /// Position of status bar widget.
    pub status_position: WidgetPosition,
}

/// Power management configuration.
#[derive(Debug, Clone, PartialEq, Eq)]
pub struct PowerConfig {
    /// Custom shutdown command.
    pub shutdown: Option<String>,
    /// Custom reboot command.
    pub reboot: Option<String>,
    /// Use setsid to detach power commands.
    pub use_setsid: bool,
}

/// Keybindings configuration: F-key numbers (1-12).
#[derive(Debug, Clone, PartialEq, Eq)]
pub struct KeybindingsConfig {
    /// F-key for command menu.
    pub command: u8,
    /// F-key for sessions menu.
    pub sessions: u8,
    /// F-key for power menu.
    pub power: u8,
}

/// The default of `display.show_title`.
pub fn default_show_title() -> (b: bool)
    ensures
        b,
{
    true
}

/// The default log file.
pub fn default_log_file() -> (s: String)
    ensures
        s@ == "/tmp/tuigreet.log"@,
{
    "/tmp/tuigreet.log".to_owned()
}

/// The default Wayland session directories: none, so that sessions are
/// looked up under `$XDG_DATA_DIRS`.
pub fn default_sessions_dirs() -> (v: Vec<String>)
    ensures
        v@.len() == 0,
{
    Vec::new()
}

/// The default X11 session directories: none, so that sessions are looked
/// up under `$XDG_DATA_DIRS`.
pub fn default_xsessions_dirs() -> (v: Vec<String>)
    ensures
        v@.len() == 0,
{
    Vec::new()
}

/// The default X11 session wrapper.
pub fn default_xsession_wrapper() -> (w: Option<String>)
    ensures
        w matches Some(s) && s@ == "startx"@,
{
    Some("startx".to_owned())
}

/// The default lowest UID listed in the user menu.
pub fn default_min_uid() -> (u: u32)
    ensures
        u == 1000,
{
    1000
}

/// The default highest UID listed in the user menu.
pub fn default_max_uid() -> (u: u32)
    ensures
        u == 60000,
{
    60000
}

/// The default characters shown in place of a secret.
pub fn default_secret_characters() -> (s: String)
    ensures
        s@ == "*"@,
{
    "*".to_owned()
}

/// The default width of the prompt container.
pub fn default_width() -> (w: u16)
    ensures
        w == 80,
{
    80
}

/// Power commands are detached with setsid by default.
pub fn default_use_setsid() -> (b: bool)
    ensures
        b,
{
    true
}

/// The default F-key of the command menu.
pub fn default_kb_command() -> (k: u8)
    ensures
        k == 2,
{
    2
}

/// The default F-key of the sessions menu.
pub fn default_kb_sessions() -> (k: u8)
    ensures
        k == 3,
{
    3
}

/// The default F-key of the power menu.
pub fn default_kb_power() -> (k: u8)
    ensures
        k == 12,
{
    12
}

impl Default for GeneralConfig {
    fn default() -> (r: Self)
        ensures
            !r.debug,
            r.log_file@ == "/tmp/tuigreet.log"@,
    {
        GeneralConfig { debug: false, log_file: default_log_file() }
    }
}

impl Default for SessionConfig {
    fn default() -> (r: Self)
        ensures
            r.command is None,
            r.sessions_dirs@.len() == 0,
            r.xsessions_dirs@.len() == 0,
            r.session_wrapper is None,
            r.xsession_wrapper matches Some(s) && s@ == "startx"@,
            r.environments@.len() == 0,
    {
        SessionConfig {
            command: None,
            sessions_dirs: default_sessions_dirs(),
            xsessions_dirs: default_xsessions_dirs(),
            session_wrapper: None,
            xsession_wrapper: default_xsession_wrapper(),
            environments: Vec::new(),
        }
    }
}

impl Default for DisplayConfig {
    fn default() -> (r: Self)
        ensures
            !r.show_time,
            r.time_format is None,
            r.greeting is None,
            !r.show_title,
            !r.issue,
            r.align_greeting == AlignGreeting::Center,
    {
        DisplayConfig {
            show_time: false,
            time_format: None,
            greeting: None,
            show_title: false,
            issue: false,
            align_greeting: AlignGreeting::Center,
        }
    }
}

impl Default for WidgetConfig {
    fn default() -> (r: Self)
        ensures
            r.time_position == WidgetPosition::Default,
            r.status_position == WidgetPosition::Default,
    {
        WidgetConfig {
            time_position: WidgetPosition::Default,
            status_position: WidgetPosition::Default,
        }
    }
}

impl Default for LayoutConfig {
    fn default() -> (r: Self)
        ensures
            r.width == 80,
            r.window_padding is None,
            r.container_padding is None,
            r.prompt_padding is None,
            r.widgets.time_position == WidgetPosition::Default,
            r.widgets.status_position == WidgetPosition::Default,
    {
        LayoutConfig {
            width: default_width(),
            window_padding: None,
            container_padding: None,
            prompt_padding: None,
            widgets: WidgetConfig::default(),
        }
    }
}

impl Default for PowerConfig {
    fn default() -> (r: Self)
        ensures
            r.shutdown is None,
            r.reboot is None,
            r.use_setsid,
    {
        PowerConfig { shutdown: None, reboot: None, use_setsid: default_use_setsid() }
    }
}

impl Default for KeybindingsConfig {
    fn default() -> (r: Self)
        ensures
            r.command == 2,
            r.sessions == 3,
            r.power == 12,
    {
        KeybindingsConfig {
            command: default_kb_command(),
            sessions: default_kb_sessions(),
            power: default_kb_power(),
        }
    }
}

/// `c` holds the value every field takes when nothing sets it.
pub open spec fn is_default_file_config(c: Config) -> bool {
    &&& !c.general.debug
    &&& c.general.log_file@ == "/tmp/tuigreet.log"@
    &&& c.session.command is None
    &&& c.session.sessions_dirs@.len() == 0
    &&& c.session.xsessions_dirs@.len() == 0
    &&& c.session.session_wrapper is None
    &&& c.session.xsession_wrapper matches Some(s) && s@ == "startx"@
    &&& c.session.environments@.len() == 0
    &&& !c.display.show_time
    &&& c.display.time_format is None
    &&& c.display.greeting is None
    &&& !c.display.show_title
    &&& !c.display.issue
    &&& c.display.align_greeting == AlignGreeting::Center
    &&& c.remember.default_user is None
    &&& !c.remember.username
    &&& !c.remember.session
    &&& !c.remember.user_session
    &&& !c.user_menu.enabled
    &&& c.user_menu.min_uid == 1000
    &&& c.user_menu.max_uid == 60000
    &&& c.secret.mode == SecretMode::Hidden
    &&& c.secret.characters@ == "*"@
    &&& c.layout.width == 80
    &&& c.layout.window_padding is None
    &&& c.layout.container_padding is None
    &&& c.layout.prompt_padding is None
    &&& c.layout.widgets.time_position == WidgetPosition::Default
    &&& c.layout.widgets.status_position == WidgetPosition::Default
    &&& c.power.shutdown is None
    &&& c.power.reboot is None
    &&& c.power.use_setsid
    &&& c.keybindings.command == 2
    &&& c.keybindings.sessions == 3
    &&& c.keybindings.power == 12
    &&& c.theme.border is None
    &&& c.theme.text is None
    &&& c.theme.time is None
    &&& c.theme.container is None
    &&& c.theme.title is None
    &&& c.theme.greet is None
    &&& c.theme.prompt is None
    &&& c.theme.input is None
    &&& c.theme.action is None
    &&& c.theme.button is None
    &&& c.outputs@.len() == 0
    &&& c.terminal.cols is None
    &&& c.terminal.rows is None
}

/// The characters of an optional string.
pub open spec fn opt_chars(o: Option<String>) -> Option<Seq<char>> {
    match o {
        Some(s) => Some(s@),
        None => None,
    }
}

/// Two output lists name the same connectors with the same flags.
pub open spec fn same_outputs(a: Seq<OutputConfig>, b: Seq<OutputConfig>) -> bool {
    &&& a.len() == b.len()
    &&& forall|i: int|
        0 <= i < a.len() ==> {
            &&& (#[trigger] a[i]).connector@ == b[i].connector@
            &&& a[i].enabled == b[i].enabled
            &&& a[i].primary == b[i].primary
        }
}

/// Two configurations hold the same settings: every field holds the same
/// value, strings compared by their characters.
pub open spec fn same_settings(a: Config, b: Config) -> bool {
    &&& a.general.debug == b.general.debug
    &&& a.general.log_file@ == b.general.log_file@
    &&& opt_chars(a.session.command) == opt_chars(b.session.command)
    &&& string_views(a.session.sessions_dirs) == string_views(b.session.sessions_dirs)
    &&& string_views(a.session.xsessions_dirs) == string_views(b.session.xsessions_dirs)
    &&& opt_chars(a.session.session_wrapper) == opt_chars(b.session.session_wrapper)
    &&& opt_chars(a.session.xsession_wrapper) == opt_chars(b.session.xsession_wrapper)
    &&& string_views(a.session.environments) == string_views(b.session.environments)
    &&& a.display.show_time == b.display.show_time
    &&& opt_chars(a.display.time_format) == opt_chars(b.display.time_format)
    &&& opt_chars(a.display.greeting) == opt_chars(b.display.greeting)
    &&& a.display.show_title == b.display.show_title
    &&& a.display.issue == b.display.issue
    &&& a.display.align_greeting == b.display.align_greeting
    &&& opt_chars(a.remember.default_user) == opt_chars(b.remember.default_user)
    &&& a.remember.username == b.remember.username
    &&& a.remember.session == b.remember.session
    &&& a.remember.user_session == b.remember.user_session
    &&& a.user_menu.enabled == b.user_menu.enabled
    &&& a.user_menu.min_uid == b.user_menu.min_uid
    &&& a.user_menu.max_uid == b.user_menu.max_uid
    &&& a.secret.mode == b.secret.mode
    &&& a.secret.characters@ == b.secret.characters@
    &&& a.layout.width == b.layout.width
    &&& a.layout.window_padding == b.layout.window_padding
    &&& a.layout.container_padding == b.layout.container_padding
    &&& a.layout.prompt_padding == b.layout.prompt_padding
    &&& a.layout.widgets.time_position == b.layout.widgets.time_position
    &&& a.layout.widgets.status_position == b.layout.widgets.status_position
    &&& opt_chars(a.power.shutdown) == opt_chars(b.power.shutdown)
    &&& opt_chars(a.power.reboot) == opt_chars(b.power.reboot)
    &&& a.power.use_setsid == b.power.use_setsid
    &&& a.keybindings.command == b.keybindings.command
    &&& a.keybindings.sessions == b.keybindings.sessions
    &&& a.keybindings.power == b.keybindings.power
    &&& opt_chars(a.theme.border) == opt_chars(b.theme.border)
    &&& opt_chars(a.theme.text) == opt_chars(b.theme.text)
    &&& opt_chars(a.theme.time) == opt_chars(b.theme.time)
    &&& opt_chars(a.theme.container) == opt_chars(b.theme.container)
    &&& opt_chars(a.theme.title) == opt_chars(b.theme.title)
    &&& opt_chars(a.theme.greet) == opt_chars(b.theme.greet)
    &&& opt_chars(a.theme.prompt) == opt_chars(b.theme.prompt)
    &&& opt_chars(a.theme.input) == opt_chars(b.theme.input)
    &&& opt_chars(a.theme.action) == opt_chars(b.theme.action)
    &&& opt_chars(a.theme.button) == opt_chars(b.theme.button)
    &&& same_outputs(a.outputs@, b.outputs@)
    &&& a.terminal.cols == b.terminal.cols
    &&& a.terminal.rows == b.terminal.rows
}

impl Default for Config {
    fn default() -> (r: Self)
        ensures
            is_default_file_config(r),
    {
        Config {
            general: GeneralConfig::default(),
            session: SessionConfig::default(),
            display: DisplayConfig::default(),
            remember: RememberConfig::default(),
            user_menu: UserMenuConfig::default(),
            secret: SecretConfig::default(),
            layout: LayoutConfig::default(),
            power: PowerConfig::default(),
            keybindings: KeybindingsConfig::default(),
            theme: ThemeConfig::default(),
            outputs: Vec::new(),
            terminal: TerminalConfig::default(),
        }
    }
}

} // verus!
