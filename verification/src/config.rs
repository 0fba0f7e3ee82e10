//! The layered configuration: command line, environment and TOML files all
//! resolve into one [`Config`].
use vstd::prelude::*;
use vstd::string::*;

verus! {

/// Default path of the log file.
pub const DEFAULT_LOG_FILE: &'static str = "/tmp/tuigreet.log";

/// Default path of the system-wide TOML file.
pub const DEFAULT_SYSTEM_TOML_PATH: &'static str = "/etc/tuigreet/config.toml";

/// Default path of the per-user TOML file.
pub const DEFAULT_USER_TOML_PATH: &'static str = "~/.config/tuigreet/config.toml";

/// Default wrapper put in front of X11 sessions.
pub const DEFAULT_XSESSION_WRAPPER: &'static str = "startx /usr/bin/env";

/// Root configuration structure.
#[derive(Debug, Clone, PartialEq)]
pub struct Config {
    pub general: GeneralConfig,
    pub session: SessionConfig,
    pub display: DisplayConfig,
    pub remember: RememberConfig,
    pub user_menu: UserMenuConfig,
    pub secret: SecretConfig,
    pub layout: LayoutConfig,
    pub power: PowerConfig,
    pub keybindings: KeybindingsConfig,
    pub theme: ThemeConfig,
    pub background: BackgroundConfig,
    /// Per-output (display/monitor) configuration, the `[[outputs]]` tables.
    pub outputs: Vec<OutputConfig>,
    /// Explicit terminal size override.
    pub terminal: TerminalConfig,
}

/// Configuration for a single DRM output (monitor/display).
#[derive(Debug, Clone, PartialEq, Eq)]
pub struct OutputConfig {
    /// DRM connector name as it appears in `/sys/class/drm/`.
    pub connector: String,
    /// Whether the output is used. Defaults to `true`.
    pub enabled: bool,
    /// Whether the terminal is sized to match this output.
    pub primary: bool,
}

/// Explicit terminal character-cell size override; both or neither.
#[derive(Debug, Clone, PartialEq, Eq)]
pub struct TerminalConfig {
    /// Number of character columns.
    pub cols: Option<u16>,
    /// Number of character rows.
    pub rows: Option<u16>,
}

/// General configuration options.
#[derive(Debug, Clone, PartialEq, Eq)]
pub struct GeneralConfig {
    /// Path to the system configuration TOML file.
    pub system_config_path: String,
    /// Path to the user configuration TOML file.
    pub user_config_path: String,
    /// Disable loading TOML configuration files.
    pub no_config: bool,
    /// Enable debug logging.
    pub debug: bool,
    /// Log file path.
    pub log_file: String,
    /// Visual mock-up mode: no greetd socket, the authentication is faked.
    pub mock: bool,
    /// Enable numlock on startup.
    pub numlock: bool,
    /// List available DRM outputs and exit.
    pub list_outputs: bool,
    /// Print the effective configuration as TOML and exit.
    pub dump_config: bool,
}

/// Session management configuration.
#[derive(Debug, Clone, PartialEq, Eq)]
pub struct SessionConfig {
    /// Override session with a specific command.
    pub command: Option<String>,
    /// Directories containing Wayland session files.
    pub sessions_dirs: Vec<String>,
    /// Directories containing X11 session files.
    pub xsessions_dirs: Vec<String>,
    /// Wrapper command for non-X11 sessions.
    pub session_wrapper: Option<String>,
    /// Wrapper command for X11 sessions (empty for no wrapper).
    pub xsession_wrapper: String,
    /// Environment variables for the default session.
    pub environments: Vec<String>,
}

/// Display and visual configuration.
#[derive(Debug, Clone, PartialEq, Eq)]
pub struct DisplayConfig {
    /// Show current time.
    pub show_time: bool,
    /// Custom time format (strftime).
    pub time_format: Option<String>,
    /// Custom greeting message.
    pub greeting: Option<String>,
    /// Show login form title.
    pub show_title: bool,
    /// Custom login form title.
    pub custom_title: Option<String>,
    /// Show /etc/issue file.
    pub issue: bool,
    /// Show battery percentage.
    pub battery: bool,
    /// Greeting text alignment.
    pub align_greeting: AlignGreeting,
}

/// Remember/cache configuration.
#[derive(Debug, Clone, PartialEq, Eq)]
pub struct RememberConfig {
    /// Default user to pre-fill.
    pub default_user: Option<String>,
    /// Remember last logged-in username.
    pub username: bool,
    /// Remember last selected session (global).
    pub session: bool,
    /// Remember last selected session per user.
    pub user_session: bool,
}

/// User menu configuration.
#[derive(Debug, Clone, PartialEq, Eq)]
pub struct UserMenuConfig {
    /// Enable user selection menu.
    pub enabled: bool,
    /// Minimum UID to display in user menu.
    pub min_uid: u32,
    /// Maximum UID to display in user menu.
    pub max_uid: u32,
}

/// Secret display configuration.
#[derive(Debug, Clone, PartialEq, Eq)]
pub struct SecretConfig {
    /// How to display secrets.
    pub mode: SecretMode,
    /// Characters to use when mode is `Characters`.
    pub characters: String,
}

/// Layout and sizing configuration.
#[derive(Debug, Clone, PartialEq, Eq)]
pub struct LayoutConfig {
    /// Width of the main prompt container.
    pub width: u16,
    /// Padding around the terminal window.
    pub window_padding: u16,
    /// Padding inside the main container.
    pub container_padding: u16,
    /// Padding between prompt rows.
    pub prompt_padding: u16,
    /// Widget positioning options.
    pub widgets: WidgetConfig,
}

/// Battery widget placement.
#[derive(Debug, Clone, Copy, PartialEq, Eq, Structural)]
pub enum BatteryPosition {
    Left,
    Right,
}

/// Widget positioning configuration.
#[derive(Debug, Clone, PartialEq, Eq)]
pub struct WidgetConfig {
    /// Position of time widget.
    pub time_position: WidgetPosition,
    /// Position of status bar widget.
    pub status_position: WidgetPosition,
    /// Position of battery widget.
    pub battery_position: BatteryPosition,
    /// Status bar item visibility.
    pub status_bar: StatusBarConfig,
}

/// Status bar item visibility configuration.
#[derive(Debug, Clone, PartialEq, Eq)]
pub struct StatusBarConfig {
    pub show_reset: bool,
    pub show_command: bool,
    pub show_session: bool,
    pub show_power: bool,
    pub show_background: bool,
    pub show_session_status: bool,
    pub show_caps_lock: bool,
}

/// Power management configuration.
#[derive(Debug, Clone, PartialEq, Eq)]
pub struct PowerConfig {
    /// Custom shutdown command.
    pub shutdown: Option<String>,
    /// Custom reboot command.
    pub reboot: Option<String>,
    /// Custom suspend command.
    pub suspend: Option<String>,
    /// Custom hibernate command.
    pub hibernate: Option<String>,
    /// Use setsid to detach power commands.
    pub use_setsid: bool,
}

/// Keybindings configuration: F-key numbers (1-12).
#[derive(Debug, Clone, PartialEq, Eq)]
pub struct KeybindingsConfig {
    /// F-key for command menu.
    pub command: u8,
    /// F-key for sessions menu.
    pub sessions: u8,
    /// F-key for power menu.
    pub power: u8,
    /// F-key for the background switcher menu.
    pub background: u8,
}

/// Theme/color configuration: one color name per themed element.
#[derive(Debug, Clone, PartialEq, Eq)]
pub struct ThemeConfig {
    pub border: Option<String>,
    pub text: Option<String>,
    pub time: Option<String>,
    pub container: Option<String>,
    pub title: Option<String>,
    pub greet: Option<String>,
    pub prompt: Option<String>,
    pub input: Option<String>,
    pub action: Option<String>,
    pub button: Option<String>,
}

/// Background animation configuration.
#[derive(Debug, Clone, PartialEq)]
pub struct BackgroundConfig {
    /// Which animation to run; `None` or `"none"` disables animations.
    pub kind: Option<String>,
    /// Render frame rate when an animation is active.
    pub fps: u32,
    /// Parameters for the DOOM-style fire effect.
    pub doom: DoomConfig,
    /// Parameters for the digital rain effect.
    pub matrix: MatrixConfig,
}

/// Parameters for the DOOM-style fire animation.
#[derive(Debug, Clone, PartialEq, Eq)]
pub struct DoomConfig {
    /// Decay control (1..=9). Higher = taller flames.
    pub height: u8,
    /// Horizontal jitter range (0..=4).
    pub spread: u8,
    /// Color of the coolest flame tips.
    pub top_color: String,
    /// Color of the mid-band flames.
    pub middle_color: String,
    /// Color of the hottest flames at the base.
    pub bottom_color: String,
}

/// Parameters for the digital rain animation. The three rates are kept as
/// the IEEE-754 single-precision bit patterns of their values; nothing here
/// computes with them.
#[derive(Debug, Clone, PartialEq)]
pub struct MatrixConfig {
    pub head_color: String,
    pub bright_color: String,
    pub dim_color: String,
    /// Inclusive minimum trail length in rows.
    pub min_length: u16,
    /// Inclusive maximum trail length in rows.
    pub max_length: u16,
    /// Minimum stream speed in rows per frame (bit pattern of an `f32`).
    pub min_speed_bits: u32,
    /// Maximum stream speed in rows per frame (bit pattern of an `f32`).
    pub max_speed_bits: u32,
    /// Per-cell, per-frame glyph mutation probability (bit pattern of an `f32`).
    pub mutate_chance_bits: u32,
}

/// Greeting alignment options.
#[derive(Debug, Clone, Copy, PartialEq, Eq, Structural)]
pub enum AlignGreeting {
    Left,
    Center,
    Right,
}

/// Secret display modes.
#[derive(Debug, Clone, Copy, PartialEq, Eq, Structural)]
pub enum SecretMode {
    Hidden,
    Characters,
}

/// Widget position options.
#[derive(Debug, Clone, Copy, PartialEq, Eq, Structural)]
pub enum WidgetPosition {
    Default,
    Top,
    Bottom,
    Hidden,
}

impl Default for AlignGreeting {
    fn default() -> (r: Self)
        ensures
            r == AlignGreeting::Center,
    {
        AlignGreeting::Center
    }
}

impl Default for SecretMode {
    fn default() -> (r: Self)
        ensures
            r == SecretMode::Hidden,
    {
        SecretMode::Hidden
    }
}

impl Default for WidgetPosition {
    fn default() -> (r: Self)
        ensures
            r == WidgetPosition::Default,
    {
        WidgetPosition::Default
    }
}

impl Default for BatteryPosition {
    fn default() -> (r: Self)
        ensures
            r == BatteryPosition::Left,
    {
        BatteryPosition::Left
    }
}

impl Default for TerminalConfig {
    fn default() -> (r: Self)
        ensures
            r.cols is None,
            r.rows is None,
    {
        TerminalConfig { cols: None, rows: None }
    }
}

impl Default for DisplayConfig {
    fn default() -> (r: Self)
        ensures
            !r.show_time,
            r.time_format is None,
            r.greeting is None,
            !r.show_title,
            r.custom_title is None,
            !r.issue,
            !r.battery,
            r.align_greeting == AlignGreeting::Center,
    {
        DisplayConfig {
            show_time: false,
            time_format: None,
            greeting: None,
            show_title: false,
            custom_title: None,
            issue: false,
            battery: false,
            align_greeting: AlignGreeting::Center,
        }
    }
}

impl Default for RememberConfig {
    fn default() -> (r: Self)
        ensures
            r.default_user is None,
            !r.username,
            !r.session,
            !r.user_session,
    {
        RememberConfig { default_user: None, username: false, session: false, user_session: false }
    }
}

impl Default for UserMenuConfig {
    fn default() -> (r: Self)
        ensures
            !r.enabled,
            r.min_uid == 1000,
            r.max_uid == 60000,
    {
        UserMenuConfig { enabled: false, min_uid: 1000, max_uid: 60000 }
    }
}

impl Default for SecretConfig {
    fn default() -> (r: Self)
        ensures
            r.mode == SecretMode::Hidden,
            r.characters@ == "*"@,
    {
        SecretConfig { mode: SecretMode::Hidden, characters: "*".to_owned() }
    }
}

impl Default for ThemeConfig {
    fn default() -> (r: Self)
        ensures
            r.border is None,
            r.text is None,
            r.time is None,
            r.container is None,
            r.title is None,
            r.greet is None,
            r.prompt is None,
            r.input is None,
            r.action is None,
            r.button is None,
    {
        ThemeConfig {
            border: None,
            text: None,
            time: None,
            container: None,
            title: None,
            greet: None,
            prompt: None,
            input: None,
            action: None,
            button: None,
        }
    }
}

/// Why a terminal size override is unusable: only one of the two sizes
/// given, or a size of zero; `None` when it is usable (both or neither).
pub open spec fn terminal_reason(t: TerminalConfig) -> Option<Seq<char>> {
    match (t.cols, t.rows) {
        (Some(_), None) => Some(
            "`terminal.cols` is set but `terminal.rows` is missing; both must be provided together"@,
        ),
        (None, Some(_)) => Some(
            "`terminal.rows` is set but `terminal.cols` is missing; both must be provided together"@,
        ),
        (Some(cols), Some(rows)) => if cols == 0 {
            Some("`terminal.cols` must be greater than 0"@)
        } else if rows == 0 {
            Some("`terminal.rows` must be greater than 0"@)
        } else {
            None
        },
        (None, None) => None,
    }
}

impl TerminalConfig {
    /// Why this size override is unusable, or `None` when it is usable.
    pub fn invalid_reason(&self) -> (r: Option<String>)
        ensures
            r matches Some(s) ==> terminal_reason(*self) == Some(s@),
            r is None ==> terminal_reason(*self) is None,
    {
        match (self.cols, self.rows) {
            (Some(_), None) => Some(
                "`terminal.cols` is set but `terminal.rows` is missing; both must be provided together".to_owned(),
            ),
            (None, Some(_)) => Some(
                "`terminal.rows` is set but `terminal.cols` is missing; both must be provided together".to_owned(),
            ),
            (Some(cols), Some(rows)) => {
                if cols == 0 {
                    Some("`terminal.cols` must be greater than 0".to_owned())
                } else if rows == 0 {
                    Some("`terminal.rows` must be greater than 0".to_owned())
                } else {
                    None
                }
            },
            (None, None) => None,
        }
    }
}

/// Value of an `[[outputs]]` flag that is not given: `enabled` defaults to on.
pub fn default_true() -> (b: bool)
    ensures
        b,
{
    true
}

/// The views of a vector of strings.
pub open spec fn string_views(v: Vec<String>) -> Seq<Seq<char>> {
    v@.map_values(|x: String| x@)
}

/// What `Config::defaults` gives: every option at the value it takes when
/// neither the command line, the environment nor a TOML file sets it.
pub open spec fn is_default_config(c: Config) -> bool {
    &&& c.general.system_config_path@ == DEFAULT_SYSTEM_TOML_PATH@
    &&& c.general.user_config_path@ == DEFAULT_USER_TOML_PATH@
    &&& !c.general.no_config
    &&& !c.general.debug
    &&& c.general.log_file@ == DEFAULT_LOG_FILE@
    &&& !c.general.mock
    &&& !c.general.numlock
    &&& !c.general.list_outputs
    &&& !c.general.dump_config
    &&& c.session.command is None
    &&& c.session.sessions_dirs@.len() == 0
    &&& c.session.xsessions_dirs@.len() == 0
    &&& c.session.session_wrapper is None
    &&& c.session.xsession_wrapper@ == DEFAULT_XSESSION_WRAPPER@
    &&& c.session.environments@.len() == 0
    &&& !c.display.show_time
    &&& c.display.time_format is None
    &&& c.display.greeting is None
    &&& c.display.show_title
    &&& c.display.custom_title is None
    &&& !c.display.issue
    &&& !c.display.battery
    &&& c.display.align_greeting == AlignGreeting::Center
    &&& c.remember.default_user is None
    &&& !c.remember.username
    &&& !c.remember.session
    &&& !c.remember.user_session
    &&& !c.user_menu.enabled
    &&& c.user_menu.min_uid == 1000
    &&& c.user_menu.max_uid == 60000
    &&& c.secret.mode == SecretMode::Hidden
    &&& c.secret.characters@ == "*"@
    &&& c.layout.width == 80
    &&& c.layout.window_padding == 0
    &&& c.layout.container_padding == 2
    &&& c.layout.prompt_padding == 1
    &&& c.layout.widgets.time_position == WidgetPosition::Default
    &&& c.layout.widgets.status_position == WidgetPosition::Default
    &&& c.layout.widgets.battery_position == BatteryPosition::Left
    &&& c.layout.widgets.status_bar.show_reset
    &&& c.layout.widgets.status_bar.show_command
    &&& c.layout.widgets.status_bar.show_session
    &&& c.layout.widgets.status_bar.show_power
    &&& c.layout.widgets.status_bar.show_background
    &&& c.layout.widgets.status_bar.show_session_status
    &&& c.layout.widgets.status_bar.show_caps_lock
    &&& c.power.shutdown is None
    &&& c.power.reboot is None
    &&& c.power.suspend is None
    &&& c.power.hibernate is None
    &&& c.power.use_setsid
    &&& c.keybindings.command == 2
    &&& c.keybindings.sessions == 3
    &&& c.keybindings.power == 12
    &&& c.keybindings.background == 4
    &&& c.theme.border is None
    &&& c.theme.text is None
    &&& c.theme.time is None
    &&& c.theme.container is None
    &&& c.theme.title is None
    &&& c.theme.greet is None
    &&& c.theme.prompt is None
    &&& c.theme.input is None
    &&& c.theme.action is None
    &&& c.theme.button is None
    &&& c.background.kind is None
    &&& c.background.fps == 30
    &&& c.background.doom.height == 6
    &&& c.background.doom.spread == 2
    &&& c.background.doom.top_color@ == "#9F2707"@
    &&& c.background.doom.middle_color@ == "#C78F17"@
    &&& c.background.doom.bottom_color@ == "#FFFFFF"@
    &&& c.background.matrix.head_color@ == "#CCFFCC"@
    &&& c.background.matrix.bright_color@ == "#33FF66"@
    &&& c.background.matrix.dim_color@ == "#006622"@
    &&& c.background.matrix.min_length == 6
    &&& c.background.matrix.max_length == 18
    &&& c.background.matrix.min_speed_bits == 0x3e99999a
    &&& c.background.matrix.max_speed_bits == 0x3f8ccccd
    &&& c.background.matrix.mutate_chance_bits == 0x3ca3d70a
    &&& c.outputs@.len() == 0
    &&& c.terminal.cols is None
    &&& c.terminal.rows is None
}

impl Config {
    /// The configuration with every option at its default value.
    pub fn defaults() -> (c: Self)
        ensures
            is_default_config(c),
    {
        let c = Config {
            general: GeneralConfig {
                system_config_path: DEFAULT_SYSTEM_TOML_PATH.to_owned(),
                user_config_path: DEFAULT_USER_TOML_PATH.to_owned(),
                no_config: false,
                debug: false,
                log_file: DEFAULT_LOG_FILE.to_owned(),
                mock: false,
                numlock: false,
                list_outputs: false,
                dump_config: false,
            },
            session: SessionConfig {
                command: None,
                sessions_dirs: Vec::new(),
                xsessions_dirs: Vec::new(),
                session_wrapper: None,
                xsession_wrapper: DEFAULT_XSESSION_WRAPPER.to_owned(),
                environments: Vec::new(),
            },
            display: DisplayConfig {
                show_time: false,
                time_format: None,
                greeting: None,
                show_title: true,
                custom_title: None,
                issue: false,
                battery: false,
                align_greeting: AlignGreeting::Center,
            },
            remember: RememberConfig::default(),
            user_menu: UserMenuConfig::default(),
            secret: SecretConfig::default(),
            layout: LayoutConfig {
                width: 80,
                window_padding: 0,
                container_padding: 2,
                prompt_padding: 1,
                widgets: WidgetConfig {
                    time_position: WidgetPosition::Default,
                    status_position: WidgetPosition::Default,
                    battery_position: BatteryPosition::Left,
                    status_bar: StatusBarConfig {
                        show_reset: true,
                        show_command: true,
                        show_session: true,
                        show_power: true,
                        show_background: true,
                        show_session_status: true,
                        show_caps_lock: true,
                    },
                },
            },
            power: PowerConfig {
                shutdown: None,
                reboot: None,
                suspend: None,
                hibernate: None,
                use_setsid: true,
            },
            keybindings: KeybindingsConfig { command: 2, sessions: 3, power: 12, background: 4 },
            theme: ThemeConfig::default(),
            background: BackgroundConfig {
                kind: None,
                fps: 30,
                doom: DoomConfig {
                    height: 6,
                    spread: 2,
                    top_color: "#9F2707".to_owned(),
                    middle_color: "#C78F17".to_owned(),
                    bottom_color: "#FFFFFF".to_owned(),
                },
                matrix: MatrixConfig {
                    head_color: "#CCFFCC".to_owned(),
                    bright_color: "#33FF66".to_owned(),
                    dim_color: "#006622".to_owned(),
                    min_length: 6,
                    max_length: 18,
                    min_speed_bits: 0x3e99999a,
                    max_speed_bits: 0x3f8ccccd,
                    mutate_chance_bits: 0x3ca3d70a,
                },
            },
            outputs: Vec::new(),
            terminal: TerminalConfig::default(),
        };
        c
    }
}

} // verus!
