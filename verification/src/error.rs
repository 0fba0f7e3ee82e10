//! Errors and warnings found while loading or validating a [`crate::config::Config`].
use vstd::prelude::*;
use vstd::string::*;

use crate::text::{concat2, concat3, decimal, decimal_string};

verus! {

/// Errors that can occur during configuration loading or validation.
#[derive(Debug, Clone)]
pub enum ConfigError {
    /// Error surfaced while merging or deserialising the TOML, environment or
    /// command-line layers (I/O, TOML syntax, type mismatch), as its text.
    Figment(String),
    /// General validation error with description.
    Validation(String),
    /// Two options that cannot be used together.
    MutuallyExclusive(String, String),
    /// Option that depends on another option being set.
    Dependency(String),
    /// Invalid range (e.g. `min_uid` > `max_uid`).
    InvalidRange(String),
    /// Duplicate keybindings.
    DuplicateKeybindings,
    /// Invalid F-key value.
    InvalidFKey(String, u8),
    /// Invalid time format string.
    InvalidTimeFormat,
    /// Warning: a non-fatal issue.
    Warning(String),
    /// Session wrapper executable not found (the path or name looked for).
    WrapperExecutableNotFound(String),
}

/// A [`ConfigError`] with its texts as character sequences.
pub enum ConfigErrorView {
    Figment(Seq<char>),
    Validation(Seq<char>),
    MutuallyExclusive(Seq<char>, Seq<char>),
    Dependency(Seq<char>),
    InvalidRange(Seq<char>),
    DuplicateKeybindings,
    InvalidFKey(Seq<char>, u8),
    InvalidTimeFormat,
    Warning(Seq<char>),
    WrapperExecutableNotFound(Seq<char>),
}

impl View for ConfigError {
    type V = ConfigErrorView;

    open spec fn view(&self) -> ConfigErrorView {
        match self {
            ConfigError::Figment(m) => ConfigErrorView::Figment(m@),
            ConfigError::Validation(m) => ConfigErrorView::Validation(m@),
            ConfigError::MutuallyExclusive(a, b) => ConfigErrorView::MutuallyExclusive(a@, b@),
            ConfigError::Dependency(m) => ConfigErrorView::Dependency(m@),
            ConfigError::InvalidRange(m) => ConfigErrorView::InvalidRange(m@),
            ConfigError::DuplicateKeybindings => ConfigErrorView::DuplicateKeybindings,
            ConfigError::InvalidFKey(n, k) => ConfigErrorView::InvalidFKey(n@, *k),
            ConfigError::InvalidTimeFormat => ConfigErrorView::InvalidTimeFormat,
            ConfigError::Warning(m) => ConfigErrorView::Warning(m@),
            ConfigError::WrapperExecutableNotFound(p) => ConfigErrorView::WrapperExecutableNotFound(
                p@,
            ),
        }
    }
}

/// The views of a sequence of errors.
pub open spec fn error_views(v: Seq<ConfigError>) -> Seq<ConfigErrorView> {
    v.map_values(|e: ConfigError| e@)
}

/// The text that describes an error to the user.
pub open spec fn message_of(e: ConfigErrorView) -> Seq<char> {
    match e {
        ConfigErrorView::Figment(m) => "config error: "@ + m,
        ConfigErrorView::Validation(m) => "validation error: "@ + m,
        ConfigErrorView::MutuallyExclusive(a, b) => "options '"@ + a + "' and '"@ + b
            + "' are mutually exclusive"@,
        ConfigErrorView::Dependency(m) => "dependency error: "@ + m,
        ConfigErrorView::InvalidRange(m) => "invalid range: "@ + m,
        ConfigErrorView::DuplicateKeybindings => "duplicate keybindings detected"@,
        ConfigErrorView::InvalidFKey(n, k) => "invalid F-key value for '"@ + n + "': F"@
            + decimal(k as nat) + " (must be F1-F12)"@,
        ConfigErrorView::InvalidTimeFormat => "invalid time format string"@,
        ConfigErrorView::Warning(m) => "non-fatal config issue found: "@ + m,
        ConfigErrorView::WrapperExecutableNotFound(p) => "session wrapper executable not found: "@
            + p,
    }
}

impl ConfigError {
    /// The text that describes this error to the user.
    pub fn message(&self) -> (s: String)
        ensures
            s@ == message_of(self@),
    {
        match self {
            ConfigError::Figment(m) => concat2("config error: ", m.as_str()),
            ConfigError::Validation(m) => concat2("validation error: ", m.as_str()),
            ConfigError::MutuallyExclusive(a, b) => {
                let mut s = concat3("options '", a.as_str(), "' and '");
                s.append(b.as_str());
                s.append("' are mutually exclusive");
                s
            },
            ConfigError::Dependency(m) => concat2("dependency error: ", m.as_str()),
            ConfigError::InvalidRange(m) => concat2("invalid range: ", m.as_str()),
            ConfigError::DuplicateKeybindings => "duplicate keybindings detected".to_owned(),
            ConfigError::InvalidFKey(n, k) => {
                let mut s = concat3("invalid F-key value for '", n.as_str(), "': F");
                let d = decimal_string(*k as u64);
                s.append(d.as_str());
                s.append(" (must be F1-F12)");
                s
            },
            ConfigError::InvalidTimeFormat => "invalid time format string".to_owned(),
            ConfigError::Warning(m) => concat2("non-fatal config issue found: ", m.as_str()),
            ConfigError::WrapperExecutableNotFound(p) => concat2("session wrapper executable not found: ", p.as_str()),
        }
    }
}

} // verus!
