//! The outcome of loading the layered configuration.
use vstd::prelude::*;
use vstd::string::*;

use crate::config::Config;
use crate::error::{error_views, ConfigError};
use crate::text::views;

verus! {

/// Successful config load: resolved config plus non-fatal warnings.
pub type ConfigOk = (Config, Vec<ConfigError>);

/// Partial config plus fatal errors and non-fatal warnings.
pub type ConfigErr = Box<(Config, Vec<ConfigError>, Vec<ConfigError>)>;

/// The full result of loading a configuration.
pub type LoadResult = Result<ConfigOk, ConfigErr>;

/// The result of a load that stopped because a layer (a TOML file, the
/// environment) could not be read: the configuration resolved so far, and
/// the layer's error.
pub fn layer_failure(config: Config, message: String) -> (r: LoadResult)
    ensures
        r matches Err(b) && b.0 == config && error_views(b.1@) == seq![
            crate::error::ConfigErrorView::Figment(message@),
        ] && b.2@.len() == 0,
{
    let mut errors: Vec<ConfigError> = Vec::new();
    errors.push(ConfigError::Figment(message));
    assert(error_views(errors@) =~= seq![crate::error::ConfigErrorView::Figment(message@)]);
    Err(Box::new((config, errors, Vec::new())))
}

/// The result of a load once every layer is merged and the configuration
/// validated: the warnings of validation come first, then `extra_warnings`;
/// the load fails exactly when validation found errors.
pub fn finish_load(
    config: Config,
    validation: Result<Vec<ConfigError>, (Vec<ConfigError>, Vec<ConfigError>)>,
    extra_warnings: Vec<ConfigError>,
) -> (r: LoadResult)
    ensures
        match (validation, r) {
            (Ok(w), Ok(ok)) => ok.0 == config && error_views(ok.1@) == error_views(w@)
                + error_views(extra_warnings@),
            (Err((e, w)), Err(b)) => b.0 == config && b.1 == e && error_views(b.2@)
                == error_views(w@) + error_views(extra_warnings@),
            _ => false,
        },
{
    let mut extra = extra_warnings;
    let ghost extra0 = extra@;
    match validation {
        Ok(w) => {
            let mut warnings = w;
            let ghost w0 = warnings@;
            warnings.append(&mut extra);
            assert(error_views(warnings@) =~= error_views(w0) + error_views(extra0));
            Ok((config, warnings))
        },
        Err((e, w)) => {
            let mut warnings = w;
            let ghost w0 = warnings@;
            warnings.append(&mut extra);
            assert(error_views(warnings@) =~= error_views(w0) + error_views(extra0));
            Err(Box::new((config, e, warnings)))
        },
    }
}

/// A source of configuration values, in the order they are merged: each
/// later layer overrides what the earlier ones set.
#[derive(Debug, Clone)]
pub enum ConfigLayer {
    /// The defaults of the command-line definition.
    Defaults,
    /// The system configuration file at this path.
    SystemFile(String),
    /// The user configuration file at this path.
    UserFile(String),
    /// The `TUIGREET_` environment variables.
    Environment,
    /// The options given on the command line.
    CommandLine,
}

/// A [`ConfigLayer`] with its path as a character sequence.
pub enum ConfigLayerView {
    Defaults,
    SystemFile(Seq<char>),
    UserFile(Seq<char>),
    Environment,
    CommandLine,
}

impl View for ConfigLayer {
    type V = ConfigLayerView;

    open spec fn view(&self) -> ConfigLayerView {
        match self {
            ConfigLayer::Defaults => ConfigLayerView::Defaults,
            ConfigLayer::SystemFile(p) => ConfigLayerView::SystemFile(p@),
            ConfigLayer::UserFile(p) => ConfigLayerView::UserFile(p@),
            ConfigLayer::Environment => ConfigLayerView::Environment,
            ConfigLayer::CommandLine => ConfigLayerView::CommandLine,
        }
    }
}

/// The layers merged into the configuration, lowest priority first:
/// defaults, then the system file and the user file (each when it exists,
/// and neither when configuration files are disabled), then the
/// environment, then the command line.
pub open spec fn layer_order(
    no_config: bool,
    system_path: Seq<char>,
    system_exists: bool,
    user_path: Seq<char>,
    user_exists: bool,
) -> Seq<ConfigLayerView> {
    seq![ConfigLayerView::Defaults] + (if !no_config && system_exists {
        seq![ConfigLayerView::SystemFile(system_path)]
    } else {
        Seq::empty()
    }) + (if !no_config && user_exists {
        seq![ConfigLayerView::UserFile(user_path)]
    } else {
        Seq::empty()
    }) + seq![ConfigLayerView::Environment, ConfigLayerView::CommandLine]
}

/// The views of a list of layers.
pub open spec fn layer_views(v: Seq<ConfigLayer>) -> Seq<ConfigLayerView> {
    v.map_values(|l: ConfigLayer| l@)
}

/// The layers to merge, lowest priority first (see [`layer_order`]).
pub fn config_layers(
    no_config: bool,
    system_path: String,
    system_exists: bool,
    user_path: String,
    user_exists: bool,
) -> (r: Vec<ConfigLayer>)
    ensures
        layer_views(r@) == layer_order(no_config, system_path@, system_exists, user_path@, user_exists),
{
    let ghost sp = system_path@;
    let ghost up = user_path@;
    let mut layers: Vec<ConfigLayer> = Vec::new();
    layers.push(ConfigLayer::Defaults);
    if !no_config && system_exists {
        layers.push(ConfigLayer::SystemFile(system_path));
    }
    if !no_config && user_exists {
        layers.push(ConfigLayer::UserFile(user_path));
    }
    layers.push(ConfigLayer::Environment);
    layers.push(ConfigLayer::CommandLine);
    assert(layer_views(layers@) =~= layer_order(no_config, sp, system_exists, up, user_exists));
    layers
}

/// `path` with a leading `~` (alone, or before a `/`) replaced by the home
/// directory `home`, when there is one; any other path unchanged.
pub open spec fn home_expanded(path: Seq<char>, home: Option<Seq<char>>) -> Seq<char> {
    match home {
        Some(h) => if path == seq!['~'] {
            h
        } else if path.len() >= 2 && path[0] == '~' && path[1] == '/' {
            h + path.skip(1)
        } else {
            path
        },
        None => path,
    }
}

/// Expands a leading `~` of `path` to the home directory `home`.
pub fn expand_tilde(path: &str, home: Option<&str>) -> (r: String)
    ensures
        r@ == home_expanded(path@, match home {
            Some(h) => Some(h@),
            None => None,
        }),
{
    let n = path.unicode_len();
    match home {
        Some(h) => {
            if n == 1 && path.get_char(0) == '~' {
                assert(path@ =~= seq!['~']);
                h.to_owned()
            } else if n >= 2 && path.get_char(0) == '~' && path.get_char(1) == '/' {
                let mut r = h.to_owned();
                r.append(path.substring_char(1, n));
                assert(path@.subrange(1, n as int) =~= path@.skip(1));
                r
            } else {
                path.to_owned()
            }
        },
        None => path.to_owned(),
    }
}

/// Where the value of a command-line argument came from.
#[derive(Debug, Clone, Copy, PartialEq, Eq, Structural)]
pub enum ValueOrigin {
    /// The argument's own default.
    DefaultValue,
    /// An environment variable.
    EnvVariable,
    /// The command line.
    CommandLine,
    /// Somewhere else.
    Other,
}

/// The arguments, of `args` (each with where its value came from, if it has
/// one), whose value is only their default, in order: these are cleared so
/// that only explicitly given values override the lower layers.
pub open spec fn defaulted_args(args: Seq<(Seq<char>, Option<ValueOrigin>)>) -> Seq<Seq<char>>
    decreases args.len(),
{
    if args.len() == 0 {
        Seq::empty()
    } else {
        defaulted_args(args.drop_last()) + if args.last().1 == Some(ValueOrigin::DefaultValue) {
            seq![args.last().0]
        } else {
            Seq::empty()
        }
    }
}

/// The views of a list of arguments and their origins.
pub open spec fn arg_views(args: Seq<(String, Option<ValueOrigin>)>) -> Seq<(Seq<char>, Option<ValueOrigin>)> {
    args.map_values(|a: (String, Option<ValueOrigin>)| (a.0@, a.1))
}

/// The arguments whose value came from their default (see
/// [`defaulted_args`]).
pub fn args_to_clear(args: &Vec<(String, Option<ValueOrigin>)>) -> (r: Vec<String>)
    ensures
        views(r@) == defaulted_args(arg_views(args@)),
{
    let mut r: Vec<String> = Vec::new();
    let mut i: usize = 0;
    while i < args.len()
        invariant
            i <= args@.len(),
            views(r@) == defaulted_args(arg_views(args@).take(i as int)),
        decreases args@.len() - i,
    {
        let ghost before = r@;
        assert(arg_views(args@).take(i + 1).drop_last() =~= arg_views(args@).take(i as int));
        if args[i].1 == Some(ValueOrigin::DefaultValue) {
            r.push(args[i].0.clone());
            assert(views(r@) =~= views(before).push(args@[i as int].0@));
        }
        i = i + 1;
    }
    assert(arg_views(args@).take(i as int) =~= arg_views(args@));
    r
}

} // verus!
