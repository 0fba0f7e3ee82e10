//! Decisions of the configuration hot-reload: which file events matter, and
//! what a reload yields.
use vstd::prelude::*;
use vstd::string::*;

use crate::config::{Config, GeneralConfig};
use crate::error::{error_views, message_of, ConfigError, ConfigErrorView};
use crate::loader::LoadResult;
use crate::text::{concat2, join_strings, join_with, str_eq, views};

verus! {

/// The kind of a file-system event.
#[derive(Debug, Clone, Copy, PartialEq, Eq, Structural)]
pub enum WatchEventKind {
    Any,
    Access,
    Create,
    Modify,
    Remove,
    Other,
}

/// `path` is one of `config_paths`.
pub open spec fn listed(path: Seq<char>, config_paths: Seq<Seq<char>>) -> bool {
    exists|j: int| 0 <= j < config_paths.len() && config_paths[j] == path
}

/// An event touches a configuration file: it creates or modifies one of
/// `config_paths`.
pub open spec fn is_config_change(
    kind: WatchEventKind,
    paths: Seq<Seq<char>>,
    config_paths: Seq<Seq<char>>,
) -> bool {
    (kind == WatchEventKind::Modify || kind == WatchEventKind::Create) && exists|i: int|
        0 <= i < paths.len() && #[trigger] listed(paths[i], config_paths)
}

fn path_listed(path: &str, config_paths: &Vec<String>) -> (r: bool)
    ensures
        r == listed(path@, views(config_paths@)),
{
    let mut j: usize = 0;
    while j < config_paths.len()
        invariant
            j <= config_paths@.len(),
            forall|k: int| 0 <= k < j ==> path@ != #[trigger] views(config_paths@)[k],
        decreases config_paths@.len() - j,
    {
        if str_eq(path, config_paths[j].as_str()) {
            assert(views(config_paths@)[j as int] == path@);
            return true;
        }
        j = j + 1;
    }
    false
}

/// Whether a file event of kind `kind` on `paths` changes one of the
/// watched configuration files.
pub fn is_config_event(kind: WatchEventKind, paths: &Vec<String>, config_paths: &Vec<String>) -> (r:
    bool)
    ensures
        r == is_config_change(kind, views(paths@), views(config_paths@)),
{
    if !(kind == WatchEventKind::Modify || kind == WatchEventKind::Create) {
        return false;
    }
    let mut i: usize = 0;
    while i < paths.len()
        invariant
            i <= paths@.len(),
            kind == WatchEventKind::Modify || kind == WatchEventKind::Create,
            forall|p: int| 0 <= p < i ==> !#[trigger] listed(views(paths@)[p], views(config_paths@)),
        decreases paths@.len() - i,
    {
        let found = path_listed(paths[i].as_str(), config_paths);
        assert(views(paths@)[i as int] == paths@[i as int]@);
        if found {
            assert(listed(views(paths@)[i as int], views(config_paths@)));
            return true;
        }
        i = i + 1;
    }
    false
}

/// The texts of a list of errors.
pub open spec fn messages(errors: Seq<ConfigErrorView>) -> Seq<Seq<char>> {
    errors.map_values(|e: ConfigErrorView| message_of(e))
}

/// What a reload yields: the loaded configuration, unless the load found
/// errors, in which case their texts joined with `", "`.
pub open spec fn reload_result(r: LoadResult) -> Result<Config, Seq<char>> {
    match r {
        Ok(ok) => Ok(ok.0),
        Err(b) => if b.1@.len() == 0 {
            Ok(b.0)
        } else {
            Err(join_with(messages(error_views(b.1@)), ", "@))
        },
    }
}

/// The configuration a reload yields, or the joined texts of the errors
/// that made the load fail. A failed load with no error (warnings only)
/// still yields its configuration.
pub fn reload_outcome(result: LoadResult) -> (r: Result<Config, String>)
    ensures
        match (r, reload_result(result)) {
            (Ok(c), Ok(d)) => c == d,
            (Err(m), Err(n)) => m@ == n,
            _ => false,
        },
{
    match result {
        Ok((config, _warnings)) => Ok(config),
        Err(b) => {
            let (config, errors, _warnings) = *b;
            if errors.len() == 0 {
                Ok(config)
            } else {
                let mut texts: Vec<String> = Vec::new();
                let mut i: usize = 0;
                while i < errors.len()
                    invariant
                        i <= errors@.len(),
                        views(texts@) == messages(error_views(errors@)).take(i as int),
                    decreases errors@.len() - i,
                {
                    let ghost before = texts@;
                    let m = errors[i].message();
                    texts.push(m);
                    assert(texts@ == before.push(m));
                    assert(views(texts@) =~= views(before).push(m@));
                    assert(messages(error_views(errors@)).take(i + 1) =~= messages(
                        error_views(errors@),
                    ).take(i as int).push(message_of(errors@[i as int]@)));
                    i = i + 1;
                    assert(views(texts@) =~= messages(error_views(errors@)).take(i as int));
                }
                assert(messages(error_views(errors@)).take(i as int) =~= messages(
                    error_views(errors@),
                ));
                Err(join_strings(&texts, ", "))
            }
        },
    }
}

/// A reloaded configuration with the logging settings kept as they are
/// (the logger is installed once and cannot be replaced): `debug` and
/// `log_file` are the current ones. The flag tells whether the reloaded
/// file asked for other logging settings, which need a restart.
pub fn keep_logger_settings(config: Config, debug: bool, log_file: String) -> (r: (Config, bool))
    ensures
        r.0.general.debug == debug,
        r.0.general.log_file == log_file,
        r.0 == (Config {
            general: crate::config::GeneralConfig { debug, log_file, ..config.general },
            ..config
        }),
        r.1 == (config.general.debug != debug || config.general.log_file@ != log_file@),
{
    let mut config = config;
    let changed = config.general.debug != debug || !str_eq(
        config.general.log_file.as_str(),
        log_file.as_str(),
    );
    config.general.debug = debug;
    config.general.log_file = log_file;
    (config, changed)
}

/// What a reload of the file-based configuration yields: the configuration
/// when it validates, else the text of the first error.
pub fn validated_reload(
    config: crate::schema::Config,
    validation: Result<Vec<String>, crate::parser::ConfigError>,
) -> (r: Result<crate::schema::Config, String>)
    ensures
        match validation {
            Ok(_) => r == Ok::<crate::schema::Config, String>(config),
            Err(e) => r matches Err(m) && m@ == "Config validation failed after reload: "@
                + crate::parser::message_of(e@),
        },
{
    match validation {
        Ok(_warnings) => Ok(config),
        Err(e) => Err(concat2("Config validation failed after reload: ", e.message().as_str())),
    }
}

/// The configuration file the file-based configuration watches: the one
/// given explicitly, else the user's file when it exists, else the system
/// file.
pub fn watched_file(explicit: Option<String>, user_file: Option<String>, user_exists: bool) -> (r:
    String)
    ensures
        r@ == match explicit {
            Some(p) => p@,
            None => match user_file {
                Some(u) => if user_exists {
                    u@
                } else {
                    "/etc/tuigreet/config.toml"@
                },
                None => "/etc/tuigreet/config.toml"@,
            },
        },
{
    match explicit {
        Some(p) => p,
        None => match user_file {
            Some(u) => if user_exists {
                u
            } else {
                "/etc/tuigreet/config.toml".to_owned()
            },
            None => "/etc/tuigreet/config.toml".to_owned(),
        },
    }
}

/// What a reload does to the running configuration `current`, given what
/// the reload yielded: the reloaded configuration with the current logging
/// settings kept, and one refresh of the screen; or, when the reload
/// failed, `current` unchanged and no refresh.
pub open spec fn after_reload(current: Config, reload: Result<Config, Seq<char>>) -> (Config, bool) {
    match reload {
        Ok(c) => (
            Config {
                general: GeneralConfig {
                    debug: current.general.debug,
                    log_file: current.general.log_file,
                    ..c.general
                },
                ..c
            },
            true,
        ),
        Err(_) => (current, false),
    }
}

/// One reload of the watched configuration.
#[derive(Debug, Clone)]
pub struct ReloadStep {
    /// The configuration in force afterwards.
    pub config: Config,
    /// Whether the screen is refreshed.
    pub refresh: bool,
    /// Why the reload failed, if it did.
    pub error: Option<String>,
    /// The reloaded file asked for other logging settings, which need a
    /// restart.
    pub logging_changed: bool,
}

/// Applies what a reload yielded to the running configuration `current`
/// (see [`after_reload`] and [`reload_result`]).
pub fn apply_reload(current: Config, result: LoadResult) -> (r: ReloadStep)
    ensures
        (r.config, r.refresh) == after_reload(current, reload_result(result)),
        match reload_result(result) {
            Ok(c) => r.error is None && r.logging_changed == (c.general.debug != current.general.debug
                || c.general.log_file@ != current.general.log_file@),
            Err(m) => r.error matches Some(e) && e@ == m && !r.logging_changed,
        },
{
    match reload_outcome(result) {
        Ok(c) => {
            let debug = current.general.debug;
            let log_file = current.general.log_file;
            let (config, logging_changed) = keep_logger_settings(c, debug, log_file);
            ReloadStep { config, refresh: true, error: None, logging_changed }
        },
        Err(m) => ReloadStep { config: current, refresh: false, error: Some(m), logging_changed: false },
    }
}

/// A file event seen by the watcher: its kind, the paths it names, and what
/// reloading the configuration would yield at that moment.
pub type FileEvent = (WatchEventKind, Seq<Seq<char>>, Result<Config, Seq<char>>);

/// What one file event `e` does to the running configuration `current`:
/// an event that changes a watched file leads to one reload (see
/// [`after_reload`]); any other event changes nothing and refreshes nothing.
pub open spec fn watch_step(current: Config, e: FileEvent, watched: Seq<Seq<char>>) -> (Config, bool) {
    if is_config_change(e.0, e.1, watched) {
        after_reload(current, e.2)
    } else {
        (current, false)
    }
}

/// Handles one file event of kind `kind` on `paths` for the watcher of
/// `watched`: when it changes a watched file, reloads the configuration
/// once with `reload` and applies what that yields (see [`watch_step`]);
/// otherwise does not call `reload` and changes nothing. Handling events one
/// after the other in this way is [`watch_run`].
pub fn on_file_event<F: FnOnce() -> LoadResult>(
    current: Config,
    kind: WatchEventKind,
    paths: &Vec<String>,
    watched: &Vec<String>,
    reload: F,
) -> (r: ReloadStep)
    requires
        call_requires(reload, ()),
    ensures
        !is_config_change(kind, views(paths@), views(watched@)) ==> r.config == current
            && !r.refresh && r.error is None && !r.logging_changed,
        is_config_change(kind, views(paths@), views(watched@)) ==> exists|res: LoadResult|
            #[trigger] call_ensures(reload, (), res) && (r.config, r.refresh) == watch_step(
                current,
                (kind, views(paths@), reload_result(res)),
                views(watched@),
            ),
{
    if is_config_event(kind, paths, watched) {
        let res = reload();
        apply_reload(current, res)
    } else {
        ReloadStep { config: current, refresh: false, error: None, logging_changed: false }
    }
}

/// The configuration in force and the number of refreshes after the
/// watcher of `watched` has seen `events`, starting from `current`: each
/// event that changes a watched file leads to one reload.
pub open spec fn watch_run(current: Config, events: Seq<FileEvent>, watched: Seq<Seq<char>>) -> (
    Config,
    nat,
)
    decreases events.len(),
{
    if events.len() == 0 {
        (current, 0)
    } else {
        let (c, n) = watch_run(current, events.drop_last(), watched);
        let (c2, refreshed) = watch_step(c, events.last(), watched);
        (c2, n + if refreshed {
            1nat
        } else {
            0nat
        })
    }
}

/// How many of `events` change a watched file and reload successfully.
pub open spec fn successful_reloads(events: Seq<FileEvent>, watched: Seq<Seq<char>>) -> nat
    decreases events.len(),
{
    if events.len() == 0 {
        0
    } else {
        successful_reloads(events.drop_last(), watched) + if is_config_change(
            events.last().0,
            events.last().1,
            watched,
        ) && events.last().2 is Ok {
            1nat
        } else {
            0nat
        }
    }
}

/// Hot reload: every change to a watched configuration file leads to one
/// reload. A reload that succeeds puts the reloaded configuration in force,
/// with the logging settings of the running one, and refreshes the screen
/// once; a reload that fails changes nothing and refreshes nothing; other
/// events are ignored (each step is what [`on_file_event`] does). So the
/// screen is refreshed once per successful reload, the logging settings
/// never change, and without a successful reload the configuration stays as
/// it was.
pub proof fn lemma_hot_reload(current: Config, events: Seq<FileEvent>, watched: Seq<Seq<char>>)
    ensures
        watch_run(current, events, watched).1 == successful_reloads(events, watched),
        watch_run(current, events, watched).0.general.debug == current.general.debug,
        watch_run(current, events, watched).0.general.log_file == current.general.log_file,
        successful_reloads(events, watched) == 0 ==> watch_run(current, events, watched).0
            == current,
        events.len() > 0 && is_config_change(events.last().0, events.last().1, watched)
            ==> watch_run(current, events, watched).0 == after_reload(
            watch_run(current, events.drop_last(), watched).0,
            events.last().2,
        ).0,
        events.len() > 0 ==> watch_run(current, events, watched).0 == watch_step(
            watch_run(current, events.drop_last(), watched).0,
            events.last(),
            watched,
        ).0,
    decreases events.len(),
{
    if events.len() > 0 {
        lemma_hot_reload(current, events.drop_last(), watched);
    }
}

/// An event counts as a change to the configuration exactly when it
/// creates or modifies some path that is one of the watched files, whichever
/// place that file has in the watched list.
pub proof fn lemma_config_change_iff(
    kind: WatchEventKind,
    paths: Seq<Seq<char>>,
    watched: Seq<Seq<char>>,
)
    ensures
        is_config_change(kind, paths, watched) <==> ((kind == WatchEventKind::Modify || kind
            == WatchEventKind::Create) && exists|i: int|
            0 <= i < paths.len() && #[trigger] watched.contains(paths[i])),
        forall|p: Seq<char>| #[trigger] listed(p, watched) <==> watched.contains(p),
{
    assert forall|p: Seq<char>| #[trigger] listed(p, watched) <==> watched.contains(p) by {
        if watched.contains(p) {
            let j = choose|j: int| 0 <= j < watched.len() && watched[j] == p;
            assert(watched[j] == p);
        }
    }
    if (kind == WatchEventKind::Modify || kind == WatchEventKind::Create) && exists|i: int|
        0 <= i < paths.len() && #[trigger] watched.contains(paths[i]) {
        let i = choose|i: int| 0 <= i < paths.len() && #[trigger] watched.contains(paths[i]);
        assert(listed(paths[i], watched));
    }
    if is_config_change(kind, paths, watched) {
        let i = choose|i: int| 0 <= i < paths.len() && #[trigger] listed(paths[i], watched);
        assert(watched.contains(paths[i]));
    }
}

} // verus!
