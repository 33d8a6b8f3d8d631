//! Settings read from the configuration file, and how they fill the options
//! the command line left unset.

use vstd::prelude::*;
use crate::cache::CacheEvalMode;
use crate::fingerprint::opt_view;

verus! {

/// How much is logged.
#[derive(Clone, Copy, Debug, PartialEq, Eq, Structural)]
pub enum LogLevel {
    Off,
    Error,
    Warn,
    Info,
    Debug,
    Trace,
}

/// The name a log level is shown by.
pub open spec fn level_name(l: LogLevel) -> Seq<char> {
    match l {
        LogLevel::Off => seq!['n', 'o', 'n', 'e'],
        LogLevel::Error => seq!['e', 'r', 'r', 'o', 'r'],
        LogLevel::Warn => seq!['w', 'a', 'r', 'n'],
        LogLevel::Info => seq!['i', 'n', 'f', 'o'],
        LogLevel::Debug => seq!['d', 'e', 'b', 'u', 'g'],
        LogLevel::Trace => seq!['t', 'r', 'a', 'c', 'e'],
    }
}

impl LogLevel {
    /// The name the level is shown by.
    pub fn as_ref(&self) -> (r: &'static str)
        ensures
            r@ == level_name(*self),
    {
        proof {
            reveal_strlit("none");
            reveal_strlit("error");
            reveal_strlit("warn");
            reveal_strlit("info");
            reveal_strlit("debug");
            reveal_strlit("trace");
        }
        let r = match self {
            LogLevel::Off => "none",
            LogLevel::Error => "error",
            LogLevel::Warn => "warn",
            LogLevel::Info => "info",
            LogLevel::Debug => "debug",
            LogLevel::Trace => "trace",
        };
        assert(r@ =~= level_name(*self));
        r
    }
}

fn clone_opt(o: &Option<String>) -> (r: Option<String>)
    ensures
        opt_view(r) == opt_view(*o),
{
    match o {
        Some(s) => Some(s.clone()),
        None => None,
    }
}

/// Logging settings.
pub struct LogInfo {
    pub level: Option<LogLevel>,
    pub output: Option<String>,
}

/// Path settings.
pub struct PathInfo {
    pub raw_output_path: Option<String>,
    pub output_path: Option<String>,
    pub cache_db_path: Option<String>,
}

/// Cache settings.
pub struct CacheInfo {
    pub cache_eval_mode: Option<CacheEvalMode>,
}

/// The contents of the configuration file; every setting may be absent.
pub struct Config {
    pub log_info: LogInfo,
    pub path_info: PathInfo,
    pub cache_info: Option<CacheInfo>,
}

impl Config {
    pub fn log_level(&self) -> (r: Option<LogLevel>)
        ensures
            r == self.log_info.level,
    {
        self.log_info.level
    }

    pub fn log_output(&self) -> (r: Option<String>)
        ensures
            opt_view(r) == opt_view(self.log_info.output),
    {
        clone_opt(&self.log_info.output)
    }

    pub fn raw_output_path(&self) -> (r: Option<String>)
        ensures
            opt_view(r) == opt_view(self.path_info.raw_output_path),
    {
        clone_opt(&self.path_info.raw_output_path)
    }

    pub fn output_path(&self) -> (r: Option<String>)
        ensures
            opt_view(r) == opt_view(self.path_info.output_path),
    {
        clone_opt(&self.path_info.output_path)
    }

    pub fn cache_db_path(&self) -> (r: Option<String>)
        ensures
            opt_view(r) == opt_view(self.path_info.cache_db_path),
    {
        clone_opt(&self.path_info.cache_db_path)
    }

    /// The evaluation mode, absent when the file has no cache section or the
    /// section does not set it.
    pub fn cache_eval_mode(&self) -> (r: Option<CacheEvalMode>)
        ensures
            r == match self.cache_info {
                Some(c) => c.cache_eval_mode,
                None => None,
            },
    {
        match &self.cache_info {
            Some(info) => info.cache_eval_mode,
            None => None,
        }
    }
}

/// `a` when it is set, `b` otherwise.
pub open spec fn first_set<T>(a: Option<T>, b: Option<T>) -> Option<T> {
    if a is Some {
        a
    } else {
        b
    }
}

fn fill_text(slot: &mut Option<String>, from: Option<String>)
    ensures
        opt_view(*final(slot)) == first_set(opt_view(*old(slot)), opt_view(from)),
{
    if slot.is_none() {
        *slot = from;
    }
}

/// The options that both the command line and the configuration file can
/// set.
pub struct Settings {
    pub log_level: Option<LogLevel>,
    pub log_output: Option<String>,
    pub output_path: Option<String>,
    pub raw_output_path: Option<String>,
    pub cache_db_path: Option<String>,
    pub cache_eval_mode: Option<CacheEvalMode>,
}

impl Settings {
    /// Fills each option left unset from the configuration; an option that
    /// is set keeps its value.
    pub fn apply_config(&mut self, config: &Config)
        ensures
            final(self).log_level == first_set(old(self).log_level, config.log_info.level),
            opt_view(final(self).log_output) == first_set(
                opt_view(old(self).log_output),
                opt_view(config.log_info.output),
            ),
            opt_view(final(self).output_path) == first_set(
                opt_view(old(self).output_path),
                opt_view(config.path_info.output_path),
            ),
            opt_view(final(self).raw_output_path) == first_set(
                opt_view(old(self).raw_output_path),
                opt_view(config.path_info.raw_output_path),
            ),
            opt_view(final(self).cache_db_path) == first_set(
                opt_view(old(self).cache_db_path),
                opt_view(config.path_info.cache_db_path),
            ),
            final(self).cache_eval_mode == first_set(
                old(self).cache_eval_mode,
                match config.cache_info {
                    Some(c) => c.cache_eval_mode,
                    None => None,
                },
            ),
    {
        if self.log_level.is_none() {
            self.log_level = config.log_level();
        }
        fill_text(&mut self.log_output, config.log_output());
        fill_text(&mut self.output_path, config.output_path());
        fill_text(&mut self.raw_output_path, config.raw_output_path());
        fill_text(&mut self.cache_db_path, config.cache_db_path());
        if self.cache_eval_mode.is_none() {
            self.cache_eval_mode = config.cache_eval_mode();
        }
    }

    /// The log level, `Info` when unset.
    pub fn log_level(&self) -> (r: LogLevel)
        ensures
            r == match self.log_level {
                Some(l) => l,
                None => LogLevel::Info,
            },
    {
        match self.log_level {
            Some(l) => l,
            None => LogLevel::Info,
        }
    }

    /// The cache evaluation mode, `Shallow` when unset.
    pub fn cache_eval_mode(&self) -> (r: CacheEvalMode)
        ensures
            r == match self.cache_eval_mode {
                Some(m) => m,
                None => CacheEvalMode::Shallow,
            },
    {
        match self.cache_eval_mode {
            Some(m) => m,
            None => CacheEvalMode::Shallow,
        }
    }
}

} // verus!
