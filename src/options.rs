//! The values that the command line supplies to the library.
use vstd::prelude::*;
use vstd::string::*;

use crate::error::ConfigError;
use crate::paths::{join_of, join_path};
use crate::text::{opt_chars, opt_str_chars};

verus! {

/// The configuration file's name, looked for beside the program.
pub open spec fn default_conf_name() -> Seq<char> {
    "config.ini"@
}

/// Overrides and inputs for one run, already parsed from the command line.
pub struct Options {
    /// The file to move.
    pub path_src: Option<String>,
    /// A new destination template.
    pub path_dst: Option<String>,
    /// A new default destination template.
    pub path_default: Option<String>,
    /// A new date format.
    pub format_date: Option<String>,
    /// Whether the destination template goes back to the default one.
    pub reset: bool,
    /// An explicit configuration file.
    pub path_conf: Option<String>,
    /// How many times verbosity was asked for.
    pub verbosity: u64,
}

/// How much a run reports.
#[derive(Debug, Clone, Copy, PartialEq, Eq, Structural)]
pub enum LogLevel {
    Warn,
    Info,
    Debug,
    Trace,
}

/// The level that `verbosity` requests reach.
pub open spec fn level_of(verbosity: u64) -> LogLevel {
    if verbosity == 0 {
        LogLevel::Warn
    } else if verbosity == 1 {
        LogLevel::Info
    } else if verbosity == 2 {
        LogLevel::Debug
    } else {
        LogLevel::Trace
    }
}

impl Options {
    pub fn new(
        path_src: Option<String>,
        path_dst: Option<String>,
        path_default: Option<String>,
        format_date: Option<String>,
        reset: bool,
        path_conf: Option<String>,
        verbosity: u64,
    ) -> (r: Options)
        ensures
            r == (Options {
                path_src,
                path_dst,
                path_default,
                format_date,
                reset,
                path_conf,
                verbosity,
            }),
    {
        Options { path_src, path_dst, path_default, format_date, reset, path_conf, verbosity }
    }

    pub fn path_src(&self) -> (r: Option<&str>)
        ensures
            opt_str_chars(r) == opt_chars(self.path_src),
    {
        match &self.path_src {
            Some(s) => Some(s.as_str()),
            None => None,
        }
    }

    pub fn path_dst(&self) -> (r: Option<&str>)
        ensures
            opt_str_chars(r) == opt_chars(self.path_dst),
    {
        match &self.path_dst {
            Some(s) => Some(s.as_str()),
            None => None,
        }
    }

    pub fn path_default(&self) -> (r: Option<&str>)
        ensures
            opt_str_chars(r) == opt_chars(self.path_default),
    {
        match &self.path_default {
            Some(s) => Some(s.as_str()),
            None => None,
        }
    }

    pub fn format_date(&self) -> (r: Option<&str>)
        ensures
            opt_str_chars(r) == opt_chars(self.format_date),
    {
        match &self.format_date {
            Some(s) => Some(s.as_str()),
            None => None,
        }
    }

    pub fn reset(&self) -> (r: bool)
        ensures
            r == self.reset,
    {
        self.reset
    }

    /// The configuration file: the explicit one, else `config.ini` inside
    /// `exe_dir`, the directory of the running program; without either the
    /// location cannot be determined.
    pub fn path_conf(&self, exe_dir: Option<&str>) -> (r: Result<String, ConfigError>)
        ensures
            match (self.path_conf, exe_dir) {
                (Some(p), _) => r matches Ok(s) && s@ == p@,
                (None, Some(d)) => r matches Ok(s) && s@ == join_of(d@, default_conf_name()),
                (None, None) => r == Err::<String, ConfigError>(ConfigError::ConfigAccess),
            },
    {
        match &self.path_conf {
            Some(p) => Ok(p.clone()),
            None => match exe_dir {
                Some(d) => Ok(join_path(d, "config.ini")),
                None => Err(ConfigError::ConfigAccess),
            },
        }
    }

    pub fn verbosity(&self) -> (r: u64)
        ensures
            r == self.verbosity,
    {
        self.verbosity
    }

    /// Whether any override asks for the stored configuration to change.
    pub fn do_update_conf(&self) -> (r: bool)
        ensures
            r == (self.path_dst is Some || self.path_default is Some || self.format_date is Some
                || self.reset),
    {
        self.path_dst.is_some() || self.path_default.is_some() || self.format_date.is_some()
            || self.reset
    }
}

/// The level at which a run with these options reports.
pub fn level_filter(opts: &Options) -> (r: LogLevel)
    ensures
        r == level_of(opts.verbosity),
{
    match opts.verbosity() {
        0 => LogLevel::Warn,
        1 => LogLevel::Info,
        2 => LogLevel::Debug,
        _ => LogLevel::Trace,
    }
}

} // verus!
