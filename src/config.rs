//! The configuration of one run: the stored values merged with the overrides,
//! and the destination derived from them.
use ini::Ini;
use std::fmt::Write;
use vstd::prelude::*;

use crate::destination::{date_placeholder, destination, resolve_destination, result_chars};
use crate::error::ConfigError;
use crate::options::Options;
use crate::store::{
    defaults, general_entries, general_of, has_general_section, ini_from, ini_get,
    ini_has_general, ini_parse, ini_parses, parsed_general, parsed_has_general, ini_render, key_date, key_default_path, key_path, lookup, merged, reset_lacks_default, update_section,
};
use crate::text::{contains_seq, contains_str, opt_chars, opt_str_chars};

verus! {

/// What chrono writes for the strftime-like `fmt` at the instant `secs`
/// seconds and `nanos` nanoseconds after the Unix epoch, in the time zone
/// `offset` seconds east of UTC; none where `fmt` holds a specifier that
/// chrono rejects.
pub uninterp spec fn strftime_at(fmt: Seq<char>, secs: int, nanos: int, offset: int) -> Option<
    Seq<char>,
>;

/// Relies on chrono::Local::now and chrono's `format`: the current local time
/// written per `fmt`. Which instant and offset is read from the machine.
#[verifier::external_body]
fn now_formatted(fmt: &str) -> (r: Option<String>)
    ensures
        exists|secs: int, nanos: int, offset: int|
            opt_chars(r) == #[trigger] strftime_at(fmt@, secs, nanos, offset),
{
    let mut out = String::new();
    match write!(out, "{}", chrono::Local::now().format(fmt)) {
        Ok(()) => Some(out),
        Err(_) => None,
    }
}

/// The outcome of resolving the template `t` once the current time was
/// formatted as `formatted`: the destination for that date, or an error where
/// the format was rejected.
pub open spec fn dated_result(
    r: Result<String, ConfigError>,
    t: Seq<char>,
    src: Option<Seq<char>>,
    formatted: Option<Seq<char>>,
) -> bool {
    match formatted {
        Some(d) => result_chars(r) == destination(t, d, src),
        None => r == Err::<String, ConfigError>(ConfigError::DateFormat),
    }
}

/// The outcome of resolving the template `t` with the date format `f` at some
/// instant, in some time zone.
pub open spec fn dated_somewhen(
    r: Result<String, ConfigError>,
    t: Seq<char>,
    f: Seq<char>,
    src: Option<Seq<char>>,
) -> bool {
    exists|secs: int, nanos: int, offset: int|
        dated_result(r, t, src, #[trigger] strftime_at(f, secs, nanos, offset))
}

/// The stored values merged with the overrides, and the overrides.
pub struct Config {
    pub ini: Ini,
    pub opts: Options,
    /// Whether the store was rebuilt from the built-in defaults, the stored
    /// one being absent, unreadable or without a general section.
    pub rebuilt: bool,
}

/// The store that stored text gives: its general section where it parses
/// and has one, else the built-in defaults.
pub open spec fn stored_base(stored: Option<Seq<char>>) -> Map<Seq<char>, Seq<char>> {
    match stored {
        Some(t) => if ini_parses(t) && parsed_has_general(t) {
            parsed_general(t)
        } else {
            defaults()
        },
        None => defaults(),
    }
}

/// The store that a run starts from: the loaded document where it has a
/// general section, else the built-in defaults.
pub open spec fn base_of(loaded: Option<Ini>) -> Map<Seq<char>, Seq<char>> {
    match loaded {
        Some(i) => if has_general_section(i) {
            general_entries(i)
        } else {
            defaults()
        },
        None => defaults(),
    }
}

impl Config {
    /// The merged store.
    pub open spec fn entries(&self) -> Map<Seq<char>, Seq<char>> {
        general_of(self.ini)
    }

    /// Merges the overrides of `opts` into `loaded`, the document read from
    /// the configuration file, or into the built-in defaults where there is
    /// none or it lacks a general section.
    /// A reset without any default template, stored or given, is an error,
    /// and nothing is merged.
    pub fn from_loaded(opts: Options, loaded: Option<Ini>) -> (r: Result<Config, ConfigError>)
        ensures
            r is Err <==> reset_lacks_default(base_of(loaded), opts),
            r matches Err(e) ==> e == ConfigError::MissingDefaultPath,
            r matches Ok(c) ==> {
                &&& c.opts == opts
                &&& has_general_section(c.ini)
                &&& c.entries() == merged(base_of(loaded), opts)
                &&& c.rebuilt == !(loaded matches Some(i) && has_general_section(i))
            },
    {
        proof {
            reveal_strlit("path");
            reveal_strlit("default-path");
            reveal_strlit("date");
            assert(key_path() != key_default_path()) by {
                assert(key_path().len() != key_default_path().len());
            }
            assert(key_date() != key_default_path()) by {
                assert(key_date().len() != key_default_path().len());
            }
            assert(defaults().dom().contains(key_default_path()));
        }
        let (ini, rebuilt) = match loaded {
            Some(mut ini) => {
                if ini_has_general(&ini) {
                    if opts.reset() && opts.path_default().is_none() && ini_get(&ini, "default-path").is_none() {
                        return Err(ConfigError::MissingDefaultPath);
                    }
                    update_section(&mut ini, &opts);
                    (ini, false)
                } else {
                    (ini_from(&opts), true)
                }
            },
            None => (ini_from(&opts), true),
        };
        Ok(Config { ini, opts, rebuilt })
    }

    /// Merges the overrides of `opts` into the stored text: into the built-in
    /// defaults where there is no text, where it does not parse, or where it
    /// has no general section. A reset without any default template, stored
    /// or given, is an error, and nothing is merged.
    pub fn from(opts: Options, stored: Option<&str>) -> (r: Result<Config, ConfigError>)
        ensures
            r is Err <==> reset_lacks_default(stored_base(opt_str_chars(stored)), opts),
            r matches Err(e) ==> e == ConfigError::MissingDefaultPath,
            r matches Ok(c) ==> {
                &&& c.opts == opts
                &&& has_general_section(c.ini)
                &&& c.entries() == merged(stored_base(opt_str_chars(stored)), opts)
                &&& c.rebuilt == !(stored matches Some(t) && ini_parses(t@) && parsed_has_general(t@))
            },
    {
        let loaded = match stored {
            Some(text) => match ini_parse(text) {
                Ok(ini) => Some(ini),
                Err(_) => None,
            },
            None => None,
        };
        Config::from_loaded(opts, loaded)
    }

    /// The merged store as INI text, to be written back to the file: a
    /// `key=value` line for each entry, written as it is.
    pub fn to_text(&self) -> (r: String)
        ensures
            forall|k: Seq<char>| #[trigger]
                self.entries().dom().contains(k) ==> contains_seq(r@, k + "="@ + self.entries()[k]),
    {
        ini_render(&self.ini)
    }

    /// The value stored under `key` in the merged store.
    pub fn value(&self, key: &str) -> (r: Option<String>)
        ensures
            opt_chars(r) == lookup(self.entries(), key@),
    {
        ini_get(&self.ini, key)
    }

    /// The file to move, if one was given.
    pub fn path_src(&self) -> (r: Option<String>)
        ensures
            opt_chars(r) == opt_chars(self.opts.path_src),
    {
        match self.opts.path_src() {
            Some(s) => Some(String::from_str(s)),
            None => None,
        }
    }

    /// The destination: the stored template with the current local time put
    /// in place of each `{DATE}`, completed by the source's extension.
    pub fn path_dst(&self) -> (r: Result<String, ConfigError>)
        ensures
            ({
                let src = opt_chars(self.opts.path_src);
                match (lookup(self.entries(), key_path()), lookup(self.entries(), key_date())) {
                    (None, _) => r == Err::<String, ConfigError>(ConfigError::MissingPath),
                    (Some(_), None) => r == Err::<String, ConfigError>(
                        ConfigError::MissingDateFormat,
                    ),
                    (Some(t), Some(f)) => if contains_seq(t, date_placeholder()) {
                        dated_somewhen(r, t, f, src)
                    } else {
                        result_chars(r) == destination(t, Seq::empty(), src)
                    },
                }
            }),
    {
        let template = match ini_get(&self.ini, "path") {
            Some(t) => t,
            None => return Err(ConfigError::MissingPath),
        };
        let format = match ini_get(&self.ini, "date") {
            Some(f) => f,
            None => return Err(ConfigError::MissingDateFormat),
        };
        let tag = "{DATE}";
        let src = self.opts.path_src();
        if contains_str(template.as_str(), tag) {
            let date = now_formatted(format.as_str());
            let ghost w = choose|secs: int, nanos: int, offset: int|
                opt_chars(date) == #[trigger] strftime_at(format@, secs, nanos, offset);
            let r = match date {
                Some(d) => resolve_destination(template.as_str(), d.as_str(), src),
                None => Err(ConfigError::DateFormat),
            };
            assert(opt_chars(date) == strftime_at(format@, w.0, w.1, w.2));
            assert(dated_result(
                r,
                template@,
                opt_chars(self.opts.path_src),
                strftime_at(format@, w.0, w.1, w.2),
            ));
            assert(dated_somewhen(r, template@, format@, opt_chars(self.opts.path_src)));
            r
        } else {
            resolve_destination(template.as_str(), "", src)
        }
    }
}

} // verus!
