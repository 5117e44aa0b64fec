//! Moves a file to a destination derived from a persisted, user-overridable
//! template, with date substitution and extension inheritance.
use vstd::prelude::*;

pub mod config;
pub mod destination;
pub mod error;
pub mod options;
pub mod paths;
pub mod relocate;
pub mod store;
pub mod text;

pub use config::Config;
pub use destination::resolve_destination;
pub use error::ConfigError;
pub use options::{level_filter, LogLevel, Options};
pub use relocate::{relocate_next, RelocError, RelocEvent, RelocStep};

verus! {

} // verus!
