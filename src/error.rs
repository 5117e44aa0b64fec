//! What can go wrong while resolving the configuration and the destination.
use vstd::prelude::*;

verus! {

/// A fatal condition met before any file is moved.
#[derive(Debug, Clone, Copy, PartialEq, Eq, Structural)]
pub enum ConfigError {
    /// The configuration file's location could not be determined.
    ConfigAccess,
    /// The store holds no destination template.
    MissingPath,
    /// A reset was asked for, but no default template is stored or given.
    MissingDefaultPath,
    /// The store holds no date format.
    MissingDateFormat,
    /// The destination has no extension and no source path was given to
    /// take one from.
    SourceRequired,
    /// The date format could not be applied to the current time.
    DateFormat,
}

} // verus!
