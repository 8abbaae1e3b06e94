//! The failures that the configuration reports.

use vstd::prelude::*;

verus! {

/// Why a configuration request failed.
#[derive(Clone, Copy, Debug, PartialEq, Eq, Structural)]
pub enum ConfigError {
    /// Nothing is stored under the requested key.
    KeyNotFound,
    /// The key holds something other than a string.
    TypeMismatch,
    /// A table was expected where the document holds something else, or the
    /// text is no document at all.
    MalformedConfig,
    /// No host of the requested name is configured.
    HostNotFound,
    /// No host is configured at all.
    NoHostsConfigured,
    /// Several hosts are configured and none is marked as the default.
    NoDefaultHost,
}

} // verus!
