//! The command aliases of a configuration.

use crate::config_from_file::FileConfig;
use crate::config_map::ConfigMap;
use vstd::prelude::*;

verus! {

/// The aliases of a configuration: each key of `map` is a short name, and the
/// string under it the command that the name stands for. `parent` is the
/// configuration that the aliases were read from, borrowed and not owned, so
/// that resolving an alias can consult its hosts and settings as they are.
pub struct AliasConfig<'a> {
    pub map: ConfigMap,
    pub parent: &'a FileConfig,
}

} // verus!
