//! The configuration as the process environment overrides it.
//!
//! A key may have a variable of the environment: the organization has
//! `OXIDE_ORG`. Where that variable is set to a text that is not empty, a read
//! of the key gives that text and never looks at the document. Every other
//! request goes on to the configuration that this layer wraps.

use crate::config::Config;
use crate::config_alias::AliasConfig;
use crate::config_from_file::{source_of, value_of, FileConfig, Source};
use crate::config_map::ConfigMap;
use crate::error::ConfigError;
use crate::model::{first_of, lemma_index_of, Entries};
use vstd::prelude::*;

verus! {

/// A configuration under the variables of the environment: `vars` holds the
/// environment as pairs of a name and a value, and `config` the configuration
/// that answers what the environment does not.
pub struct EnvConfig {
    pub config: FileConfig,
    pub vars: Vec<(String, String)>,
}

/// The variable that overrides a key, for the keys that have one: the
/// organization is overridden by `OXIDE_ORG`.
pub open spec fn variable_of(key: Seq<char>) -> Option<Seq<char>> {
    if key == "organization"@ {
        Some("OXIDE_ORG"@)
    } else {
        None
    }
}

/// The pairs of an environment as texts.
pub open spec fn pairs(vars: Seq<(String, String)>) -> Seq<(Seq<char>, Seq<char>)> {
    Seq::new(vars.len(), |i: int| (vars[i].0@, vars[i].1@))
}

/// The value that the environment gives a variable: that of the first pair
/// with the name.
pub open spec fn value_in(env: Seq<(Seq<char>, Seq<char>)>, name: Seq<char>) -> Option<
    Seq<char>,
> {
    first_of(env, name)
}

/// The text that overrides a key: the value of its variable, where the key
/// has a variable and the environment sets it to a text that is not empty.
pub open spec fn override_of(env: Seq<(Seq<char>, Seq<char>)>, key: Seq<char>) -> Option<
    Seq<char>,
> {
    match variable_of(key) {
        None => None,
        Some(name) => match value_in(env, name) {
            Some(value) => if value.len() > 0 {
                Some(value)
            } else {
                None
            },
            None => None,
        },
    }
}

/// What a read through the environment gives, and where it is from: the
/// override and the environment where there is one, else the stored value
/// and its file.
pub open spec fn value_under(
    env: Seq<(Seq<char>, Seq<char>)>,
    root: Entries,
    hostname: Seq<char>,
    key: Seq<char>,
) -> Result<(Seq<char>, Source), ConfigError> {
    match override_of(env, key) {
        Some(value) => Ok((value, Source::Environment)),
        None => match value_of(root, hostname, key) {
            Ok(value) => Ok((value, source_of(hostname))),
            Err(e) => Err(e),
        },
    }
}

/// The name of the variable that overrides `key`, if the key has one.
pub fn variable_for(key: &str) -> (res: Option<&'static str>)
    ensures
        match res {
            Some(name) => variable_of(key@) == Some(name@),
            None => variable_of(key@) is None,
        },
{
    if key.to_owned() == "organization".to_owned() {
        Some("OXIDE_ORG")
    } else {
        None
    }
}

impl EnvConfig {
    /// Puts `config` under the environment `vars`.
    pub fn inherit_env(config: FileConfig, vars: Vec<(String, String)>) -> (env: EnvConfig)
        ensures
            env.config == config,
            env.vars == vars,
    {
        EnvConfig { config, vars }
    }

    /// The value that the environment gives the variable called `name`.
    pub fn variable(&self, name: &str) -> (res: Option<String>)
        ensures
            match value_in(pairs(self.vars@), name@) {
                Some(value) => res is Some && res->Some_0@ == value,
                None => res is None,
            },
    {
        let wanted = name.to_owned();
        let ghost env = pairs(self.vars@);
        let mut i: usize = 0;
        while i < self.vars.len()
            invariant
                i <= self.vars@.len(),
                env == pairs(self.vars@),
                wanted@ == name@,
                forall|j: int| 0 <= j < i ==> (#[trigger] env[j]).0 != name@,
            decreases self.vars@.len() - i,
        {
            proof {
                lemma_index_of(env, name@);
            }
            if self.vars[i].0 == wanted {
                assert(env[i as int].0 == name@);
                return Some(self.vars[i].1.clone());
            }
            i += 1;
        }
        proof {
            lemma_index_of(env, name@);
        }
        None
    }

    /// The text that overrides `key`, if one does.
    pub fn overriding(&self, key: &str) -> (res: Option<String>)
        ensures
            match override_of(pairs(self.vars@), key@) {
                Some(value) => res is Some && res->Some_0@ == value,
                None => res is None,
            },
    {
        match variable_for(key) {
            None => None,
            Some(name) => match self.variable(name) {
                Some(value) => if value.as_str().is_empty() {
                    None
                } else {
                    Some(value)
                },
                None => None,
            },
        }
    }
}

impl Config for EnvConfig {
    open spec fn stored(&self) -> ConfigMap {
        self.config.map
    }

    open spec fn reads(&self, hostname: Seq<char>, key: Seq<char>) -> Result<
        (Seq<char>, Source),
        ConfigError,
    > {
        value_under(pairs(self.vars@), self.config.map@, hostname, key)
    }

    /// The value of `key`, unless the environment overrides it.
    fn get(&self, hostname: &str, key: &str) -> (res: Result<String, ConfigError>) {
        let (value, _) = self.get_with_source(hostname, key)?;
        Ok(value)
    }

    /// What `get` reads, and where it is from: the environment for an
    /// override, else the file that the wrapped configuration names.
    fn get_with_source(&self, hostname: &str, key: &str) -> (res: Result<
        (String, Source),
        ConfigError,
    >) {
        match self.overriding(key) {
            Some(value) => Ok((value, Source::Environment)),
            None => self.config.get_with_source(hostname, key),
        }
    }

    /// `set` of the wrapped configuration. The environment stays as it is.
    fn set(&mut self, hostname: &str, key: &str, value: &str) -> (res: Result<(), ConfigError>)
        ensures
            final(self).vars == old(self).vars,
    {
        self.config.set(hostname, key, value)
    }

    /// `unset_host` of the wrapped configuration. The environment stays as it
    /// is.
    fn unset_host(&mut self, hostname: &str) -> (res: Result<(), ConfigError>)
        ensures
            final(self).vars == old(self).vars,
    {
        self.config.unset_host(hostname)
    }

    /// `hosts` of the wrapped configuration.
    fn hosts(&self) -> (res: Result<Vec<String>, ConfigError>) {
        self.config.hosts()
    }

    /// `default_host` of the wrapped configuration.
    fn default_host(&self) -> (res: Result<String, ConfigError>) {
        self.config.default_host()
    }

    /// `default_host_with_source` of the wrapped configuration.
    fn default_host_with_source(&self) -> (res: Result<(String, Source), ConfigError>) {
        self.config.default_host_with_source()
    }

    /// `aliases` of the wrapped configuration, bound to it.
    fn aliases(&self) -> (res: Result<AliasConfig<'_>, ConfigError>) {
        self.config.aliases()
    }

    /// `check_writable` of the wrapped configuration.
    fn check_writable(&self, hostname: &str, key: &str) -> (res: Result<(), ConfigError>) {
        self.config.check_writable(hostname, key)
    }

    /// `config_to_string` of the wrapped configuration.
    fn config_to_string(&self) -> (res: Result<String, ConfigError>) {
        self.config.config_to_string()
    }

    /// `hosts_to_string` of the wrapped configuration.
    fn hosts_to_string(&self) -> (res: Result<String, ConfigError>) {
        self.config.hosts_to_string()
    }
}

} // verus!
