//! The interface that every configuration offers, whatever answers behind
//! it.

use crate::config_alias::AliasConfig;
use crate::config_from_file::{
    after_set, after_unset_host, aliases_table, default_host_of, host_names, hosts_table,
    is_config_text, is_hosts_text, texts, Source,
};
use crate::config_map::ConfigMap;
use crate::error::ConfigError;
use vstd::prelude::*;

verus! {

/// A configuration: settings at the root, settings per host, and aliases,
/// all stored in one document.
pub trait Config {
    /// The document that the configuration stores its settings in.
    spec fn stored(&self) -> ConfigMap;

    /// What a read of `key` for `hostname` gives, and where it is from.
    spec fn reads(&self, hostname: Seq<char>, key: Seq<char>) -> Result<
        (Seq<char>, Source),
        ConfigError,
    >;

    /// The value of `key`: a root key for the empty host name, else a key of
    /// the host called `hostname`.
    fn get(&self, hostname: &str, key: &str) -> (res: Result<String, ConfigError>)
        ensures
            match self.reads(hostname@, key@) {
                Ok(found) => res is Ok && res->Ok_0@ == found.0,
                Err(e) => res is Err && res->Err_0 == e,
            },
    ;

    /// What `get` reads, and where it is from.
    fn get_with_source(&self, hostname: &str, key: &str) -> (res: Result<
        (String, Source),
        ConfigError,
    >)
        ensures
            match self.reads(hostname@, key@) {
                Ok(found) => res is Ok && res->Ok_0.0@ == found.0 && res->Ok_0.1 == found.1,
                Err(e) => res is Err && res->Err_0 == e,
            },
    ;

    /// Stores `value` under `key`: at the root for the empty host name, else
    /// in the settings of the host called `hostname`, which is created when
    /// it is not configured yet. The settings are written back into the hosts
    /// section and the section into the document. A refused request leaves
    /// the document as it is.
    fn set(&mut self, hostname: &str, key: &str, value: &str) -> (res: Result<(), ConfigError>)
        ensures
            match after_set(old(self).stored()@, hostname@, key@, value@) {
                Ok(root) => res is Ok && final(self).stored()@ == root,
                Err(e) => {
                    &&& res is Err
                    &&& res->Err_0 == e
                    &&& final(self).stored() == old(self).stored()
                },
            },
    ;

    /// Takes the host called `hostname` out of the hosts section and writes
    /// the section back into the document. The empty host name changes
    /// nothing, and neither the hosts nor their order change when no host has
    /// the name.
    fn unset_host(&mut self, hostname: &str) -> (res: Result<(), ConfigError>)
        ensures
            match after_unset_host(old(self).stored()@, hostname@) {
                Ok(root) => res is Ok && final(self).stored()@ == root,
                Err(e) => {
                    &&& res is Err
                    &&& res->Err_0 == e
                    &&& final(self).stored() == old(self).stored()
                },
            },
            hostname@.len() == 0 ==> final(self).stored() == old(self).stored(),
    ;

    /// The names of the hosts, in document order, each of them once.
    fn hosts(&self) -> (res: Result<Vec<String>, ConfigError>)
        ensures
            match host_names(self.stored()@) {
                Ok(names) => res is Ok && texts(res->Ok_0@) == names,
                Err(e) => res is Err && res->Err_0 == e,
            },
            res is Ok ==> texts(res->Ok_0@).no_duplicates(),
    ;

    /// The host that is used when none is named: the only host there is,
    /// marked or not; among several, the first that is marked as the default
    /// by `default = "true"`.
    fn default_host(&self) -> (res: Result<String, ConfigError>)
        ensures
            match default_host_of(self.stored()@) {
                Ok(name) => res is Ok && res->Ok_0@ == name,
                Err(e) => res is Err && res->Err_0 == e,
            },
    ;

    /// What `default_host` gives, and the file that holds it: that of the
    /// hosts.
    fn default_host_with_source(&self) -> (res: Result<(String, Source), ConfigError>)
        ensures
            match default_host_of(self.stored()@) {
                Ok(name) => res is Ok && res->Ok_0.0@ == name && res->Ok_0.1 == Source::HostsFile,
                Err(e) => res is Err && res->Err_0 == e,
            },
    ;

    /// The aliases of the configuration: a copy of the aliases section,
    /// bound by reference to the configuration that stores it.
    fn aliases(&self) -> (res: Result<AliasConfig<'_>, ConfigError>)
        ensures
            match aliases_table(self.stored()@) {
                Ok(t) => res is Ok && res->Ok_0.map@ == t && res->Ok_0.parent.map
                    == self.stored(),
                Err(e) => res is Err && res->Err_0 == e,
            },
    ;

    /// Whether `key` of the host may be written. Every key may.
    fn check_writable(&self, hostname: &str, key: &str) -> (res: Result<(), ConfigError>)
        ensures
            res is Ok,
    ;

    /// The content of the file of general settings: the text of the document
    /// without its hosts section, without the whitespace at either end. A
    /// document that has no `hosts` key is printed as it is.
    fn config_to_string(&self) -> (res: Result<String, ConfigError>)
        ensures
            res is Ok,
            is_config_text(self.stored(), res->Ok_0@),
    ;

    /// The content of the file of hosts: the text of a document that holds
    /// the hosts section as its root, without the whitespace at either end.
    fn hosts_to_string(&self) -> (res: Result<String, ConfigError>)
        ensures
            match hosts_table(self.stored()@) {
                Ok(hosts) => res is Ok && is_hosts_text(hosts, res->Ok_0@),
                Err(e) => res is Err && res->Err_0 == e,
            },
    ;
}

} // verus!
