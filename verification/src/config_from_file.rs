//! The configuration that is backed by the files on disk.
//!
//! One document holds everything. Its root keys are the general settings; the
//! table under `hosts` holds one table of settings per host, and the table
//! under `aliases` the command aliases. The hosts and the aliases are read out
//! of the document afresh on every access, so an edit of either reaches the
//! document only when it is written back into it: `set` and `unset_host` do
//! so.

use crate::config::Config;
use crate::config_alias::AliasConfig;
use crate::config_map::{ConfigMap, Entry};
use crate::error::ConfigError;
use crate::model::{
    first_of, has_key, lemma_index_of, lookup, put, remove_key, string_value, visible,
    visible_keys, Entries, Node,
};
use crate::text::{trim, trimmed};
use crate::toml::parsed_toml;
use vstd::prelude::*;

verus! {

/// A configuration held as one document.
pub struct FileConfig {
    pub map: ConfigMap,
}

/// The settings of one host: a table of the hosts section, with its key.
pub struct HostConfig {
    pub map: ConfigMap,
    pub host: String,
}

/// The file that a value was read from.
#[derive(Clone, Copy, Debug, PartialEq, Eq, Structural)]
pub enum Source {
    /// The file of general settings.
    ConfigFile,
    /// The file of hosts.
    HostsFile,
    /// A variable of the process environment.
    Environment,
}

impl View for HostConfig {
    type V = (Seq<char>, Entries);

    /// The name of the host and its settings.
    open spec fn view(&self) -> (Seq<char>, Entries) {
        (self.host@, self.map@)
    }
}

/// The texts of a list of strings.
pub open spec fn texts(list: Seq<String>) -> Seq<Seq<char>> {
    Seq::new(list.len(), |i: int| list[i]@)
}

/// The views of a list of host entries.
pub open spec fn host_views(list: Seq<HostConfig>) -> Seq<(Seq<char>, Entries)> {
    Seq::new(list.len(), |i: int| list[i]@)
}

/// The table stored under `name` at the root. A document without the key has
/// an empty one; a key that holds anything but a table is malformed.
pub open spec fn section(root: Entries, name: Seq<char>) -> Result<Entries, ConfigError> {
    match lookup(root, name) {
        None => Ok(Seq::empty()),
        Some(Node::Table(t)) => Ok(t),
        Some(_) => Err(ConfigError::MalformedConfig),
    }
}

/// The hosts section of a document.
pub open spec fn hosts_table(root: Entries) -> Result<Entries, ConfigError> {
    section(root, "hosts"@)
}

/// The aliases section of a document.
pub open spec fn aliases_table(root: Entries) -> Result<Entries, ConfigError> {
    section(root, "aliases"@)
}

/// Whether each of the entries is a table.
pub open spec fn all_tables(e: Entries) -> bool {
    forall|i: int| 0 <= i < e.len() ==> (#[trigger] e[i]).1 is Table
}

/// The hosts of a document, in document order, each with its settings. A
/// host that is not a table makes the document malformed.
pub open spec fn host_entries(root: Entries) -> Result<Seq<(Seq<char>, Entries)>, ConfigError> {
    match hosts_table(root) {
        Err(e) => Err(e),
        Ok(hosts) => if all_tables(visible(hosts)) {
            Ok(
                Seq::new(
                    visible(hosts).len(),
                    |i: int| (visible(hosts)[i].0, visible(hosts)[i].1->Table_0),
                ),
            )
        } else {
            Err(ConfigError::MalformedConfig)
        },
    }
}

/// The settings of the host called `hostname`: those of the first host entry
/// whose key is the name.
pub open spec fn host_settings(root: Entries, hostname: Seq<char>) -> Result<
    Entries,
    ConfigError,
> {
    match host_entries(root) {
        Err(e) => Err(e),
        Ok(list) => match first_of(list, hostname) {
            Some(settings) => Ok(settings),
            None => Err(ConfigError::HostNotFound),
        },
    }
}

/// What `get` reads: a root key for the empty host name, else a key of the
/// named host.
pub open spec fn value_of(root: Entries, hostname: Seq<char>, key: Seq<char>) -> Result<
    Seq<char>,
    ConfigError,
> {
    if hostname.len() == 0 {
        string_value(root, key)
    } else {
        match host_settings(root, hostname) {
            Err(e) => Err(e),
            Ok(settings) => string_value(settings, key),
        }
    }
}

/// The file that holds the keys of the given host name.
pub open spec fn source_of(hostname: Seq<char>) -> Source {
    if hostname.len() == 0 {
        Source::ConfigFile
    } else {
        Source::HostsFile
    }
}

/// The settings that `set` starts from: those of the host, or none for a
/// host that is not configured yet.
pub open spec fn settings_to_edit(root: Entries, hostname: Seq<char>) -> Result<
    Entries,
    ConfigError,
> {
    match host_settings(root, hostname) {
        Err(ConfigError::HostNotFound) => Ok(Seq::empty()),
        other => other,
    }
}

/// The document after `set`: for the empty host name the value is stored at
/// the root; else it is stored in the settings of the host, these in the
/// hosts section, and the section at the root.
pub open spec fn after_set(
    root: Entries,
    hostname: Seq<char>,
    key: Seq<char>,
    value: Seq<char>,
) -> Result<Entries, ConfigError> {
    if hostname.len() == 0 {
        Ok(put(root, key, Node::Text(value)))
    } else {
        match settings_to_edit(root, hostname) {
            Err(e) => Err(e),
            Ok(settings) => Ok(
                put(
                    root,
                    "hosts"@,
                    Node::Table(
                        put(
                            hosts_table(root)->Ok_0,
                            hostname,
                            Node::Table(put(settings, key, Node::Text(value))),
                        ),
                    ),
                ),
            ),
        }
    }
}

/// The document after `unset_host`: the hosts section without the host,
/// stored at the root. The empty host name changes nothing.
pub open spec fn after_unset_host(root: Entries, hostname: Seq<char>) -> Result<
    Entries,
    ConfigError,
> {
    if hostname.len() == 0 {
        Ok(root)
    } else {
        match hosts_table(root) {
            Err(e) => Err(e),
            Ok(hosts) => Ok(put(root, "hosts"@, Node::Table(remove_key(hosts, hostname)))),
        }
    }
}

/// The names of the hosts, in document order.
pub open spec fn host_names(root: Entries) -> Result<Seq<Seq<char>>, ConfigError> {
    match hosts_table(root) {
        Err(e) => Err(e),
        Ok(hosts) => Ok(visible_keys(hosts)),
    }
}

/// Whether `text` is the content of the file of general settings for the
/// document `stored`: the text of a document that holds what `stored` holds
/// but for its hosts section, without the whitespace at either end. Where
/// `stored` has no `hosts` key, that document is `stored` itself.
pub open spec fn is_config_text(stored: ConfigMap, text: Seq<char>) -> bool {
    exists|m: ConfigMap|
        m@ == remove_key(stored@, "hosts"@) && (!has_key(stored@, "hosts"@) ==> m == stored)
            && text == trimmed(#[trigger] m.text())
}

/// Whether `text` is the content of the file of hosts for the hosts section
/// `hosts`: the text of a document that holds the section as its root,
/// without the whitespace at either end.
pub open spec fn is_hosts_text(hosts: Entries, text: Seq<char>) -> bool {
    exists|m: ConfigMap| m@ == hosts && text == trimmed(#[trigger] m.text())
}

/// Whether the settings mark their host as the default.
pub open spec fn is_default(settings: Entries) -> bool {
    lookup(settings, "default"@) == Some(Node::Text("true"@))
}

/// The least index of a host that is marked as the default, or the length of
/// the list when none is.
pub open spec fn first_default(list: Seq<(Seq<char>, Entries)>) -> int
    decreases list.len(),
{
    if list.len() == 0 {
        0
    } else if is_default(list[0].1) {
        0
    } else {
        1 + first_default(list.drop_first())
    }
}

/// The host that is used when none is named: the only one there is, or else
/// the first that is marked as the default.
pub open spec fn default_host_of(root: Entries) -> Result<Seq<char>, ConfigError> {
    match host_names(root) {
        Err(e) => Err(e),
        Ok(names) => if names.len() == 0 {
            Err(ConfigError::NoHostsConfigured)
        } else if names.len() == 1 {
            Ok(names[0])
        } else {
            match host_entries(root) {
                Err(e) => Err(e),
                Ok(list) => if first_default(list) < list.len() {
                    Ok(list[first_default(list)].0)
                } else {
                    Err(ConfigError::NoDefaultHost)
                },
            }
        },
    }
}

/// `first_default` is in range, names a host that is marked when it is below
/// the length, and no earlier host is marked.
pub proof fn lemma_first_default(list: Seq<(Seq<char>, Entries)>)
    ensures
        0 <= first_default(list) <= list.len(),
        first_default(list) < list.len() ==> is_default(list[first_default(list)].1),
        forall|j: int| 0 <= j < first_default(list) ==> !is_default((#[trigger] list[j]).1),
    decreases list.len(),
{
    if list.len() != 0 && !is_default(list[0].1) {
        let rest = list.drop_first();
        lemma_first_default(rest);
        assert forall|j: int| 0 <= j < first_default(list) implies !is_default(
            (#[trigger] list[j]).1,
        ) by {
            if j > 0 {
                assert(list[j] == rest[j - 1]);
            }
        }
        if first_default(list) < list.len() {
            assert(list[first_default(list)] == rest[first_default(rest)]);
        }
    }
}

impl FileConfig {
    /// A configuration without settings and without hosts.
    pub fn new() -> (config: FileConfig)
        ensures
            config.map@ == Seq::<(Seq<char>, Node)>::empty(),
    {
        FileConfig { map: ConfigMap::new() }
    }

    /// The table stored under `name` at the root, as a map of its own.
    fn get_section(&self, name: &str) -> (res: Result<ConfigMap, ConfigError>)
        ensures
            match section(self.map@, name@) {
                Ok(t) => res is Ok && res->Ok_0@ == t,
                Err(e) => res is Err && res->Err_0 == e,
            },
    {
        match self.map.find_entry(name) {
            Ok(Entry::Table(table)) => Ok(table),
            Ok(_) => Err(ConfigError::MalformedConfig),
            Err(_) => Ok(ConfigMap::new()),
        }
    }

    /// The hosts section, as a map of its own: empty when the document has
    /// no `hosts` key, refused as malformed when the key holds anything but
    /// a table.
    pub fn get_hosts_table(&self) -> (res: Result<ConfigMap, ConfigError>)
        ensures
            match hosts_table(self.map@) {
                Ok(t) => res is Ok && res->Ok_0@ == t,
                Err(e) => res is Err && res->Err_0 == e,
            },
    {
        self.get_section("hosts")
    }

    /// The aliases section, as a map of its own, under the rules of
    /// `get_hosts_table`.
    pub fn get_aliases_table(&self) -> (res: Result<ConfigMap, ConfigError>)
        ensures
            match aliases_table(self.map@) {
                Ok(t) => res is Ok && res->Ok_0@ == t,
                Err(e) => res is Err && res->Err_0 == e,
            },
    {
        self.get_section("aliases")
    }

    /// The hosts of the configuration, in document order, each with a copy
    /// of its settings. No two of them share a name.
    pub fn get_host_entries(&self) -> (res: Result<Vec<HostConfig>, ConfigError>)
        ensures
            match host_entries(self.map@) {
                Ok(list) => res is Ok && host_views(res->Ok_0@) == list,
                Err(e) => res is Err && res->Err_0 == e,
            },
            res is Ok ==> forall|i: int, j: int|
                0 <= i < j < res->Ok_0@.len() ==> (#[trigger] res->Ok_0@[i]).host@ != (
                #[trigger] res->Ok_0@[j]).host@,
    {
        let hosts = self.get_hosts_table()?;
        let entries = hosts.entries();
        let mut host_configs: Vec<HostConfig> = Vec::new();
        let mut i: usize = 0;
        while i < entries.len()
            invariant
                i <= entries@.len(),
                hosts_table(self.map@) == Ok::<Entries, ConfigError>(hosts@),
                entries@.len() == visible(hosts@).len(),
                forall|j: int|
                    0 <= j < entries@.len() ==> (#[trigger] entries@[j]).0@ == visible(hosts@)[j].0
                        && entries@[j].1@ == visible(hosts@)[j].1,
                forall|j: int, k: int|
                    0 <= j < k < entries@.len() ==> (#[trigger] entries@[j]).0@ != (
                    #[trigger] entries@[k]).0@,
                host_configs@.len() == i,
                forall|j: int| 0 <= j < i ==> (#[trigger] visible(hosts@)[j]).1 is Table,
                forall|j: int|
                    0 <= j < i ==> (#[trigger] host_configs@[j])@ == (
                        visible(hosts@)[j].0,
                        visible(hosts@)[j].1->Table_0,
                    ),
            decreases entries@.len() - i,
        {
            match &entries[i].1 {
                Entry::Table(settings) => {
                    host_configs.push(
                        HostConfig { map: settings.clone(), host: entries[i].0.clone() },
                    );
                },
                _ => {
                    assert(!(visible(hosts@)[i as int].1 is Table));
                    return Err(ConfigError::MalformedConfig);
                },
            }
            i += 1;
        }
        assert(host_views(host_configs@) == host_entries(self.map@)->Ok_0);
        assert forall|j: int, k: int| 0 <= j < k < host_configs@.len() implies (
        #[trigger] host_configs@[j]).host@ != (#[trigger] host_configs@[k]).host@ by {
            assert(host_configs@[j]@.0 == entries@[j].0@);
            assert(host_configs@[k]@.0 == entries@[k].0@);
        }
        Ok(host_configs)
    }

    /// The entry of the host called `hostname`: the first of
    /// `get_host_entries` whose key is the name.
    pub fn get_host_config(&self, hostname: &str) -> (res: Result<HostConfig, ConfigError>)
        ensures
            match host_settings(self.map@, hostname@) {
                Ok(settings) => res is Ok && res->Ok_0@ == (hostname@, settings),
                Err(e) => res is Err && res->Err_0 == e,
            },
    {
        let mut host_configs = self.get_host_entries()?;
        let ghost list = host_entries(self.map@)->Ok_0;
        let wanted = hostname.to_owned();
        proof {
            lemma_index_of(list, hostname@);
        }
        let mut i: usize = 0;
        while i < host_configs.len()
            invariant
                i <= host_configs@.len(),
                host_entries(self.map@) == Ok::<Seq<(Seq<char>, Entries)>, ConfigError>(list),
                host_views(host_configs@) == list,
                wanted@ == hostname@,
                forall|j: int| 0 <= j < i ==> (#[trigger] list[j]).0 != hostname@,
            decreases host_configs@.len() - i,
        {
            assert(host_views(host_configs@)[i as int] == host_configs@[i as int]@);
            if host_configs[i].host == wanted {
                proof {
                    lemma_index_of(list, hostname@);
                    assert(list[i as int].0 == hostname@);
                }
                let found = host_configs.swap_remove(i);
                return Ok(found);
            }
            i += 1;
        }
        Err(ConfigError::HostNotFound)
    }

    /// An entry without settings for a host called `hostname`. It reaches
    /// the document when `set` writes it back.
    pub fn make_host_config(&self, hostname: &str) -> (res: Result<HostConfig, ConfigError>)
        ensures
            match hosts_table(self.map@) {
                Ok(_) => res is Ok && res->Ok_0@ == (
                    hostname@,
                    Seq::<(Seq<char>, Node)>::empty(),
                ),
                Err(e) => res is Err && res->Err_0 == e,
            },
    {
        let _hosts = self.get_hosts_table()?;
        Ok(HostConfig { map: ConfigMap::new(), host: hostname.to_owned() })
    }

    /// The contents of the two files that hold the configuration: first that
    /// of the general settings, then that of the hosts.
    pub fn to_files(&self) -> (res: Result<(String, String), ConfigError>)
        ensures
            match hosts_table(self.map@) {
                Ok(hosts) => res is Ok && is_config_text(self.map, res->Ok_0.0@) && is_hosts_text(
                    hosts,
                    res->Ok_0.1@,
                ),
                Err(e) => res is Err && res->Err_0 == e,
            },
    {
        let config = self.config_to_string()?;
        let hosts = self.hosts_to_string()?;
        Ok((config, hosts))
    }

    /// The configuration that holds the general settings `settings` and,
    /// as its hosts section, a copy of the table of `hosts`: its entries with
    /// their layout. What the text of `hosts` holds after its last entry is
    /// no part of the table and is not kept.
    pub fn from_maps(settings: ConfigMap, hosts: &ConfigMap) -> (config: FileConfig)
        ensures
            config.map@ == put(settings@, "hosts"@, Node::Table(hosts@)),
    {
        let mut map = settings;
        map.set_table("hosts", hosts);
        FileConfig { map }
    }

    /// The configuration that the two files hold: the document of the
    /// general settings, with the document of the hosts stored under `hosts`.
    /// A text that is not valid TOML is refused as malformed.
    pub fn from_files(config: &str, hosts: &str) -> (res: Result<FileConfig, ConfigError>)
        ensures
            match (parsed_toml(config@), parsed_toml(hosts@)) {
                (Some(settings), Some(table)) => res is Ok && res->Ok_0.map@ == put(
                    settings,
                    "hosts"@,
                    Node::Table(table),
                ),
                _ => res is Err && res->Err_0 == ConfigError::MalformedConfig,
            },
    {
        let settings = ConfigMap::parse(config)?;
        let table = ConfigMap::parse(hosts)?;
        Ok(FileConfig::from_maps(settings, &table))
    }
}

impl Config for FileConfig {
    open spec fn stored(&self) -> ConfigMap {
        self.map
    }

    open spec fn reads(&self, hostname: Seq<char>, key: Seq<char>) -> Result<
        (Seq<char>, Source),
        ConfigError,
    > {
        match value_of(self.map@, hostname, key) {
            Ok(value) => Ok((value, source_of(hostname))),
            Err(e) => Err(e),
        }
    }

    /// The string stored under `key`: at the root for the empty host name,
    /// else in the settings of the host called `hostname`.
    fn get(&self, hostname: &str, key: &str) -> (res: Result<String, ConfigError>) {
        let (value, _) = self.get_with_source(hostname, key)?;
        Ok(value)
    }

    /// What `get` reads, and the file that holds it.
    fn get_with_source(&self, hostname: &str, key: &str) -> (res: Result<
        (String, Source),
        ConfigError,
    >) {
        if hostname.is_empty() {
            let value = self.map.get_string_value(key)?;
            return Ok((value, Source::ConfigFile));
        }
        let host_config = self.get_host_config(hostname)?;
        let value = host_config.map.get_string_value(key)?;
        Ok((value, Source::HostsFile))
    }

    /// Stores `value` under `key`: at the root for the empty host name, else
    /// in the settings of the host called `hostname`, which is created when
    /// it is not configured yet. The settings are written back into the hosts
    /// section and the section into the document. A refused request leaves
    /// the configuration as it is.
    fn set(&mut self, hostname: &str, key: &str, value: &str) -> (res: Result<(), ConfigError>) {
        if hostname.is_empty() {
            return self.map.set_string_value(key, value);
        }
        let mut host_config = match self.get_host_config(hostname) {
            Ok(host_config) => host_config,
            Err(ConfigError::HostNotFound) => self.make_host_config(hostname)?,
            Err(e) => {
                return Err(e);
            },
        };
        host_config.map.set_string_value(key, value)?;
        let mut hosts = self.get_hosts_table()?;
        hosts.set_table(hostname, &host_config.map);
        self.map.set_table("hosts", &hosts);
        Ok(())
    }

    /// Takes the host called `hostname` out of the hosts section and writes
    /// the section back into the document. The empty host name changes
    /// nothing, and neither the hosts nor their order change when no host has
    /// the name.
    fn unset_host(&mut self, hostname: &str) -> (res: Result<(), ConfigError>) {
        if hostname.is_empty() {
            return Ok(());
        }
        let mut hosts = self.get_hosts_table()?;
        hosts.remove_entry(hostname)?;
        self.map.set_table("hosts", &hosts);
        Ok(())
    }

    /// The names of the hosts, in document order.
    fn hosts(&self) -> (res: Result<Vec<String>, ConfigError>) {
        let hosts = self.get_hosts_table()?;
        let entries = hosts.entries();
        let mut names: Vec<String> = Vec::new();
        let mut i: usize = 0;
        while i < entries.len()
            invariant
                i <= entries@.len(),
                entries@.len() == visible(hosts@).len(),
                forall|j: int|
                    0 <= j < entries@.len() ==> (#[trigger] entries@[j]).0@ == visible(hosts@)[j].0,
                forall|j: int, k: int|
                    0 <= j < k < entries@.len() ==> (#[trigger] entries@[j]).0@ != (
                    #[trigger] entries@[k]).0@,
                names@.len() == i,
                forall|j: int| 0 <= j < i ==> (#[trigger] names@[j])@ == visible(hosts@)[j].0,
            decreases entries@.len() - i,
        {
            names.push(entries[i].0.clone());
            i += 1;
        }
        assert(texts(names@) == visible_keys(hosts@));
        assert forall|j: int, k: int|
            0 <= j < texts(names@).len() && 0 <= k < texts(names@).len() && j != k implies texts(
            names@,
        )[j] != texts(names@)[k] by {
            assert(names@[j]@ == entries@[j].0@);
            assert(names@[k]@ == entries@[k].0@);
        }
        Ok(names)
    }

    /// The host that is used when none is named: the only host there is,
    /// marked or not; among several, the first that is marked as the default
    /// by `default = "true"`.
    fn default_host(&self) -> (res: Result<String, ConfigError>) {
        let (host, _) = self.default_host_with_source()?;
        Ok(host)
    }

    /// What `default_host` gives, and the file that holds it: that of the
    /// hosts.
    fn default_host_with_source(&self) -> (res: Result<(String, Source), ConfigError>) {
        let mut hosts = self.hosts()?;
        if hosts.len() == 0 {
            return Err(ConfigError::NoHostsConfigured);
        }
        if hosts.len() == 1 {
            let only = hosts.swap_remove(0);
            return Ok((only, Source::HostsFile));
        }
        let mut host_configs = self.get_host_entries()?;
        let ghost list = host_entries(self.map@)->Ok_0;
        proof {
            lemma_first_default(list);
        }
        let mut i: usize = 0;
        while i < host_configs.len()
            invariant
                i <= host_configs@.len(),
                host_names(self.map@) is Ok,
                host_names(self.map@)->Ok_0.len() > 1,
                host_entries(self.map@) == Ok::<Seq<(Seq<char>, Entries)>, ConfigError>(list),
                host_views(host_configs@) == list,
                forall|j: int| 0 <= j < i ==> !is_default((#[trigger] list[j]).1),
            decreases host_configs@.len() - i,
        {
            assert(host_views(host_configs@)[i as int] == host_configs@[i as int]@);
            let marked = match host_configs[i].map.get_string_value("default") {
                Ok(flag) => flag == "true".to_owned(),
                Err(_) => false,
            };
            if marked {
                proof {
                    lemma_first_default(list);
                    assert(is_default(list[i as int].1));
                }
                let found = host_configs.swap_remove(i);
                return Ok((found.host, Source::HostsFile));
            }
            i += 1;
        }
        Err(ConfigError::NoDefaultHost)
    }

    /// The aliases of the configuration: a copy of the aliases section,
    /// bound to this configuration by reference.
    fn aliases(&self) -> (res: Result<AliasConfig<'_>, ConfigError>) {
        let aliases_table = self.get_aliases_table()?;
        Ok(AliasConfig { map: aliases_table, parent: self })
    }

    /// Whether `key` of the host may be written. Every key may.
    fn check_writable(&self, hostname: &str, key: &str) -> (res: Result<(), ConfigError>) {
        Ok(())
    }

    /// The content of the file of general settings: the text of the document
    /// without its hosts section, without the whitespace at either end. A
    /// document that has no `hosts` key is printed as it is.
    fn config_to_string(&self) -> (res: Result<String, ConfigError>) {
        let mut map = self.map.clone();
        map.remove_entry("hosts")?;
        let text = map.to_text();
        Ok(trim(text.as_str()).to_owned())
    }

    /// The content of the file of hosts: the text of a document that holds
    /// the hosts section as its root, without the whitespace at either end.
    fn hosts_to_string(&self) -> (res: Result<String, ConfigError>) {
        let hosts = self.get_hosts_table()?;
        let text = hosts.to_text();
        Ok(trim(text.as_str()).to_owned())
    }
}

} // verus!
