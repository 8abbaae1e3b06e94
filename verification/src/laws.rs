//! What holds of the configuration whatever it holds: laws over the model,
//! each proved from the definitions that the contracts use.

use crate::config_from_env::{override_of, value_in, value_under, variable_of};
use crate::config_from_file::{
    after_set, after_unset_host, all_tables, default_host_of, host_entries, host_names,
    host_settings, hosts_table, is_default, lemma_first_default, settings_to_edit, source_of,
    value_of, Source,
};
use crate::error::ConfigError;
use crate::model::{
    distinct_keys, has_key, index_of, lemma_index_of, lemma_index_of_is,
    lemma_index_of_same_keys, lemma_lookup_put_other, lemma_lookup_put_same,
    lemma_remove_key_gone, lemma_visible_put, lemma_visible_put_other,
    lemma_visible_remove_hidden, lookup, put, remove_key, string_value, visible, visible_keys,
    Entries, Node,
};
use vstd::prelude::*;

verus! {

/// A configuration with exactly one host has that host as its default,
/// whether it is marked or not.
pub proof fn law_single_host_is_default(root: Entries, name: Seq<char>)
    requires
        host_names(root) == Ok::<Seq<Seq<char>>, ConfigError>(seq![name]),
    ensures
        default_host_of(root) == Ok::<Seq<char>, ConfigError>(name),
{
}

/// A configuration with several hosts, none of them marked as the default,
/// has no default host.
pub proof fn law_several_hosts_need_a_mark(root: Entries)
    requires
        host_entries(root) is Ok,
        host_entries(root)->Ok_0.len() > 1,
        forall|i: int|
            0 <= i < host_entries(root)->Ok_0.len() ==> !is_default(
                (#[trigger] host_entries(root)->Ok_0[i]).1,
            ),
    ensures
        default_host_of(root) == Err::<Seq<char>, ConfigError>(ConfigError::NoDefaultHost),
{
    lemma_first_default(host_entries(root)->Ok_0);
}

/// A configuration without any entry takes every `set`.
pub proof fn law_set_on_empty(hostname: Seq<char>, key: Seq<char>, value: Seq<char>)
    ensures
        after_set(Seq::empty(), hostname, key, value) is Ok,
{
    let root = Seq::<(Seq<char>, Node)>::empty();
    assert(lookup(root, "hosts"@) is None);
    assert(visible(Seq::<(Seq<char>, Node)>::empty()).len() == 0);
    assert(host_entries(root) is Ok);
    assert(host_settings(root, hostname) == Err::<Entries, ConfigError>(
        ConfigError::HostNotFound,
    ));
}

/// The hosts section after a `set` for a host: the section of before with
/// the edited settings stored under the name of the host.
pub open spec fn hosts_after_set(
    root: Entries,
    hostname: Seq<char>,
    key: Seq<char>,
    value: Seq<char>,
) -> Entries {
    put(
        hosts_table(root)->Ok_0,
        hostname,
        Node::Table(put(settings_to_edit(root, hostname)->Ok_0, key, Node::Text(value))),
    )
}

/// After a `set` for a host the document holds the new hosts section, every
/// host in it is a table, and the settings of the host are the edited ones.
proof fn lemma_after_set(root: Entries, hostname: Seq<char>, key: Seq<char>, value: Seq<char>)
    requires
        hostname.len() > 0,
        after_set(root, hostname, key, value) is Ok,
    ensures
        hosts_table(after_set(root, hostname, key, value)->Ok_0) == Ok::<Entries, ConfigError>(
            hosts_after_set(root, hostname, key, value),
        ),
        host_entries(root) is Ok,
        host_entries(after_set(root, hostname, key, value)->Ok_0) is Ok,
        host_settings(after_set(root, hostname, key, value)->Ok_0, hostname) == Ok::<
            Entries,
            ConfigError,
        >(put(settings_to_edit(root, hostname)->Ok_0, key, Node::Text(value))),
        visible_keys(hosts_after_set(root, hostname, key, value)).contains(hostname),
{
    let after = after_set(root, hostname, key, value)->Ok_0;
    let hosts = hosts_table(root)->Ok_0;
    let settings = put(settings_to_edit(root, hostname)->Ok_0, key, Node::Text(value));
    let hosts_after = hosts_after_set(root, hostname, key, value);
    lemma_lookup_put_same(root, "hosts"@, Node::Table(hosts_after));
    let at = lemma_visible_put(hosts, hostname, Node::Table(settings));
    assert(all_tables(visible(hosts)));
    assert forall|j: int| 0 <= j < visible(hosts_after).len() implies (#[trigger] visible(
        hosts_after,
    )[j]).1 is Table by {
        if j != at {
            let k = choose|k: int|
                0 <= k < visible(hosts).len() && visible(hosts)[k] == visible(hosts_after)[j];
            assert(visible(hosts)[k].1 is Table);
        }
    }
    let list = host_entries(after)->Ok_0;
    assert forall|j: int| 0 <= j < at implies (#[trigger] list[j]).0 != hostname by {
        assert(visible(hosts_after)[j].0 != hostname);
    }
    lemma_index_of_is(list, hostname, at);
    assert(visible_keys(hosts_after)[at] == hostname);
}

/// What `set` stores, `get` reads back under the same host name and key, and
/// a host that is named is among the hosts afterwards.
pub proof fn law_set_then_get(
    root: Entries,
    hostname: Seq<char>,
    key: Seq<char>,
    value: Seq<char>,
)
    requires
        after_set(root, hostname, key, value) is Ok,
    ensures
        value_of(after_set(root, hostname, key, value)->Ok_0, hostname, key) == Ok::<
            Seq<char>,
            ConfigError,
        >(value),
        hostname.len() > 0 ==> host_names(after_set(root, hostname, key, value)->Ok_0) is Ok
            && host_names(after_set(root, hostname, key, value)->Ok_0)->Ok_0.contains(hostname),
{
    if hostname.len() == 0 {
        lemma_lookup_put_same(root, key, Node::Text(value));
    } else {
        lemma_after_set(root, hostname, key, value);
        lemma_lookup_put_same(settings_to_edit(root, hostname)->Ok_0, key, Node::Text(value));
    }
}

/// A `set` for a host loses nothing: every key of every other host reads as
/// before, and so does every other key of the host itself where the host was
/// configured before.
pub proof fn law_set_keeps_the_rest(
    root: Entries,
    hostname: Seq<char>,
    key: Seq<char>,
    value: Seq<char>,
    other_host: Seq<char>,
    other_key: Seq<char>,
)
    requires
        after_set(root, hostname, key, value) is Ok,
        hostname.len() > 0,
        other_host.len() > 0,
    ensures
        other_host != hostname ==> value_of(
            after_set(root, hostname, key, value)->Ok_0,
            other_host,
            other_key,
        ) == value_of(root, other_host, other_key),
        other_host == hostname && other_key != key && host_settings(root, hostname) is Ok
            ==> value_of(after_set(root, hostname, key, value)->Ok_0, other_host, other_key)
            == value_of(root, other_host, other_key),
{
    let after = after_set(root, hostname, key, value)->Ok_0;
    let hosts = hosts_table(root)->Ok_0;
    let settings = settings_to_edit(root, hostname)->Ok_0;
    let hosts_after = hosts_after_set(root, hostname, key, value);
    lemma_after_set(root, hostname, key, value);
    if other_host != hostname {
        let list = host_entries(root)->Ok_0;
        let list_after = host_entries(after)->Ok_0;
        lemma_index_of_same_keys(list, visible(hosts), other_host);
        lemma_index_of_same_keys(list_after, visible(hosts_after), other_host);
        lemma_visible_put_other(
            hosts,
            hostname,
            Node::Table(put(settings, key, Node::Text(value))),
            other_host,
        );
        let seen = visible(hosts);
        let seen_after = visible(hosts_after);
        lemma_index_of(seen, other_host);
        lemma_index_of(seen_after, other_host);
        if index_of(seen, other_host) < seen.len() {
            let i = index_of(seen, other_host);
            let j = index_of(seen_after, other_host);
            assert(list[i].1 == seen[i].1->Table_0);
            assert(list_after[j].1 == seen_after[j].1->Table_0);
        }
    } else if other_key != key {
        lemma_lookup_put_other(settings, key, Node::Text(value), other_key);
    }
}

/// Removing a host that is not configured succeeds and leaves the hosts and
/// their order as they were.
pub proof fn law_unset_missing_host(root: Entries, hostname: Seq<char>)
    requires
        host_names(root) is Ok,
        !host_names(root)->Ok_0.contains(hostname),
    ensures
        after_unset_host(root, hostname) is Ok,
        host_names(after_unset_host(root, hostname)->Ok_0) == host_names(root),
{
    if hostname.len() != 0 {
        let hosts = hosts_table(root)->Ok_0;
        lemma_visible_remove_hidden(hosts, hostname);
        lemma_lookup_put_same(root, "hosts"@, Node::Table(remove_key(hosts, hostname)));
    }
}

/// A key that holds a nested table is no string: reading it as one fails as
/// a type mismatch.
pub proof fn law_table_is_no_string(e: Entries, key: Seq<char>)
    requires
        lookup(e, key) is Some,
        lookup(e, key)->Some_0 is Table,
    ensures
        string_value(e, key) == Err::<Seq<char>, ConfigError>(ConfigError::TypeMismatch),
{
}

/// The keys of a host and the keys of the root are apart. A `set` for a host
/// changes no root key but `hosts`, and a `set` of a root key other than
/// `hosts` changes no key of any host.
pub proof fn law_key_spaces_apart(
    root: Entries,
    hostname: Seq<char>,
    key: Seq<char>,
    value: Seq<char>,
    other_host: Seq<char>,
    other_key: Seq<char>,
)
    requires
        after_set(root, hostname, key, value) is Ok,
    ensures
        hostname.len() > 0 && other_key != "hosts"@ ==> value_of(
            after_set(root, hostname, key, value)->Ok_0,
            Seq::empty(),
            other_key,
        ) == value_of(root, Seq::empty(), other_key),
        hostname.len() == 0 && key != "hosts"@ && other_host.len() > 0 ==> value_of(
            after_set(root, hostname, key, value)->Ok_0,
            other_host,
            other_key,
        ) == value_of(root, other_host, other_key),
{
    if hostname.len() > 0 && other_key != "hosts"@ {
        let hosts_after = hosts_after_set(root, hostname, key, value);
        lemma_lookup_put_other(root, "hosts"@, Node::Table(hosts_after), other_key);
    }
    if hostname.len() == 0 && key != "hosts"@ {
        lemma_lookup_put_other(root, key, Node::Text(value), "hosts"@);
    }
}

/// Splitting what was loaded gives back what was loaded: for general
/// settings that hold no `hosts` key of their own, the document without its
/// hosts section holds the settings, entry for entry and in their order, and
/// its hosts section holds the hosts.
pub proof fn law_files_round_trip(settings: Entries, hosts: Entries)
    requires
        !has_key(settings, "hosts"@),
    ensures
        remove_key(put(settings, "hosts"@, Node::Table(hosts)), "hosts"@) == settings,
        hosts_table(put(settings, "hosts"@, Node::Table(hosts))) == Ok::<Entries, ConfigError>(
            hosts,
        ),
{
    lemma_lookup_put_same(settings, "hosts"@, Node::Table(hosts));
}

/// Removing a host a second time changes nothing more, and after a removal
/// the host is not among the hosts, where no two hosts share a name.
pub proof fn law_unset_host_twice(root: Entries, hostname: Seq<char>)
    requires
        hosts_table(root) is Ok,
        distinct_keys(hosts_table(root)->Ok_0),
    ensures
        after_unset_host(root, hostname) is Ok,
        after_unset_host(after_unset_host(root, hostname)->Ok_0, hostname) == after_unset_host(
            root,
            hostname,
        ),
        hostname.len() > 0 ==> !host_names(after_unset_host(root, hostname)->Ok_0)->Ok_0.contains(
            hostname,
        ),
{
    if hostname.len() != 0 {
        let hosts = hosts_table(root)->Ok_0;
        let fewer = remove_key(hosts, hostname);
        let once = put(root, "hosts"@, Node::Table(fewer));
        lemma_remove_key_gone(hosts, hostname);
        lemma_lookup_put_same(root, "hosts"@, Node::Table(fewer));
        lemma_index_of(root, "hosts"@);
        assert(remove_key(fewer, hostname) == fewer);
        assert(put(once, "hosts"@, Node::Table(fewer)) == once);
    }
}

/// The environment decides: a key whose variable is set to a text that is
/// not empty reads as that text, from the environment, whatever the document
/// holds and whichever host is named.
pub proof fn law_environment_wins(
    env: Seq<(Seq<char>, Seq<char>)>,
    root: Entries,
    hostname: Seq<char>,
    key: Seq<char>,
    name: Seq<char>,
    value: Seq<char>,
)
    requires
        variable_of(key) == Some(name),
        value_in(env, name) == Some(value),
        value.len() > 0,
    ensures
        value_under(env, root, hostname, key) == Ok::<(Seq<char>, Source), ConfigError>(
            (value, Source::Environment),
        ),
{
}

/// Without an override the layer reads what the wrapped configuration
/// reads.
pub proof fn law_environment_falls_through(
    env: Seq<(Seq<char>, Seq<char>)>,
    root: Entries,
    hostname: Seq<char>,
    key: Seq<char>,
)
    requires
        override_of(env, key) is None,
    ensures
        match value_of(root, hostname, key) {
            Ok(value) => value_under(env, root, hostname, key) == Ok::<
                (Seq<char>, Source),
                ConfigError,
            >((value, source_of(hostname))),
            Err(e) => value_under(env, root, hostname, key) == Err::<
                (Seq<char>, Source),
                ConfigError,
            >(e),
        },
{
}

} // verus!
