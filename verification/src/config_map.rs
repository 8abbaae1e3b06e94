//! A get/set/remove layer over one document.
//!
//! The document keeps its comments, its spacing and the order of its keys:
//! an edit changes the entry it names and nothing else.

use crate::error::ConfigError;
use crate::model::{
    has_key, lemma_visible_members, lookup, put, remove_key, string_value, visible, Entries,
    Node,
};
use crate::toml::{
    document_clone, document_entries, document_from_table, document_insert, document_parse,
    document_remove, document_table, document_text, document_to_string, item_as_str,
    item_as_table, item_from_str, item_from_table, item_node, parsed_toml, table_clone,
    table_get, table_is_empty, table_items, table_new,
};
use vstd::prelude::*;

verus! {

/// A document and the operations on its top-level keys.
pub struct ConfigMap {
    pub(crate) root: toml_edit::Document,
}

/// What `find_entry` hands out: the node stored under a key.
pub enum Entry {
    /// A string leaf, with its value.
    Text(String),
    /// A nested table, as a map of its own.
    Table(ConfigMap),
    /// Anything else.
    Other,
}

/// A document without entries. Its root is a table that has no place of its
/// own among the tables of a text, so that it prints where it is stored.
fn blank() -> (root: toml_edit::Document)
    ensures
        document_entries(root) == Some(Seq::<(Seq<char>, Node)>::empty()),
{
    document_from_table(table_new())
}

/// The node that an item is, for an item that is no placeholder.
fn entry_of(item: &toml_edit::Item) -> (entry: Entry)
    requires
        !(item_node(*item) is Empty),
    ensures
        entry@ == item_node(*item),
{
    match item_as_str(item) {
        Some(s) => Entry::Text(s.to_owned()),
        None => match item_as_table(item) {
            Some(t) => Entry::Table(ConfigMap { root: document_from_table(table_clone(t)) }),
            None => Entry::Other,
        },
    }
}

impl View for ConfigMap {
    type V = Entries;

    /// The entries of the document, in document order.
    closed spec fn view(&self) -> Entries {
        document_entries(self.root)->Some_0
    }
}

impl View for Entry {
    type V = Node;

    open spec fn view(&self) -> Node {
        match self {
            Entry::Text(s) => Node::Text(s@),
            Entry::Table(m) => Node::Table(m@),
            Entry::Other => Node::Other,
        }
    }
}

impl ConfigMap {
    #[verifier::type_invariant]
    spec fn rooted(self) -> bool {
        document_entries(self.root) is Some
    }

    /// The text that the document is written as.
    pub closed spec fn text(&self) -> Seq<char> {
        document_text(self.root)
    }

    /// A map without entries.
    pub fn new() -> (m: ConfigMap)
        ensures
            m@ == Seq::<(Seq<char>, Node)>::empty(),
    {
        ConfigMap { root: blank() }
    }

    /// Reads a document from its text. A text that is not valid TOML is
    /// refused as malformed.
    pub fn parse(text: &str) -> (res: Result<ConfigMap, ConfigError>)
        ensures
            match res {
                Ok(m) => parsed_toml(text@) == Some(m@),
                Err(e) => e == ConfigError::MalformedConfig && parsed_toml(text@) is None,
            },
    {
        match document_parse(text) {
            Ok(root) => Ok(ConfigMap { root }),
            Err(_) => Err(ConfigError::MalformedConfig),
        }
    }

    /// Whether an enumeration of the map yields nothing.
    pub fn is_empty(&self) -> (empty: bool)
        ensures
            empty == (visible(self@).len() == 0),
    {
        proof {
            use_type_invariant(self);
        }
        table_is_empty(document_table(&self.root))
    }

    /// The string stored under `key`. A key that holds anything but a
    /// string is a type mismatch; a key that holds nothing is not found.
    pub fn get_string_value(&self, key: &str) -> (res: Result<String, ConfigError>)
        ensures
            match string_value(self@, key@) {
                Ok(s) => res is Ok && res->Ok_0@ == s,
                Err(e) => res is Err && res->Err_0 == e,
            },
    {
        proof {
            use_type_invariant(self);
        }
        match table_get(document_table(&self.root), key) {
            Some(item) => match item_as_str(item) {
                Some(s) => Ok(s.to_owned()),
                None => Err(ConfigError::TypeMismatch),
            },
            None => Err(ConfigError::KeyNotFound),
        }
    }

    /// Stores `item` under `key`.
    fn insert(&mut self, key: &str, item: toml_edit::Item)
        ensures
            final(self)@ == put(old(self)@, key@, item_node(item)),
    {
        proof {
            use_type_invariant(&*self);
        }
        let mut root = blank();
        std::mem::swap(&mut root, &mut self.root);
        document_insert(&mut root, key, item);
        self.root = root;
    }

    /// Stores the string `value` under `key`, in the place of what the key
    /// held, or as the last entry when the key is new.
    pub fn set_string_value(&mut self, key: &str, value: &str) -> (res: Result<(), ConfigError>)
        ensures
            res is Ok,
            final(self)@ == put(old(self)@, key@, Node::Text(value@)),
    {
        self.insert(key, item_from_str(value));
        Ok(())
    }

    /// The node stored under `key`.
    pub fn find_entry(&self, key: &str) -> (res: Result<Entry, ConfigError>)
        ensures
            match lookup(self@, key@) {
                Some(node) => res is Ok && res->Ok_0@ == node,
                None => res is Err && res->Err_0 == ConfigError::KeyNotFound,
            },
    {
        proof {
            use_type_invariant(self);
        }
        match table_get(document_table(&self.root), key) {
            Some(item) => Ok(entry_of(item)),
            None => Err(ConfigError::KeyNotFound),
        }
    }

    /// Stores a copy of the table `table` under `key`, in the place of what
    /// the key held, or as the last entry when the key is new.
    pub fn set_table(&mut self, key: &str, table: &ConfigMap)
        ensures
            final(self)@ == put(old(self)@, key@, Node::Table(table@)),
    {
        proof {
            use_type_invariant(table);
        }
        self.insert(key, item_from_table(table_clone(document_table(&table.root))));
    }

    /// What an enumeration of the map yields: each key with its node, in
    /// document order. No key comes twice.
    pub fn entries(&self) -> (list: Vec<(String, Entry)>)
        ensures
            list@.len() == visible(self@).len(),
            forall|i: int|
                0 <= i < list@.len() ==> (#[trigger] list@[i]).0@ == visible(self@)[i].0
                    && list@[i].1@ == visible(self@)[i].1,
            forall|i: int, j: int|
                0 <= i < j < list@.len() ==> (#[trigger] list@[i]).0@ != (#[trigger] list@[j]).0@,
    {
        proof {
            use_type_invariant(self);
            lemma_visible_members(self@);
        }
        let items = table_items(document_table(&self.root));
        let mut list: Vec<(String, Entry)> = Vec::new();
        let mut i: usize = 0;
        while i < items.len()
            invariant
                i <= items@.len(),
                items@.len() == visible(self@).len(),
                forall|j: int|
                    0 <= j < items@.len() ==> (#[trigger] items@[j]).0@ == visible(self@)[j].0
                        && item_node(items@[j].1) == visible(self@)[j].1,
                forall|j: int|
                    0 <= j < visible(self@).len() ==> !((#[trigger] visible(self@)[j]).1 is Empty),
                list@.len() == i,
                forall|j: int|
                    0 <= j < i ==> (#[trigger] list@[j]).0@ == visible(self@)[j].0 && list@[j].1@
                        == visible(self@)[j].1,
            decreases items@.len() - i,
        {
            assert(item_node(items@[i as int].1) == visible(self@)[i as int].1);
            list.push((items[i].0.clone(), entry_of(&items[i].1)));
            i += 1;
        }
        assert forall|j: int, k: int| 0 <= j < k < list@.len() implies (#[trigger] list@[j]).0@
            != (#[trigger] list@[k]).0@ by {
            assert(items@[j].0@ == list@[j].0@);
            assert(items@[k].0@ == list@[k].0@);
        }
        list
    }

    /// The text of the document, as it is written to a file.
    pub fn to_text(&self) -> (text: String)
        ensures
            text@ == self.text(),
    {
        proof {
            use_type_invariant(self);
        }
        document_to_string(&self.root)
    }

    /// Takes the entry under `key` out of the map. A map without such an
    /// entry is left as it is.
    pub fn remove_entry(&mut self, key: &str) -> (res: Result<(), ConfigError>)
        ensures
            res is Ok,
            final(self)@ == remove_key(old(self)@, key@),
            !has_key(old(self)@, key@) ==> *final(self) == *old(self),
    {
        proof {
            use_type_invariant(&*self);
        }
        let mut root = blank();
        std::mem::swap(&mut root, &mut self.root);
        document_remove(&mut root, key);
        self.root = root;
        Ok(())
    }
}

impl Clone for ConfigMap {
    /// An equal map, with a document of its own.
    fn clone(&self) -> (copy: ConfigMap)
        ensures
            copy == *self,
    {
        proof {
            use_type_invariant(self);
        }
        ConfigMap { root: document_clone(&self.root) }
    }
}

} // verus!
