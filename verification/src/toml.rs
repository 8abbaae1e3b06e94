//! The boundary to the `toml_edit` crate, which parses, edits and prints the
//! documents while keeping the layout of what is not touched.
//!
//! Nothing in this file is proved. Each function below makes one call into
//! `toml_edit`, and its contract says over the model of `crate::model` what
//! that call does; the rest of the library is verified against these
//! contracts.
//!
//! A table of `toml_edit` keeps its entries in an `IndexMap` from the key to
//! the item: no two entries share a key, a new key goes last, a key that is
//! written again keeps its place, and a removal shifts the later entries up.
//! An entry may hold `Item::None`. Reads (`get`, `iter`, `is_empty`) pass over
//! such an entry; writes (`insert`, `remove_entry`) treat it as any other.

use crate::model::{has_key, put, remove_key, visible, Entries, Node};
use vstd::prelude::*;

verus! {

#[verifier::external_type_specification]
#[verifier::external_body]
pub struct ExDocument(toml_edit::Document);

#[verifier::external_type_specification]
#[verifier::external_body]
pub struct ExTable(toml_edit::Table);

#[verifier::external_type_specification]
#[verifier::external_body]
pub struct ExItem(toml_edit::Item);

#[verifier::external_type_specification]
#[verifier::external_body]
pub struct ExTomlError(toml_edit::TomlError);

/// What a table holds: its entries in table order, placeholders
/// (`Item::None`) included.
pub uninterp spec fn table_entries(t: toml_edit::Table) -> Entries;

/// What an item is: `Empty` for `Item::None`, `Text` with the string for a
/// string value, `Table` with the entries for a table, `Other` for any other
/// value and for an array of tables.
pub uninterp spec fn item_node(i: toml_edit::Item) -> Node;

/// What a document holds: the entries of its root table, or `None` when its
/// root item is not a table.
pub uninterp spec fn document_entries(d: toml_edit::Document) -> Option<Entries>;

/// The text that `toml_edit` prints for a document.
pub uninterp spec fn document_text(d: toml_edit::Document) -> Seq<char>;

/// What `toml_edit` reads from a text: the entries of the document, or `None`
/// when the text is not valid TOML.
pub uninterp spec fn parsed_toml(text: Seq<char>) -> Option<Entries>;

/// The node of the item that a read handed out, if it handed one out.
pub open spec fn found_node(found: Option<&toml_edit::Item>) -> Option<Node> {
    match found {
        Some(item) => Some(item_node(*item)),
        None => None,
    }
}

/// `Table::new`: a table without entries.
#[verifier::external_body]
pub(crate) fn table_new() -> (t: toml_edit::Table)
    ensures
        table_entries(t) == Seq::<(Seq<char>, Node)>::empty(),
{
    toml_edit::Table::new()
}

/// `Table::clone`: an equal table.
#[verifier::external_body]
pub(crate) fn table_clone(t: &toml_edit::Table) -> (copy: toml_edit::Table)
    ensures
        copy == *t,
{
    t.clone()
}

/// `Table::get`: the item of the entry stored under `key`, unless there is
/// no such entry or it holds `Item::None`.
#[verifier::external_body]
pub(crate) fn table_get<'a>(t: &'a toml_edit::Table, key: &str) -> (found: Option<
    &'a toml_edit::Item,
>)
    ensures
        found_node(found) == crate::model::lookup(table_entries(*t), key@),
{
    t.get(key)
}

/// `Table::iter`: the entries that hold more than `Item::None`, in table
/// order, each handed out as its key and a copy of its item. No two of them
/// share a key.
#[verifier::external_body]
pub(crate) fn table_items(t: &toml_edit::Table) -> (items: Vec<(String, toml_edit::Item)>)
    ensures
        items@.len() == visible(table_entries(*t)).len(),
        forall|i: int|
            0 <= i < items@.len() ==> (#[trigger] items@[i]).0@ == visible(table_entries(*t))[i].0
                && item_node(items@[i].1) == visible(table_entries(*t))[i].1,
        forall|i: int, j: int|
            0 <= i < j < items@.len() ==> (#[trigger] items@[i]).0@ != (#[trigger] items@[j]).0@,
{
    t.iter().map(|(key, item)| (key.to_string(), item.clone())).collect()
}

/// `Table::is_empty`: whether no entry holds more than `Item::None`.
#[verifier::external_body]
pub(crate) fn table_is_empty(t: &toml_edit::Table) -> (empty: bool)
    ensures
        empty == (visible(table_entries(*t)).len() == 0),
{
    t.is_empty()
}

/// `Item::as_table`: the table, for an item that is one.
#[verifier::external_body]
pub(crate) fn item_as_table<'a>(item: &'a toml_edit::Item) -> (table: Option<
    &'a toml_edit::Table,
>)
    ensures
        match table {
            Some(t) => item_node(*item) == Node::Table(table_entries(*t)),
            None => !(item_node(*item) is Table),
        },
{
    item.as_table()
}

/// `Item::as_str`: the string, for an item that is a string value.
#[verifier::external_body]
pub(crate) fn item_as_str<'a>(item: &'a toml_edit::Item) -> (text: Option<&'a str>)
    ensures
        match text {
            Some(s) => item_node(*item) == Node::Text(s@),
            None => !(item_node(*item) is Text),
        },
{
    item.as_str()
}

/// `Item::Table`: the item that is the given table.
#[verifier::external_body]
pub(crate) fn item_from_table(t: toml_edit::Table) -> (item: toml_edit::Item)
    ensures
        item_node(item) == Node::Table(table_entries(t)),
{
    toml_edit::Item::Table(t)
}

/// `toml_edit::value`: the item that is the given string as a value.
#[verifier::external_body]
pub(crate) fn item_from_str(text: &str) -> (item: toml_edit::Item)
    ensures
        item_node(item) == Node::Text(text@),
{
    toml_edit::value(text)
}

/// `Document::from_str`: the document that the text describes, or the error
/// for a text that is not valid TOML. The root of a parsed document is a
/// table.
#[verifier::external_body]
pub(crate) fn document_parse(text: &str) -> (parsed: Result<
    toml_edit::Document,
    toml_edit::TomlError,
>)
    ensures
        match parsed {
            Ok(d) => parsed_toml(text@) is Some && document_entries(d) == parsed_toml(text@),
            Err(_) => parsed_toml(text@) is None,
        },
{
    text.parse::<toml_edit::Document>()
}

/// `Document::from`: the document whose root is the given table.
#[verifier::external_body]
pub(crate) fn document_from_table(t: toml_edit::Table) -> (d: toml_edit::Document)
    ensures
        document_entries(d) == Some(table_entries(t)),
{
    toml_edit::Document::from(t)
}

/// `Document::clone`: an equal document.
#[verifier::external_body]
pub(crate) fn document_clone(d: &toml_edit::Document) -> (copy: toml_edit::Document)
    ensures
        copy == *d,
{
    d.clone()
}

/// `Document::as_table`: the root table. It panics on a document whose root
/// item is not a table, which `requires` leaves out.
#[verifier::external_body]
pub(crate) fn document_table<'a>(d: &'a toml_edit::Document) -> (t: &'a toml_edit::Table)
    requires
        document_entries(*d) is Some,
    ensures
        Some(table_entries(*t)) == document_entries(*d),
{
    d.as_table()
}

/// `Table::insert` on the root table, reached through `Document::deref_mut`:
/// the item takes the place of the entry that had the key, or goes last when
/// none had it. The call panics on a document whose root item is not a table,
/// which `requires` leaves out.
#[verifier::external_body]
pub(crate) fn document_insert(d: &mut toml_edit::Document, key: &str, item: toml_edit::Item)
    requires
        document_entries(*old(d)) is Some,
    ensures
        document_entries(*final(d)) == Some(
            put(document_entries(*old(d))->Some_0, key@, item_node(item)),
        ),
{
    d.insert(key, item);
}

/// `Table::remove_entry` on the root table, reached through
/// `Document::deref_mut`: the entry under `key` leaves and the others keep
/// their order; a document that has no such entry is left as it is. The call
/// panics on a document whose root item is not a table, which `requires`
/// leaves out.
#[verifier::external_body]
pub(crate) fn document_remove(d: &mut toml_edit::Document, key: &str)
    requires
        document_entries(*old(d)) is Some,
    ensures
        document_entries(*final(d)) == Some(
            remove_key(document_entries(*old(d))->Some_0, key@),
        ),
        !has_key(document_entries(*old(d))->Some_0, key@) ==> *final(d) == *old(d),
{
    d.remove_entry(key);
}

/// `Document::to_string`: the text of the document. It panics on a document
/// whose root item is not a table, which `requires` leaves out.
#[verifier::external_body]
pub(crate) fn document_to_string(d: &toml_edit::Document) -> (text: String)
    requires
        document_entries(*d) is Some,
    ensures
        text@ == document_text(*d),
{
    d.to_string()
}

} // verus!
