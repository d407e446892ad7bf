//! Reading a TOML document. The parser is the `toml` crate's; this module
//! states what the library relies on and reads single entries out of a
//! parsed table.

use vstd::prelude::*;

verus! {

/// The `toml` crate's value. The proofs do not look inside it.
#[verifier::external_type_specification]
#[verifier::external_body]
pub struct ExValue(toml::Value);

/// The `toml` crate's map, of which a table is one from strings to values.
/// The proofs know it by `table_items` alone.
#[verifier::external_type_specification]
#[verifier::external_body]
#[verifier::reject_recursive_types(K)]
#[verifier::reject_recursive_types(V)]
pub struct ExMap<K, V>(toml::map::Map<K, V>);

/// What a key of a table holds, as far as the library tells values apart.
pub enum Item {
    /// A string.
    Text(Seq<char>),
    /// A table, by its own keys and what they hold.
    Table(Seq<(Seq<char>, Item)>),
    /// A value of any other type.
    Other,
}

/// The keys of a parsed table with what they hold, in the order in which
/// the table hands them out. No key occurs twice.
pub uninterp spec fn table_items(table: toml::map::Map<String, toml::Value>) -> Seq<
    (Seq<char>, Item),
>;

/// What a text parses to as a TOML document: the keys of its root table with
/// what they hold, or the parser's message where the text is no document.
pub uninterp spec fn toml_document(text: Seq<char>) -> Result<Seq<(Seq<char>, Item)>, Seq<char>>;

/// What `key` holds among `items`, if it is one of their keys.
pub open spec fn item_at(items: Seq<(Seq<char>, Item)>, key: Seq<char>) -> Option<Item>
    decreases items.len(),
{
    if items.len() == 0 {
        None
    } else if items.last().0 == key {
        Some(items.last().1)
    } else {
        item_at(items.drop_last(), key)
    }
}

/// Whether no key occurs twice.
pub open spec fn distinct_keys(items: Seq<(Seq<char>, Item)>) -> bool {
    forall|i: int, j: int| 0 <= i < j < items.len() ==> items[i].0 != items[j].0
}

/// Among items with distinct keys, each key holds the item it stands with.
pub proof fn lemma_item_at(items: Seq<(Seq<char>, Item)>, i: int)
    requires
        distinct_keys(items),
        0 <= i < items.len(),
    ensures
        item_at(items, items[i].0) == Some(items[i].1),
    decreases items.len(),
{
    if i < items.len() - 1 {
        let front = items.drop_last();
        assert(items[i].0 != items[items.len() - 1].0);
        assert(front[i] == items[i]);
        lemma_item_at(front, i);
    }
}

/// Parses `text` with `toml::from_str`. The outcome is the document of the
/// text: a table for a well-formed text, the parser's message otherwise.
#[verifier::external_body]
pub(crate) fn parse_table(text: &str) -> (r: Result<toml::map::Map<String, toml::Value>, String>)
    ensures
        match r {
            Ok(table) => toml_document(text@) == Ok::<Seq<(Seq<char>, Item)>, Seq<char>>(
                table_items(table),
            ),
            Err(message) => toml_document(text@) == Err::<Seq<(Seq<char>, Item)>, Seq<char>>(
                message@,
            ),
        },
{
    toml::from_str::<toml::Table>(text).map_err(|e| e.message().to_owned())
}

/// The keys of a table, from `Map::keys`: the keys of its items, in their
/// order, and no key twice.
#[verifier::external_body]
pub(crate) fn table_keys(table: &toml::map::Map<String, toml::Value>) -> (r: Vec<String>)
    ensures
        r@.len() == table_items(*table).len(),
        forall|i: int| 0 <= i < r@.len() ==> (#[trigger] r@[i])@ == table_items(*table)[i].0,
        forall|i: int, j: int| 0 <= i < j < r@.len() ==> r@[i]@ != r@[j]@,
{
    table.keys().cloned().collect()
}

/// Whether a table has `key`, from `Map::contains_key`.
#[verifier::external_body]
pub(crate) fn table_has(table: &toml::map::Map<String, toml::Value>, key: &str) -> (r: bool)
    ensures
        r == item_at(table_items(*table), key@) is Some,
{
    table.contains_key(key)
}

/// The string under `key`, from `Map::get` and `Value::as_str`: there is
/// one exactly where the table has the key and it holds a string.
#[verifier::external_body]
pub(crate) fn table_text(table: &toml::map::Map<String, toml::Value>, key: &str) -> (r: Option<
    String,
>)
    ensures
        match r {
            Some(text) => item_at(table_items(*table), key@) == Some(Item::Text(text@)),
            None => !(item_at(table_items(*table), key@) matches Some(Item::Text(_))),
        },
{
    table.get(key).and_then(|v| v.as_str()).map(|s| s.to_owned())
}

/// A copy of the table under `key`, from `Map::get` and `Value::as_table`:
/// there is one exactly where the table has the key and it holds a table.
#[verifier::external_body]
pub(crate) fn table_child(table: &toml::map::Map<String, toml::Value>, key: &str) -> (r: Option<
    toml::map::Map<String, toml::Value>,
>)
    ensures
        match r {
            Some(child) => item_at(table_items(*table), key@) == Some(
                Item::Table(table_items(child)),
            ),
            None => !(item_at(table_items(*table), key@) matches Some(Item::Table(_))),
        },
{
    table.get(key).and_then(|v| v.as_table()).cloned()
}

} // verus!
