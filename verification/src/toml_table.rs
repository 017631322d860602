//! TOML tables, as far as the settings file needs them.
//!
//! Parsing and rendering are done by the `toml` crate. This module declares
//! the crate's types to the verifier, gives the contents of a table a
//! mathematical model, and wraps the handful of calls the library makes.
//! Nothing in the contracts of the wrappers below is proved: each states what
//! the `toml` crate is relied on to do.

use vstd::prelude::*;

verus! {

/// `toml::map::Map`, the keyed collection behind `toml::Table`. Opaque to the
/// verifier; its contents are spoken of through [`table_items`].
#[verifier::external_type_specification]
#[verifier::external_body]
#[verifier::reject_recursive_types(K)]
#[verifier::reject_recursive_types(V)]
pub struct ExMap<K, V>(toml::map::Map<K, V>);

/// `toml::Value`, one value of a TOML document. Opaque to the verifier.
#[verifier::external_type_specification]
#[verifier::external_body]
pub struct ExValue(toml::Value);

/// `toml::de::Error`, the reason a text was not accepted as TOML. Opaque.
#[verifier::external_type_specification]
#[verifier::external_body]
pub struct ExParseError(toml::de::Error);

/// `toml::ser::Error`, the reason a table could not be rendered. Opaque.
#[verifier::external_type_specification]
#[verifier::external_body]
pub struct ExRenderError(toml::ser::Error);

/// The mathematical value of a table entry: a string, a boolean, or a value
/// of any other TOML kind, of which nothing more is recorded.
pub enum ItemView {
    Text(Seq<char>),
    Flag(bool),
    Other,
}

/// A string or a boolean on its way into a table.
pub enum Scalar {
    Text(String),
    Flag(bool),
}

impl View for Scalar {
    type V = ItemView;

    open spec fn view(&self) -> ItemView {
        match self {
            Scalar::Text(text) => ItemView::Text(text@),
            Scalar::Flag(flag) => ItemView::Flag(*flag),
        }
    }
}

/// A table entry as read back: its string, its boolean, or the mere fact
/// that it is of another kind.
#[derive(Debug, PartialEq, Eq)]
pub enum Item {
    Text(String),
    Flag(bool),
    Other,
}

impl View for Item {
    type V = ItemView;

    open spec fn view(&self) -> ItemView {
        match self {
            Item::Text(text) => ItemView::Text(text@),
            Item::Flag(flag) => ItemView::Flag(*flag),
            Item::Other => ItemView::Other,
        }
    }
}

/// The top-level entries of a table, by key.
pub uninterp spec fn table_items(table: toml::map::Map<String, toml::Value>) -> Map<Seq<char>, ItemView>;

/// The top-level entries of the table that `toml::from_str` reads from a text,
/// or `None` where it rejects the text.
pub uninterp spec fn parsed_items(text: Seq<char>) -> Option<Map<Seq<char>, ItemView>>;

/// The text that `toml::to_string` gives for a table of strings and booleans
/// with these entries, or `None` where it reports an error.
pub uninterp spec fn rendered_text(items: Map<Seq<char>, ItemView>) -> Option<Seq<char>>;

/// Every entry is a string or a boolean.
pub open spec fn all_scalar(items: Map<Seq<char>, ItemView>) -> bool {
    forall|key: Seq<char>| #[trigger] items.dom().contains(key) ==> !(items[key] is Other)
}

/// The entry under `key`, if there is one.
pub open spec fn item_at(items: Map<Seq<char>, ItemView>, key: Seq<char>) -> Option<ItemView> {
    if items.dom().contains(key) {
        Some(items[key])
    } else {
        None
    }
}

/// The entries of an empty table.
pub open spec fn no_items() -> Map<Seq<char>, ItemView> {
    Map::empty()
}

/// `toml::map::Map::new`: a table without entries.
#[verifier::external_body]
pub(crate) fn new_table() -> (table: toml::Table)
    ensures
        table_items(table) == no_items(),
{
    toml::Table::new()
}

/// `toml::map::Map::insert`: the table afterwards holds `scalar` under `key`,
/// in place of whatever stood there, and every other entry as before.
#[verifier::external_body]
pub(crate) fn insert_scalar(table: &mut toml::Table, key: &str, scalar: Scalar)
    ensures
        table_items(*final(table)) == table_items(*old(table)).insert(key@, scalar@),
{
    let value = match scalar {
        Scalar::Text(text) => toml::Value::String(text),
        Scalar::Flag(flag) => toml::Value::Boolean(flag),
    };
    table.insert(key.to_string(), value);
}

/// `toml::map::Map::get`: the entry under `key`, copied out as a plain value,
/// or `None` where the table has no such key.
#[verifier::external_body]
pub(crate) fn lookup(table: &toml::Table, key: &str) -> (found: Option<Item>)
    ensures
        found is Some <==> table_items(*table).dom().contains(key@),
        found matches Some(item) ==> item@ == table_items(*table)[key@],
{
    match table.get(key) {
        None => None,
        Some(toml::Value::String(text)) => Some(Item::Text(text.clone())),
        Some(toml::Value::Boolean(flag)) => Some(Item::Flag(*flag)),
        Some(toml::Value::Integer(_)) => Some(Item::Other),
        Some(toml::Value::Float(_)) => Some(Item::Other),
        Some(toml::Value::Datetime(_)) => Some(Item::Other),
        Some(toml::Value::Array(_)) => Some(Item::Other),
        Some(toml::Value::Table(_)) => Some(Item::Other),
    }
}

/// `toml::from_str`, reading a whole document into a table: it accepts the
/// text exactly where [`parsed_items`] is `Some`, and the table it gives then
/// has those entries.
#[verifier::external_body]
pub(crate) fn parse_table(text: &str) -> (parsed: Result<toml::Table, toml::de::Error>)
    ensures
        parsed is Ok <==> parsed_items(text@) is Some,
        parsed matches Ok(table) ==> parsed_items(text@) == Some(table_items(table)),
{
    toml::from_str::<toml::Table>(text)
}

/// `toml::to_string` on a table of strings and booleans: it gives a text
/// exactly where [`rendered_text`] is `Some`, and then that text.
#[verifier::external_body]
pub(crate) fn render_table(table: &toml::Table) -> (rendered: Result<String, toml::ser::Error>)
    requires
        all_scalar(table_items(*table)),
    ensures
        rendered is Ok <==> rendered_text(table_items(*table)) is Some,
        rendered matches Ok(text) ==> rendered_text(table_items(*table)) == Some(text@),
{
    toml::to_string(table)
}

} // verus!
