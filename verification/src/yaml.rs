//! A YAML document as a tree of plain values, and the parser that reads one.

use serde_yaml::Value;
use vstd::prelude::*;

verus! {

/// One node of a YAML document.
#[derive(Debug, PartialEq)]
pub enum Yaml {
    /// The null value; also what an empty document holds.
    Null,
    /// A boolean.
    Bool(bool),
    /// A number. It carries its value where that is a non-negative integer below 2^64.
    Number(Option<u64>),
    /// A string.
    Text(String),
    /// A sequence of nodes.
    Sequence(Vec<Yaml>),
    /// A mapping, as its entries (key, value) in document order.
    Mapping(Vec<(Yaml, Yaml)>),
    /// A node under a tag; the tag is written with its leading `!`.
    Tagged(String, Box<Yaml>),
}

/// The mathematical value of a [`Yaml`] node.
pub enum YamlView {
    Null,
    Bool(bool),
    Number(Option<u64>),
    Text(Seq<char>),
    Sequence(Seq<YamlView>),
    Mapping(Seq<(YamlView, YamlView)>),
    Tagged(Seq<char>, Box<YamlView>),
}

/// The value of a tree, node by node.
pub open spec fn tree_view(tree: Yaml) -> YamlView
    decreases tree,
{
    match tree {
        Yaml::Null => YamlView::Null,
        Yaml::Bool(b) => YamlView::Bool(b),
        Yaml::Number(n) => YamlView::Number(n),
        Yaml::Text(s) => YamlView::Text(s@),
        Yaml::Sequence(items) => YamlView::Sequence(
            Seq::new(
                items@.len(),
                |i: int|
                    if 0 <= i < items@.len() {
                        tree_view(items@[i])
                    } else {
                        YamlView::Null
                    },
            ),
        ),
        Yaml::Mapping(entries) => YamlView::Mapping(
            Seq::new(
                entries@.len(),
                |i: int|
                    if 0 <= i < entries@.len() {
                        (tree_view(entries@[i].0), tree_view(entries@[i].1))
                    } else {
                        (YamlView::Null, YamlView::Null)
                    },
            ),
        ),
        Yaml::Tagged(tag, inner) => YamlView::Tagged(tag@, Box::new(tree_view(*inner))),
    }
}

impl View for Yaml {
    type V = YamlView;

    open spec fn view(&self) -> YamlView {
        tree_view(*self)
    }
}

/// The values of a mapping's entries, entry by entry.
pub open spec fn entries_view(entries: Seq<(Yaml, Yaml)>) -> Seq<(YamlView, YamlView)> {
    Seq::new(entries.len(), |i: int| (entries[i].0@, entries[i].1@))
}

/// The values of a sequence's items, item by item.
pub open spec fn items_view(items: Seq<Yaml>) -> Seq<YamlView> {
    Seq::new(items.len(), |i: int| items[i]@)
}

/// The value of a mapping is the mapping of its entries' values.
pub proof fn lemma_mapping_view(entries: Vec<(Yaml, Yaml)>)
    ensures
        Yaml::Mapping(entries)@ == YamlView::Mapping(entries_view(entries@)),
{
    assert(Yaml::Mapping(entries)@->Mapping_0 =~= entries_view(entries@));
}

/// The value of a sequence is the sequence of its items' values.
pub proof fn lemma_sequence_view(items: Vec<Yaml>)
    ensures
        Yaml::Sequence(items)@ == YamlView::Sequence(items_view(items@)),
{
    assert(Yaml::Sequence(items)@->Sequence_0 =~= items_view(items@));
}

/// The outcome of reading `text` as one YAML document: the document's tree, or the
/// parser's message where the text is not one well-formed document.
pub uninterp spec fn yaml_document(text: Seq<char>) -> Result<YamlView, Seq<char>>;

/// `serde_yaml::Value`, the parser's own tree. Nothing here looks inside one: it is
/// moved into a [`Yaml`] tree at once.
#[verifier::external_type_specification]
#[verifier::external_body]
pub struct ExValue(serde_yaml::Value);

/// Moves a `serde_yaml::Value` into a [`Yaml`] tree, node for node. A number keeps what
/// `serde_yaml::Number::as_u64` gives for it, a tag what its `Display` prints.
#[verifier::external_body]
fn tree_of(value: Value) -> Yaml {
    match value {
        Value::Null => Yaml::Null,
        Value::Bool(b) => Yaml::Bool(b),
        Value::Number(n) => Yaml::Number(n.as_u64()),
        Value::String(s) => Yaml::Text(s),
        Value::Sequence(items) => Yaml::Sequence(items.into_iter().map(tree_of).collect()),
        Value::Mapping(entries) => Yaml::Mapping(
            entries.into_iter().map(|(k, v)| (tree_of(k), tree_of(v))).collect(),
        ),
        Value::Tagged(t) => Yaml::Tagged(t.tag.to_string(), Box::new(tree_of(t.value))),
    }
}

/// Reads `text` as one YAML document with `serde_yaml::from_str`, at the type
/// `serde_yaml::Value`. The contract claims only that what comes back is a function of
/// the text: the tree of the document, or the message of the parser's error.
#[verifier::external_body]
pub(crate) fn parse_yaml(text: &str) -> (r: Result<Yaml, String>)
    ensures
        match r {
            Ok(tree) => yaml_document(text@) == Ok::<YamlView, Seq<char>>(tree@),
            Err(message) => yaml_document(text@) == Err::<YamlView, Seq<char>>(message@),
        },
{
    match serde_yaml::from_str::<Value>(text) {
        Ok(value) => Ok(tree_of(value)),
        Err(error) => Err(error.to_string()),
    }
}

} // verus!
