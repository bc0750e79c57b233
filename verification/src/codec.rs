//! The conversion layer: YAML and JSON text to documents and back. The parsers
//! and printers are those of `serde_yaml` and `serde_json`.
//!
//! Text is written from a `serde_json::Value`, whose objects keep their keys
//! sorted. So the keys of a mapping are written in sorted order, whatever the
//! order of its entries, and the order in which the user wrote them is not
//! kept.

use crate::document::{Document, Tree};
use crate::error::YamlEditorError;
use vstd::prelude::*;

verus! {

/// `serde_json::Value`, the tree that both parsers build and both printers
/// write. Nothing of what it holds is seen here; `from_json` and `to_json`
/// convert it.
#[verifier::external_type_specification]
#[verifier::external_body]
pub struct ExJsonValue(serde_json::Value);

/// The tree that a `serde_json::Value` holds.
pub uninterp spec fn json_tree(raw: serde_json::Value) -> Tree;

/// The tree that `serde_json::from_str` reads from a text, or, where it
/// reports an error, the message of that error.
pub uninterp spec fn json_parse(text: Seq<char>) -> Result<Tree, Seq<char>>;

/// The message of a `serde_json::Error`: what its `Display` writes.
pub uninterp spec fn json_error_text(error: serde_json::Error) -> Seq<char>;

/// The text that `serde_json::to_string_pretty` writes for a tree, or `None`
/// where it reports an error.
pub uninterp spec fn json_pretty(tree: Tree) -> Option<Seq<char>>;

/// The tree that `serde_yaml::from_str` reads from a text, or, where it
/// reports an error, the message of that error.
pub uninterp spec fn yaml_parse(text: Seq<char>) -> Result<Tree, Seq<char>>;

/// The message of a `serde_yaml::Error`: what its `Display` writes.
pub uninterp spec fn yaml_error_text(error: serde_yaml::Error) -> Seq<char>;

/// The text that `serde_yaml::to_string` writes for a tree, or `None` where it
/// reports an error.
pub uninterp spec fn yaml_text(tree: Tree) -> Option<Seq<char>>;

/// Calls `serde_json::from_str` for a `serde_json::Value`. The contract names
/// the outcome `json_parse` of the text: whether the call succeeds, the tree
/// that the value holds, and the message of the error depend on the text
/// alone.
#[verifier::external_body]
fn json_from_str(text: &str) -> (parsed: Result<serde_json::Value, serde_json::Error>)
    ensures
        match json_parse(text@) {
            Ok(tree) => parsed matches Ok(raw) && json_tree(raw) == tree,
            Err(message) => parsed matches Err(error) && json_error_text(error) == message,
        },
{
    serde_json::from_str::<serde_json::Value>(text)
}

/// Calls `serde_json::to_string_pretty` on a `serde_json::Value`. The contract
/// names the outcome `json_pretty` of the tree that the value holds: whether
/// the call succeeds, and the text, depend on that tree alone.
#[verifier::external_body]
fn json_to_string_pretty(raw: &serde_json::Value) -> (written: Result<String, serde_json::Error>)
    ensures
        match json_pretty(json_tree(*raw)) {
            Some(text) => written matches Ok(json) && json@ == text,
            None => written is Err,
        },
{
    serde_json::to_string_pretty(raw)
}

/// Calls `serde_yaml::from_str` for a `serde_json::Value`. The contract names
/// the outcome `yaml_parse` of the text: whether the call succeeds, the tree
/// that the value holds, and the message of the error depend on the text
/// alone.
#[verifier::external_body]
fn yaml_from_str(text: &str) -> (parsed: Result<serde_json::Value, serde_yaml::Error>)
    ensures
        match yaml_parse(text@) {
            Ok(tree) => parsed matches Ok(raw) && json_tree(raw) == tree,
            Err(message) => parsed matches Err(error) && yaml_error_text(error) == message,
        },
{
    serde_yaml::from_str::<serde_json::Value>(text)
}

/// Calls `serde_yaml::to_string` on a `serde_json::Value`. The contract names
/// the outcome `yaml_text` of the tree that the value holds: whether the call
/// succeeds, and the text, depend on that tree alone.
#[verifier::external_body]
fn yaml_to_string(raw: &serde_json::Value) -> (written: Result<String, serde_yaml::Error>)
    ensures
        match yaml_text(json_tree(*raw)) {
            Some(text) => written matches Ok(yaml) && yaml@ == text,
            None => written is Err,
        },
{
    serde_yaml::to_string(raw)
}

/// Turns a `serde_json::Value` into a [`Document`], variant by variant: an array
/// becomes a sequence, and an object becomes a mapping with one entry for each
/// entry of the `serde_json::Map`. The contract claims that the value means the
/// tree that the `serde_json::Value` holds, and that the keys of each mapping
/// are distinct, as the keys of a `serde_json::Map` are.
#[verifier::external_body]
fn from_json(raw: serde_json::Value) -> (value: Document)
    ensures
        value@ == json_tree(raw),
        value.wf(),
{
    match raw {
        serde_json::Value::Null => Document::Null,
        serde_json::Value::Bool(b) => Document::Boolean(b),
        serde_json::Value::Number(n) => Document::Number(n),
        serde_json::Value::String(s) => Document::Text(s),
        serde_json::Value::Array(items) => Document::Sequence(items.into_iter().map(from_json).collect()),
        serde_json::Value::Object(map) => Document::Mapping(
            map.into_iter().map(|(key, item)| (key, from_json(item))).collect(),
        ),
    }
}

/// Turns a [`Document`] into a `serde_json::Value`, variant by variant: a
/// sequence becomes an array, and the entries of a mapping are put into a
/// `serde_json::Map` with `insert`, one after the other, which lets a later
/// entry replace an earlier one with the same key. The contract claims that the
/// `serde_json::Value` holds the tree that the value means.
#[verifier::external_body]
fn to_json(value: &Document) -> (raw: serde_json::Value)
    ensures
        json_tree(raw) == value@,
{
    match value {
        Document::Null => serde_json::Value::Null,
        Document::Boolean(b) => serde_json::Value::Bool(*b),
        Document::Number(n) => serde_json::Value::Number(n.clone()),
        Document::Text(s) => serde_json::Value::String(s.clone()),
        Document::Sequence(items) => serde_json::Value::Array(items.iter().map(to_json).collect()),
        Document::Mapping(entries) => {
            let mut map = serde_json::Map::new();
            for (key, item) in entries {
                map.insert(key.clone(), to_json(item));
            }
            serde_json::Value::Object(map)
        },
    }
}

/// Reads a document from YAML text.
pub fn decode_yaml(text: &str) -> (decoded: Result<Document, YamlEditorError>)
    ensures
        match yaml_parse(text@) {
            Ok(tree) => decoded matches Ok(value) && value@ == tree && value.wf(),
            Err(message) => {
                &&& decoded matches Err(YamlEditorError::YamlRead(error))
                &&& yaml_error_text(error) == message
            },
        },
{
    match yaml_from_str(text) {
        Ok(raw) => Ok(from_json(raw)),
        Err(error) => Err(YamlEditorError::from(error)),
    }
}

/// Writes a document as indented JSON text.
pub fn encode_json_pretty(value: &Document) -> (encoded: Result<String, YamlEditorError>)
    ensures
        match json_pretty(value@) {
            Some(text) => encoded matches Ok(json) && json@ == text,
            None => encoded matches Err(YamlEditorError::JsonSerialization(_)),
        },
{
    let raw = to_json(value);
    match json_to_string_pretty(&raw) {
        Ok(json) => Ok(json),
        Err(error) => Err(YamlEditorError::JsonSerialization(error)),
    }
}

/// Reads a document from JSON text.
pub fn decode_json(text: &str) -> (decoded: Result<Document, YamlEditorError>)
    ensures
        match json_parse(text@) {
            Ok(tree) => decoded matches Ok(value) && value@ == tree && value.wf(),
            Err(message) => {
                &&& decoded matches Err(YamlEditorError::JsonDeserialization(error))
                &&& json_error_text(error) == message
            },
        },
{
    match json_from_str(text) {
        Ok(raw) => Ok(from_json(raw)),
        Err(error) => Err(YamlEditorError::JsonDeserialization(error)),
    }
}

/// Writes a document as YAML text.
pub fn encode_yaml(value: &Document) -> (encoded: Result<String, YamlEditorError>)
    ensures
        match yaml_text(value@) {
            Some(text) => encoded matches Ok(yaml) && yaml@ == text,
            None => encoded matches Err(YamlEditorError::YamlRead(_)),
        },
{
    let raw = to_json(value);
    match yaml_to_string(&raw) {
        Ok(yaml) => Ok(yaml),
        Err(error) => Err(YamlEditorError::from(error)),
    }
}

} // verus!
