//! From JSON text to documents, by way of `serde_json`.

use crate::error::AgentError;
use crate::json::{Json, JsonTree};
use vstd::prelude::*;

verus! {

/// The document type of `serde_json`.
#[verifier::external_type_specification]
#[verifier::external_body]
pub struct ExValue(serde_json::Value);

/// What a `serde_json::Value` holds: the members of an object in the order in which
/// its map hands them out.
pub uninterp spec fn value_tree(value: serde_json::Value) -> JsonTree;

/// What `serde_json::from_str` makes of a text: a JSON document, or the error it gives.
pub uninterp spec fn parsed_text(text: Seq<char>) -> Result<JsonTree, serde_json::Error>;

/// One level of a `serde_json::Value`.
enum Node {
    Null,
    Bool(bool),
    Number,
    Text(String),
    List(Vec<serde_json::Value>),
    Record(Vec<(String, serde_json::Value)>),
}

impl Node {
    /// What the document holds whose top level this is.
    spec fn tree(self) -> JsonTree {
        match self {
            Node::Null => JsonTree::Null,
            Node::Bool(b) => JsonTree::Bool(b),
            Node::Number => JsonTree::Number,
            Node::Text(s) => JsonTree::Text(s@),
            Node::List(v) => JsonTree::List(v@.map_values(|x: serde_json::Value| value_tree(x))),
            Node::Record(v) => JsonTree::Record(
                v@.map_values(|e: (String, serde_json::Value)| (e.0@, value_tree(e.1))),
            ),
        }
    }
}

/// One level of a value holds what it was made of: strings character for character, and
/// every item and member with what the value in it holds.
proof fn levels_hold_what_they_are_made_of(
    b: bool,
    s: String,
    list: Vec<serde_json::Value>,
    record: Vec<(String, serde_json::Value)>,
    i: int,
)
    ensures
        Node::Null.tree() == JsonTree::Null,
        Node::Bool(b).tree() == JsonTree::Bool(b),
        Node::Number.tree() == JsonTree::Number,
        Node::Text(s).tree() == JsonTree::Text(s@),
        Node::List(list).tree() is List,
        Node::List(list).tree()->List_0.len() == list@.len(),
        0 <= i < list@.len() ==> Node::List(list).tree()->List_0[i] == value_tree(list@[i]),
        Node::Record(record).tree() is Record,
        Node::Record(record).tree()->Record_0.len() == record@.len(),
        0 <= i < record@.len() ==> Node::Record(record).tree()->Record_0[i] == (
            record@[i].0@,
            value_tree(record@[i].1),
        ),
{
}

/// Calls `serde_json::from_str` for a `serde_json::Value`. Its outcome depends on the
/// text alone: either the text is rejected, with the error that says where and why, or
/// the value holds the document that the text stands for. Which texts those are, and
/// which error or document, is not said here.
#[verifier::external_body]
fn parse_value(text: &str) -> (r: Result<serde_json::Value, serde_json::Error>)
    ensures
        match r {
            Ok(value) => parsed_text(text@) is Ok && parsed_text(text@)->Ok_0 == value_tree(value),
            Err(e) => parsed_text(text@) is Err && parsed_text(text@)->Err_0 == e,
        },
{
    serde_json::from_str(text)
}

/// Tells the variants of `serde_json::Value` apart and hands out what each holds. An
/// object becomes the list of its members, as its map's `into_iter` gives them.
#[verifier::external_body]
fn open_value(value: serde_json::Value) -> (r: Node)
    ensures
        value_tree(value) == r.tree(),
{
    match value {
        serde_json::Value::Null => Node::Null,
        serde_json::Value::Bool(b) => Node::Bool(b),
        serde_json::Value::Number(_) => Node::Number,
        serde_json::Value::String(s) => Node::Text(s),
        serde_json::Value::Array(v) => Node::List(v),
        serde_json::Value::Object(m) => Node::Record(m.into_iter().collect()),
    }
}

/// The document that a `serde_json::Value` holds.
fn from_value(value: serde_json::Value) -> (r: Json)
    ensures
        r@ == value_tree(value),
    decreases value_tree(value),
{
    let ghost tree = value_tree(value);
    match open_value(value) {
        Node::Null => Json::Null,
        Node::Bool(b) => Json::Bool(b),
        Node::Number => Json::Number,
        Node::Text(s) => Json::Text(s),
        Node::List(values) => {
            let ghost trees = tree->List_0;
            let mut out: Vec<Json> = Vec::new();
            for v in it: values
                invariant
                    value_tree(value) == JsonTree::List(trees),
                    trees == it.seq().map_values(|x: serde_json::Value| value_tree(x)),
                    out.len() == it.index(),
                    forall|i: int| 0 <= i < out.len() ==> (#[trigger] out@[i])@ == trees[i],
            {
                assert(value_tree(v) == trees[it.index() as int]);
                assert(decreases_to!(value_tree(value) => value_tree(value)->List_0));
                assert(decreases_to!(trees => trees[it.index() as int]));
                out.push(from_value(v));
            }
            let json = Json::List(out);
            assert(json@->List_0 =~= trees);
            json
        },
        Node::Record(members) => {
            let ghost trees = tree->Record_0;
            let mut out: Vec<(String, Json)> = Vec::new();
            for m in it: members
                invariant
                    value_tree(value) == JsonTree::Record(trees),
                    trees == it.seq().map_values(
                        |e: (String, serde_json::Value)| (e.0@, value_tree(e.1)),
                    ),
                    out.len() == it.index(),
                    forall|i: int|
                        0 <= i < out.len() ==> ((#[trigger] out@[i]).0@, out@[i].1@) == trees[i],
            {
                let ghost member = trees[it.index() as int];
                assert((m.0@, value_tree(m.1)) == member);
                assert(decreases_to!(value_tree(value) => value_tree(value)->Record_0));
                assert(decreases_to!(trees => trees[it.index() as int]));
                assert(decreases_to!(member => member.1));
                out.push((m.0, from_value(m.1)));
            }
            let json = Json::Record(out);
            assert(json@->Record_0 =~= trees);
            json
        },
    }
}

/// The document that a text stands for, or the error that `serde_json` gives for it.
pub fn parse_json(text: &str) -> (r: Result<Json, AgentError>)
    ensures
        match parsed_text(text@) {
            Ok(tree) => r is Ok && r->Ok_0@ == tree,
            Err(e) => r is Err && r->Err_0 == AgentError::Json(e),
        },
{
    match parse_value(text) {
        Ok(value) => Ok(from_value(value)),
        Err(e) => Err(AgentError::Json(e)),
    }
}

} // verus!
