//! The trusted boundary to the JSON parser, and the plain tree it hands
//! back. One wrapper parses a body into a [`Json`] tree of library-owned
//! values; a name, [`json_tree_of`], stands for the tree a given body
//! parses to, so that verified decoding downstream can be specified
//! exactly over the body text. All interpretation of the tree is done by
//! verified code.

use vstd::prelude::*;

verus! {

#[verifier::external_type_specification]
#[verifier::external_body]
pub struct ExValue(serde_json::Value);

/// A parsed JSON node, as far as this wire format reads one: the format's
/// nodes are strings and objects, so any other node keeps only its kind.
#[derive(Debug)]
pub enum Json {
    /// A JSON string.
    Text(String),
    /// A JSON object: its key-value members, in the parser's order.
    Object(Vec<(String, Json)>),
    /// A null, boolean, number or array node.
    Other,
}

/// Mathematical model of a [`Json`] node.
pub ghost enum JsonView {
    Text(Seq<char>),
    Object(Seq<(Seq<char>, JsonView)>),
    Other,
}

/// The model of a [`Json`] node.
pub open spec fn json_view(j: Json) -> JsonView
    decreases j,
{
    match j {
        Json::Text(s) => JsonView::Text(s@),
        Json::Object(v) => JsonView::Object(
            Seq::new(
                v@.len(),
                |i: int|
                    if 0 <= i < v@.len() {
                        (v@[i].0@, json_view(v@[i].1))
                    } else {
                        (Seq::empty(), JsonView::Other)
                    },
            ),
        ),
        Json::Other => JsonView::Other,
    }
}

/// The models of an object's members.
pub open spec fn obj_view(entries: Seq<(String, Json)>) -> Seq<(Seq<char>, JsonView)> {
    Seq::new(entries.len(), |i: int| (entries[i].0@, json_view(entries[i].1)))
}

/// An object node's model is built member by member.
pub proof fn lemma_object_view(v: Vec<(String, Json)>)
    ensures
        json_view(Json::Object(v)) == JsonView::Object(obj_view(v@)),
{
    assert(json_view(Json::Object(v))->Object_0 =~= obj_view(v@));
}

/// The tree that a given body text parses to: `None` when the text is not
/// valid JSON. The parser is deterministic — which tree comes back depends
/// on the text alone — so the result can carry a name.
pub uninterp spec fn json_tree_of(body: Seq<char>) -> Option<JsonView>;

/// Relies on serde_json::from_str: parses one JSON document, `None` on
/// malformed text. The tree handed back is the one the name
/// [`json_tree_of`] stands for.
#[verifier::external_body]
pub(crate) fn parse_json_tree(body: &str) -> (r: Option<Json>)
    ensures
        match r {
            Some(j) => json_tree_of(body@) == Some(json_view(j)),
            None => json_tree_of(body@) is None,
        },
{
    match serde_json::from_str::<serde_json::Value>(body) {
        Ok(v) => Some(value_tree(v)),
        Err(_) => None,
    }
}

/// Conversion helper of [`parse_json_tree`]'s body: one arm per variant of
/// serde_json::Value, moving its fields into the library's tree. The wire
/// format reads only strings and objects, so the other kinds keep nothing
/// but their being neither.
#[verifier::external_body]
fn value_tree(v: serde_json::Value) -> Json {
    match v {
        serde_json::Value::String(s) => Json::Text(s),
        serde_json::Value::Object(m) => Json::Object(
            m.into_iter().map(|(k, x)| (k, value_tree(x))).collect(),
        ),
        serde_json::Value::Null => Json::Other,
        serde_json::Value::Bool(_) => Json::Other,
        serde_json::Value::Number(_) => Json::Other,
        serde_json::Value::Array(_) => Json::Other,
    }
}

} // verus!
