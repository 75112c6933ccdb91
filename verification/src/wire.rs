//! The passage between JSON values and `serde_json`: its values, its parser and its printer.
use vstd::prelude::*;
use vstd::utf8::{decode_utf8, valid_utf8};

use crate::json::{
    lemma_items_view, lemma_members_view, lemma_object_map_finite, lemma_object_map_last,
    object_map, Json, JsonView,
};
use crate::text::occurs_in;

verus! {

/// A JSON value of `serde_json`.
#[verifier::external_type_specification]
#[verifier::external_body]
pub struct ExValue(serde_json::Value);

/// What a `serde_json::Value` holds.
pub uninterp spec fn value_tree(value: serde_json::Value) -> JsonView;

/// What `serde_json::from_str` makes of a text: a JSON value, or the message of the error.
pub uninterp spec fn json_from_text(text: Seq<char>) -> Result<JsonView, Seq<char>>;

/// What `serde_json::to_vec` prints for an object of texts and truth values.
pub uninterp spec fn printed_json(tree: JsonView) -> Seq<u8>;

/// `serde_json::from_str` reads `text` as `tree`.
pub open spec fn reads_as(text: Seq<char>, tree: JsonView) -> bool {
    &&& json_from_text(text) is Ok
    &&& json_from_text(text)->Ok_0 == tree
}

/// The outermost layer of a `serde_json::Value`.
enum Layer {
    Null,
    Bool(bool),
    Number(Option<i64>),
    Text(String),
    Items(Vec<serde_json::Value>),
    Members(Vec<(String, serde_json::Value)>),
}

/// What the values of a list hold.
spec fn item_trees(items: Seq<serde_json::Value>) -> Seq<JsonView> {
    items.map_values(|v: serde_json::Value| value_tree(v))
}

/// What the members of a list hold.
pub open spec fn member_trees(members: Seq<(String, serde_json::Value)>) -> Seq<
    (Seq<char>, JsonView),
> {
    members.map_values(|m: (String, serde_json::Value)| (m.0@, value_tree(m.1)))
}

/// What the value under a layer is.
spec fn layer_tree(layer: Layer) -> JsonView {
    match layer {
        Layer::Null => JsonView::Null,
        Layer::Bool(b) => JsonView::Bool(b),
        Layer::Number(n) => JsonView::Number(n),
        Layer::Text(s) => JsonView::Text(s@),
        Layer::Items(items) => JsonView::Array(item_trees(items@)),
        Layer::Members(members) => JsonView::Object(object_map(member_trees(members@))),
    }
}

/// The keys of a list of members.
pub open spec fn member_keys(members: Seq<(String, serde_json::Value)>) -> Seq<Seq<char>> {
    members.map_values(|m: (String, serde_json::Value)| m.0@)
}

/// No key occurs twice in a list of members.
pub open spec fn distinct_keys(members: Seq<(String, serde_json::Value)>) -> bool {
    member_keys(members).no_duplicates()
}

/// An object of texts and truth values, none of whose keys holds a dollar sign.
pub open spec fn flat_object(tree: JsonView) -> bool {
    match tree {
        JsonView::Object(members) => forall|key: Seq<char>| #[trigger]
            members.dom().contains(key) ==> {
                &&& members[key] is Text || members[key] is Bool
                &&& !key.contains('$')
            },
        _ => false,
    }
}

/// Takes the outermost layer off a value.
///
/// Trusted: tells the variants of `serde_json::Value` apart and moves what each holds; a number
/// passes through `serde_json::Number::as_i64`. A `serde_json::Map` holds no key twice.
#[verifier::external_body]
fn open_value(value: serde_json::Value) -> (layer: Layer)
    ensures
        layer_tree(layer) == value_tree(value),
        layer matches Layer::Members(members) ==> distinct_keys(members@),
{
    match value {
        serde_json::Value::Null => Layer::Null,
        serde_json::Value::Bool(b) => Layer::Bool(b),
        serde_json::Value::Number(n) => Layer::Number(n.as_i64()),
        serde_json::Value::String(s) => Layer::Text(s),
        serde_json::Value::Array(items) => Layer::Items(items),
        serde_json::Value::Object(members) => Layer::Members(members.into_iter().collect()),
    }
}

/// A JSON text as a value.
///
/// Trusted: builds `serde_json::Value::String`, which holds the text.
#[verifier::external_body]
pub(crate) fn text_value(text: String) -> (value: serde_json::Value)
    ensures
        value_tree(value) == JsonView::Text(text@),
{
    serde_json::Value::String(text)
}

/// A truth value as a value.
///
/// Trusted: builds `serde_json::Value::Bool`, which holds the truth value.
#[verifier::external_body]
pub(crate) fn bool_value(b: bool) -> (value: serde_json::Value)
    ensures
        value_tree(value) == JsonView::Bool(b),
{
    serde_json::Value::Bool(b)
}

/// An object as a value.
///
/// Trusted: collects the members, none of which share a key, into a `serde_json::Map`, which then
/// holds each of them, and builds `serde_json::Value::Object`, which holds the map.
#[verifier::external_body]
pub(crate) fn object_value(members: Vec<(String, serde_json::Value)>) -> (value: serde_json::Value)
    requires
        distinct_keys(members@),
    ensures
        value_tree(value) == JsonView::Object(object_map(member_trees(members@))),
{
    serde_json::Value::Object(members.into_iter().collect())
}

/// Parses a JSON text.
///
/// Trusted: calls `serde_json::from_str` for a `serde_json::Value`. Its outcome is a function of
/// the text, named `json_from_text`: the value, or the message of the error. No message that the
/// parser writes for a `serde_json::Value` holds the word `Failed`.
#[verifier::external_body]
fn value_from_str(text: &str) -> (r: Result<serde_json::Value, String>)
    ensures
        match r {
            Ok(value) => reads_as(text@, value_tree(value)),
            Err(message) => {
                &&& json_from_text(text@) is Err
                &&& json_from_text(text@)->Err_0 == message@
                &&& !occurs_in(message@, "Failed"@)
            },
        },
{
    serde_json::from_str(text).map_err(|e| e.to_string())
}

/// Prints an object of texts and truth values.
///
/// Trusted: calls `serde_json::to_vec`, which does not fail on such an object and prints UTF-8
/// text that `serde_json::from_str` reads back as the same object. A `serde_json::Map` keeps its
/// members in the order of their keys, so the text is a function of the object, named
/// `printed_json`.
#[verifier::external_body]
fn value_to_vec(value: &serde_json::Value) -> (r: Option<Vec<u8>>)
    requires
        flat_object(value_tree(*value)),
    ensures
        match r {
            Some(bytes) => {
                &&& bytes@ == printed_json(value_tree(*value))
                &&& valid_utf8(bytes@)
                &&& reads_as(decode_utf8(bytes@), value_tree(*value))
            },
            None => false,
        },
{
    serde_json::to_vec(value).ok()
}

/// A value that an object holds is smaller than the object.
proof fn lemma_member_decreases(members: Seq<(String, serde_json::Value)>, at: int)
    requires
        distinct_keys(members),
        0 <= at < members.len(),
    ensures
        decreases_to!(JsonView::Object(object_map(member_trees(members))) => value_tree(members[at].1)),
{
    let trees = member_trees(members);
    assert forall|j: int| at < j < trees.len() implies trees[j].0 != trees[at].0 by {
        assert(member_keys(members)[at] != member_keys(members)[j]);
    }
    lemma_object_map_last(trees, at);
    lemma_object_map_finite(trees);
    let tree = JsonView::Object(object_map(trees));
    assert(decreases_to!(tree => tree->Object_0));
    assert(decreases_to!(tree->Object_0 => tree->Object_0[trees[at].0]));
}

impl Json {
    /// Takes over a `serde_json` value.
    pub fn from_value(value: serde_json::Value) -> (r: Json)
        ensures
            r@ == value_tree(value),
        decreases value_tree(value),
    {
        match open_value(value) {
            Layer::Null => Json::Null,
            Layer::Bool(b) => Json::Bool(b),
            Layer::Number(n) => Json::Number(n),
            Layer::Text(s) => Json::Text(s),
            Layer::Items(items) => {
                let ghost trees = item_trees(items@);
                let mut out: Vec<Json> = Vec::new();
                for item in it: items
                    invariant
                        it.seq() == items@,
                        trees == item_trees(items@),
                        value_tree(value) == JsonView::Array(trees),
                        out@.len() == it.index(),
                        forall|i: int| 0 <= i < out@.len() ==> #[trigger] out@[i].tree() == trees[i],
                {
                    proof {
                        let tree = value_tree(value);
                        assert(decreases_to!(tree => tree->Array_0));
                        assert(decreases_to!(tree->Array_0 => tree->Array_0[it.index()]));
                        assert(trees[it.index()] == value_tree(item));
                    }
                    out.push(Json::from_value(item));
                }
                proof {
                    lemma_items_view(out@);
                    assert(Json::items_view(out@) =~= trees);
                }
                Json::Array(out)
            },
            Layer::Members(members) => {
                let ghost trees = member_trees(members@);
                let mut out: Vec<(String, Json)> = Vec::new();
                for member in it: members
                    invariant
                        it.seq() == members@,
                        distinct_keys(members@),
                        trees == member_trees(members@),
                        value_tree(value) == JsonView::Object(object_map(trees)),
                        out@.len() == it.index(),
                        forall|i: int|
                            0 <= i < out@.len() ==> (#[trigger] out@[i].0@, out@[i].1.tree())
                                == trees[i],
                {
                    proof {
                        lemma_member_decreases(members@, it.index());
                    }
                    let ghost before = out@;
                    let (key, inner) = member;
                    out.push((key, Json::from_value(inner)));
                    assert forall|i: int| 0 <= i < out@.len() implies (
                        #[trigger] out@[i].0@,
                        out@[i].1.tree(),
                    ) == trees[i] by {
                        if i < before.len() {
                            assert(out@[i] == before[i]);
                        }
                    }
                }
                proof {
                    lemma_members_view(out@);
                    assert(Json::members_view(out@) =~= trees);
                }
                Json::Object(out)
            },
        }
    }
}

/// What the outcome of parsing is.
pub open spec fn parsed(r: Result<Json, String>) -> Result<JsonView, Seq<char>> {
    match r {
        Ok(json) => Ok(json@),
        Err(message) => Err(message@),
    }
}

/// Parses a JSON text: the value that it stands for, or the message that says why it stands for
/// none.
pub fn parse_json(text: &str) -> (r: Result<Json, String>)
    ensures
        parsed(r) == json_from_text(text@),
        r matches Err(message) ==> !occurs_in(message@, "Failed"@),
{
    match value_from_str(text) {
        Ok(value) => Ok(Json::from_value(value)),
        Err(message) => Err(message),
    }
}

/// Adds a text under `key` to the members of an object.
pub(crate) fn push_text(members: &mut Vec<(String, serde_json::Value)>, key: &str, text: &str)
    ensures
        object_map(member_trees(final(members)@)) == object_map(member_trees(old(members)@)).insert(
            key@,
            JsonView::Text(text@),
        ),
        member_keys(final(members)@) == member_keys(old(members)@).push(key@),
{
    members.push((key.to_owned(), text_value(text.to_owned())));
    assert(member_trees(members@).drop_last() =~= member_trees(old(members)@));
    assert(member_keys(members@) =~= member_keys(old(members)@).push(key@));
}

/// Adds a truth value under `key` to the members of an object.
pub(crate) fn push_bool(members: &mut Vec<(String, serde_json::Value)>, key: &str, b: bool)
    ensures
        object_map(member_trees(final(members)@)) == object_map(member_trees(old(members)@)).insert(
            key@,
            JsonView::Bool(b),
        ),
        member_keys(final(members)@) == member_keys(old(members)@).push(key@),
{
    members.push((key.to_owned(), bool_value(b)));
    assert(member_trees(members@).drop_last() =~= member_trees(old(members)@));
    assert(member_keys(members@) =~= member_keys(old(members)@).push(key@));
}

/// Prints an object of texts and truth values as JSON text, which parses back to the same object.
pub(crate) fn print_object(value: &serde_json::Value) -> (r: Vec<u8>)
    requires
        flat_object(value_tree(*value)),
    ensures
        r@ == printed_json(value_tree(*value)),
        valid_utf8(r@),
        reads_as(decode_utf8(r@), value_tree(*value)),
{
    match value_to_vec(value) {
        Some(bytes) => bytes,
        None => Vec::new(),
    }
}

} // verus!
