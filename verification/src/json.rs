//! JSON values and their reading.
use vstd::prelude::*;

use crate::text::same;

verus! {

broadcast use vstd::string::group_string_axioms;

/// What a JSON value is. Of a number only its value as a 64-bit signed integer is kept, and
/// nothing where it is no such integer.
pub enum JsonView {
    Null,
    Bool(bool),
    Number(Option<i64>),
    Text(Seq<char>),
    Array(Seq<JsonView>),
    Object(Map<Seq<char>, JsonView>),
}

/// A JSON value. An object lists its members; where a key occurs twice the later member counts.
#[derive(Debug)]
pub enum Json {
    Null,
    Bool(bool),
    Number(Option<i64>),
    Text(String),
    Array(Vec<Json>),
    Object(Vec<(String, Json)>),
}

/// The object that a list of members makes: where a key occurs twice the later member counts.
pub open spec fn object_map(members: Seq<(Seq<char>, JsonView)>) -> Map<Seq<char>, JsonView>
    decreases members.len(),
{
    if members.len() == 0 {
        Map::empty()
    } else {
        object_map(members.drop_last()).insert(members.last().0, members.last().1)
    }
}

impl JsonView {
    /// The member of an object under `key`; any other value has no members.
    pub open spec fn get(self, key: Seq<char>) -> Option<JsonView> {
        match self {
            JsonView::Object(members) => if members.dom().contains(key) {
                Some(members[key])
            } else {
                None
            },
            _ => None,
        }
    }

    /// The characters of a text; no other value is one.
    pub open spec fn as_str(self) -> Option<Seq<char>> {
        match self {
            JsonView::Text(s) => Some(s),
            _ => None,
        }
    }
}

/// The member under `key` of a value that may be absent.
pub open spec fn child(value: Option<JsonView>, key: Seq<char>) -> Option<JsonView> {
    match value {
        Some(v) => v.get(key),
        None => None,
    }
}

/// The text of a value that may be absent or no text.
pub open spec fn text_in(value: Option<JsonView>) -> Option<Seq<char>> {
    match value {
        Some(v) => v.as_str(),
        None => None,
    }
}

/// The text of a value, or `default` where there is none.
pub open spec fn text_or(value: Option<JsonView>, default: Seq<char>) -> Seq<char> {
    match text_in(value) {
        Some(s) => s,
        None => default,
    }
}

/// What a value that may be absent is.
pub open spec fn opt_tree(value: Option<&Json>) -> Option<JsonView> {
    match value {
        Some(v) => Some(v@),
        None => None,
    }
}

/// What a text that may be absent is.
pub open spec fn opt_chars(text: Option<&str>) -> Option<Seq<char>> {
    match text {
        Some(s) => Some(s@),
        None => None,
    }
}

impl Json {
    /// What the values of a list are.
    pub open spec fn items_view(items: Seq<Json>) -> Seq<JsonView>
        decreases items,
    {
        if items.len() == 0 {
            Seq::empty()
        } else {
            Json::items_view(items.drop_last()).push(items.last().tree())
        }
    }

    /// What the members of a list are.
    pub open spec fn members_view(members: Seq<(String, Json)>) -> Seq<(Seq<char>, JsonView)>
        decreases members,
    {
        if members.len() == 0 {
            Seq::empty()
        } else {
            Json::members_view(members.drop_last()).push(
                (members.last().0@, members.last().1.tree()),
            )
        }
    }

    /// What the value is.
    pub open spec fn tree(&self) -> JsonView
        decreases self,
    {
        match self {
            Json::Null => JsonView::Null,
            Json::Bool(b) => JsonView::Bool(*b),
            Json::Number(n) => JsonView::Number(*n),
            Json::Text(s) => JsonView::Text(s@),
            Json::Array(items) => JsonView::Array(Json::items_view(items@)),
            Json::Object(members) => JsonView::Object(object_map(Json::members_view(members@))),
        }
    }
}

impl View for Json {
    type V = JsonView;

    open spec fn view(&self) -> JsonView {
        self.tree()
    }
}

pub(crate) proof fn lemma_items_view(items: Seq<Json>)
    ensures
        Json::items_view(items).len() == items.len(),
        forall|i: int|
            0 <= i < items.len() ==> #[trigger] Json::items_view(items)[i] == items[i].tree(),
    decreases items.len(),
{
    if items.len() > 0 {
        lemma_items_view(items.drop_last());
        assert forall|i: int| 0 <= i < items.len() implies #[trigger] Json::items_view(items)[i]
            == items[i].tree() by {
            if i < items.len() - 1 {
                assert(Json::items_view(items.drop_last())[i] == items.drop_last()[i].tree());
            }
        }
    }
}

pub(crate) proof fn lemma_members_view(members: Seq<(String, Json)>)
    ensures
        Json::members_view(members).len() == members.len(),
        forall|i: int|
            0 <= i < members.len() ==> #[trigger] Json::members_view(members)[i] == (
                members[i].0@,
                members[i].1.tree(),
            ),
    decreases members.len(),
{
    if members.len() > 0 {
        lemma_members_view(members.drop_last());
        assert forall|i: int| 0 <= i < members.len() implies #[trigger] Json::members_view(
            members,
        )[i] == (members[i].0@, members[i].1.tree()) by {
            if i < members.len() - 1 {
                assert(Json::members_view(members.drop_last())[i] == (
                    members.drop_last()[i].0@,
                    members.drop_last()[i].1.tree(),
                ));
            }
        }
    }
}

/// The last member under a key is the one that the object holds.
pub(crate) proof fn lemma_object_map_last(members: Seq<(Seq<char>, JsonView)>, at: int)
    requires
        0 <= at < members.len(),
        forall|j: int| at < j < members.len() ==> members[j].0 != members[at].0,
    ensures
        object_map(members).dom().contains(members[at].0),
        object_map(members)[members[at].0] == members[at].1,
    decreases members.len(),
{
    if at < members.len() - 1 {
        assert(members.drop_last()[at] == members[at]);
        lemma_object_map_last(members.drop_last(), at);
    }
}

/// An object has no member under a key that its list does not hold.
pub(crate) proof fn lemma_object_map_absent(members: Seq<(Seq<char>, JsonView)>, key: Seq<char>)
    requires
        forall|j: int| 0 <= j < members.len() ==> members[j].0 != key,
    ensures
        !object_map(members).dom().contains(key),
    decreases members.len(),
{
    if members.len() > 0 {
        assert forall|j: int| 0 <= j < members.drop_last().len() implies members.drop_last()[j].0
            != key by {
            assert(members.drop_last()[j] == members[j]);
        }
        lemma_object_map_absent(members.drop_last(), key);
    }
}

pub(crate) proof fn lemma_object_map_finite(members: Seq<(Seq<char>, JsonView)>)
    ensures
        object_map(members).dom().finite(),
    decreases members.len(),
{
    if members.len() > 0 {
        lemma_object_map_finite(members.drop_last());
    }
}

impl Json {
    /// The member of an object under `key`; any other value has no members.
    pub fn get(&self, key: &str) -> (r: Option<&Json>)
        ensures
            opt_tree(r) == self@.get(key@),
    {
        match self {
            Json::Object(members) => {
                proof {
                    lemma_members_view(members@);
                }
                let ghost all = Json::members_view(members@);
                let mut i: usize = members.len();
                while i > 0
                    invariant
                        i <= members@.len(),
                        all == Json::members_view(members@),
                        all.len() == members@.len(),
                        forall|j: int|
                            0 <= j < members@.len() ==> #[trigger] all[j] == (
                                members@[j].0@,
                                members@[j].1.tree(),
                            ),
                        forall|j: int| i <= j < members@.len() ==> #[trigger] all[j].0 != key@,
                        self@ == JsonView::Object(object_map(all)),
                    decreases i,
                {
                    i -= 1;
                    assert(all[i as int].0 == members@[i as int].0@);
                    if same(members[i].0.as_str(), key) {
                        proof {
                            lemma_object_map_last(all, i as int);
                        }
                        return Some(&members[i].1);
                    }
                }
                proof {
                    lemma_object_map_absent(all, key@);
                }
                None
            },
            _ => None,
        }
    }

    /// The characters of a text; no other value is one.
    pub fn as_str(&self) -> (r: Option<&str>)
        ensures
            opt_chars(r) == self@.as_str(),
    {
        match self {
            Json::Text(s) => Some(s.as_str()),
            _ => None,
        }
    }
}

/// The member under `key` of a value that may be absent.
pub fn child_of<'a>(value: Option<&'a Json>, key: &str) -> (r: Option<&'a Json>)
    ensures
        opt_tree(r) == child(opt_tree(value), key@),
{
    match value {
        Some(v) => v.get(key),
        None => None,
    }
}

/// Whether a value that may be absent is an object.
pub fn is_object(value: Option<&Json>) -> (r: bool)
    ensures
        r == (opt_tree(value) matches Some(JsonView::Object(_))),
{
    match value {
        Some(Json::Object(_)) => true,
        _ => false,
    }
}

/// The text of a value that may be absent or no text.
pub fn text_of(value: Option<&Json>) -> (r: Option<String>)
    ensures
        crate::text::opt_text(r) == text_in(opt_tree(value)),
{
    match value {
        Some(v) => match v.as_str() {
            Some(s) => Some(s.to_owned()),
            None => None,
        },
        None => None,
    }
}

/// The text of a value, or `default` where there is none.
pub fn text_of_or(value: Option<&Json>, default: &str) -> (r: String)
    ensures
        r@ == text_or(opt_tree(value), default@),
{
    match text_of(value) {
        Some(s) => s,
        None => default.to_owned(),
    }
}

} // verus!
