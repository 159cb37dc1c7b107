//! JSON documents: the library's own tree for what it sends, and values
//! parsed by `serde_json` for what it receives. The contracts on
//! `serde_json` are believed, not proved.

use vstd::prelude::*;
use vstd::string::*;

verus! {

/// A JSON value as `serde_json` holds it.
#[verifier::external_type_specification]
#[verifier::external_body]
pub struct ExJsonValue(serde_json::Value);

/// The error of `serde_json`.
#[verifier::external_type_specification]
#[verifier::external_body]
pub struct ExJsonError(serde_json::Error);

/// The value that `serde_json` reads from a text, or `None` where the text is
/// no JSON.
pub uninterp spec fn json_parsed(bytes: Seq<u8>) -> Option<serde_json::Value>;

/// The member of an object under a key, or `None` where the value is no
/// object or has no such member.
pub uninterp spec fn json_member(value: serde_json::Value, key: Seq<char>) -> Option<
    serde_json::Value,
>;

/// The member of an object under a key, or the null value where the value is
/// no object or has no such member.
pub uninterp spec fn json_index(value: serde_json::Value, key: Seq<char>) -> serde_json::Value;

/// The text of a JSON string, or `None` where the value is no string.
pub uninterp spec fn json_text(value: serde_json::Value) -> Option<Seq<char>>;

/// `serde_json::from_slice` for a `Value`.
/// Claimed: the value is what `json_parsed` names for the bytes, an error
/// standing for `None`.
#[verifier::external_body]
pub(crate) fn parse_json(bytes: &[u8]) -> (res: Result<serde_json::Value, serde_json::Error>)
    ensures
        res is Ok ==> json_parsed(bytes@) == Some(res->Ok_0),
        res is Err ==> json_parsed(bytes@) is None,
{
    serde_json::from_slice::<serde_json::Value>(bytes)
}

/// `Value::get` with a string key, the member copied.
/// Claimed: the copy is what `json_member` names.
#[verifier::external_body]
pub(crate) fn member(value: &serde_json::Value, key: &str) -> (res: Option<serde_json::Value>)
    ensures
        res == json_member(*value, key@),
{
    value.get(key).cloned()
}

/// Indexing a `Value` by a string key, the member copied.
/// Claimed: the copy is what `json_index` names.
#[verifier::external_body]
pub(crate) fn index(value: &serde_json::Value, key: &str) -> (res: serde_json::Value)
    ensures
        res == json_index(*value, key@),
{
    value[key].clone()
}

/// `Value::as_str`, the text copied.
/// Claimed: the text is what `json_text` names.
#[verifier::external_body]
pub(crate) fn text_of(value: &serde_json::Value) -> (res: Option<String>)
    ensures
        match res {
            Some(text) => json_text(*value) == Some(text@),
            None => json_text(*value) is None,
        },
{
    value.as_str().map(|text| text.to_owned())
}

/// A JSON document as a mathematical tree.
pub enum JsonView {
    Text(Seq<char>),
    List(Seq<JsonView>),
    Object(Seq<(Seq<char>, JsonView)>),
    Parsed(serde_json::Value),
}

/// A JSON document that the library builds.
#[derive(Debug, PartialEq)]
pub enum Json {
    /// A string.
    Text(String),
    /// An array.
    List(Vec<Json>),
    /// An object, its members in the order in which they are written.
    Object(Vec<(String, Json)>),
    /// A value that a service sent, handed on as it came.
    Parsed(serde_json::Value),
}

/// The tree that a document stands for.
pub open spec fn json_view(json: Json) -> JsonView
    decreases json,
{
    match json {
        Json::Text(text) => JsonView::Text(text@),
        Json::List(items) => JsonView::List(item_views(items@)),
        Json::Object(members) => JsonView::Object(member_views(members@)),
        Json::Parsed(value) => JsonView::Parsed(value),
    }
}

/// The trees of a row of documents.
pub open spec fn item_views(items: Seq<Json>) -> Seq<JsonView>
    decreases items,
{
    Seq::new(
        items.len(),
        |i: int|
            if 0 <= i < items.len() {
                json_view(items[i])
            } else {
                JsonView::List(Seq::empty())
            },
    )
}

/// The keys and trees of a row of members.
pub open spec fn member_views(members: Seq<(String, Json)>) -> Seq<(Seq<char>, JsonView)>
    decreases members,
{
    Seq::new(
        members.len(),
        |i: int|
            if 0 <= i < members.len() {
                (members[i].0@, json_view(members[i].1))
            } else {
                (Seq::empty(), JsonView::List(Seq::empty()))
            },
    )
}

impl View for Json {
    type V = JsonView;

    open spec fn view(&self) -> JsonView {
        json_view(*self)
    }
}

impl Json {
    /// A JSON string.
    pub fn text(text: &str) -> (json: Json)
        ensures
            json@ == JsonView::Text(text@),
    {
        Json::Text(text.to_owned())
    }

    /// An object of one member.
    pub fn object1(k0: &str, v0: Json) -> (json: Json)
        ensures
            json@ == JsonView::Object(seq![(k0@, v0@)]),
    {
        let mut members: Vec<(String, Json)> = Vec::new();
        members.push((k0.to_owned(), v0));
        assert(member_views(members@) =~= seq![(k0@, v0@)]);
        Json::Object(members)
    }

    /// An array of one item.
    pub fn list1(v0: Json) -> (json: Json)
        ensures
            json@ == JsonView::List(seq![v0@]),
    {
        let mut items: Vec<Json> = Vec::new();
        items.push(v0);
        assert(item_views(items@) =~= seq![v0@]);
        Json::List(items)
    }

    /// Adds a member at the end of an object; another document stays as it
    /// is.
    pub fn with(self, key: &str, value: Json) -> (json: Json)
        ensures
            json@ == match self@ {
                JsonView::Object(members) => JsonView::Object(members.push((key@, value@))),
                other => other,
            },
    {
        match self {
            Json::Object(mut members) => {
                let ghost before = members@;
                members.push((key.to_owned(), value));
                assert(member_views(members@) =~= member_views(before).push((key@, value@)));
                Json::Object(members)
            },
            other => other,
        }
    }
}

} // verus!
