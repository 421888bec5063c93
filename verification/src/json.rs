//! JSON documents as plain data.
//!
//! Reading and printing JSON text is the work of `serde_json`. The library
//! holds a document as a [`JsonValue`], a tree of plain values, and states
//! everything it does with one over the mathematical content [`Json`].

use vstd::prelude::*;
use serde_json::Value;
use crate::text::{decimal, decimal_text, parse_u64, u64_of};

verus! {

/// A JSON document.
///
/// A number is held as its text, the way `serde_json` prints it. For a
/// whole number that is the number in decimal digits, with a minus sign in
/// front where it is negative. The members of an object stand in the order
/// in which they were given; where two of them share a name, the later one
/// counts.
#[derive(Debug, PartialEq, Eq)]
pub enum JsonValue {
    Null,
    Bool(bool),
    Number(String),
    Text(String),
    Array(Vec<JsonValue>),
    Object(Vec<(String, JsonValue)>),
}

/// The content of a [`JsonValue`].
pub ghost enum Json {
    Null,
    Bool(bool),
    Number(Seq<char>),
    Text(Seq<char>),
    Array(Seq<Json>),
    Object(Seq<(Seq<char>, Json)>),
}

/// The members of an object, each with its name.
pub type Members = Seq<(Seq<char>, Json)>;

impl View for JsonValue {
    type V = Json;

    open spec fn view(&self) -> Json
        decreases self,
    {
        match self {
            JsonValue::Null => Json::Null,
            JsonValue::Bool(b) => Json::Bool(*b),
            JsonValue::Number(t) => Json::Number(t@),
            JsonValue::Text(t) => Json::Text(t@),
            JsonValue::Array(items) => Json::Array(
                Seq::new(
                    items@.len(),
                    |i: int|
                        if 0 <= i < items@.len() {
                            items@[i].view()
                        } else {
                            Json::Null
                        },
                ),
            ),
            JsonValue::Object(members) => Json::Object(
                Seq::new(
                    members@.len(),
                    |i: int|
                        if 0 <= i < members@.len() {
                            (members@[i].0@, members@[i].1.view())
                        } else {
                            (Seq::empty(), Json::Null)
                        },
                ),
            ),
        }
    }
}

/// The content of a list of members as they stand in a [`JsonValue::Object`].
pub open spec fn members_view(members: Seq<(String, JsonValue)>) -> Members {
    Seq::new(members.len(), |i: int| (members[i].0@, members[i].1@))
}

/// The value of the last member called `key`, if there is one.
pub open spec fn lookup(members: Members, key: Seq<char>) -> Option<Json>
    decreases members.len(),
{
    if members.len() == 0 {
        None
    } else if members.last().0 == key {
        Some(members.last().1)
    } else {
        lookup(members.drop_last(), key)
    }
}

impl Json {
    /// The member `key` of an object; `None` where there is no such member or
    /// the document is no object.
    pub open spec fn field(self, key: Seq<char>) -> Option<Json> {
        match self {
            Json::Object(members) => lookup(members, key),
            _ => None,
        }
    }

    /// The text of a document that is a string.
    pub open spec fn as_text(self) -> Option<Seq<char>> {
        match self {
            Json::Text(t) => Some(t),
            _ => None,
        }
    }

    /// The text of a member that must be there and must be a string.
    pub open spec fn text_at(self, key: Seq<char>) -> Option<Seq<char>> {
        match self.field(key) {
            Some(Json::Text(t)) => Some(t),
            _ => None,
        }
    }

    /// The text of a member that may be left out or `null`. The outer
    /// `None` stands for a member of another kind.
    pub open spec fn optional_text_at(self, key: Seq<char>) -> Option<Option<Seq<char>>> {
        match self.field(key) {
            None => Some(None),
            Some(Json::Null) => Some(None),
            Some(Json::Text(t)) => Some(Some(t)),
            _ => None,
        }
    }

    /// The value of a member that must be there and must be a boolean.
    pub open spec fn bool_at(self, key: Seq<char>) -> Option<bool> {
        match self.field(key) {
            Some(Json::Bool(b)) => Some(b),
            _ => None,
        }
    }

    /// The value of a boolean member that may be left out or `null`.
    pub open spec fn optional_bool_at(self, key: Seq<char>) -> Option<Option<bool>> {
        match self.field(key) {
            None => Some(None),
            Some(Json::Null) => Some(None),
            Some(Json::Bool(b)) => Some(Some(b)),
            _ => None,
        }
    }

    /// The value of a member that must be there and must be a whole number
    /// from 0 to the largest that 64 bits hold.
    pub open spec fn u64_at(self, key: Seq<char>) -> Option<u64> {
        match self.field(key) {
            Some(Json::Number(text)) => u64_of(text),
            _ => None,
        }
    }
}

/// The members of an object read as the entries of a map: each value is
/// read by `read`, and each entry keeps the name of its member and its
/// place. Where one value cannot be read, there is no map.
pub open spec fn members_read<V>(members: Members, read: spec_fn(Json) -> Option<V>) -> Option<
    Seq<(Seq<char>, V)>,
>
    decreases members.len(),
{
    if members.len() == 0 {
        Some(Seq::empty())
    } else {
        match (members_read(members.drop_last(), read), read(members.last().1)) {
            (Some(rest), Some(value)) => Some(rest.push((members.last().0, value))),
            _ => None,
        }
    }
}

/// The entries of a map written as the members of an object, each value by
/// `write`.
pub open spec fn members_written<V>(entries: Seq<(Seq<char>, V)>, write: spec_fn(V) -> Json) -> Members {
    Seq::new(entries.len(), |i: int| (entries[i].0, write(entries[i].1)))
}

/// Entries that are written and read again are the same entries, where that
/// holds of each value.
pub proof fn lemma_members_round_trip<V>(
    entries: Seq<(Seq<char>, V)>,
    write: spec_fn(V) -> Json,
    read: spec_fn(Json) -> Option<V>,
)
    requires
        forall|i: int| 0 <= i < entries.len() ==> read(write(#[trigger] entries[i].1)) == Some(entries[i].1),
    ensures
        members_read(members_written(entries, write), read) == Some(entries),
    decreases entries.len(),
{
    if entries.len() > 0 {
        let rest = entries.drop_last();
        assert(members_written(entries, write).drop_last() =~= members_written(rest, write));
        lemma_members_round_trip(rest, write, read);
    }
}

/// Where the members can be read as a map, so can the first `n` of them,
/// and they give the first `n` entries.
pub proof fn lemma_members_read_take<V>(members: Members, read: spec_fn(Json) -> Option<V>, n: int)
    requires
        0 <= n <= members.len(),
        members_read(members, read) is Some,
    ensures
        members_read(members.take(n), read) == Some(members_read(members, read)->0.take(n)),
        members_read(members, read)->0.len() == members.len(),
    decreases members.len(),
{
    if members.len() > 0 {
        let rest = members.drop_last();
        lemma_members_read_take(rest, read, if n == members.len() {
            n - 1
        } else {
            n
        });
        if n == members.len() {
            assert(members.take(n) =~= members);
        } else {
            assert(members.take(n) =~= rest.take(n));
        }
    }
}

/// The list `members` with one more member at its end.
pub open spec fn with_member(members: Members, key: Seq<char>, value: Json) -> Members {
    members.push((key, value))
}

/// The list `members` with one more member at its end where there is a value.
pub open spec fn with_optional(members: Members, key: Seq<char>, value: Option<Json>) -> Members {
    match value {
        Some(value) => members.push((key, value)),
        None => members,
    }
}

/// A text where there is one, `null` where there is none.
pub open spec fn text_or_null(text: Option<Seq<char>>) -> Json {
    match text {
        Some(t) => Json::Text(t),
        None => Json::Null,
    }
}

/// A lookup in a list with one more member at its end finds that member
/// where it has the name, and else what the list had under the name. This
/// holds of every list, member and name.
pub proof fn lemma_lookup_push()
    ensures
        forall|members: Members, name: Seq<char>, value: Json, key: Seq<char>|
            #[trigger] lookup(members.push((name, value)), key) == if name == key {
                Some(value)
            } else {
                lookup(members, key)
            },
        forall|key: Seq<char>| #[trigger] lookup(Seq::<(Seq<char>, Json)>::empty(), key) is None,
{
    assert forall|members: Members, name: Seq<char>, value: Json, key: Seq<char>|
        #[trigger] lookup(members.push((name, value)), key) == if name == key {
            Some(value)
        } else {
            lookup(members, key)
        } by {
        assert(members.push((name, value)).drop_last() =~= members);
    }
}

/// The content of an object is the content of its members.
pub proof fn lemma_object_view(value: JsonValue)
    requires
        value is Object,
    ensures
        value@ == Json::Object(members_view(value->Object_0@)),
{
    reveal_with_fuel(<JsonValue as View>::view, 2);
    assert(value@->Object_0 =~= members_view(value->Object_0@));
}

/// The document type of `serde_json`. A value of it is carried from one
/// call into `serde_json` to the next, and nothing here looks inside.
#[verifier::external_type_specification]
#[verifier::external_body]
pub struct ExSerdeValue(serde_json::Value);

/// What a document of `serde_json` holds.
pub uninterp spec fn json_content(value: Value) -> Json;

/// What `serde_json::from_str` makes of a text: what the document holds
/// that it reads, or `None` where it reports an error.
pub uninterp spec fn json_parsed(text: Seq<char>) -> Option<Json>;

/// What a document holds once `serde_json` has stored it. `serde_json`
/// keeps one member of each name in an object and has an order of its own
/// for them, so this need not be the content that went in.
pub uninterp spec fn json_stored(value: Json) -> Json;

/// The text that `serde_json` prints for a document that holds the given
/// content.
pub uninterp spec fn json_text(content: Json) -> Seq<char>;

/// The text that is printed for a document: it is stored, then printed.
pub open spec fn json_printed(value: Json) -> Seq<char> {
    json_text(json_stored(value))
}

/// Reads a text with `serde_json::from_str`. The result is `Some` exactly
/// where `serde_json` accepts the text.
#[verifier::external_body]
fn parse_value(text: &str) -> (out: Option<Value>)
    ensures
        out is Some <==> json_parsed(text@) is Some,
        out is Some ==> json_content(out->0) == json_parsed(text@)->0,
{
    serde_json::from_str(text).ok()
}

/// Prints a document of `serde_json` in its compact form, with the
/// `Display` that `serde_json` gives it.
#[verifier::external_body]
fn print_value(value: &Value) -> (out: String)
    ensures
        out@ == json_text(json_content(*value)),
{
    value.to_string()
}

/// Moves what a document of `serde_json` holds into a [`JsonValue`],
/// variant by variant. A number is moved as the text that `serde_json`
/// prints for it.
#[verifier::external_body]
fn from_serde(value: Value) -> (out: JsonValue)
    ensures
        out@ == json_content(value),
{
    match value {
        Value::Null => JsonValue::Null,
        Value::Bool(b) => JsonValue::Bool(b),
        Value::Number(n) => JsonValue::Number(n.to_string()),
        Value::String(s) => JsonValue::Text(s),
        Value::Array(a) => JsonValue::Array(a.into_iter().map(from_serde).collect()),
        Value::Object(m) => JsonValue::Object(m.into_iter().map(|(k, v)| (k, from_serde(v))).collect()),
    }
}

/// Stores a [`JsonValue`] in a document of `serde_json`, variant by
/// variant. A number is read from its text by `serde_json`; one whose text
/// is no JSON number is stored as `null`, as `serde_json` does with a number
/// that it cannot hold.
#[verifier::external_body]
fn to_serde(value: &JsonValue) -> (out: Value)
    ensures
        json_content(out) == json_stored(value@),
{
    match value {
        JsonValue::Null => Value::Null,
        JsonValue::Bool(b) => Value::Bool(*b),
        JsonValue::Number(t) => t.parse().map_or(Value::Null, Value::Number),
        JsonValue::Text(t) => Value::String(t.clone()),
        JsonValue::Array(items) => items.iter().map(to_serde).collect(),
        JsonValue::Object(ms) => ms.iter().map(|(k, v)| (k.clone(), to_serde(v))).collect(),
    }
}

impl JsonValue {
    /// Reads a JSON text: `None` where the text is no JSON.
    pub fn parse(text: &str) -> (out: Option<JsonValue>)
        ensures
            out is Some <==> json_parsed(text@) is Some,
            out is Some ==> out->0@ == json_parsed(text@)->0,
    {
        match parse_value(text) {
            Some(value) => Some(from_serde(value)),
            None => None,
        }
    }

    /// Prints the document as JSON text, in compact form.
    pub fn print(&self) -> (out: String)
        ensures
            out@ == json_printed(self@),
    {
        let stored = to_serde(self);
        print_value(&stored)
    }

    /// The member `key` of an object.
    pub fn get(&self, key: &str) -> (out: Option<&JsonValue>)
        ensures
            out is Some <==> self@.field(key@) is Some,
            out is Some ==> out->0@ == self@.field(key@)->0,
    {
        match self {
            JsonValue::Object(members) => {
                let ghost all = members_view(members@);
                proof {
                    lemma_object_view(*self);
                    assert(all.take(all.len() as int) =~= all);
                }
                let mut i: usize = members.len();
                while i > 0
                    invariant
                        i <= members.len(),
                        all == members_view(members@),
                        self@ == Json::Object(all),
                        lookup(all, key@) == lookup(all.take(i as int), key@),
                    decreases i,
                {
                    proof {
                        assert(all.take(i as int).drop_last() =~= all.take(i - 1));
                    }
                    i -= 1;
                    if crate::text::same_text(members[i].0.as_str(), key) {
                        return Some(&members[i].1);
                    }
                }
                None
            },
            _ => None,
        }
    }

    /// The members of an object, in their order.
    pub fn members(&self) -> (out: Option<&Vec<(String, JsonValue)>>)
        ensures
            out is Some <==> self@ is Object,
            out is Some ==> self@ == Json::Object(members_view(out->0@)),
    {
        match self {
            JsonValue::Object(members) => {
                proof {
                    lemma_object_view(*self);
                }
                Some(members)
            },
            _ => None,
        }
    }

    /// The text of a document that is a string.
    pub fn as_text(&self) -> (out: Option<&str>)
        ensures
            out is Some <==> self@.as_text() is Some,
            out is Some ==> out->0@ == self@.as_text()->0,
    {
        match self {
            JsonValue::Text(t) => Some(t.as_str()),
            _ => None,
        }
    }

    /// The text of the member `key`, which must be a string.
    pub fn text_at(&self, key: &str) -> (out: Option<String>)
        ensures
            out is Some <==> self@.text_at(key@) is Some,
            out is Some ==> out->0@ == self@.text_at(key@)->0,
    {
        match self.get(key) {
            Some(JsonValue::Text(t)) => Some(t.clone()),
            _ => None,
        }
    }

    /// The text of the member `key`, which may be left out or `null`.
    pub fn optional_text_at(&self, key: &str) -> (out: Option<Option<String>>)
        ensures
            out is Some <==> self@.optional_text_at(key@) is Some,
            out is Some ==> (out->0 is Some <==> self@.optional_text_at(key@)->0 is Some),
            out is Some && out->0 is Some ==> out->0->0@ == self@.optional_text_at(key@)->0->0,
    {
        match self.get(key) {
            None => Some(None),
            Some(JsonValue::Null) => Some(None),
            Some(JsonValue::Text(t)) => Some(Some(t.clone())),
            _ => None,
        }
    }

    /// The value of the member `key`, which must be a boolean.
    pub fn bool_at(&self, key: &str) -> (out: Option<bool>)
        ensures
            out == self@.bool_at(key@),
    {
        match self.get(key) {
            Some(JsonValue::Bool(b)) => Some(*b),
            _ => None,
        }
    }

    /// The value of the boolean member `key`, which may be left out or `null`.
    pub fn optional_bool_at(&self, key: &str) -> (out: Option<Option<bool>>)
        ensures
            out == self@.optional_bool_at(key@),
    {
        match self.get(key) {
            None => Some(None),
            Some(JsonValue::Null) => Some(None),
            Some(JsonValue::Bool(b)) => Some(Some(*b)),
            _ => None,
        }
    }

    /// The value of the member `key`, which must be a whole number from 0
    /// to the largest that 64 bits hold.
    pub fn u64_at(&self, key: &str) -> (out: Option<u64>)
        ensures
            out == self@.u64_at(key@),
    {
        match self.get(key) {
            Some(JsonValue::Number(text)) => parse_u64(text.as_str()),
            _ => None,
        }
    }

    /// Whether the document is `null`.
    pub fn is_null(&self) -> (out: bool)
        ensures
            out == (self@ == Json::Null),
    {
        match self {
            JsonValue::Null => true,
            _ => false,
        }
    }
}

/// Puts one more member at the end of a list.
pub fn push_member(members: &mut Vec<(String, JsonValue)>, key: &str, value: JsonValue)
    ensures
        members_view(final(members)@) == with_member(members_view(old(members)@), key@, value@),
{
    members.push((key.to_owned(), value));
}

/// A whole number as a document.
pub fn number_value(number: u64) -> (out: JsonValue)
    ensures
        out@ == Json::Number(decimal(number as nat)),
{
    JsonValue::Number(decimal_text(number))
}

/// A string as a document.
pub fn text_value(text: &str) -> (out: JsonValue)
    ensures
        out@ == Json::Text(text@),
{
    JsonValue::Text(text.to_owned())
}

/// An object with the given members.
pub fn object_value(members: Vec<(String, JsonValue)>) -> (out: JsonValue)
    ensures
        out@ == Json::Object(members_view(members@)),
{
    let out = JsonValue::Object(members);
    proof {
        lemma_object_view(out);
    }
    out
}

} // verus!
