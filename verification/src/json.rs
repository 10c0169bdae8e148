//! JSON values as the gateway handles them.

use vstd::prelude::*;
use vstd::string::*;
use crate::text::{integer_text, same_text, signed_decimal, text_of};

verus! {

/// The mathematical content of a JSON value.
///
/// An object is a sequence of members; where a key occurs more than once the
/// last member with that key is the one that counts.
pub enum JsonValue {
    Null,
    Bool(bool),
    /// A number, by its notation.
    Number(Seq<char>),
    Str(Seq<char>),
    Array(Seq<JsonValue>),
    Object(Seq<(Seq<char>, JsonValue)>),
}

/// A JSON value.
#[derive(Debug, PartialEq, Eq)]
pub enum Json {
    Null,
    Bool(bool),
    /// A number, kept as its notation.
    Number(String),
    Str(String),
    Array(Vec<Json>),
    Object(Vec<(String, Json)>),
}

/// The value of the last member of `members` whose key is `key`.
pub open spec fn lookup(members: Seq<(Seq<char>, JsonValue)>, key: Seq<char>) -> Option<JsonValue>
    decreases members.len(),
{
    if members.len() == 0 {
        None
    } else if members.last().0 == key {
        Some(members.last().1)
    } else {
        lookup(members.drop_last(), key)
    }
}

impl JsonValue {
    /// An integer, in decimal notation.
    pub open spec fn integer(n: int) -> JsonValue {
        JsonValue::Number(signed_decimal(n))
    }

    /// The object without members.
    pub open spec fn object() -> JsonValue {
        JsonValue::Object(Seq::empty())
    }

    /// The array without items.
    pub open spec fn array() -> JsonValue {
        JsonValue::Array(Seq::empty())
    }

    /// This object with one more member at its end; any other value unchanged.
    pub open spec fn with(self, key: Seq<char>, value: JsonValue) -> JsonValue {
        match self {
            JsonValue::Object(members) => JsonValue::Object(members.push((key, value))),
            _ => self,
        }
    }

    /// This array with one more item at its end; any other value unchanged.
    pub open spec fn item(self, value: JsonValue) -> JsonValue {
        match self {
            JsonValue::Array(items) => JsonValue::Array(items.push(value)),
            _ => self,
        }
    }

    /// This object with one more text member where a text is given.
    pub open spec fn with_text(self, key: Seq<char>, text: Option<Seq<char>>) -> JsonValue {
        match text {
            Some(t) => self.with(key, JsonValue::Str(t)),
            None => self,
        }
    }

    /// This object with the member `key: true` where the flag is set.
    pub open spec fn with_flag(self, key: Seq<char>, on: bool) -> JsonValue {
        if on {
            self.with(key, JsonValue::Bool(true))
        } else {
            self
        }
    }

    /// This object with one more text member.
    pub open spec fn with_str(self, key: Seq<char>, text: Seq<char>) -> JsonValue {
        self.with(key, JsonValue::Str(text))
    }

    /// This object with one more boolean member.
    pub open spec fn with_bool(self, key: Seq<char>, value: bool) -> JsonValue {
        self.with(key, JsonValue::Bool(value))
    }

    /// This array with one more text item.
    pub open spec fn item_str(self, text: Seq<char>) -> JsonValue {
        self.item(JsonValue::Str(text))
    }

    /// The text of the string member under `key`, or `default` where there
    /// is none.
    pub open spec fn str_or(self, key: Seq<char>, default: Seq<char>) -> Seq<char> {
        match self.str_at(key) {
            Some(text) => text,
            None => default,
        }
    }

    /// The boolean member under `key`, or `default` where there is none.
    pub open spec fn bool_or(self, key: Seq<char>, default: bool) -> bool {
        match self.bool_at(key) {
            Some(value) => value,
            None => default,
        }
    }

    /// This object with one more member where a value is given.
    pub open spec fn with_some(self, key: Seq<char>, value: Option<JsonValue>) -> JsonValue {
        match value {
            Some(v) => self.with(key, v),
            None => self,
        }
    }

    /// The member of this object under `key`, if it is an object and has one.
    pub open spec fn get(self, key: Seq<char>) -> Option<JsonValue> {
        match self {
            JsonValue::Object(members) => lookup(members, key),
            _ => None,
        }
    }

    /// The member under `key`, or `null` where there is none.
    pub open spec fn member_or_null(self, key: Seq<char>) -> JsonValue {
        match self.get(key) {
            Some(member) => member,
            None => JsonValue::Null,
        }
    }

    /// The text of this value, if it is a string.
    pub open spec fn as_str(self) -> Option<Seq<char>> {
        match self {
            JsonValue::Str(text) => Some(text),
            _ => None,
        }
    }

    /// The truth value of this value, if it is a boolean.
    pub open spec fn as_bool(self) -> Option<bool> {
        match self {
            JsonValue::Bool(b) => Some(b),
            _ => None,
        }
    }

    /// The text of the string member under `key`, if there is one.
    pub open spec fn str_at(self, key: Seq<char>) -> Option<Seq<char>> {
        match self.get(key) {
            Some(value) => value.as_str(),
            None => None,
        }
    }

    /// The boolean member under `key`, if there is one.
    pub open spec fn bool_at(self, key: Seq<char>) -> Option<bool> {
        match self.get(key) {
            Some(value) => value.as_bool(),
            None => None,
        }
    }
}

/// The content of an optional value.
pub open spec fn value_of(value: Option<&Json>) -> Option<JsonValue> {
    match value {
        Some(v) => Some(v@),
        None => None,
    }
}

/// The content of a value or of the message that stands in its place.
pub open spec fn result_view(result: Result<Json, String>) -> Result<JsonValue, Seq<char>> {
    match result {
        Ok(value) => Ok(value@),
        Err(message) => Err(message@),
    }
}

/// The contents of a list of values.
pub open spec fn items_view(items: Seq<Json>) -> Seq<JsonValue> {
    Seq::new(items.len(), |i: int| items[i]@)
}

/// The contents of a list of members.
pub open spec fn members_view(members: Seq<(String, Json)>) -> Seq<(Seq<char>, JsonValue)> {
    Seq::new(members.len(), |i: int| (members[i].0@, members[i].1@))
}

impl Json {
    /// The mathematical content of this value.
    pub open spec fn value(&self) -> JsonValue
        decreases self,
    {
        match self {
            Json::Null => JsonValue::Null,
            Json::Bool(b) => JsonValue::Bool(*b),
            Json::Number(text) => JsonValue::Number(text@),
            Json::Str(text) => JsonValue::Str(text@),
            Json::Array(items) => JsonValue::Array(
                Seq::new(
                    items@.len(),
                    |i: int|
                        if 0 <= i < items@.len() {
                            items@[i].value()
                        } else {
                            JsonValue::Null
                        },
                ),
            ),
            Json::Object(members) => JsonValue::Object(
                Seq::new(
                    members@.len(),
                    |i: int|
                        if 0 <= i < members@.len() {
                            (members@[i].0@, members@[i].1.value())
                        } else {
                            (Seq::<char>::empty(), JsonValue::Null)
                        },
                ),
            ),
        }
    }
}

impl View for Json {
    type V = JsonValue;

    open spec fn view(&self) -> JsonValue {
        self.value()
    }
}

/// An array holds the contents of its items, in order.
pub proof fn lemma_array_view(items: Vec<Json>)
    ensures
        Json::Array(items)@ == JsonValue::Array(items_view(items@)),
{
    assert(Json::Array(items)@->Array_0 =~= items_view(items@));
}

/// An object holds the keys and contents of its members, in order.
pub proof fn lemma_object_view(members: Vec<(String, Json)>)
    ensures
        Json::Object(members)@ == JsonValue::Object(members_view(members@)),
{
    assert(Json::Object(members).value()->Object_0.len() == members@.len());
    assert(Json::Object(members).value()->Object_0 =~= members_view(members@));
}

/// A member that was just added to an object is the one found under its
/// key, whatever the object held under the key before.
pub proof fn lemma_added_member_is_found(object: JsonValue, key: Seq<char>, value: JsonValue)
    requires
        object is Object,
    ensures
        object.with(key, value).get(key) == Some(value),
{
    let members = object->Object_0;
    assert(members.push((key, value)).last() == (key, value));
}

/// Adding a member to an object changes nothing under any other key.
pub proof fn lemma_added_member_keeps_others(
    object: JsonValue,
    key: Seq<char>,
    value: JsonValue,
    other: Seq<char>,
)
    requires
        other != key,
    ensures
        object.with(key, value).get(other) == object.get(other),
{
    if object is Object {
        let members = object->Object_0;
        assert(members.push((key, value)).last() == (key, value));
        assert(members.push((key, value)).drop_last() =~= members);
    }
}

impl Clone for Json {
    fn clone(&self) -> (copy: Json)
        ensures
            copy@ == self@,
        decreases self,
    {
        match self {
            Json::Null => Json::Null,
            Json::Bool(b) => Json::Bool(*b),
            Json::Number(text) => Json::Number(text.clone()),
            Json::Str(text) => Json::Str(text.clone()),
            Json::Array(items) => {
                let mut copies: Vec<Json> = Vec::new();
                let mut i: usize = 0;
                while i < items.len()
                    invariant
                        *self == Json::Array(*items),
                        i <= items.len(),
                        copies@.len() == i,
                        forall|k: int| 0 <= k < i ==> copies@[k]@ == items@[k]@,
                    decreases items.len() - i,
                {
                    let item = &items[i];
                    assert(decreases_to!(*self => self->Array_0));
                    assert(decreases_to!(self->Array_0 => self->Array_0@));
                    assert(decreases_to!(self->Array_0@ => self->Array_0@[i as int]));
                    let copy = item.clone();
                    copies.push(copy);
                    i += 1;
                }
                proof {
                    lemma_array_view(*items);
                    lemma_array_view(copies);
                    assert(items_view(copies@) =~= items_view(items@));
                }
                Json::Array(copies)
            },
            Json::Object(members) => {
                let mut copies: Vec<(String, Json)> = Vec::new();
                let mut i: usize = 0;
                while i < members.len()
                    invariant
                        *self == Json::Object(*members),
                        i <= members.len(),
                        copies@.len() == i,
                        forall|k: int|
                            0 <= k < i ==> copies@[k].0@ == members@[k].0@ && copies@[k].1@
                                == members@[k].1@,
                    decreases members.len() - i,
                {
                    let key = members[i].0.clone();
                    let member = &members[i];
                    assert(decreases_to!(*self => self->Object_0));
                    assert(decreases_to!(self->Object_0 => self->Object_0@));
                    assert(decreases_to!(self->Object_0@ => self->Object_0@[i as int]));
                    assert(decreases_to!(self->Object_0@[i as int] => self->Object_0@[i as int].1));
                    let value = member.1.clone();
                    copies.push((key, value));
                    i += 1;
                }
                proof {
                    lemma_object_view(*members);
                    lemma_object_view(copies);
                    assert(members_view(copies@) =~= members_view(members@));
                }
                Json::Object(copies)
            },
        }
    }
}

impl Json {
    /// A string value.
    pub fn string(text: &str) -> (value: Json)
        ensures
            value@ == JsonValue::Str(text@),
    {
        Json::Str(text.to_owned())
    }

    /// An integer, in decimal notation.
    pub fn integer(n: i64) -> (value: Json)
        ensures
            value@ == JsonValue::integer(n as int),
    {
        Json::Number(integer_text(n))
    }

    /// An array of the given items.
    pub fn array_of(items: Vec<Json>) -> (value: Json)
        ensures
            value@ == JsonValue::Array(items_view(items@)),
    {
        proof {
            lemma_array_view(items);
        }
        Json::Array(items)
    }

    /// The object without members.
    pub fn object() -> (value: Json)
        ensures
            value@ == JsonValue::object(),
    {
        let members: Vec<(String, Json)> = Vec::new();
        proof {
            lemma_object_view(members);
            assert(members_view(members@) =~= Seq::empty());
        }
        Json::Object(members)
    }

    /// The array without items.
    pub fn array() -> (value: Json)
        ensures
            value@ == JsonValue::array(),
    {
        let items: Vec<Json> = Vec::new();
        proof {
            lemma_array_view(items);
            assert(items_view(items@) =~= Seq::empty());
        }
        Json::Array(items)
    }

    /// Adds a member at the end of this object. A value that is no object
    /// is handed back as it is.
    pub fn with(self, key: &str, value: Json) -> (extended: Json)
        ensures
            extended@ == self@.with(key@, value@),
    {
        match self {
            Json::Object(members) => {
                let mut members = members;
                let ghost before = members;
                members.push((key.to_owned(), value));
                proof {
                    lemma_object_view(before);
                    lemma_object_view(members);
                    assert(members_view(members@) =~= members_view(before@).push((key@, value@)));
                }
                Json::Object(members)
            },
            other => other,
        }
    }

    /// Adds a text member.
    pub fn with_str(self, key: &str, text: &str) -> (extended: Json)
        ensures
            extended@ == self@.with_str(key@, text@),
    {
        self.with(key, Json::string(text))
    }

    /// Adds a boolean member.
    pub fn with_bool(self, key: &str, value: bool) -> (extended: Json)
        ensures
            extended@ == self@.with_bool(key@, value),
    {
        self.with(key, Json::Bool(value))
    }

    /// Adds a text item.
    pub fn item_str(self, text: &str) -> (extended: Json)
        ensures
            extended@ == self@.item_str(text@),
    {
        self.item(Json::string(text))
    }

    /// Adds a text member where a text is given.
    pub fn with_text(self, key: &str, text: Option<&str>) -> (extended: Json)
        ensures
            extended@ == self@.with_text(key@, text_of(text)),
    {
        match text {
            Some(t) => self.with(key, Json::string(t)),
            None => self,
        }
    }

    /// Adds the member `key: true` where the flag is set.
    pub fn with_flag(self, key: &str, on: bool) -> (extended: Json)
        ensures
            extended@ == self@.with_flag(key@, on),
    {
        if on {
            self.with(key, Json::Bool(true))
        } else {
            self
        }
    }

    /// Adds an item at the end of this array. A value that is no array is
    /// handed back as it is.
    pub fn item(self, value: Json) -> (extended: Json)
        ensures
            extended@ == self@.item(value@),
    {
        match self {
            Json::Array(items) => {
                let mut items = items;
                let ghost before = items;
                items.push(value);
                proof {
                    lemma_array_view(before);
                    lemma_array_view(items);
                    assert(items_view(items@) =~= items_view(before@).push(value@));
                }
                Json::Array(items)
            },
            other => other,
        }
    }

    /// The member of this object under `key`: the last one, where the key
    /// occurs more than once.
    pub fn get(&self, key: &str) -> (found: Option<&Json>)
        ensures
            value_of(found) == self@.get(key@),
    {
        match self {
            Json::Object(members) => {
                proof {
                    lemma_object_view(*members);
                }
                let ghost all = members_view(members@);
                let mut i: usize = members.len();
                assert(all.take(i as int) =~= all);
                while i > 0
                    invariant
                        i <= members.len(),
                        all == members_view(members@),
                        self@ == JsonValue::Object(all),
                        lookup(all, key@) == lookup(all.take(i as int), key@),
                    decreases i,
                {
                    proof {
                        assert(all.take(i as int).drop_last() =~= all.take(i - 1));
                        assert(all.take(i as int).last() == all[i - 1]);
                        assert(all[i - 1] == (members@[i - 1].0@, members@[i - 1].1@));
                    }
                    if same_text(members[i - 1].0.as_str(), key) {
                        return Some(&members[i - 1].1);
                    }
                    i -= 1;
                }
                None
            },
            _ => None,
        }
    }

    /// A copy of the member under `key`, or `null` where there is none.
    pub fn member_or_null(&self, key: &str) -> (member: Json)
        ensures
            member@ == self@.member_or_null(key@),
    {
        match self.get(key) {
            Some(member) => member.clone(),
            None => Json::Null,
        }
    }

    /// The text of this value, if it is a string.
    pub fn as_str(&self) -> (text: Option<&str>)
        ensures
            text_of(text) == self@.as_str(),
    {
        match self {
            Json::Str(text) => Some(text.as_str()),
            _ => None,
        }
    }

    /// The truth value of this value, if it is a boolean.
    pub fn as_bool(&self) -> (value: Option<bool>)
        ensures
            value == self@.as_bool(),
    {
        match self {
            Json::Bool(b) => Some(*b),
            _ => None,
        }
    }

    /// The text of the string member under `key`, if there is one.
    pub fn str_at(&self, key: &str) -> (text: Option<&str>)
        ensures
            text_of(text) == self@.str_at(key@),
    {
        match self.get(key) {
            Some(value) => value.as_str(),
            None => None,
        }
    }

    /// The text of the string member under `key`, or `default` where there
    /// is none.
    pub fn str_or<'a>(&'a self, key: &str, default: &'a str) -> (text: &'a str)
        ensures
            text@ == self@.str_or(key@, default@),
    {
        match self.str_at(key) {
            Some(text) => text,
            None => default,
        }
    }

    /// The boolean member under `key`, or `default` where there is none.
    pub fn bool_or(&self, key: &str, default: bool) -> (value: bool)
        ensures
            value == self@.bool_or(key@, default),
    {
        match self.bool_at(key) {
            Some(value) => value,
            None => default,
        }
    }

    /// The boolean member under `key`, if there is one.
    pub fn bool_at(&self, key: &str) -> (value: Option<bool>)
        ensures
            value == self@.bool_at(key@),
    {
        match self.get(key) {
            Some(value) => value.as_bool(),
            None => None,
        }
    }
}

} // verus!
