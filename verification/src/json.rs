//! JSON documents as the node sends and expects them.
//!
//! A [`Json`] holds a `serde_json::Value`; reading, writing and taking apart is
//! left to `serde_json`. What a document holds is a [`JsonModel`], and every
//! contract in this library that speaks of JSON speaks of that.

use crate::text::decimal_text;
use vstd::prelude::*;

verus! {

/// `serde_json::Value`, taken as it is: what one holds is told by [`json_model`].
#[verifier::external_type_specification]
#[verifier::external_body]
pub struct ExJsonValue(serde_json::Value);

/// What a JSON document holds.
///
/// A number is kept as the text that stands for it in a compact document, so
/// that `1` and `1.0` stay apart. An object maps each key to one member.
pub enum JsonModel {
    Null,
    Bool(bool),
    Number(Seq<char>),
    Text(Seq<char>),
    Array(Seq<JsonModel>),
    Object(Map<Seq<char>, JsonModel>),
}

/// What a `serde_json::Value` holds.
pub uninterp spec fn json_model(value: serde_json::Value) -> JsonModel;

/// The compact text that `serde_json` writes for a document.
pub uninterp spec fn json_text(model: JsonModel) -> Seq<char>;

/// What `serde_json` reads out of a text: the document, or its complaint.
pub uninterp spec fn json_parsed(text: Seq<char>) -> Result<JsonModel, Seq<char>>;

/// Whether `a` comes before `b` where strings are ordered character by
/// character, a proper prefix before what extends it.
pub open spec fn text_before(a: Seq<char>, b: Seq<char>) -> bool
    decreases a.len(),
{
    if b.len() == 0 {
        false
    } else if a.len() == 0 {
        true
    } else if a[0] != b[0] {
        (a[0] as int) < (b[0] as int)
    } else {
        text_before(a.drop_first(), b.drop_first())
    }
}

/// The key of `members` that no other key comes before, if there is any key.
pub open spec fn is_first_key(members: Map<Seq<char>, JsonModel>, key: Seq<char>) -> bool {
    &&& members.contains_key(key)
    &&& forall|other: Seq<char>| #[trigger] members.contains_key(other) ==> !text_before(other, key)
}

/// What each of `items` holds, in their order.
pub open spec fn models(items: Seq<Json>) -> Seq<JsonModel> {
    items.map_values(|item: Json| item@)
}

/// `document` with `member` under `key`, where it is an object; else `document`.
pub open spec fn with_member(document: JsonModel, key: Seq<char>, member: JsonModel) -> JsonModel {
    match document {
        JsonModel::Object(members) => JsonModel::Object(members.insert(key, member)),
        _ => document,
    }
}

/// The member of an object under `key`.
pub open spec fn member_of(document: JsonModel, key: Seq<char>) -> Option<JsonModel> {
    match document {
        JsonModel::Object(members) => if members.contains_key(key) {
            Some(members[key])
        } else {
            None
        },
        _ => None,
    }
}

/// The text of a string.
pub open spec fn text_of(document: JsonModel) -> Option<Seq<char>> {
    match document {
        JsonModel::Text(text) => Some(text),
        _ => None,
    }
}

/// The text under `key` of an object, where a string is there.
pub open spec fn text_member(document: JsonModel, key: Seq<char>) -> Option<Seq<char>> {
    match member_of(document, key) {
        Some(member) => text_of(member),
        None => None,
    }
}

/// The truth value of a boolean.
pub open spec fn flag_of(document: JsonModel) -> Option<bool> {
    match document {
        JsonModel::Bool(flag) => Some(flag),
        _ => None,
    }
}

/// The text of a number.
pub open spec fn number_of(document: JsonModel) -> Option<Seq<char>> {
    match document {
        JsonModel::Number(text) => Some(text),
        _ => None,
    }
}

/// Whether a document is an object that has a key.
pub open spec fn has_key(document: JsonModel) -> bool {
    document matches JsonModel::Object(members) && exists|key: Seq<char>|
        members.contains_key(key)
}

/// The first key of an object, in the order of keys; `None` exactly for an
/// object without members and for anything but an object. An object of
/// finitely many keys always has a first one; were there keys and none of
/// them first, this is still one of the keys.
pub open spec fn first_key_of(document: JsonModel) -> Option<Seq<char>> {
    match document {
        JsonModel::Object(members) => if exists|key: Seq<char>| is_first_key(members, key) {
            Some(choose|key: Seq<char>| is_first_key(members, key))
        } else if exists|key: Seq<char>| members.contains_key(key) {
            Some(choose|key: Seq<char>| members.contains_key(key))
        } else {
            None
        },
        _ => None,
    }
}

/// The first key is a key of the object, and there is none only where the
/// document is no object or an object without a key.
pub proof fn lemma_first_key_is_a_key(document: JsonModel)
    ensures
        first_key_of(document) matches Some(key) ==> document matches JsonModel::Object(members)
            && members.contains_key(key),
        first_key_of(document) is None <==> !has_key(document),
{
    if let JsonModel::Object(members) = document {
        if exists|key: Seq<char>| is_first_key(members, key) {
            let first = choose|key: Seq<char>| is_first_key(members, key);
            assert(members.contains_key(first));
        } else if exists|key: Seq<char>| members.contains_key(key) {
            let some = choose|key: Seq<char>| members.contains_key(key);
            assert(members.contains_key(some));
        }
    }
}

/// Of two different texts, one comes before the other.
pub proof fn lemma_text_order_total(a: Seq<char>, b: Seq<char>)
    ensures
        a != b ==> text_before(a, b) || text_before(b, a),
    decreases a.len(),
{
    if a.len() > 0 && b.len() > 0 && a[0] == b[0] {
        lemma_text_order_total(a.drop_first(), b.drop_first());
        if a.drop_first() == b.drop_first() {
            assert(a =~= seq![a[0]] + a.drop_first());
            assert(b =~= seq![b[0]] + b.drop_first());
        }
    } else if a.len() == 0 && b.len() == 0 {
        assert(a =~= b);
    }
}

/// An object has at most one first key.
pub proof fn lemma_first_key_unique(members: Map<Seq<char>, JsonModel>, key: Seq<char>)
    requires
        is_first_key(members, key),
    ensures
        first_key_of(JsonModel::Object(members)) == Some(key),
{
    let chosen = choose|k: Seq<char>| is_first_key(members, k);
    lemma_text_order_total(chosen, key);
}

/// Calls `serde_json::from_str` for a `Value`. A complaint is handed on as the
/// text that its `Display` writes.
#[verifier::external_body]
fn value_parse(text: &str) -> (outcome: Result<serde_json::Value, String>)
    ensures
        match outcome {
            Ok(value) => json_parsed(text@) == Ok::<JsonModel, Seq<char>>(json_model(value)),
            Err(complaint) => json_parsed(text@) == Err::<JsonModel, Seq<char>>(complaint@),
        },
{
    serde_json::from_str::<serde_json::Value>(text).map_err(|e| e.to_string())
}

/// Calls the `Display` of `Value`, which writes the compact form.
#[verifier::external_body]
fn value_render(value: &serde_json::Value) -> (text: String)
    ensures
        text@ == json_text(json_model(*value)),
{
    value.to_string()
}

/// Calls `Value::get` with a key: the member of an object under that key, and
/// `None` where the value is no object or has no such key. The member is copied.
#[verifier::external_body]
fn value_member(value: &serde_json::Value, key: &str) -> (member: Option<serde_json::Value>)
    ensures
        match member {
            Some(found) => json_model(*value) matches JsonModel::Object(members)
                && members.contains_key(key@) && json_model(found) == members[key@],
            None => !(json_model(*value) matches JsonModel::Object(members)
                && members.contains_key(key@)),
        },
{
    value.get(key).cloned()
}

/// Calls `Value::as_str`: the text of a string, `None` for anything else.
#[verifier::external_body]
fn value_as_str(value: &serde_json::Value) -> (text: Option<&str>)
    ensures
        match text {
            Some(t) => json_model(*value) == JsonModel::Text(t@),
            None => !(json_model(*value) is Text),
        },
{
    value.as_str()
}

/// Calls `Value::as_bool`: the truth value of a boolean, `None` for anything else.
#[verifier::external_body]
fn value_as_bool(value: &serde_json::Value) -> (flag: Option<bool>)
    ensures
        match flag {
            Some(b) => json_model(*value) == JsonModel::Bool(b),
            None => !(json_model(*value) is Bool),
        },
{
    value.as_bool()
}

/// Calls `Value::as_number` and the `Display` of `Number`: the text of a
/// number, `None` for anything else.
#[verifier::external_body]
fn value_number_text(value: &serde_json::Value) -> (text: Option<String>)
    ensures
        match text {
            Some(t) => json_model(*value) == JsonModel::Number(t@),
            None => !(json_model(*value) is Number),
        },
{
    value.as_number().map(|n| n.to_string())
}

/// Calls `Value::is_null`.
#[verifier::external_body]
fn value_is_null(value: &serde_json::Value) -> (null: bool)
    ensures
        null == (json_model(*value) is Null),
{
    value.is_null()
}

/// Calls `Value::is_object`.
#[verifier::external_body]
fn value_is_object(value: &serde_json::Value) -> (object: bool)
    ensures
        object == (json_model(*value) is Object),
{
    value.is_object()
}

/// Calls `Value::as_object` and `Map::keys`: the first key of an object,
/// `None` where the value is no object or an object without members. The
/// keys are walked in their order because `serde_json` keeps an object in a
/// `BTreeMap`, as it does unless it is built with its `preserve_order`
/// feature, which this crate does not ask for; with that feature the first
/// key would be the one put in first, and this contract would not hold.
#[verifier::external_body]
fn value_first_key(value: &serde_json::Value) -> (key: Option<String>)
    ensures
        match key {
            Some(k) => json_model(*value) matches JsonModel::Object(members) && is_first_key(
                members,
                k@,
            ),
            None => json_model(*value) matches JsonModel::Object(members) ==> forall|k: Seq<char>|
                !members.contains_key(k),
        },
{
    value.as_object().and_then(|members| members.keys().next().cloned())
}

/// `Value::clone`: the copy holds what the value holds.
pub assume_specification[ <serde_json::Value as Clone>::clone ](
    value: &serde_json::Value,
) -> (copy: serde_json::Value)
    ensures
        json_model(copy) == json_model(*value),
;

/// Makes `Value::Null`.
#[verifier::external_body]
fn value_null() -> (value: serde_json::Value)
    ensures
        json_model(value) == JsonModel::Null,
{
    serde_json::Value::Null
}

/// Makes `Value::Bool`.
#[verifier::external_body]
fn value_bool(flag: bool) -> (value: serde_json::Value)
    ensures
        json_model(value) == JsonModel::Bool(flag),
{
    serde_json::Value::Bool(flag)
}

/// Makes `Value::String` of a copy of the text.
#[verifier::external_body]
fn value_text(text: &str) -> (value: serde_json::Value)
    ensures
        json_model(value) == JsonModel::Text(text@),
{
    serde_json::Value::String(text.to_owned())
}

/// Calls `Value::from` on an unsigned integer, which is then written in plain
/// decimal notation.
#[verifier::external_body]
fn value_integer(n: u64) -> (value: serde_json::Value)
    ensures
        json_model(value) == JsonModel::Number(decimal_text(n as nat)),
{
    serde_json::Value::from(n)
}

/// Makes `Value::Array` of copies of the items, in their order.
#[verifier::external_body]
fn value_array(items: &[Json]) -> (value: serde_json::Value)
    ensures
        json_model(value) == JsonModel::Array(models(items@)),
{
    serde_json::Value::Array(items.iter().map(|item| item.value.clone()).collect())
}

/// Makes `Value::Object` of `Map::new`, an object without members.
#[verifier::external_body]
fn value_object() -> (value: serde_json::Value)
    ensures
        json_model(value) == JsonModel::Object(Map::empty()),
{
    serde_json::Value::Object(serde_json::Map::new())
}

/// Calls `Map::insert` on an object, which puts the member under the key in
/// place of any member that was there. Anything but an object is left as it is.
#[verifier::external_body]
fn value_insert(target: &mut serde_json::Value, key: &str, member: serde_json::Value)
    ensures
        json_model(*final(target)) == with_member(
            json_model(*old(target)),
            key@,
            json_model(member),
        ),
{
    if let Some(members) = target.as_object_mut() {
        members.insert(key.to_owned(), member);
    }
}

/// A document of the library.
#[derive(Debug, Clone, PartialEq)]
pub struct Json {
    value: serde_json::Value,
}

impl View for Json {
    type V = JsonModel;

    closed spec fn view(&self) -> JsonModel {
        json_model(self.value)
    }
}

impl Json {
    /// Reads a document out of `text`, or hands back the parser's complaint.
    pub fn parse(text: &str) -> (outcome: Result<Json, String>)
        ensures
            match outcome {
                Ok(document) => json_parsed(text@) == Ok::<JsonModel, Seq<char>>(document@),
                Err(complaint) => json_parsed(text@) == Err::<JsonModel, Seq<char>>(complaint@),
            },
    {
        match value_parse(text) {
            Ok(value) => Ok(Json { value }),
            Err(complaint) => Err(complaint),
        }
    }

    /// The compact text of the document.
    pub fn render(&self) -> (text: String)
        ensures
            text@ == json_text(self@),
    {
        value_render(&self.value)
    }

    /// The document `null`.
    pub fn null() -> (document: Json)
        ensures
            document@ == JsonModel::Null,
    {
        Json { value: value_null() }
    }

    /// The document `true` or `false`.
    pub fn boolean(flag: bool) -> (document: Json)
        ensures
            document@ == JsonModel::Bool(flag),
    {
        Json { value: value_bool(flag) }
    }

    /// A string.
    pub fn text(text: &str) -> (document: Json)
        ensures
            document@ == JsonModel::Text(text@),
    {
        Json { value: value_text(text) }
    }

    /// A whole number.
    pub fn integer(n: u64) -> (document: Json)
        ensures
            document@ == JsonModel::Number(decimal_text(n as nat)),
    {
        Json { value: value_integer(n) }
    }

    /// An array of copies of `items`.
    pub fn array(items: &[Json]) -> (document: Json)
        ensures
            document@ == JsonModel::Array(models(items@)),
    {
        Json { value: value_array(items) }
    }

    /// An object without members.
    pub fn object() -> (document: Json)
        ensures
            document@ == JsonModel::Object(Map::empty()),
    {
        Json { value: value_object() }
    }

    /// The document with `member` under `key`. Only an object takes members:
    /// any other document comes back as it is.
    pub fn with(self, key: &str, member: Json) -> (document: Json)
        ensures
            document@ == with_member(self@, key@, member@),
    {
        let mut value = self.value;
        value_insert(&mut value, key, member.value);
        Json { value }
    }

    /// A copy of the member of an object under `key`.
    pub fn member(&self, key: &str) -> (member: Option<Json>)
        ensures
            match member {
                Some(found) => member_of(self@, key@) == Some(found@),
                None => member_of(self@, key@) is None,
            },
    {
        match value_member(&self.value, key) {
            Some(value) => Some(Json { value }),
            None => None,
        }
    }

    /// A copy of the text under `key` of an object, where a string is there.
    pub fn text_member(&self, key: &str) -> (text: Option<String>)
        ensures
            match text {
                Some(t) => text_member(self@, key@) == Some(t@),
                None => text_member(self@, key@) is None,
            },
    {
        match self.member(key) {
            Some(member) => match member.as_str() {
                Some(text) => Some(text.to_owned()),
                None => None,
            },
            None => None,
        }
    }

    /// The text of a string.
    pub fn as_str(&self) -> (text: Option<&str>)
        ensures
            match text {
                Some(t) => text_of(self@) == Some(t@),
                None => text_of(self@) is None,
            },
    {
        value_as_str(&self.value)
    }

    /// The truth value of a boolean.
    pub fn as_bool(&self) -> (flag: Option<bool>)
        ensures
            flag == flag_of(self@),
    {
        value_as_bool(&self.value)
    }

    /// The text of a number.
    pub fn number_text(&self) -> (text: Option<String>)
        ensures
            match text {
                Some(t) => number_of(self@) == Some(t@),
                None => number_of(self@) is None,
            },
    {
        value_number_text(&self.value)
    }

    /// A copy of the document.
    pub fn duplicate(&self) -> (copy: Json)
        ensures
            copy@ == self@,
    {
        Json { value: self.value.clone() }
    }

    /// Whether the document is an object.
    pub fn is_object(&self) -> (object: bool)
        ensures
            object == (self@ is Object),
    {
        value_is_object(&self.value)
    }

    /// Whether the document is `null`.
    pub fn is_null(&self) -> (null: bool)
        ensures
            null == (self@ is Null),
    {
        value_is_null(&self.value)
    }

    /// The first key of an object, in the order of keys; `None` where the
    /// document is no object, or an object without a key.
    pub fn first_key(&self) -> (key: Option<String>)
        ensures
            match key {
                Some(k) => first_key_of(self@) == Some(k@),
                None => first_key_of(self@) is None,
            },
            key is None <==> !has_key(self@),
    {
        let key = value_first_key(&self.value);
        proof {
            if self@ is Object && key is Some {
                lemma_first_key_unique(self@->Object_0, key->Some_0@);
            }
        }
        key
    }
}

} // verus!
