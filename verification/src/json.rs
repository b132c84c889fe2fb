//! JSON values: what `serde_json::Value` holds, and the calls that read and build it.

use serde_json::Value;
use vstd::prelude::*;

verus! {

/// `serde_json::Value`. What a value holds is given by [`json_view`].
#[verifier::external_type_specification]
#[verifier::external_body]
pub struct ExValue(serde_json::Value);

/// What a JSON value holds. A number is given by its decimal text, an object by its members.
pub enum JsonView {
    Null,
    Bool(bool),
    Number(Seq<char>),
    Text(Seq<char>),
    List(Seq<JsonView>),
    Object(Map<Seq<char>, JsonView>),
}

impl JsonView {
    /// The member of an object under `key`.
    pub open spec fn member(self, key: Seq<char>) -> Option<JsonView> {
        match self {
            JsonView::Object(members) => if members.contains_key(key) {
                Some(members[key])
            } else {
                None
            },
            _ => None,
        }
    }

    /// The text of a JSON string.
    pub open spec fn text(self) -> Option<Seq<char>> {
        match self {
            JsonView::Text(text) => Some(text),
            _ => None,
        }
    }

    /// The truth value of a JSON boolean.
    pub open spec fn truth(self) -> Option<bool> {
        match self {
            JsonView::Bool(b) => Some(b),
            _ => None,
        }
    }

    /// The text of the member under `key`, where there is one and it is a string.
    pub open spec fn member_text(self, key: Seq<char>) -> Option<Seq<char>> {
        match self.member(key) {
            Some(member) => member.text(),
            None => None,
        }
    }
}

/// What a `serde_json::Value` holds.
pub uninterp spec fn json_view(value: serde_json::Value) -> JsonView;

/// What the values of a sequence hold.
pub open spec fn json_views(values: Seq<Value>) -> Seq<JsonView> {
    values.map_values(|v: Value| json_view(v))
}

/// What `serde_json::from_str::<Value>` returns: the value, or the text of its error.
pub uninterp spec fn json_parsed(text: Seq<char>) -> Result<JsonView, Seq<char>>;

/// What `serde_json::from_slice::<Vec<Value>>` returns: the values, or the text of its error.
pub uninterp spec fn json_list_parsed(bytes: Seq<u8>) -> Result<Seq<JsonView>, Seq<char>>;

/// The compact JSON text that `Display` of `serde_json::Value` writes.
pub uninterp spec fn json_compact(value: JsonView) -> Seq<char>;

/// The bytes that `serde_json::to_vec_pretty` writes for a list of values.
pub uninterp spec fn json_pretty(values: Seq<JsonView>) -> Seq<u8>;

/// `serde_json::from_str`: the value that the text denotes, or the text of the error. Both are
/// named by [`json_parsed`].
#[verifier::external_body]
pub(crate) fn parse_json(text: &str) -> (result: Result<Value, String>)
    ensures
        (match result {
            Ok(value) => json_parsed(text@) == Ok::<JsonView, Seq<char>>(json_view(value)),
            Err(error) => json_parsed(text@) == Err::<JsonView, Seq<char>>(error@),
        }),
{
    serde_json::from_str::<Value>(text).map_err(|error| error.to_string())
}

/// `serde_json::from_slice` into a list of values: the elements of the JSON array, or the text of
/// the error. Both are named by [`json_list_parsed`].
#[verifier::external_body]
pub(crate) fn parse_json_list(bytes: &[u8]) -> (result: Result<Vec<Value>, String>)
    ensures
        (match result {
            Ok(values) => json_list_parsed(bytes@) == Ok::<Seq<JsonView>, Seq<char>>(
                json_views(values@),
            ),
            Err(error) => json_list_parsed(bytes@) == Err::<Seq<JsonView>, Seq<char>>(error@),
        }),
{
    serde_json::from_slice::<Vec<Value>>(bytes).map_err(|error| error.to_string())
}

/// `Display` of `serde_json::Value`: the compact JSON text, named by [`json_compact`]. It holds no
/// line feed: nothing is written between the parts of a value, and a line feed in a string is
/// escaped.
#[verifier::external_body]
pub(crate) fn json_text(value: &Value) -> (text: String)
    ensures
        text@ == json_compact(json_view(*value)),
        forall|i: int| 0 <= i < text@.len() ==> text@[i] != '\n',
{
    value.to_string()
}

/// Whether a value is an object whose members are strings and nulls.
pub open spec fn is_flat(value: JsonView) -> bool {
    &&& value is Object
    &&& forall|key: Seq<char>| #[trigger]
        value->Object_0.contains_key(key) ==> value->Object_0[key] is Text
            || value->Object_0[key] is Null
}

/// Whether all values of a list are objects whose members are strings and nulls.
pub open spec fn all_flat(values: Seq<JsonView>) -> bool {
    forall|i: int| 0 <= i < values.len() ==> is_flat(#[trigger] values[i])
}

/// `serde_json::to_vec_pretty` of a list of values: the bytes of the indented JSON array, named by
/// [`json_pretty`]. It never fails: the keys of a `Value` are strings, its numbers are finite, and a
/// `Vec` takes all bytes. Of a list of objects whose members are strings and nulls,
/// `serde_json::from_slice` reads the values back from those bytes with a line feed behind them.
/// Nothing is said of reading back other lists: of numbers with a fraction the last digit may
/// change, and deeply nested values are not read at all.
#[verifier::external_body]
pub(crate) fn json_pretty_bytes(values: &Vec<Value>) -> (result: Result<Vec<u8>, String>)
    ensures
        result is Ok,
        (match result {
            Ok(bytes) => bytes@ == json_pretty(json_views(values@)),
            Err(_) => true,
        }),
        (match result {
            Ok(bytes) => all_flat(json_views(values@)) ==> json_list_parsed(bytes@.push(10u8))
                == Ok::<Seq<JsonView>, Seq<char>>(json_views(values@)),
            Err(_) => true,
        }),
{
    serde_json::to_vec_pretty(values).map_err(|error| error.to_string())
}

/// `serde_json::Value::get` with a string key: the member of an object under that key, and nothing
/// where the value is no object or has no such member.
#[verifier::external_body]
pub(crate) fn json_get<'a>(value: &'a Value, key: &str) -> (member: Option<&'a Value>)
    ensures
        (match member {
            Some(found) => json_view(*value).member(key@) == Some(json_view(*found)),
            None => json_view(*value).member(key@) is None,
        }),
{
    value.get(key)
}

/// `serde_json::Value::as_str`: the text of a JSON string, and nothing for any other value.
#[verifier::external_body]
pub(crate) fn json_str(value: &Value) -> (text: Option<&str>)
    ensures
        (match text {
            Some(found) => json_view(*value).text() == Some(found@),
            None => json_view(*value).text() is None,
        }),
{
    value.as_str()
}

/// `serde_json::Value::as_bool`: the truth value of a JSON boolean, and nothing for any other
/// value.
#[verifier::external_body]
pub(crate) fn json_bool(value: &Value) -> (truth: Option<bool>)
    ensures
        truth == json_view(*value).truth(),
{
    value.as_bool()
}

/// `serde_json::Value::is_object`: whether the value is a JSON object.
#[verifier::external_body]
pub(crate) fn json_is_object(value: &Value) -> (b: bool)
    ensures
        b == (json_view(*value) is Object),
{
    value.is_object()
}

/// `serde_json::Value::from` of a string: the JSON string of that text.
#[verifier::external_body]
pub(crate) fn json_string(text: &str) -> (value: Value)
    ensures
        json_view(value) == JsonView::Text(text@),
{
    Value::from(text)
}

/// `serde_json::Value::from` of a signed integer: the JSON number, printed in decimal.
#[verifier::external_body]
pub(crate) fn json_int(n: i64) -> (value: Value)
    ensures
        json_view(value) == JsonView::Number(crate::text::int_text(n as int)),
{
    Value::from(n)
}

/// `serde_json::Value::from` of an unsigned integer: the JSON number, printed in decimal.
#[verifier::external_body]
pub(crate) fn json_uint(n: u64) -> (value: Value)
    ensures
        json_view(value) == JsonView::Number(crate::text::nat_text(n as nat)),
{
    Value::from(n)
}

/// `serde_json::Value::Null`: the JSON null.
#[verifier::external_body]
pub(crate) fn json_null() -> (value: Value)
    ensures
        json_view(value) == JsonView::Null,
{
    Value::Null
}

/// `serde_json::Map::new` as a value: the JSON object without members.
#[verifier::external_body]
pub(crate) fn json_object() -> (value: Value)
    ensures
        json_view(value) == JsonView::Object(Map::empty()),
{
    Value::Object(serde_json::Map::new())
}

/// `serde_json::Map::insert` on the members of an object: the member under `key` becomes
/// `member`, the others stay.
#[verifier::external_body]
pub(crate) fn json_insert(object: &mut Value, key: &str, member: Value)
    requires
        json_view(*old(object)) is Object,
    ensures
        json_view(*final(object)) == JsonView::Object(
            json_view(*old(object))->Object_0.insert(key@, json_view(member)),
        ),
{
    if let Some(members) = object.as_object_mut() {
        members.insert(key.to_owned(), member);
    }
}

/// The JSON string of a text, or null where there is none.
pub(crate) fn json_opt_string(text: Option<&str>) -> (value: Value)
    ensures
        json_view(value) == opt_text_view(match text {
            Some(t) => Some(t@),
            None => None,
        }),
{
    match text {
        Some(t) => json_string(t),
        None => json_null(),
    }
}

/// The JSON string of a text, or null where there is none.
pub open spec fn opt_text_view(text: Option<Seq<char>>) -> JsonView {
    match text {
        Some(t) => JsonView::Text(t),
        None => JsonView::Null,
    }
}

} // verus!
