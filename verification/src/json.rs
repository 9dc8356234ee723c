use vstd::prelude::*;

verus! {

/// What a JSON value holds, as far as this library reads it.
///
/// A number is `Natural` when it is written as an integer without sign,
/// fraction or exponent and fits in 64 bits; every other number is
/// `OtherNumber`. Of strings and arrays only their kind is kept.
pub enum Json {
    Null,
    Bool(bool),
    Natural(u64),
    OtherNumber,
    Text,
    Array,
    Object(Map<Seq<char>, Json>),
}

impl Json {
    /// The member stored under `key`, when `self` is an object that has one.
    pub open spec fn member(self, key: Seq<char>) -> Option<Json> {
        match self {
            Json::Object(members) => if members.contains_key(key) {
                Some(members[key])
            } else {
                None
            },
            _ => None,
        }
    }
}

#[verifier::external_type_specification]
#[verifier::external_body]
pub struct ExValue(serde_json::Value);

#[verifier::external_type_specification]
#[verifier::external_body]
pub struct ExJsonError(serde_json::Error);

/// What a `serde_json::Value` holds.
pub uninterp spec fn contents(value: serde_json::Value) -> Json;

/// The document that `serde_json` reads from `text`, or `None` where it
/// reports an error.
pub uninterp spec fn document_of(text: Seq<char>) -> Option<Json>;

/// Calls `serde_json::from_str` for a `Value`. Nothing is proved of the
/// parser: the contract only gives its outcome the name `document_of`, which
/// says that the outcome depends on the text alone.
#[verifier::external_body]
pub(crate) fn parse_document(text: &str) -> (parsed: Result<serde_json::Value, serde_json::Error>)
    ensures
        match parsed {
            Ok(value) => document_of(text@) == Some(contents(value)),
            Err(_) => document_of(text@) is None,
        },
{
    serde_json::from_str::<serde_json::Value>(text)
}

/// Calls `Value::get` with a string key. Trusted: the result is the member
/// under that key if the value is an object that has the key, and `None` for
/// a missing key or a value of any other kind.
#[verifier::external_body]
pub(crate) fn member_of<'a>(value: &'a serde_json::Value, key: &str) -> (found: Option<
    &'a serde_json::Value,
>)
    ensures
        match found {
            Some(member) => contents(*value).member(key@) == Some(contents(*member)),
            None => contents(*value).member(key@) is None,
        },
{
    value.get(key)
}

/// `Value::is_object` is true exactly of an object.
pub assume_specification[ serde_json::Value::is_object ](value: &serde_json::Value) -> (yes: bool)
    ensures
        yes == (contents(*value) is Object),
;

/// `Value::is_null` is true exactly of `null`.
pub assume_specification[ serde_json::Value::is_null ](value: &serde_json::Value) -> (yes: bool)
    ensures
        yes == (contents(*value) is Null),
;

/// `Value::as_bool` returns the boolean that the value is, and `None` for a
/// value of any other kind.
pub assume_specification[ serde_json::Value::as_bool ](value: &serde_json::Value) -> (flag: Option<
    bool,
>)
    ensures
        flag == match contents(*value) {
            Json::Bool(b) => Some(b),
            _ => None,
        },
;

/// `Value::as_u64` returns the number where the value is an unsigned integer
/// of at most 64 bits, and `None` for every other number or kind.
pub assume_specification[ serde_json::Value::as_u64 ](value: &serde_json::Value) -> (number: Option<
    u64,
>)
    ensures
        number == match contents(*value) {
            Json::Natural(n) => Some(n),
            _ => None,
        },
;

} // verus!
