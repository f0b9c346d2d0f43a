//! Reading JSON values that the `serde_json` crate has parsed.

use serde_json::Map as JsonMap;
use serde_json::Value as JsonValue;
use vstd::prelude::*;

verus! {

/// A JSON value, as `serde_json` holds it.
#[verifier::external_type_specification]
#[verifier::external_body]
pub struct ExJsonValue(serde_json::Value);

/// A JSON object, as `serde_json` holds it.
#[verifier::external_type_specification]
#[verifier::external_body]
#[verifier::reject_recursive_types(K)]
#[verifier::reject_recursive_types(V)]
pub struct ExJsonMap<K, V>(serde_json::Map<K, V>);

/// The object that a JSON value is, if it is one.
pub uninterp spec fn json_object(value: serde_json::Value) -> Option<
    serde_json::Map<String, serde_json::Value>,
>;

/// The members of a JSON object, in the order in which the object lists them.
pub uninterp spec fn json_members(
    object: serde_json::Map<String, serde_json::Value>,
) -> Seq<(Seq<char>, serde_json::Value)>;

/// The number that a JSON value holds as an unsigned integer, if it holds one so.
pub uninterp spec fn json_unsigned(value: serde_json::Value) -> Option<u64>;

/// The value of the member called `key`, if there is one.
pub open spec fn member_called(members: Seq<(Seq<char>, JsonValue)>, key: Seq<char>) -> Option<
    JsonValue,
>
    decreases members.len(),
{
    if members.len() == 0 {
        None
    } else if members.first().0 == key {
        Some(members.first().1)
    } else {
        member_called(members.drop_first(), key)
    }
}

/// `Value::as_object`: the object that `value` is, or `None` where `value` is not an object.
#[verifier::external_body]
pub(crate) fn as_object(value: &JsonValue) -> (r: Option<&JsonMap<String, JsonValue>>)
    ensures
        match r {
            Some(object) => json_object(*value) == Some(*object),
            None => json_object(*value) is None,
        },
{
    value.as_object()
}

/// `Map::keys`: the first of the names that it yields is that of the object's first member.
#[verifier::external_body]
pub(crate) fn first_key(object: &JsonMap<String, JsonValue>) -> (r: Option<&String>)
    ensures
        match r {
            Some(key) => json_members(*object).len() > 0 && key@ == json_members(*object)[0].0,
            None => json_members(*object).len() == 0,
        },
{
    object.keys().next()
}

/// `Map::values`: the first of the values that it yields is that of the object's first member.
#[verifier::external_body]
pub(crate) fn first_value(object: &JsonMap<String, JsonValue>) -> (r: Option<&JsonValue>)
    ensures
        match r {
            Some(value) => json_members(*object).len() > 0 && *value == json_members(*object)[0].1,
            None => json_members(*object).len() == 0,
        },
{
    object.values().next()
}

/// `Value::get` with a string: the member of that name, or `None` where `value` is not an object or
/// has no such member.
#[verifier::external_body]
pub(crate) fn get<'a>(value: &'a JsonValue, key: &str) -> (r: Option<&'a JsonValue>)
    ensures
        match json_object(*value) {
            Some(object) => match r {
                Some(found) => member_called(json_members(object), key@) == Some(*found),
                None => member_called(json_members(object), key@) is None,
            },
            None => r is None,
        },
{
    value.get(key)
}

/// `Value::as_u64`: the number that `value` holds as an unsigned integer, or `None` where it holds
/// none so. A number written with a sign, a fraction or an exponent is not held so.
#[verifier::external_body]
pub(crate) fn as_u64(value: &JsonValue) -> (r: Option<u64>)
    ensures
        r == json_unsigned(*value),
{
    value.as_u64()
}

/// A member is found under a name exactly when some member has that name, and it is the first such.
pub proof fn law_first_member_of_that_name(members: Seq<(Seq<char>, JsonValue)>, key: Seq<char>)
    ensures
        member_called(members, key) is None <==> (forall|i: int|
            0 <= i < members.len() ==> (#[trigger] members[i]).0 != key),
        forall|i: int|
            0 <= i < members.len() && (#[trigger] members[i]).0 == key && (forall|j: int|
                0 <= j < i ==> (#[trigger] members[j]).0 != key) ==> member_called(members, key)
                == Some(members[i].1),
    decreases members.len(),
{
    if members.len() > 0 && members.first().0 != key {
        let rest = members.drop_first();
        law_first_member_of_that_name(rest, key);
        assert forall|i: int| 0 <= i < rest.len() implies #[trigger] rest[i] == members[i + 1] by {}
        if member_called(members, key) is None {
            assert forall|i: int| 0 <= i < members.len() implies (#[trigger] members[i]).0 != key by {
                if i > 0 {
                    assert(rest[i - 1] == members[i]);
                }
            }
        }
        assert forall|i: int|
            0 <= i < members.len() && (#[trigger] members[i]).0 == key && (forall|j: int|
                0 <= j < i ==> (#[trigger] members[j]).0 != key) implies member_called(members, key)
            == Some(members[i].1) by {
            assert(rest[i - 1] == members[i]);
        }
    } else if members.len() > 0 {
        assert(members[0].0 == key);
    }
}

} // verus!
