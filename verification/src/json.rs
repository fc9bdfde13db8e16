//! JSON values of `serde_json`, seen through a plain model.
//!
//! The values themselves are `serde_json`'s. Each function here hands one call to it and states,
//! over the model, what that call does.

use vstd::prelude::*;

verus! {

/// What a JSON value holds.
///
/// A number is either an integer or a floating-point number, the latter given by its bit pattern.
pub ghost enum Json {
    Null,
    Bool(bool),
    Integer(int),
    Float(u64),
    Text(Seq<char>),
    Array(Seq<Json>),
    Object(Map<Seq<char>, Json>),
}

/// The members of an empty object.
pub open spec fn no_members() -> Map<Seq<char>, Json> {
    Map::empty()
}

/// How many arrays and objects may stand inside one another in a text that can be parsed.
pub open spec fn max_nesting() -> nat {
    127
}

/// Whether `j` holds at most `levels` arrays and objects inside one another.
pub open spec fn nested_within(j: Json, levels: nat) -> bool
    decreases levels,
{
    match j {
        Json::Array(items) => levels > 0 && forall|i: int|
            0 <= i < items.len() ==> nested_within(#[trigger] items[i], (levels - 1) as nat),
        Json::Object(members) => levels > 0 && forall|key: Seq<char>| #[trigger]
            members.contains_key(key) ==> nested_within(members[key], (levels - 1) as nat),
        _ => true,
    }
}

/// Whether no floating-point number stands in `j` inside of fewer than `levels` arrays and objects.
pub open spec fn float_free_within(j: Json, levels: nat) -> bool
    decreases levels,
{
    levels > 0 ==> match j {
        Json::Float(_) => false,
        Json::Array(items) => forall|i: int|
            0 <= i < items.len() ==> float_free_within(#[trigger] items[i], (levels - 1) as nat),
        Json::Object(members) => forall|key: Seq<char>| #[trigger]
            members.contains_key(key) ==> float_free_within(members[key], (levels - 1) as nat),
        _ => true,
    }
}

/// Whether no floating-point number stands anywhere in `j`.
pub open spec fn float_free(j: Json) -> bool {
    forall|levels: nat| #[trigger] float_free_within(j, levels)
}

/// Whether `a` and `b` agree on being an object and, as objects, on their keys and on every member
/// that is a text in either.
pub open spec fn same_texts(a: Json, b: Json) -> bool {
    match (a, b) {
        (Json::Object(m), Json::Object(n)) => {
            &&& m.dom() == n.dom()
            &&& forall|key: Seq<char>| #[trigger]
                m.contains_key(key) && (m[key] is Text || n[key] is Text) ==> m[key] == n[key]
        },
        (Json::Object(_), _) => false,
        (_, Json::Object(_)) => false,
        _ => true,
    }
}

/// What a parsed value is, given the text `text` that `j` was written as.
///
/// A value that is not nested too deeply comes back: as it was, if it holds no floating-point number,
/// and otherwise perhaps with its floating-point numbers rounded. What comes back has the keys and the
/// texts that it had.
pub open spec fn reads_back(text: Seq<char>, j: Json) -> bool {
    &&& nested_within(j, max_nesting()) ==> json_parse(text) is Ok
    &&& nested_within(j, max_nesting()) && float_free(j) ==> json_parse(text) == Ok::<
        Json,
        Seq<char>,
    >(j)
    &&& json_parse(text) matches Ok(back) ==> same_texts(j, back)
}

#[verifier::external_type_specification]
#[verifier::external_body]
pub struct ExValue(serde_json::Value);

#[verifier::external_type_specification]
#[verifier::external_body]
#[verifier::reject_recursive_types(K)]
#[verifier::reject_recursive_types(V)]
pub struct ExMap<K, V>(serde_json::Map<K, V>);

/// What a `serde_json::Value` holds.
pub uninterp spec fn json_of(value: serde_json::Value) -> Json;

/// What a `serde_json::Map` holds under each of its keys.
pub uninterp spec fn members_of(map: serde_json::Map<String, serde_json::Value>) -> Map<
    Seq<char>,
    Json,
>;

/// What `serde_json::from_str` makes of a text: the value, or the message of the error.
pub uninterp spec fn json_parse(text: Seq<char>) -> Result<Json, Seq<char>>;

/// What `serde_json::to_string_pretty` makes of a value.
pub uninterp spec fn json_pretty(j: Json) -> Seq<char>;

/// Calls `serde_json::from_str` for a `Value`.
///
/// Claimed: the outcome depends on the text alone. `json_parse` names it, the error by the text that
/// its `Display` writes. A value that was parsed is nested within `max_nesting()`: the parser counts
/// down from 128 at each array and object, and refuses the one at which it comes to nothing.
#[verifier::external_body]
pub(crate) fn from_str(text: &str) -> (parsed: Result<serde_json::Value, String>)
    ensures
        match parsed {
            Ok(value) => json_parse(text@) == Ok::<Json, Seq<char>>(json_of(value)),
            Err(message) => json_parse(text@) == Err::<Json, Seq<char>>(message@),
        },
        parsed matches Ok(value) ==> nested_within(json_of(value), max_nesting()),
{
    serde_json::from_str(text).map_err(|e: serde_json::Error| e.to_string())
}

/// Calls `serde_json::to_string_pretty` on a `Value`.
///
/// Claimed: it succeeds on every `Value`, since the keys are strings and the text is written to
/// memory; the text depends on what the value holds alone, and `json_pretty` names it; and the text
/// reads back as `reads_back` says. No floating-point number is refused as out of range when it is
/// read back: all that a `Value` holds are finite, each is written in its shortest correctly rounded
/// form, and even the largest, `1.7976931348623157e308`, is read as the product of
/// `17976931348623157` and `1e292`, which is finite.
#[verifier::external_body]
pub(crate) fn to_string_pretty(value: &serde_json::Value) -> (written: Result<String, String>)
    ensures
        written is Ok,
        written->Ok_0@ == json_pretty(json_of(*value)),
        reads_back(written->Ok_0@, json_of(*value)),
{
    serde_json::to_string_pretty(value).map_err(|e: serde_json::Error| e.to_string())
}

/// Calls `serde_json::Value::get` with a key.
///
/// Claimed: it gives the member of an object under that key, and nothing where there is no such
/// member or the value is not an object.
#[verifier::external_body]
pub(crate) fn get<'a>(value: &'a serde_json::Value, key: &str) -> (member: Option<
    &'a serde_json::Value,
>)
    ensures
        match member {
            Some(m) => json_of(*value) matches Json::Object(members) && members.contains_key(key@)
                && members[key@] == json_of(*m),
            None => json_of(*value) matches Json::Object(members) ==> !members.contains_key(key@),
        },
{
    value.get(key)
}

/// Calls `serde_json::Value::as_str`.
///
/// Claimed: it gives the text of a value that is a text, and nothing for any other.
#[verifier::external_body]
pub(crate) fn as_str(value: &serde_json::Value) -> (text: Option<&str>)
    ensures
        match text {
            Some(t) => json_of(*value) == Json::Text(t@),
            None => !(json_of(*value) is Text),
        },
{
    value.as_str()
}

/// Calls `serde_json::Value::as_object_mut`.
///
/// Claimed: it gives the members of an object, and what becomes of them becomes of the object; for
/// any other value it gives nothing and changes nothing.
#[verifier::external_body]
pub(crate) fn as_object_mut(value: &mut serde_json::Value) -> (map: Option<
    &mut serde_json::Map<String, serde_json::Value>,
>)
    ensures
        match map {
            Some(m) => json_of(*old(value)) == Json::Object(members_of(*m)) && json_of(
                *final(value),
            ) == Json::Object(members_of(*final(m))),
            None => !(json_of(*old(value)) is Object) && *final(value) == *old(value),
        },
{
    value.as_object_mut()
}

/// Calls `serde_json::Map::insert`.
///
/// Claimed: the key then holds the value, in place of what it held, and every other key what it held.
#[verifier::external_body]
pub(crate) fn insert(
    map: &mut serde_json::Map<String, serde_json::Value>,
    key: String,
    value: serde_json::Value,
)
    ensures
        members_of(*final(map)) == members_of(*old(map)).insert(key@, json_of(value)),
{
    map.insert(key, value);
}

/// Calls `serde_json::Map::remove`.
///
/// Claimed: the key then holds nothing, and every other key what it held.
#[verifier::external_body]
pub(crate) fn remove(map: &mut serde_json::Map<String, serde_json::Value>, key: &str)
    ensures
        members_of(*final(map)) == members_of(*old(map)).remove(key@),
{
    map.remove(key);
}

/// Calls `serde_json::Map::new`.
///
/// Claimed: the map is empty.
#[verifier::external_body]
pub(crate) fn new_map() -> (map: serde_json::Map<String, serde_json::Value>)
    ensures
        members_of(map) == no_members(),
{
    serde_json::Map::new()
}

/// Calls `serde_json::Value::from` on a map.
///
/// Claimed: the value is the object with the members of the map.
#[verifier::external_body]
pub(crate) fn from_map(map: serde_json::Map<String, serde_json::Value>) -> (value:
    serde_json::Value)
    ensures
        json_of(value) == Json::Object(members_of(map)),
{
    serde_json::Value::from(map)
}

/// Calls `serde_json::Value::from` on a text.
///
/// Claimed: the value is that text.
#[verifier::external_body]
pub(crate) fn from_text(text: &str) -> (value: serde_json::Value)
    ensures
        json_of(value) == Json::Text(text@),
{
    serde_json::Value::from(text)
}

// ---- laws ----

/// What holds nothing else is nested in nothing, and holds a floating-point number only where it is
/// one.
pub proof fn law_scalars(b: bool, n: int, bits: u64, text: Seq<char>, levels: nat)
    ensures
        nested_within(Json::Null, levels) && float_free(Json::Null),
        nested_within(Json::Bool(b), levels) && float_free(Json::Bool(b)),
        nested_within(Json::Integer(n), levels) && float_free(Json::Integer(n)),
        nested_within(Json::Text(text), levels) && float_free(Json::Text(text)),
        nested_within(Json::Float(bits), levels) && !float_free(Json::Float(bits)),
{
    assert(!float_free_within(Json::Float(bits), 1));
}

/// An object is one level deeper than its members, and an array than its items.
pub proof fn law_levels(j: Json, levels: nat)
    ensures
        j matches Json::Array(items) ==> (nested_within(j, levels) <==> levels > 0 && forall|i: int|
            0 <= i < items.len() ==> nested_within(#[trigger] items[i], (levels - 1) as nat)),
        j matches Json::Object(members) ==> (nested_within(j, levels) <==> levels > 0 && forall|
            key: Seq<char>,
        | #[trigger]
            members.contains_key(key) ==> nested_within(members[key], (levels - 1) as nat)),
        max_nesting() == 127,
{
}

/// An object or an array is without floating-point numbers exactly where all that it holds is.
pub proof fn law_float_free_throughout(j: Json)
    ensures
        j matches Json::Array(items) ==> (float_free(j) <==> forall|i: int|
            0 <= i < items.len() ==> float_free(#[trigger] items[i])),
        j matches Json::Object(members) ==> (float_free(j) <==> forall|key: Seq<char>| #[trigger]
            members.contains_key(key) ==> float_free(members[key])),
{
    if let Json::Array(items) = j {
        if float_free(j) {
            assert forall|i: int| 0 <= i < items.len() implies float_free(#[trigger] items[i]) by {
                assert forall|levels: nat| #[trigger] float_free_within(items[i], levels) by {
                    assert(float_free_within(j, levels + 1));
                    assert((levels + 1 - 1) as nat == levels);
                }
            }
        }
        if forall|i: int| 0 <= i < items.len() ==> float_free(#[trigger] items[i]) {
            assert forall|levels: nat| #[trigger] float_free_within(j, levels) by {
                if levels > 0 {
                    assert forall|i: int| 0 <= i < items.len() implies float_free_within(
                        #[trigger] items[i],
                        (levels - 1) as nat,
                    ) by {
                        assert(float_free(items[i]));
                    }
                }
            }
        }
    }
    if let Json::Object(members) = j {
        if float_free(j) {
            assert forall|key: Seq<char>| #[trigger] members.contains_key(key) implies float_free(
                members[key],
            ) by {
                assert forall|levels: nat| #[trigger] float_free_within(members[key], levels) by {
                    assert(members.contains_key(key));
                    assert(float_free_within(j, levels + 1));
                    assert((levels + 1 - 1) as nat == levels);
                }
            }
        }
        if forall|key: Seq<char>| #[trigger] members.contains_key(key) ==> float_free(members[key]) {
            assert forall|levels: nat| #[trigger] float_free_within(j, levels) by {
                if levels > 0 {
                    assert forall|key: Seq<char>| #[trigger] members.contains_key(
                        key,
                    ) implies float_free_within(members[key], (levels - 1) as nat) by {
                        assert(float_free(members[key]));
                    }
                }
            }
        }
    }
}

/// A value that reads back from a text as a value with the same keys and texts holds, as an object,
/// each text that was written, and no text under another key.
pub proof fn law_texts_read_back(
    members: Map<Seq<char>, Json>,
    back: Json,
    key: Seq<char>,
    text: Seq<char>,
)
    ensures
        same_texts(Json::Object(members), back) ==> back is Object,
        same_texts(Json::Object(members), back) ==> (back matches Json::Object(read) ==> {
            &&& read.contains_key(key) == members.contains_key(key)
            &&& members.contains_key(key) ==> (read[key] == Json::Text(text) <==> members[key]
                == Json::Text(text))
        }),
        no_members().dom() == Set::<Seq<char>>::empty(),
{
}

} // verus!
