//! Reading JSON text into the library's model, and writing it back, through
//! `serde_json`.
use vstd::prelude::*;

use crate::json::{Json, JsonNumber, JsonV, NumberV};

verus! {

#[verifier::external_type_specification]
#[verifier::external_body]
pub struct ExValue(serde_json::Value);

/// What a `serde_json::Value` holds, object members in the order
/// `serde_json` iterates them.
pub uninterp spec fn value_content(v: serde_json::Value) -> JsonV;

/// The kind of a `serde_json::Value`, with the contents of a scalar.
pub enum ValueShape {
    Null,
    Bool(bool),
    Number(JsonNumber),
    Str(String),
    Array,
    Object,
}

/// Reads the kind of a value: `serde_json::Value`'s variants told apart,
/// and a number read with `as_u64`, else `as_i64`, else as its text.
#[verifier::external_body]
fn value_shape(v: &serde_json::Value) -> (r: ValueShape)
    ensures
        match r {
            ValueShape::Null => value_content(*v) == JsonV::Null,
            ValueShape::Bool(b) => value_content(*v) == JsonV::Bool(b),
            ValueShape::Number(n) => value_content(*v) == JsonV::Number(n@),
            ValueShape::Str(s) => value_content(*v) == JsonV::Str(s@),
            ValueShape::Array => value_content(*v) is Array,
            ValueShape::Object => value_content(*v) is Object,
        },
{
    match v {
        serde_json::Value::Null => ValueShape::Null,
        serde_json::Value::Bool(b) => ValueShape::Bool(*b),
        serde_json::Value::Number(n) => ValueShape::Number(match (n.as_u64(), n.as_i64()) {
            (Some(u), _) => JsonNumber::PosInt(u),
            (None, Some(i)) => JsonNumber::NegInt(i),
            (None, None) => JsonNumber::Float(n.to_string()),
        }),
        serde_json::Value::String(s) => ValueShape::Str(s.clone()),
        serde_json::Value::Array(_) => ValueShape::Array,
        serde_json::Value::Object(_) => ValueShape::Object,
    }
}

/// The items of an array value (`Value::Array`), in order; none for any
/// other value.
#[verifier::external_body]
fn value_items(v: &serde_json::Value) -> (r: Vec<&serde_json::Value>)
    ensures
        value_content(*v) matches JsonV::Array(items) ==> r@.len() == items.len()
            && forall|i: int| 0 <= i < items.len() ==> value_content(*#[trigger] r@[i]) == items[i],
{
    match v {
        serde_json::Value::Array(items) => items.iter().collect(),
        _ => Vec::new(),
    }
}

/// The members of an object value (`Value::Object`, iterated), in order;
/// none for any other value.
#[verifier::external_body]
fn value_members(v: &serde_json::Value) -> (r: Vec<(&String, &serde_json::Value)>)
    ensures
        value_content(*v) matches JsonV::Object(members) ==> r@.len() == members.len()
            && forall|i: int| 0 <= i < members.len() ==> (#[trigger] r@[i]).0@ == members[i].0
                && value_content(*r@[i].1) == members[i].1,
{
    match v {
        serde_json::Value::Object(map) => map.iter().collect(),
        _ => Vec::new(),
    }
}

/// The library's model of a `serde_json` value.
pub fn to_json(v: &serde_json::Value) -> (r: Json)
    ensures
        r@ == value_content(*v),
    decreases value_content(*v),
{
    match value_shape(v) {
        ValueShape::Null => Json::Null,
        ValueShape::Bool(b) => Json::Bool(b),
        ValueShape::Number(n) => Json::Number(n),
        ValueShape::Str(s) => Json::String(s),
        ValueShape::Array => {
            let ghost items = value_content(*v)->Array_0;
            let values = value_items(v);
            let mut out: Vec<Json> = Vec::new();
            let mut i: usize = 0;
            while i < values.len()
                invariant
                    value_content(*v) == JsonV::Array(items),
                    values@.len() == items.len(),
                    forall|k: int| 0 <= k < items.len() ==> value_content(*#[trigger] values@[k]) == items[k],
                    i <= values@.len(),
                    out@.len() == i,
                    forall|k: int| 0 <= k < i ==> (#[trigger] out@[k])@ == items[k],
                decreases values@.len() - i,
            {
                assert(value_content(*values@[i as int]) == items[i as int]);
                assert(decreases_to!(value_content(*v) => value_content(*v)->Array_0));
                assert(decreases_to!(items => items[i as int]));
                let item = to_json(values[i]);
                out.push(item);
                i = i + 1;
            }
            let r = Json::Array(out);
            assert(r@->Array_0 =~= items);
            r
        },
        ValueShape::Object => {
            let ghost members = value_content(*v)->Object_0;
            let entries = value_members(v);
            let mut out: Vec<(String, Json)> = Vec::new();
            let mut i: usize = 0;
            while i < entries.len()
                invariant
                    value_content(*v) == JsonV::Object(members),
                    entries@.len() == members.len(),
                    forall|k: int| 0 <= k < members.len() ==> (#[trigger] entries@[k]).0@ == members[k].0
                        && value_content(*entries@[k].1) == members[k].1,
                    i <= entries@.len(),
                    out@.len() == i,
                    forall|k: int| 0 <= k < i ==> (#[trigger] out@[k]).0@ == members[k].0 && out@[k].1@ == members[k].1,
                decreases entries@.len() - i,
            {
                assert(entries@[i as int].0@ == members[i as int].0);
                assert(value_content(*entries@[i as int].1) == members[i as int].1);
                assert(decreases_to!(value_content(*v) => value_content(*v)->Object_0));
                assert(decreases_to!(members => members[i as int]));
                assert(decreases_to!(members[i as int] => members[i as int].1));
                let key = entries[i].0.clone();
                let item = to_json(entries[i].1);
                out.push((key, item));
                i = i + 1;
            }
            let r = Json::Object(out);
            assert(r@->Object_0 =~= members);
            r
        },
    }
}

/// What `serde_json::from_str::<Value>` reads from a text: the value, or
/// the text of its error.
pub uninterp spec fn parsed_json_text(text: Seq<char>) -> Result<JsonV, Seq<char>>;

/// What `serde_json::from_slice::<Value>` reads from bytes: the value, or the
/// text of its error.
pub uninterp spec fn parsed_json_bytes(bytes: Seq<u8>) -> Result<JsonV, Seq<char>>;

/// `serde_json::from_str::<serde_json::Value>`; an error is kept as its text.
#[verifier::external_body]
fn parse_text(text: &str) -> (r: Result<serde_json::Value, String>)
    ensures
        match r {
            Ok(v) => parsed_json_text(text@) == Ok::<JsonV, Seq<char>>(value_content(v)),
            Err(m) => parsed_json_text(text@) == Err::<JsonV, Seq<char>>(m@),
        },
{
    match serde_json::from_str::<serde_json::Value>(text) {
        Ok(v) => Ok(v),
        Err(e) => Err(e.to_string()),
    }
}

/// `serde_json::from_slice::<serde_json::Value>`; an error is kept as its
/// text.
#[verifier::external_body]
fn parse_bytes(bytes: &Vec<u8>) -> (r: Result<serde_json::Value, String>)
    ensures
        match r {
            Ok(v) => parsed_json_bytes(bytes@) == Ok::<JsonV, Seq<char>>(value_content(v)),
            Err(m) => parsed_json_bytes(bytes@) == Err::<JsonV, Seq<char>>(m@),
        },
{
    match serde_json::from_slice::<serde_json::Value>(bytes.as_slice()) {
        Ok(v) => Ok(v),
        Err(e) => Err(e.to_string()),
    }
}

/// The content of a JSON reading: the value, or the reader's message.
pub open spec fn read_view(r: Result<Json, String>) -> Result<JsonV, Seq<char>> {
    match r {
        Ok(v) => Ok(v@),
        Err(m) => Err(m@),
    }
}

/// Reads a JSON text: the value, or the reader's message.
pub fn read_json(text: &str) -> (r: Result<Json, String>)
    ensures
        read_view(r) == parsed_json_text(text@),
{
    match parse_text(text) {
        Ok(v) => Ok(to_json(&v)),
        Err(m) => Err(m),
    }
}

/// Reads JSON bytes: the value, or the reader's message.
pub fn read_json_bytes(bytes: &Vec<u8>) -> (r: Result<Json, String>)
    ensures
        read_view(r) == parsed_json_bytes(bytes@),
{
    match parse_bytes(bytes) {
        Ok(v) => Ok(to_json(&v)),
        Err(m) => Err(m),
    }
}

/* Writing --------------------------------------------------------------- */

/// What `serde_json::from_str::<serde_json::Number>` reads from a text.
pub uninterp spec fn parsed_number(text: Seq<char>) -> Option<NumberV>;

/// The compact text `serde_json::to_string` writes for a value.
pub uninterp spec fn compact_json_text(value: JsonV) -> Seq<char>;

/// The indented text `serde_json::to_string_pretty` writes for a value.
pub uninterp spec fn pretty_json_text(value: JsonV) -> Seq<char>;

/// `a` comes strictly before `b` in the order of `String` (byte order of
/// UTF-8, which is code point order).
pub open spec fn text_lt(a: Seq<char>, b: Seq<char>) -> bool {
    crate::text::text_le(a, b) && a != b
}

/// The value of the last member named `key`.
pub open spec fn last_value(entries: Seq<(Seq<char>, JsonV)>, key: Seq<char>) -> Option<JsonV>
    decreases entries.len(),
{
    if entries.len() == 0 {
        None
    } else if entries.last().0 == key {
        Some(entries.last().1)
    } else {
        last_value(entries.drop_last(), key)
    }
}

/// `members` is what a `serde_json::Map` holds after these entries are
/// inserted in turn: each key once, with its last value, in key order.
pub open spec fn is_map_of(members: Seq<(Seq<char>, JsonV)>, entries: Seq<(Seq<char>, JsonV)>) -> bool {
    &&& forall|i: int, j: int| 0 <= i < j < members.len() ==> text_lt(#[trigger] members[i].0, #[trigger] members[j].0)
    &&& forall|i: int| 0 <= i < members.len() ==> last_value(entries, (#[trigger] members[i]).0) == Some(members[i].1)
    &&& forall|k: Seq<char>| #[trigger] last_value(entries, k) is Some
        ==> exists|i: int| 0 <= i < members.len() && (#[trigger] members[i]).0 == k
}

/// The object a `serde_json::Map` built from these entries holds.
pub open spec fn object_value(entries: Seq<(Seq<char>, JsonV)>) -> JsonV {
    JsonV::Object(choose|members: Seq<(Seq<char>, JsonV)>| is_map_of(members, entries))
}

/// What the `serde_json::Value` made from a value of the library holds: a
/// non-negative `NegInt` becomes a `PosInt`, a `Float` is read back from its
/// text (`null` when it is not a number), and an object becomes a map.
pub open spec fn built_value(j: JsonV) -> JsonV
    decreases j,
{
    match j {
        JsonV::Number(NumberV::NegInt(i)) => if i < 0 {
            j
        } else {
            JsonV::Number(NumberV::PosInt(i as u64))
        },
        JsonV::Number(NumberV::Float(t)) => match parsed_number(t) {
            Some(n) => JsonV::Number(n),
            None => JsonV::Null,
        },
        JsonV::Array(items) => JsonV::Array(
            Seq::new(items.len(), |i: int| if 0 <= i < items.len() { built_value(items[i]) } else { JsonV::Null }),
        ),
        JsonV::Object(members) => object_value(built_members(members)),
        _ => j,
    }
}

/// The members of an object, each value as [`built_value`] makes it.
pub open spec fn built_members(members: Seq<(Seq<char>, JsonV)>) -> Seq<(Seq<char>, JsonV)>
    decreases members,
{
    Seq::new(
        members.len(),
        |i: int|
            if 0 <= i < members.len() {
                (members[i].0, built_value(members[i].1))
            } else {
                (Seq::empty(), JsonV::Null)
            },
    )
}

/// `Value::Null`.
#[verifier::external_body]
fn new_null() -> (r: serde_json::Value)
    ensures
        value_content(r) == JsonV::Null,
{
    serde_json::Value::Null
}

/// `Value::Bool`.
#[verifier::external_body]
fn new_bool(b: bool) -> (r: serde_json::Value)
    ensures
        value_content(r) == JsonV::Bool(b),
{
    serde_json::Value::Bool(b)
}

/// `Value::from(u64)`: a non-negative integer.
#[verifier::external_body]
fn new_unsigned(n: u64) -> (r: serde_json::Value)
    ensures
        value_content(r) == JsonV::Number(NumberV::PosInt(n)),
{
    serde_json::Value::from(n)
}

/// `Value::from(i64)`: `serde_json` keeps a negative integer as such and a
/// non-negative one as unsigned.
#[verifier::external_body]
fn new_signed(n: i64) -> (r: serde_json::Value)
    ensures
        n < 0 ==> value_content(r) == JsonV::Number(NumberV::NegInt(n)),
        n >= 0 ==> value_content(r) == JsonV::Number(NumberV::PosInt(n as u64)),
{
    serde_json::Value::from(n)
}

/// `serde_json::from_str::<Number>` of a number's text, as a value; `null`
/// when the text is not a number.
#[verifier::external_body]
fn new_number_from_text(text: &str) -> (r: serde_json::Value)
    ensures
        value_content(r) == match parsed_number(text@) {
            Some(n) => JsonV::Number(n),
            None => JsonV::Null,
        },
{
    match serde_json::from_str::<serde_json::Number>(text) {
        Ok(n) => serde_json::Value::Number(n),
        Err(_) => serde_json::Value::Null,
    }
}

/// `Value::String`.
#[verifier::external_body]
fn new_string(s: String) -> (r: serde_json::Value)
    ensures
        value_content(r) == JsonV::Str(s@),
{
    serde_json::Value::String(s)
}

/// `Value::Array`.
#[verifier::external_body]
fn new_array(items: Vec<serde_json::Value>) -> (r: serde_json::Value)
    ensures
        value_content(r) == JsonV::Array(items@.map_values(|x: serde_json::Value| value_content(x))),
{
    serde_json::Value::Array(items)
}

/// `Value::Object` of a `serde_json::Map` collected from the entries in
/// order (a later entry's value replaces an earlier one of the same key).
#[verifier::external_body]
fn new_object(entries: Vec<(String, serde_json::Value)>) -> (r: serde_json::Value)
    ensures
        value_content(r) == object_value(
            entries@.map_values(|e: (String, serde_json::Value)| (e.0@, value_content(e.1))),
        ),
{
    serde_json::Value::Object(entries.into_iter().collect())
}

/// `serde_json::to_string` of a value; it cannot fail, as every key of a
/// `Value` is a string.
#[verifier::external_body]
fn compact_text(v: &serde_json::Value) -> (r: String)
    ensures
        r@ == compact_json_text(value_content(*v)),
{
    match serde_json::to_string(v) {
        Ok(t) => t,
        Err(_) => String::new(),
    }
}

/// `serde_json::to_string_pretty` of a value; it cannot fail, as every key
/// of a `Value` is a string.
#[verifier::external_body]
fn pretty_text(v: &serde_json::Value) -> (r: String)
    ensures
        r@ == pretty_json_text(value_content(*v)),
{
    match serde_json::to_string_pretty(v) {
        Ok(t) => t,
        Err(_) => String::new(),
    }
}

/// The `serde_json` value of a value of the library.
#[verifier::loop_isolation(false)]
pub fn to_value(j: &Json) -> (r: serde_json::Value)
    ensures
        value_content(r) == built_value(j@),
    decreases j,
{
    match j {
        Json::Null => new_null(),
        Json::Bool(b) => new_bool(*b),
        Json::Number(JsonNumber::PosInt(n)) => new_unsigned(*n),
        Json::Number(JsonNumber::NegInt(n)) => new_signed(*n),
        Json::Number(JsonNumber::Float(t)) => new_number_from_text(t.as_str()),
        Json::String(s) => new_string(s.clone()),
        Json::Array(items) => {
            let ghost want = built_value(j@)->Array_0;
            let mut out: Vec<serde_json::Value> = Vec::new();
            let mut i: usize = 0;
            while i < items.len()
                invariant
                    want == built_value(j@)->Array_0,
                    want.len() == items@.len(),
                    forall|k: int| 0 <= k < items@.len() ==> #[trigger] want[k] == built_value(items@[k]@),
                    i <= items@.len(),
                    out@.len() == i,
                    forall|k: int| 0 <= k < i ==> value_content(#[trigger] out@[k]) == want[k],
                decreases items@.len() - i,
            {
                let item = to_value(&items[i]);
                out.push(item);
                i = i + 1;
            }
            assert(out@.map_values(|x: serde_json::Value| value_content(x)) =~= want);
            assert(built_value(j@) == JsonV::Array(want));
            new_array(out)
        },
        Json::Object(entries) => {
            let ghost want = Seq::new(
                entries@.len(),
                |k: int| (entries@[k].0@, built_value(entries@[k].1@)),
            );
            let mut out: Vec<(String, serde_json::Value)> = Vec::new();
            let mut i: usize = 0;
            while i < entries.len()
                invariant
                    want.len() == entries@.len(),
                    forall|k: int| 0 <= k < entries@.len() ==> #[trigger] want[k] == (entries@[k].0@, built_value(entries@[k].1@)),
                    i <= entries@.len(),
                    out@.len() == i,
                    forall|k: int| 0 <= k < i ==> (#[trigger] out@[k]).0@ == want[k].0 && value_content(out@[k].1) == want[k].1,
                decreases entries@.len() - i,
            {
                let item = to_value(&entries[i].1);
                out.push((entries[i].0.clone(), item));
                i = i + 1;
            }
            let ghost got = out@.map_values(|e: (String, serde_json::Value)| (e.0@, value_content(e.1)));
            assert(got =~= want);
            proof {
                let jv = j@->Object_0;
                assert(jv.len() == entries@.len());
                assert forall|k: int| 0 <= k < jv.len() implies jv[k] == (entries@[k].0@, entries@[k].1@) by {}
                assert(built_members(jv) =~= want);
            }
            assert(built_value(j@) == object_value(got));
            new_object(out)
        },
    }
}

/// Writes a value as JSON text, indented or compact.
pub fn write_json(value: &Json, pretty: bool) -> (r: String)
    ensures
        r@ == if pretty {
            pretty_json_text(built_value(value@))
        } else {
            compact_json_text(built_value(value@))
        },
{
    let v = to_value(value);
    if pretty { pretty_text(&v) } else { compact_text(&v) }
}

} // verus!
