//! A plain model of the JSON documents the API exchanges.
use vstd::prelude::*;

verus! {

/// A JSON number as the API delivered it: a non-negative integer, a negative
/// integer, or any other number kept as its decimal text.
#[derive(Debug, PartialEq)]
pub enum JsonNumber {
    PosInt(u64),
    NegInt(i64),
    Float(String),
}

/// A JSON value. Object members keep the order in which they are iterated.
#[derive(Debug, PartialEq)]
pub enum Json {
    Null,
    Bool(bool),
    Number(JsonNumber),
    String(String),
    Array(Vec<Json>),
    Object(Vec<(String, Json)>),
}

/// The mathematical content of a [`JsonNumber`].
pub enum NumberV {
    PosInt(u64),
    NegInt(i64),
    Float(Seq<char>),
}

/// The mathematical content of a [`Json`] value.
pub enum JsonV {
    Null,
    Bool(bool),
    Number(NumberV),
    Str(Seq<char>),
    Array(Seq<JsonV>),
    Object(Seq<(Seq<char>, JsonV)>),
}

impl View for JsonNumber {
    type V = NumberV;

    open spec fn view(&self) -> NumberV {
        match self {
            JsonNumber::PosInt(n) => NumberV::PosInt(*n),
            JsonNumber::NegInt(n) => NumberV::NegInt(*n),
            JsonNumber::Float(t) => NumberV::Float(t@),
        }
    }
}

/// The content of a value, member by member.
pub open spec fn json_view(j: Json) -> JsonV
    decreases j,
{
    match j {
        Json::Null => JsonV::Null,
        Json::Bool(b) => JsonV::Bool(b),
        Json::Number(n) => JsonV::Number(n@),
        Json::String(s) => JsonV::Str(s@),
        Json::Array(items) => JsonV::Array(
            Seq::new(
                items@.len(),
                |i: int|
                    if 0 <= i < items@.len() {
                        json_view(items@[i])
                    } else {
                        JsonV::Null
                    },
            ),
        ),
        Json::Object(entries) => JsonV::Object(
            Seq::new(
                entries@.len(),
                |i: int|
                    if 0 <= i < entries@.len() {
                        (entries@[i].0@, json_view(entries@[i].1))
                    } else {
                        (Seq::empty(), JsonV::Null)
                    },
            ),
        ),
    }
}

impl View for Json {
    type V = JsonV;

    open spec fn view(&self) -> JsonV {
        json_view(*self)
    }
}

/// The value of the first member of `entries` whose key is `key`.
pub open spec fn member(entries: Seq<(Seq<char>, JsonV)>, key: Seq<char>) -> Option<JsonV>
    decreases entries.len(),
{
    if entries.len() == 0 {
        None
    } else if entries[0].0 == key {
        Some(entries[0].1)
    } else {
        member(entries.drop_first(), key)
    }
}

/// The member `key` of an object; `None` for any other value.
pub open spec fn get_spec(value: JsonV, key: Seq<char>) -> Option<JsonV> {
    match value {
        JsonV::Object(entries) => member(entries, key),
        _ => None,
    }
}

impl JsonNumber {
    /// A copy with the same content.
    pub fn duplicate(&self) -> (r: JsonNumber)
        ensures
            r@ == self@,
    {
        match self {
            JsonNumber::PosInt(n) => JsonNumber::PosInt(*n),
            JsonNumber::NegInt(n) => JsonNumber::NegInt(*n),
            JsonNumber::Float(t) => JsonNumber::Float(t.clone()),
        }
    }
}

impl Json {
    /// A copy with the same content.
    #[verifier::loop_isolation(false)]
    pub fn duplicate(&self) -> (r: Json)
        ensures
            r@ == self@,
        decreases self,
    {
        match self {
            Json::Null => Json::Null,
            Json::Bool(b) => Json::Bool(*b),
            Json::Number(n) => Json::Number(n.duplicate()),
            Json::String(s) => Json::String(s.clone()),
            Json::Array(items) => {
                let mut out: Vec<Json> = Vec::new();
                let mut i: usize = 0;
                while i < items.len()
                    invariant
                        i <= items@.len(),
                        out@.len() == i,
                        forall|k: int| 0 <= k < i ==> json_view(#[trigger] out@[k]) == json_view(items@[k]),
                    decreases items@.len() - i,
                {
                    let item = items[i].duplicate();
                    out.push(item);
                    i = i + 1;
                }
                let r = Json::Array(out);
                assert(r@ == self@) by {
                    if let JsonV::Array(a) = r@ {
                        if let JsonV::Array(b) = self@ {
                            assert(a =~= b);
                        }
                    }
                }
                r
            },
            Json::Object(entries) => {
                let mut out: Vec<(String, Json)> = Vec::new();
                let mut i: usize = 0;
                while i < entries.len()
                    invariant
                        i <= entries@.len(),
                        out@.len() == i,
                        forall|k: int| 0 <= k < i ==> (#[trigger] out@[k]).0@ == entries@[k].0@
                            && json_view(out@[k].1) == json_view(entries@[k].1),
                    decreases entries@.len() - i,
                {
                    let key = entries[i].0.clone();
                    let item = entries[i].1.duplicate();
                    out.push((key, item));
                    i = i + 1;
                }
                let r = Json::Object(out);
                assert(r@ == self@) by {
                    if let JsonV::Object(a) = r@ {
                        if let JsonV::Object(b) = self@ {
                            assert(a =~= b);
                        }
                    }
                }
                r
            },
        }
    }

    /// The member `key` of an object, or `None`.
    #[verifier::loop_isolation(false)]
    pub fn get(&self, key: &str) -> (r: Option<&Json>)
        ensures
            r is None <==> get_spec(self@, key@) is None,
            r matches Some(v) ==> get_spec(self@, key@) == Some(v@),
    {
        match self {
            Json::Object(entries) => {
                let ghost view = json_view(*self)->Object_0;
                let mut i: usize = 0;
                assert(view.subrange(0, view.len() as int) == view);
                while i < entries.len()
                    invariant
                        i <= entries@.len(),
                        view.len() == entries@.len(),
                        member(view, key@) == member(view.subrange(i as int, view.len() as int), key@),
                    decreases entries@.len() - i,
                {
                    let ghost rest = view.subrange(i as int, view.len() as int);
                    assert(rest.drop_first() == view.subrange(i + 1, view.len() as int));
                    assert(rest[0] == view[i as int]);
                    if str_eq(entries[i].0.as_str(), key) {
                        return Some(&entries[i].1);
                    }
                    i = i + 1;
                }
                None
            },
            _ => None,
        }
    }
}

/// Whether two strings hold the same characters.
pub fn str_eq(a: &str, b: &str) -> (r: bool)
    ensures
        r == (a@ == b@),
{
    let n = a.unicode_len();
    let m = b.unicode_len();
    if n != m {
        return false;
    }
    let mut i: usize = 0;
    while i < n
        invariant
            n == a@.len(),
            m == b@.len(),
            n == m,
            i <= n,
            a@.subrange(0, i as int) == b@.subrange(0, i as int),
        decreases n - i,
    {
        if a.get_char(i) != b.get_char(i) {
            assert(a@[i as int] != b@[i as int]);
            return false;
        }
        assert(a@.subrange(0, i + 1) == a@.subrange(0, i as int).push(a@[i as int]));
        assert(b@.subrange(0, i + 1) == b@.subrange(0, i as int).push(b@[i as int]));
        i = i + 1;
    }
    assert(a@ == a@.subrange(0, n as int));
    assert(b@ == b@.subrange(0, n as int));
    true
}

} // verus!
