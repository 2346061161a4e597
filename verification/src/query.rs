//! Query strings and request bodies.
use vstd::prelude::*;

use crate::json::{json_view, Json, JsonV};
use crate::text::{decimal, u64_to_string};

verus! {

/// A query string: `(key, value)` pairs in the order they are sent.
pub type Query = Vec<(String, String)>;

/// The content of a query.
pub open spec fn query_view(q: Seq<(String, String)>) -> Seq<(Seq<char>, Seq<char>)> {
    q.map_values(|p: (String, String)| (p.0@, p.1@))
}

/// A value that can stand in a query string.
pub trait QueryValue {
    /// The text the value is sent as.
    spec fn query_text(&self) -> Seq<char>;

    /// The text the value is sent as.
    fn to_query_text(&self) -> (r: String)
        ensures
            r@ == self.query_text();
}

impl QueryValue for u64 {
    open spec fn query_text(&self) -> Seq<char> {
        decimal(*self as nat)
    }

    fn to_query_text(&self) -> (r: String) {
        u64_to_string(*self)
    }
}

impl QueryValue for u32 {
    open spec fn query_text(&self) -> Seq<char> {
        decimal(*self as nat)
    }

    fn to_query_text(&self) -> (r: String) {
        u64_to_string(*self as u64)
    }
}

impl QueryValue for String {
    open spec fn query_text(&self) -> Seq<char> {
        self@
    }

    fn to_query_text(&self) -> (r: String) {
        self.clone()
    }
}

impl<'a> QueryValue for &'a str {
    open spec fn query_text(&self) -> Seq<char> {
        (*self)@
    }

    fn to_query_text(&self) -> (r: String) {
        String::from_str(*self)
    }
}

/// The pairs an optional value adds: `(key, text)` when the value is present
/// and its text is not empty, nothing otherwise.
pub open spec fn opt_pair(key: Seq<char>, text: Option<Seq<char>>) -> Seq<(Seq<char>, Seq<char>)> {
    match text {
        Some(t) => if t.len() > 0 { seq![(key, t)] } else { Seq::empty() },
        None => Seq::empty(),
    }
}

/// The text of an optional query value.
pub open spec fn opt_text<T: QueryValue>(value: Option<T>) -> Option<Seq<char>> {
    match value {
        Some(v) => Some(v.query_text()),
        None => None,
    }
}

/// The pairs a flag adds: `(key, "true")` when set, nothing otherwise.
pub open spec fn bool_pair(key: Seq<char>, value: bool) -> Seq<(Seq<char>, Seq<char>)> {
    if value { seq![(key, "true"@)] } else { Seq::empty() }
}

/// Building a query from optional values and flags.
pub trait QueryExt {
    /// The pairs held so far.
    spec fn pairs(&self) -> Seq<(Seq<char>, Seq<char>)>;

    /// Adds `(key, value)` when the value is present and not empty.
    fn push_opt<T: QueryValue>(&mut self, key: &str, value: Option<T>)
        ensures
            final(self).pairs() == old(self).pairs() + opt_pair(key@, opt_text(value));

    /// Adds `(key, "true")` when the flag is set.
    fn push_bool(&mut self, key: &str, value: bool)
        ensures
            final(self).pairs() == old(self).pairs() + bool_pair(key@, value);
}

impl QueryExt for Vec<(String, String)> {
    open spec fn pairs(&self) -> Seq<(Seq<char>, Seq<char>)> {
        query_view(self@)
    }

    fn push_opt<T: QueryValue>(&mut self, key: &str, value: Option<T>) {
        match value {
            Some(v) => {
                let text = v.to_query_text();
                if text.as_str().unicode_len() > 0 {
                    self.push((String::from_str(key), text));
                    assert(query_view(self@) =~= query_view(old(self)@) + opt_pair(key@, opt_text(value)));
                } else {
                    assert(query_view(self@) =~= query_view(old(self)@) + opt_pair(key@, opt_text(value)));
                }
            },
            None => {
                assert(query_view(self@) =~= query_view(old(self)@) + opt_pair(key@, opt_text(value)));
            },
        }
    }

    fn push_bool(&mut self, key: &str, value: bool) {
        if value {
            self.push((String::from_str(key), String::from_str("true")));
        }
        assert(query_view(self@) =~= query_view(old(self)@) + bool_pair(key@, value));
    }
}

/// Adds one pair.
pub fn push_pair(query: &mut Query, key: &str, value: String)
    ensures
        query_view(final(query)@) == query_view(old(query)@).push((key@, value@)),
{
    query.push((String::from_str(key), value));
    assert(query_view(query@) =~= query_view(old(query)@).push((key@, value@)));
}

/// A member whose value is not `null`.
pub open spec fn non_null(e: (Seq<char>, JsonV)) -> bool {
    !(e.1 is Null)
}

/// An object without its `null` members; any other value unchanged.
pub open spec fn compact_spec(value: JsonV) -> JsonV {
    match value {
        JsonV::Object(entries) => JsonV::Object(entries.filter(|e: (Seq<char>, JsonV)| non_null(e))),
        _ => value,
    }
}

/// Unset options are never sent.
///
/// Every member of a compacted object has a value other than `null`, and
/// every member that was not `null` is kept, in its order.
pub proof fn law_compacted_objects_have_no_nulls(entries: Seq<(Seq<char>, JsonV)>)
    ensures
        compact_spec(JsonV::Object(entries)) matches JsonV::Object(kept)
            && (forall|i: int| 0 <= i < kept.len() ==> !((#[trigger] kept[i]).1 is Null))
            && kept == entries.filter(|e: (Seq<char>, JsonV)| non_null(e)),
{
    let kept = entries.filter(|e: (Seq<char>, JsonV)| non_null(e));
    assert forall|i: int| 0 <= i < kept.len() implies !((#[trigger] kept[i]).1 is Null) by {
        entries.filter_lemma(|e: (Seq<char>, JsonV)| non_null(e));
    }
}

/// Empty values are never sent.
///
/// An optional value adds a pair only when it is present and its text is
/// not empty, and a flag adds one only when set, with the text `true`.
pub proof fn law_no_empty_query_values(key: Seq<char>, text: Option<Seq<char>>, flag: bool)
    ensures
        opt_pair(key, text).len() <= 1,
        opt_pair(key, text).len() == 1 <==> (text is Some && text->Some_0.len() > 0),
        opt_pair(key, text).len() == 1 ==> opt_pair(key, text)[0] == (key, text->Some_0),
        bool_pair(key, flag).len() == 1 <==> flag,
        bool_pair(key, flag).len() <= 1,
{
}

/// Drops the `null` members of an object, so that unset options are not sent.
pub fn compact_object(value: Json) -> (r: Json)
    ensures
        r@ == compact_spec(value@),
{
    match value {
        Json::Object(entries) => {
            let ghost view = json_view(Json::Object(entries))->Object_0;
            let rest = entries;
            let mut i: usize = 0;
            let n = rest.len();
            let mut out: Vec<(String, Json)> = Vec::new();
            let ghost pred: spec_fn((Seq<char>, JsonV)) -> bool = |e: (Seq<char>, JsonV)| non_null(e);
            while i < n
                invariant
                    n == rest@.len(),
                    view.len() == n,
                    pred == (|e: (Seq<char>, JsonV)| non_null(e)),
                    forall|k: int| 0 <= k < n ==> view[k] == (#[trigger] rest@[k].0@, json_view(rest@[k].1)),
                    i <= n,
                    json_view(Json::Object(out))->Object_0 == view.subrange(0, i as int).filter(pred),
                decreases n - i,
            {
                let ghost before = json_view(Json::Object(out))->Object_0;
                let keep = match &rest[i].1 {
                    Json::Null => false,
                    _ => true,
                };
                proof {
                    assert(view[i as int] == (rest@[i as int].0@, json_view(rest@[i as int].1)));
                    assert(keep == !(json_view(rest@[i as int].1) is Null));
                    assert(keep == non_null(view[i as int]));
                    assert(keep == pred(view[i as int]));
                    assert(view.subrange(0, i + 1) == view.subrange(0, i as int).push(view[i as int]));
                    view.subrange(0, i as int).lemma_filter_push(view[i as int], pred);
                }
                if keep {
                    let key = rest[i].0.clone();
                    let item = rest[i].1.duplicate();
                    out.push((key, item));
                    assert(json_view(Json::Object(out))->Object_0 =~= before.push(view[i as int]));
                }
                i = i + 1;
            }
            assert(view.subrange(0, n as int) == view);
            assert(pred =~= (|e: (Seq<char>, JsonV)| non_null(e)));
            Json::Object(out)
        },
        other => other,
    }
}

} // verus!
