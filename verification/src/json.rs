//! A JSON document model held as plain values, and lookups on it.

use vstd::prelude::*;
use vstd::string::*;

use crate::ext::str_eq;

verus! {

/// A JSON value. Numbers keep their textual form; objects keep their entries in order.
#[derive(Debug)]
pub enum JsonValue {
    Null,
    Bool(bool),
    Number(String),
    Str(String),
    Array(Vec<JsonValue>),
    Object(Vec<(String, JsonValue)>),
}

/// The mathematical form of a JSON value.
pub enum JsonView {
    Null,
    Bool(bool),
    Number(Seq<char>),
    Str(Seq<char>),
    Array(Seq<JsonView>),
    Object(Seq<(Seq<char>, JsonView)>),
}

/// The views of a sequence of values, element by element.
pub open spec fn values_view(s: Seq<JsonValue>) -> Seq<JsonView>
    decreases s, 0int,
{
    Seq::new(s.len(), |i: int| if 0 <= i < s.len() { json_view(s[i]) } else { JsonView::Null })
}

/// The views of a sequence of object entries, entry by entry.
pub open spec fn entries_view(s: Seq<(String, JsonValue)>) -> Seq<(Seq<char>, JsonView)>
    decreases s, 0int,
{
    Seq::new(s.len(), |i: int| if 0 <= i < s.len() { (s[i].0@, json_view(s[i].1)) } else { (Seq::empty(), JsonView::Null) })
}

/// The view of a JSON value.
pub open spec fn json_view(v: JsonValue) -> JsonView
    decreases v, 1int,
{
    match v {
        JsonValue::Null => JsonView::Null,
        JsonValue::Bool(b) => JsonView::Bool(b),
        JsonValue::Number(n) => JsonView::Number(n@),
        JsonValue::Str(s) => JsonView::Str(s@),
        JsonValue::Array(a) => JsonView::Array(values_view(a@)),
        JsonValue::Object(o) => JsonView::Object(entries_view(o@)),
    }
}

impl View for JsonValue {
    type V = JsonView;

    open spec fn view(&self) -> JsonView {
        json_view(*self)
    }
}

/// The value stored under `key` in a list of object entries (the first entry with that key).
pub open spec fn lookup(es: Seq<(Seq<char>, JsonView)>, key: Seq<char>) -> Option<JsonView>
    decreases es.len(),
{
    if es.len() == 0 {
        None
    } else if es[0].0 == key {
        Some(es[0].1)
    } else {
        lookup(es.drop_first(), key)
    }
}

/// What `value[key].as_str()` yields: the string stored under `key` when the
/// value is an object holding a string there, and nothing otherwise.
pub open spec fn str_field(v: JsonView, key: Seq<char>) -> Option<Seq<char>> {
    match v {
        JsonView::Object(es) => match lookup(es, key) {
            Some(JsonView::Str(s)) => Some(s),
            _ => None,
        },
        _ => None,
    }
}

proof fn lemma_lookup_skip(es: Seq<(Seq<char>, JsonView)>, key: Seq<char>, i: int)
    requires
        0 <= i < es.len(),
        es[i].0 != key,
    ensures
        lookup(es.skip(i), key) == lookup(es.skip(i + 1), key),
{
    assert(es.skip(i).drop_first() =~= es.skip(i + 1));
}

impl JsonValue {
    /// The string stored under `key` of an object value, copied out.
    pub fn str_field(&self, key: &str) -> (r: Option<String>)
        ensures
            r matches Some(s) ==> str_field(self@, key@) == Some(s@),
            r is None <==> str_field(self@, key@) is None,
    {
        match self {
            JsonValue::Object(entries) => {
                let ghost es = entries_view(entries@);
                let mut i: usize = 0;
                assert(es.skip(0) =~= es);
                while i < entries.len()
                    invariant
                        0 <= i <= entries.len(),
                        es == entries_view(entries@),
                        es.len() == entries.len(),
                        self@ == JsonView::Object(es),
                        lookup(es, key@) == lookup(es.skip(i as int), key@),
                    decreases entries.len() - i,
                {
                    if str_eq(entries[i].0.as_str(), key) {
                        assert(es.skip(i as int)[0] == es[i as int]);
                        assert(es[i as int] == (entries@[i as int].0@, json_view(entries@[i as int].1)));
                        assert(lookup(es, key@) == Some(json_view(entries@[i as int].1)));
                        match &entries[i].1 {
                            JsonValue::Str(s) => {
                                return Some(String::from_str(s.as_str()));
                            },
                            _ => {
                                return None;
                            },
                        }
                    }
                    proof {
                        lemma_lookup_skip(es, key@, i as int);
                    }
                    i = i + 1;
                }
                assert(es.skip(i as int).len() == 0);
                None
            },
            _ => None,
        }
    }
}

impl JsonValue {
    /// A copy of the value, equal to it in every part.
    pub fn deep_copy(&self) -> (r: JsonValue)
        ensures
            r@ == self@,
        decreases self,
    {
        match self {
            JsonValue::Null => JsonValue::Null,
            JsonValue::Bool(b) => JsonValue::Bool(*b),
            JsonValue::Number(n) => JsonValue::Number(n.clone()),
            JsonValue::Str(s) => JsonValue::Str(s.clone()),
            JsonValue::Array(a) => {
                let mut out: Vec<JsonValue> = Vec::new();
                let mut i: usize = 0;
                while i < a.len()
                    invariant
                        i <= a.len(),
                        out.len() == i,
                        *self == JsonValue::Array(*a),
                        forall|j: int| 0 <= j < i ==> json_view(#[trigger] out@[j]) == json_view(a@[j]),
                    decreases a.len() - i,
                {
                    proof {
                        assert(decreases_to!(*self => (*self)->Array_0));
                        assert(decreases_to!(a => a@));
                        assert(decreases_to!(a@ => a@[i as int]));
                    }
                    let c = a[i].deep_copy();
                    out.push(c);
                    i = i + 1;
                }
                proof {
                    assert(values_view(out@) =~= values_view(a@));
                }
                JsonValue::Array(out)
            },
            JsonValue::Object(es) => {
                let mut out: Vec<(String, JsonValue)> = Vec::new();
                let mut i: usize = 0;
                while i < es.len()
                    invariant
                        i <= es.len(),
                        out.len() == i,
                        *self == JsonValue::Object(*es),
                        forall|j: int| 0 <= j < i ==> (#[trigger] out@[j]).0@ == es@[j].0@ && json_view(out@[j].1) == json_view(es@[j].1),
                    decreases es.len() - i,
                {
                    let k = es[i].0.clone();
                    proof {
                        assert(decreases_to!(*self => (*self)->Object_0));
                        assert(decreases_to!(es => es@));
                        assert(decreases_to!(es@ => es@[i as int]));
                        assert(decreases_to!(es@[i as int] => es@[i as int].1));
                    }
                    let c = es[i].1.deep_copy();
                    out.push((k, c));
                    i = i + 1;
                }
                proof {
                    assert(entries_view(out@) =~= entries_view(es@));
                }
                JsonValue::Object(out)
            },
        }
    }
}

} // verus!
