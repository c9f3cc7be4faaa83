//! The form in which routes travel to the click router: camel-case keys,
//! externally tagged policies, links as `domain%2Fpath`.

use vstd::prelude::*;
use vstd::string::*;

use crate::entities::{
    dest_format_name, route_status_name, terminal_name, ChallengeRouting, ConditionalRouting,
    FileRouting, Route, RoutingPolicy,
};
use crate::json::{entries_view, json_view, lookup, values_view, JsonValue, JsonView};

verus! {

// ---------------------------------------------------------------------------
// snake_case to camelCase
// ---------------------------------------------------------------------------

/// The ASCII upper case of a character (others unchanged).
pub open spec fn ascii_upper(c: char) -> char {
    if 'a' <= c && c <= 'z' {
        ((c as u32 - 32) as u8) as char
    } else {
        c
    }
}

/// Reads `s` left to right: an underscore is dropped and makes the next
/// character upper case; the result and whether an upper case is pending.
pub open spec fn camel_fold(s: Seq<char>) -> (Seq<char>, bool)
    decreases s.len(),
{
    if s.len() == 0 {
        (Seq::empty(), false)
    } else {
        let (out, cap) = camel_fold(s.drop_last());
        let c = s.last();
        if c == '_' {
            (out, true)
        } else if cap {
            (out.push(ascii_upper(c)), false)
        } else {
            (out.push(c), false)
        }
    }
}

/// The camel-case form of a snake-case name.
pub open spec fn camel(s: Seq<char>) -> Seq<char> {
    camel_fold(s).0
}

/// `c.to_ascii_uppercase()`.
fn upper(c: char) -> (r: char)
    ensures
        r == ascii_upper(c),
{
    if 'a' <= c && c <= 'z' {
        let b: u8 = ((c as u32) - 32) as u8;
        b as char
    } else {
        c
    }
}

/// Convert a snake_case name to camelCase: each underscore is dropped and
/// the character after it is upper-cased.
pub fn to_camel_case(s: &str) -> (r: String)
    ensures
        r@ == camel(s@),
{
    let mut result = String::new();
    let mut capitalize_next = false;
    let n = s.unicode_len();
    let mut i: usize = 0;
    while i < n
        invariant
            i <= n,
            n == s@.len(),
            (result@, capitalize_next) == camel_fold(s@.subrange(0, i as int)),
        decreases n - i,
    {
        let c = s.get_char(i);
        proof {
            assert(s@.subrange(0, i + 1).drop_last() =~= s@.subrange(0, i as int));
            assert(s@.subrange(0, i + 1).last() == c);
        }
        if c == '_' {
            capitalize_next = true;
        } else if capitalize_next {
            let u = upper(c);
            crate::ext::string_push(&mut result, u);
            capitalize_next = false;
        } else {
            crate::ext::string_push(&mut result, c);
        }
        i = i + 1;
    }
    proof {
        assert(s@.subrange(0, n as int) =~= s@);
    }
    result
}

/// No underscore is left in a camel-case name.
pub proof fn lemma_camel_has_no_underscore(s: Seq<char>)
    ensures
        !camel(s).contains('_'),
    decreases s.len(),
{
    if s.len() > 0 {
        lemma_camel_has_no_underscore(s.drop_last());
        let (out, cap) = camel_fold(s.drop_last());
        let c = s.last();
        if c != '_' {
            let d = if cap { ascii_upper(c) } else { c };
            assert(d != '_');
            assert forall|i: int| 0 <= i < out.push(d).len() implies out.push(d)[i] != '_' by {
                if i < out.len() {
                    assert(out[i] == out.push(d)[i]);
                    assert(!out.contains('_'));
                }
            }
        }
    }
}

/// A name without underscores is its own camel-case form.
proof fn lemma_camel_identity(s: Seq<char>)
    requires
        !s.contains('_'),
    ensures
        camel_fold(s) == (s, false),
    decreases s.len(),
{
    if s.len() > 0 {
        assert(!s.drop_last().contains('_')) by {
            if s.drop_last().contains('_') {
                let k = choose|k: int| 0 <= k < s.drop_last().len() && s.drop_last()[k] == '_';
                assert(s[k] == '_');
            }
        }
        lemma_camel_identity(s.drop_last());
        assert(s.drop_last().push(s.last()) =~= s);
    } else {
        assert(s =~= Seq::<char>::empty());
    }
}

/// Converting to camel case twice is the same as once.
pub proof fn lemma_camel_idempotent(s: Seq<char>)
    ensures
        camel(camel(s)) == camel(s),
{
    lemma_camel_has_no_underscore(s);
    lemma_camel_identity(camel(s));
}

// ---------------------------------------------------------------------------
// JSON objects as sorted maps
// ---------------------------------------------------------------------------

/// Strict lexicographic order on keys, character by character (the order of
/// Rust's `String`).
pub open spec fn key_lt(a: Seq<char>, b: Seq<char>) -> bool
    decreases a.len(),
{
    if a.len() == 0 {
        b.len() > 0
    } else if b.len() == 0 {
        false
    } else if a[0] != b[0] {
        a[0] < b[0]
    } else {
        key_lt(a.drop_first(), b.drop_first())
    }
}

/// Whether `a` sorts before `b`.
pub fn key_less(a: &str, b: &str) -> (r: bool)
    ensures
        r == key_lt(a@, b@),
{
    let na = a.unicode_len();
    let nb = b.unicode_len();
    let mut i: usize = 0;
    assert(a@.skip(0) =~= a@);
    assert(b@.skip(0) =~= b@);
    while i < na && i < nb
        invariant
            na == a@.len(),
            nb == b@.len(),
            i <= na,
            i <= nb,
            key_lt(a@, b@) == key_lt(a@.skip(i as int), b@.skip(i as int)),
        decreases na - i,
    {
        let ca = a.get_char(i);
        let cb = b.get_char(i);
        assert(a@.skip(i as int)[0] == ca);
        assert(b@.skip(i as int)[0] == cb);
        if ca != cb {
            return ca < cb;
        }
        assert(a@.skip(i as int).drop_first() =~= a@.skip(i + 1));
        assert(b@.skip(i as int).drop_first() =~= b@.skip(i + 1));
        i = i + 1;
    }
    assert(a@.skip(i as int).len() == 0 || b@.skip(i as int).len() == 0);
    i < nb
}

/// Entries of an object as a map builds them: `(k, v)` replaces the entry
/// with key `k` if there is one, and is otherwise inserted before the first
/// greater key.
pub open spec fn insert_entry(es: Seq<(Seq<char>, JsonView)>, k: Seq<char>, v: JsonView) -> Seq<(Seq<char>, JsonView)>
    decreases es.len(),
{
    if es.len() == 0 {
        seq![(k, v)]
    } else if es[0].0 == k {
        seq![(k, v)] + es.drop_first()
    } else if key_lt(k, es[0].0) {
        seq![(k, v)] + es
    } else {
        seq![es[0]] + insert_entry(es.drop_first(), k, v)
    }
}

/// The entries of a map collected from `es` in order: sorted by key, one
/// entry per key, the last value given for a key winning.
pub open spec fn collect_map(es: Seq<(Seq<char>, JsonView)>) -> Seq<(Seq<char>, JsonView)>
    decreases es.len(),
{
    if es.len() == 0 {
        Seq::empty()
    } else {
        let prev = collect_map(es.drop_last());
        insert_entry(prev, es.last().0, es.last().1)
    }
}

/// The JSON value with every object key, at every depth, in camel case;
/// objects rebuilt as maps.
pub open spec fn camel_json(v: JsonView) -> JsonView
    decreases v, 1int,
{
    match v {
        JsonView::Object(es) => JsonView::Object(collect_map(camel_entries(es))),
        JsonView::Array(a) => JsonView::Array(camel_values(a)),
        _ => v,
    }
}

/// [`camel_json`] of each value.
pub open spec fn camel_values(a: Seq<JsonView>) -> Seq<JsonView>
    decreases a, 0int,
{
    Seq::new(a.len(), |i: int| if 0 <= i < a.len() { camel_json(a[i]) } else { JsonView::Null })
}

/// Each entry with its key in camel case and its value converted.
pub open spec fn camel_entries(es: Seq<(Seq<char>, JsonView)>) -> Seq<(Seq<char>, JsonView)>
    decreases es, 0int,
{
    Seq::new(es.len(), |i: int| if 0 <= i < es.len() { (camel(es[i].0), camel_json(es[i].1)) } else { (Seq::empty(), JsonView::Null) })
}

/// Inserts `(k, v)` into map entries, as [`insert_entry`] says.
fn map_insert(es: &mut Vec<(String, JsonValue)>, k: String, v: JsonValue)
    ensures
        entries_view(final(es)@) == insert_entry(entries_view(old(es)@), k@, v@),
{
    let ghost before = entries_view(es@);
    let mut i: usize = 0;
    assert(before.skip(0) =~= before);
    assert(before.subrange(0, 0) + insert_entry(before, k@, v@) =~= insert_entry(before, k@, v@));
    while i < es.len()
        invariant
            i <= es.len(),
            es@.len() == old(es)@.len(),
            before == entries_view(old(es)@),
            entries_view(es@) == before,
            insert_entry(before, k@, v@) == before.subrange(0, i as int) + insert_entry(before.skip(i as int), k@, v@),
            forall|j: int| 0 <= j < i ==> before[j].0 != k@ && !key_lt(k@, before[j].0),
        decreases es.len() - i,
    {
        let same = crate::ext::str_eq(es[i].0.as_str(), k.as_str());
        let ghost rest = before.skip(i as int);
        assert(rest[0] == before[i as int]);
        if same {
            let ghost old_es = es@;
            es.set(i, (k, v));
            proof {
                assert(rest.drop_first() =~= before.skip(i + 1));
                assert(entries_view(es@) =~= before.subrange(0, i as int) + (seq![(k@, v@)] + rest.drop_first()));
            }
            return;
        }
        if key_less(k.as_str(), es[i].0.as_str()) {
            es.insert(i, (k, v));
            proof {
                assert(entries_view(es@) =~= before.subrange(0, i as int) + (seq![(k@, v@)] + rest));
            }
            return;
        }
        proof {
            assert(rest.drop_first() =~= before.skip(i + 1));
            assert(before.subrange(0, i as int) + (seq![rest[0]] + insert_entry(rest.drop_first(), k@, v@))
                =~= before.subrange(0, i + 1) + insert_entry(before.skip(i + 1), k@, v@));
        }
        i = i + 1;
    }
    proof {
        assert(before.skip(i as int).len() == 0);
        assert(before.subrange(0, i as int) =~= before);
    }
    es.push((k, v));
    proof {
        assert(entries_view(es@) =~= before + seq![(k@, v@)]);
    }
}

/// Recursively convert all object keys from snake_case to camelCase;
/// objects come out as maps (sorted keys, the last value for a repeated key).
pub fn convert_keys_to_camel_case(value: JsonValue) -> (r: JsonValue)
    ensures
        r@ == camel_json(value@),
    decreases value,
{
    match value {
        JsonValue::Object(entries) => {
            let ghost src = entries@;
            let ghost conv = camel_entries(entries_view(src));
            let mut rest = entries;
            let mut out: Vec<(String, JsonValue)> = Vec::new();
            let mut i: usize = 0;
            let n = rest.len();
            assert(src.len() == n);
            while rest.len() > 0
                invariant
                    i + rest.len() == src.len(),
                    src.len() <= usize::MAX,
                    rest@ == src.subrange(i as int, src.len() as int),
                    conv == camel_entries(entries_view(src)),
                    value is Object && value->Object_0@ == src,
                    entries_view(out@) == collect_map(conv.subrange(0, i as int)),
                decreases rest.len(),
            {
                let (k, v) = rest.remove(0);
                assert((k, v) == src[i as int]);
                proof {
                    assert(decreases_to!(value => value->Object_0));
                    assert(decreases_to!(value->Object_0 => value->Object_0@));
                    assert(decreases_to!(value->Object_0@ => src[i as int]));
                    assert(decreases_to!(src[i as int] => src[i as int].1));
                }
                let ck = to_camel_case(k.as_str());
                let cv = convert_keys_to_camel_case(v);
                map_insert(&mut out, ck, cv);
                proof {
                    assert(conv[i as int] == (camel(k@), camel_json(v@)));
                    assert(conv.subrange(0, i + 1).drop_last() =~= conv.subrange(0, i as int));
                }
                i = i + 1;
                assert(rest@ =~= src.subrange(i as int, src.len() as int));
            }
            proof {
                assert(conv.subrange(0, i as int) =~= conv);
            }
            JsonValue::Object(out)
        },
        JsonValue::Array(items) => {
            let ghost src = items@;
            let mut rest = items;
            let mut out: Vec<JsonValue> = Vec::new();
            let mut i: usize = 0;
            let n = rest.len();
            assert(src.len() == n);
            while rest.len() > 0
                invariant
                    i + rest.len() == src.len(),
                    src.len() <= usize::MAX,
                    rest@ == src.subrange(i as int, src.len() as int),
                    out.len() == i,
                    value is Array && value->Array_0@ == src,
                    forall|j: int| 0 <= j < i ==> json_view(#[trigger] out@[j]) == camel_json(json_view(src[j])),
                decreases rest.len(),
            {
                let v = rest.remove(0);
                assert(v == src[i as int]);
                proof {
                    assert(decreases_to!(value => value->Array_0));
                    assert(decreases_to!(value->Array_0 => value->Array_0@));
                    assert(decreases_to!(value->Array_0@ => src[i as int]));
                }
                out.push(convert_keys_to_camel_case(v));
                i = i + 1;
                assert(rest@ =~= src.subrange(i as int, src.len() as int));
            }
            proof {
                assert(values_view(out@) =~= camel_values(values_view(src)));
            }
            JsonValue::Array(out)
        },
        other => other,
    }
}

// ---------------------------------------------------------------------------
// Converting keys twice is converting them once
// ---------------------------------------------------------------------------

proof fn lemma_key_lt_irreflexive(a: Seq<char>)
    ensures
        !key_lt(a, a),
    decreases a.len(),
{
    if a.len() > 0 {
        lemma_key_lt_irreflexive(a.drop_first());
    }
}

proof fn lemma_key_lt_asymmetric(a: Seq<char>, b: Seq<char>)
    requires
        key_lt(a, b),
    ensures
        !key_lt(b, a),
    decreases a.len(),
{
    if a.len() > 0 && b.len() > 0 && a[0] == b[0] {
        lemma_key_lt_asymmetric(a.drop_first(), b.drop_first());
    }
}

proof fn lemma_key_lt_transitive(a: Seq<char>, b: Seq<char>, c: Seq<char>)
    requires
        key_lt(a, b),
        key_lt(b, c),
    ensures
        key_lt(a, c),
    decreases a.len(),
{
    if a.len() > 0 && b.len() > 0 && c.len() > 0 && a[0] == b[0] && b[0] == c[0] {
        lemma_key_lt_transitive(a.drop_first(), b.drop_first(), c.drop_first());
    }
}

/// Keys strictly increase along the entries (so no key repeats).
pub open spec fn strictly_sorted(es: Seq<(Seq<char>, JsonView)>) -> bool {
    forall|i: int, j: int| 0 <= i < j < es.len() ==> key_lt(es[i].0, es[j].0)
}

proof fn lemma_insert_after_all(es: Seq<(Seq<char>, JsonView)>, k: Seq<char>, v: JsonView)
    requires
        forall|i: int| 0 <= i < es.len() ==> key_lt(#[trigger] es[i].0, k),
    ensures
        insert_entry(es, k, v) == es.push((k, v)),
    decreases es.len(),
{
    if es.len() > 0 {
        assert(key_lt(es[0].0, k));
        lemma_key_lt_irreflexive(k);
        lemma_key_lt_asymmetric(es[0].0, k);
        let rest = es.drop_first();
        assert forall|i: int| 0 <= i < rest.len() implies key_lt(#[trigger] rest[i].0, k) by {
            assert(rest[i] == es[i + 1]);
        }
        lemma_insert_after_all(rest, k, v);
        assert(seq![es[0]] + rest.push((k, v)) =~= es.push((k, v)));
    } else {
        assert(seq![(k, v)] =~= es.push((k, v)));
    }
}

/// Collecting entries that are already sorted, with no repeated key, keeps them as they are.
proof fn lemma_collect_sorted(es: Seq<(Seq<char>, JsonView)>)
    requires
        strictly_sorted(es),
    ensures
        collect_map(es) == es,
    decreases es.len(),
{
    if es.len() > 0 {
        let p = es.drop_last();
        assert(strictly_sorted(p)) by {
            assert forall|i: int, j: int| 0 <= i < j < p.len() implies key_lt(p[i].0, p[j].0) by {
                assert(p[i] == es[i] && p[j] == es[j]);
            }
        }
        lemma_collect_sorted(p);
        assert forall|i: int| 0 <= i < p.len() implies key_lt(#[trigger] p[i].0, es.last().0) by {
            assert(p[i] == es[i]);
        }
        lemma_insert_after_all(p, es.last().0, es.last().1);
        assert(p.push(es.last()) =~= es);
    }
}

/// Inserting keeps the entries sorted without repeats, and every entry comes
/// from the list or is the inserted one.
proof fn lemma_insert_sorted(es: Seq<(Seq<char>, JsonView)>, k: Seq<char>, v: JsonView)
    requires
        strictly_sorted(es),
    ensures
        strictly_sorted(insert_entry(es, k, v)),
        forall|i: int| 0 <= i < insert_entry(es, k, v).len() ==> #[trigger] insert_entry(es, k, v)[i] == (k, v)
            || exists|j: int| 0 <= j < es.len() && insert_entry(es, k, v)[i] == es[j],
        forall|i: int| 0 <= i < insert_entry(es, k, v).len() ==> (#[trigger] insert_entry(es, k, v)[i]).0 == k
            || exists|j: int| 0 <= j < es.len() && insert_entry(es, k, v)[i].0 == es[j].0,
    decreases es.len(),
{
    let r = insert_entry(es, k, v);
    if es.len() == 0 {
    } else if es[0].0 == k {
        assert forall|i: int, j: int| 0 <= i < j < r.len() implies key_lt(r[i].0, r[j].0) by {
            if i == 0 {
                assert(r[j] == es[j]);
                assert(key_lt(es[0].0, es[j].0));
            } else {
                assert(r[i] == es[i] && r[j] == es[j]);
            }
        }
        assert forall|i: int| 0 <= i < r.len() implies #[trigger] r[i] == (k, v) || exists|j: int| 0 <= j < es.len() && r[i] == es[j] by {
            if i > 0 {
                assert(r[i] == es[i]);
            }
        }
        assert forall|i: int| 0 <= i < r.len() implies (#[trigger] r[i]).0 == k || exists|j: int| 0 <= j < es.len() && r[i].0 == es[j].0 by {
            if i > 0 {
                assert(r[i] == es[i]);
            }
        }
    } else if key_lt(k, es[0].0) {
        assert forall|i: int, j: int| 0 <= i < j < r.len() implies key_lt(r[i].0, r[j].0) by {
            if i == 0 {
                assert(r[j] == es[j - 1]);
                if j - 1 > 0 {
                    assert(key_lt(es[0].0, es[j - 1].0));
                    lemma_key_lt_transitive(k, es[0].0, es[j - 1].0);
                }
            } else {
                assert(r[i] == es[i - 1] && r[j] == es[j - 1]);
            }
        }
        assert forall|i: int| 0 <= i < r.len() implies #[trigger] r[i] == (k, v) || exists|j: int| 0 <= j < es.len() && r[i] == es[j] by {
            if i > 0 {
                assert(r[i] == es[i - 1]);
            }
        }
        assert forall|i: int| 0 <= i < r.len() implies (#[trigger] r[i]).0 == k || exists|j: int| 0 <= j < es.len() && r[i].0 == es[j].0 by {
            if i > 0 {
                assert(r[i] == es[i - 1]);
            }
        }
    } else {
        let rest = es.drop_first();
        assert(strictly_sorted(rest)) by {
            assert forall|i: int, j: int| 0 <= i < j < rest.len() implies key_lt(rest[i].0, rest[j].0) by {
                assert(rest[i] == es[i + 1] && rest[j] == es[j + 1]);
            }
        }
        lemma_insert_sorted(rest, k, v);
        let t = insert_entry(rest, k, v);
        assert(r == seq![es[0]] + t);
        // es[0] precedes k and every later key
        lemma_key_lt_irreflexive(k);
        assert(key_lt(es[0].0, k)) by {
            lemma_key_lt_total(k, es[0].0);
        }
        assert forall|i: int, j: int| 0 <= i < j < r.len() implies key_lt(r[i].0, r[j].0) by {
            if i == 0 {
                assert(r[j] == t[j - 1]);
                if t[j - 1].0 == k {
                } else {
                    let m = choose|m: int| 0 <= m < rest.len() && t[j - 1].0 == rest[m].0;
                    assert(rest[m] == es[m + 1]);
                    assert(key_lt(es[0].0, es[m + 1].0));
                }
            } else {
                assert(r[i] == t[i - 1] && r[j] == t[j - 1]);
            }
        }
        assert forall|i: int| 0 <= i < r.len() implies #[trigger] r[i] == (k, v) || exists|j: int| 0 <= j < es.len() && r[i] == es[j] by {
            if i == 0 {
                assert(r[0] == es[0]);
            } else {
                assert(r[i] == t[i - 1]);
                if t[i - 1] != (k, v) {
                    let m = choose|m: int| 0 <= m < rest.len() && t[i - 1] == rest[m];
                    assert(rest[m] == es[m + 1]);
                }
            }
        }
        assert forall|i: int| 0 <= i < r.len() implies (#[trigger] r[i]).0 == k || exists|j: int| 0 <= j < es.len() && r[i].0 == es[j].0 by {
            if i == 0 {
                assert(r[0] == es[0]);
            } else {
                assert(r[i] == t[i - 1]);
                if t[i - 1].0 != k {
                    let m = choose|m: int| 0 <= m < rest.len() && t[i - 1].0 == rest[m].0;
                    assert(rest[m] == es[m + 1]);
                }
            }
        }
    }
}

proof fn lemma_key_lt_total(a: Seq<char>, b: Seq<char>)
    requires
        a != b,
    ensures
        key_lt(a, b) || key_lt(b, a),
    decreases a.len(),
{
    if a.len() > 0 && b.len() > 0 && a[0] == b[0] {
        if a.drop_first() == b.drop_first() {
            assert(a =~= seq![a[0]] + a.drop_first());
            assert(b =~= seq![b[0]] + b.drop_first());
        }
        lemma_key_lt_total(a.drop_first(), b.drop_first());
    } else if a.len() == 0 && b.len() == 0 {
        assert(a =~= b);
    }
}

/// Collected entries are sorted without repeats, and each comes from the list.
proof fn lemma_collect_shape(es: Seq<(Seq<char>, JsonView)>)
    ensures
        strictly_sorted(collect_map(es)),
        forall|i: int| 0 <= i < collect_map(es).len() ==> exists|j: int| 0 <= j < es.len() && #[trigger] collect_map(es)[i] == es[j],
    decreases es.len(),
{
    if es.len() > 0 {
        let p = es.drop_last();
        lemma_collect_shape(p);
        let c = collect_map(p);
        lemma_insert_sorted(c, es.last().0, es.last().1);
        let r = collect_map(es);
        assert forall|i: int| 0 <= i < r.len() implies exists|j: int| 0 <= j < es.len() && #[trigger] r[i] == es[j] by {
            if r[i] == (es.last().0, es.last().1) {
                assert(r[i] == es[es.len() - 1]);
            } else {
                let m = choose|m: int| 0 <= m < c.len() && r[i] == c[m];
                let n = choose|n: int| 0 <= n < p.len() && #[trigger] c[m] == p[n];
                assert(p[n] == es[n]);
            }
        }
    }
}

/// Converting the keys of a JSON value to camel case a second time changes
/// nothing: the keys are camel case already, the objects already maps.
pub proof fn lemma_camel_json_idempotent(v: JsonView)
    ensures
        camel_json(camel_json(v)) == camel_json(v),
    decreases v,
{
    match v {
        JsonView::Object(es) => {
            let ce = camel_entries(es);
            let a = collect_map(ce);
            lemma_collect_shape(ce);
            assert forall|i: int| 0 <= i < a.len() implies (#[trigger] camel_entries(a)[i]) == a[i] by {
                let j = choose|j: int| 0 <= j < ce.len() && #[trigger] a[i] == ce[j];
                assert(ce[j] == (camel(es[j].0), camel_json(es[j].1)));
                lemma_camel_idempotent(es[j].0);
                assert(decreases_to!(v => es));
                assert(decreases_to!(es => es[j]));
                assert(decreases_to!(es[j] => es[j].1));
                lemma_camel_json_idempotent(es[j].1);
            }
            assert(camel_entries(a) =~= a);
            lemma_collect_sorted(a);
        },
        JsonView::Array(items) => {
            let c = camel_values(items);
            assert forall|i: int| 0 <= i < c.len() implies (#[trigger] camel_values(c)[i]) == c[i] by {
                assert(decreases_to!(v => items));
                assert(decreases_to!(items => items[i]));
                lemma_camel_json_idempotent(items[i]);
            }
            assert(camel_values(c) =~= c);
        },
        _ => {},
    }
}

// ---------------------------------------------------------------------------
// Policies in the router's (externally tagged) form
// ---------------------------------------------------------------------------

/// The text of an optional string as JSON: the string, or null.
pub open spec fn opt_string_json(o: Option<String>) -> JsonView {
    match o {
        Some(s) => JsonView::Str(s@),
        None => JsonView::Null,
    }
}

/// A conditional branch as a JSON map: `condition`, `dest`, `key`.
pub open spec fn branch_json(c: ConditionalRouting) -> JsonView {
    JsonView::Object(seq![
        ("condition"@, c.condition@),
        ("dest"@, opt_string_json(c.dest)),
        ("key"@, JsonView::Str(c.key@)),
    ])
}

/// A challenge as a JSON map: `challenge_type`, `key`, `source`.
pub open spec fn challenge_json(c: ChallengeRouting) -> JsonView {
    JsonView::Object(seq![
        ("challenge_type"@, JsonView::Str(c.challenge_type@)),
        ("key"@, JsonView::Str(c.key@)),
        ("source"@, JsonView::Str(c.source@)),
    ])
}

/// A file as a JSON map: `content_type`.
pub open spec fn file_json(f: FileRouting) -> JsonView {
    JsonView::Object(seq![("content_type"@, JsonView::Str(f.content_type@))])
}

/// `{"<tag>": <v>}`.
pub open spec fn tagged(tag: Seq<char>, v: JsonView) -> JsonView {
    JsonView::Object(seq![(tag, v)])
}

/// A routing policy as the click router reads it: unit kinds as their name,
/// the others as a one-entry object tagged with the kind; a challenge or file
/// policy without its content, and an unknown policy, as `"Unknown"`.
pub open spec fn router_policy(p: RoutingPolicy) -> JsonView {
    match p {
        RoutingPolicy::Basic => JsonView::Str("Basic"@),
        RoutingPolicy::Conditional { conditions } => tagged(
            "Conditional"@,
            JsonView::Array(Seq::new(conditions@.len(), |i: int| branch_json(conditions@[i]))),
        ),
        RoutingPolicy::Challenge { challenge } => match challenge {
            Some(c) => tagged("Challenge"@, challenge_json(c)),
            None => JsonView::Str("Unknown"@),
        },
        RoutingPolicy::File { file } => match file {
            Some(f) => tagged("File"@, file_json(f)),
            None => JsonView::Str("Unknown"@),
        },
        RoutingPolicy::Mirroring => JsonView::Str("Mirroring"@),
        RoutingPolicy::Unknown => JsonView::Str("Unknown"@),
    }
}

/// A JSON string value.
fn json_str(s: &str) -> (r: JsonValue)
    ensures
        r@ == JsonView::Str(s@),
{
    JsonValue::Str(String::from_str(s))
}

/// A copy of an optional string as JSON.
fn opt_string_to_json(o: &Option<String>) -> (r: JsonValue)
    ensures
        r@ == opt_string_json(*o),
{
    match o {
        Some(s) => JsonValue::Str(s.clone()),
        None => JsonValue::Null,
    }
}

/// `{"<tag>": <v>}`.
fn make_tagged(tag: &str, v: JsonValue) -> (r: JsonValue)
    ensures
        r@ == tagged(tag@, v@),
{
    let es = vec![(String::from_str(tag), v)];
    proof {
        assert(entries_view(es@) =~= seq![(tag@, json_view(es@[0].1))]);
    }
    JsonValue::Object(es)
}

/// A conditional branch as JSON.
fn branch_to_json(c: &ConditionalRouting) -> (r: JsonValue)
    ensures
        r@ == branch_json(*c),
{
    let es = vec![
        (String::from_str("condition"), c.condition.deep_copy()),
        (String::from_str("dest"), opt_string_to_json(&c.dest)),
        (String::from_str("key"), JsonValue::Str(c.key.clone())),
    ];
    proof {
        assert(entries_view(es@) =~= seq![
            ("condition"@, c.condition@),
            ("dest"@, opt_string_json(c.dest)),
            ("key"@, JsonView::Str(c.key@)),
        ]);
    }
    JsonValue::Object(es)
}

/// Convert a routing policy to the click router's externally tagged form.
pub fn convert_policy_for_click_router(policy: &RoutingPolicy) -> (r: JsonValue)
    ensures
        r@ == router_policy(*policy),
{
    match policy {
        RoutingPolicy::Basic => json_str("Basic"),
        RoutingPolicy::Conditional { conditions } => {
            let mut out: Vec<JsonValue> = Vec::new();
            let mut i: usize = 0;
            while i < conditions.len()
                invariant
                    i <= conditions.len(),
                    out.len() == i,
                    forall|j: int| 0 <= j < i ==> json_view(#[trigger] out@[j]) == branch_json(conditions@[j]),
                decreases conditions.len() - i,
            {
                out.push(branch_to_json(&conditions[i]));
                i = i + 1;
            }
            let arr = JsonValue::Array(out);
            proof {
                assert(values_view(out@) =~= Seq::new(conditions@.len(), |i: int| branch_json(conditions@[i])));
            }
            make_tagged("Conditional", arr)
        },
        RoutingPolicy::Challenge { challenge } => match challenge {
            Some(c) => {
                let es = vec![
                    (String::from_str("challenge_type"), JsonValue::Str(c.challenge_type.clone())),
                    (String::from_str("key"), JsonValue::Str(c.key.clone())),
                    (String::from_str("source"), JsonValue::Str(c.source.clone())),
                ];
                proof {
                    assert(entries_view(es@) =~= seq![
                        ("challenge_type"@, JsonView::Str(c.challenge_type@)),
                        ("key"@, JsonView::Str(c.key@)),
                        ("source"@, JsonView::Str(c.source@)),
                    ]);
                }
                make_tagged("Challenge", JsonValue::Object(es))
            },
            None => json_str("Unknown"),
        },
        RoutingPolicy::File { file } => match file {
            Some(f) => {
                let es = vec![(String::from_str("content_type"), JsonValue::Str(f.content_type.clone()))];
                proof {
                    assert(entries_view(es@) =~= seq![("content_type"@, JsonView::Str(f.content_type@))]);
                }
                make_tagged("File", JsonValue::Object(es))
            },
            None => json_str("Unknown"),
        },
        RoutingPolicy::Mirroring => json_str("Mirroring"),
        RoutingPolicy::Unknown => json_str("Unknown"),
    }
}

// ---------------------------------------------------------------------------
// The route as the router receives it
// ---------------------------------------------------------------------------

/// Route DTO for click-router API communication.
#[derive(Debug)]
pub struct ClickRouterRouteDto {
    pub switch: String,
    pub link: String,
    pub dest: Option<String>,
    pub dest_format: String,
    pub code: Option<u16>,
    pub ttl: Option<u64>,
    pub status: String,
    pub terminal: String,
    pub policy: Option<JsonValue>,
    pub properties: Option<JsonValue>,
}

/// The view of an optional JSON value.
pub open spec fn opt_view(o: Option<JsonValue>) -> Option<JsonView> {
    match o {
        Some(v) => Some(v@),
        None => None,
    }
}

/// The camel-case form of an optional JSON value.
pub open spec fn opt_camel(o: Option<JsonValue>) -> Option<JsonView> {
    match o {
        Some(v) => Some(camel_json(v@)),
        None => None,
    }
}

impl ClickRouterRouteDto {
    /// The router's form of a route, given the JSON form of its properties
    /// (where they could be written as JSON): the enumerations by name, the
    /// policy externally tagged, and both in camel case.
    pub fn from_route(route: &Route, properties_json: Option<JsonValue>) -> (r: Self)
        ensures
            r.switch == route.switch,
            r.link == route.link,
            r.dest == route.dest,
            r.dest_format@ == dest_format_name(route.dest_format),
            r.code == route.code,
            r.ttl == route.ttl,
            r.status@ == route_status_name(route.status),
            r.terminal@ == terminal_name(route.terminal),
            r.policy matches Some(p) && p@ == camel_json(router_policy(route.policy)),
            opt_view(r.properties) == opt_camel(properties_json),
    {
        let policy = convert_keys_to_camel_case(convert_policy_for_click_router(&route.policy));
        let properties = match properties_json {
            Some(p) => Some(convert_keys_to_camel_case(p)),
            None => None,
        };
        ClickRouterRouteDto {
            switch: route.switch.clone(),
            link: route.link.clone(),
            dest: crate::entities::copy_opt_string(&route.dest),
            dest_format: String::from_str(route.dest_format.name()),
            code: route.code,
            ttl: route.ttl,
            status: String::from_str(route.status.as_str()),
            terminal: String::from_str(route.terminal.name()),
            policy: Some(policy),
            properties,
        }
    }
}

/// `<domain>%2F<path>`: the link as the router keys it.
pub open spec fn encoded_link(domain: Seq<char>, path: Seq<char>) -> Seq<char> {
    domain + "%2F"@ + path
}

/// Build the link format expected by click-router: `domain%2Fpath`.
pub fn encode_link(domain: &str, path: &str) -> (r: String)
    ensures
        r@ == encoded_link(domain@, path@),
{
    let mut s = String::from_str(domain);
    s.append("%2F");
    s.append(path);
    s
}

/// `<base>/v1/routes/<route_id>`.
pub open spec fn route_id_url(base: Seq<char>, route_id: Seq<char>) -> Seq<char> {
    base + "/v1/routes/"@ + route_id
}

/// `<base>/v1/routes/<switch>/<domain>/<link>`.
pub open spec fn route_path_url(base: Seq<char>, switch: Seq<char>, domain: Seq<char>, link: Seq<char>) -> Seq<char> {
    base + "/v1/routes/"@ + switch + "/"@ + domain + "/"@ + link
}

/// The URL of a route by its id.
pub fn url_for_route_id(base: &str, route_id: &str) -> (r: String)
    ensures
        r@ == route_id_url(base@, route_id@),
{
    let mut s = String::from_str(base);
    s.append("/v1/routes/");
    s.append(route_id);
    s
}

/// The URL of a route by its switch, domain and link.
pub fn url_for_route_path(base: &str, switch: &str, domain: &str, link: &str) -> (r: String)
    ensures
        r@ == route_path_url(base@, switch@, domain@, link@),
{
    let mut s = String::from_str(base);
    s.append("/v1/routes/");
    s.append(switch);
    s.append("/");
    s.append(domain);
    s.append("/");
    s.append(link);
    s
}

/// What an upsert sends: where, and the route.
pub struct UpsertRequest {
    pub url: String,
    pub body: ClickRouterRouteDto,
}

/// The upsert of a route on `domain`: by its route id where the properties
/// carry one (and then with the link encoded as `domain%2Flink`), else by
/// switch, domain and link.
pub fn upsert_request(base_url: &str, domain: &str, route: &Route, properties_json: Option<JsonValue>) -> (r: UpsertRequest)
    ensures
        match route.properties.route_id {
            Some(id) => r.url@ == route_id_url(base_url@, id@) && r.body.link@ == encoded_link(domain@, route.link@),
            None => r.url@ == route_path_url(base_url@, route.switch@, domain@, route.link@) && r.body.link == route.link,
        },
        r.body.switch == route.switch,
        r.body.dest == route.dest,
        r.body.dest_format@ == dest_format_name(route.dest_format),
        r.body.code == route.code,
        r.body.ttl == route.ttl,
        r.body.status@ == route_status_name(route.status),
        r.body.terminal@ == terminal_name(route.terminal),
        r.body.policy matches Some(p) && p@ == camel_json(router_policy(route.policy)),
        opt_view(r.body.properties) == opt_camel(properties_json),
{
    let mut dto = ClickRouterRouteDto::from_route(route, properties_json);
    match &route.properties.route_id {
        Some(id) => {
            dto.link = encode_link(domain, route.link.as_str());
            UpsertRequest { url: url_for_route_id(base_url, id.as_str()), body: dto }
        },
        None => UpsertRequest {
            url: url_for_route_path(base_url, route.switch.as_str(), domain, route.link.as_str()),
            body: dto,
        },
    }
}

/// An HTTP status in the success class (2xx).
pub open spec fn is_success(status: u16) -> bool {
    200 <= status <= 299
}

/// Whether a delete is done: a success, or the route was already gone (404).
pub fn delete_accepted(status: u16) -> (r: bool)
    ensures
        r == (is_success(status) || status == 404),
{
    (200 <= status && status <= 299) || status == 404
}

/// What a lookup's answer means.
pub enum LookupOutcome {
    /// The router has no such route.
    Missing,
    /// The body holds the route.
    Found,
    /// The router failed.
    Failed,
}

/// How a lookup's status is read: 404 is a missing route, another non-2xx a failure.
pub fn lookup_outcome(status: u16) -> (r: LookupOutcome)
    ensures
        status == 404 ==> r is Missing,
        status != 404 && is_success(status) ==> r is Found,
        status != 404 && !is_success(status) ==> r is Failed,
{
    if status == 404 {
        LookupOutcome::Missing
    } else if 200 <= status && status <= 299 {
        LookupOutcome::Found
    } else {
        LookupOutcome::Failed
    }
}

/// The click router's form of a conditional policy is `{"Conditional": [...]}`
/// with one object per branch, in order, and each object carries the branch's
/// destination under `dest` (a string where it has one, `null` only where it
/// has none), its key under `key` and its condition under `condition`.
pub proof fn lemma_router_branches_carry_destinations(p: RoutingPolicy)
    ensures
        p matches RoutingPolicy::Conditional { conditions } ==> (router_policy(p) matches JsonView::Object(es) && {
            &&& es.len() == 1
            &&& es[0].0 == "Conditional"@
            &&& es[0].1 matches JsonView::Array(bs) && bs.len() == conditions@.len()
                && forall|i: int| 0 <= i < bs.len() ==> (#[trigger] bs[i] matches JsonView::Object(fs) && {
                    &&& lookup(fs, "dest"@) == Some(match conditions@[i].dest {
                        Some(d) => JsonView::Str(d@),
                        None => JsonView::Null,
                    })
                    &&& lookup(fs, "key"@) == Some(JsonView::Str(conditions@[i].key@))
                    &&& lookup(fs, "condition"@) == Some(conditions@[i].condition@)
                })
        }),
{
    reveal_strlit("condition");
    reveal_strlit("dest");
    reveal_strlit("key");
    if let RoutingPolicy::Conditional { conditions } = p {
        let bs = Seq::new(conditions@.len(), |i: int| branch_json(conditions@[i]));
        assert forall|i: int| 0 <= i < bs.len() implies (#[trigger] bs[i] matches JsonView::Object(fs) && {
            &&& lookup(fs, "dest"@) == Some(match conditions@[i].dest {
                Some(d) => JsonView::Str(d@),
                None => JsonView::Null,
            })
            &&& lookup(fs, "key"@) == Some(JsonView::Str(conditions@[i].key@))
            &&& lookup(fs, "condition"@) == Some(conditions@[i].condition@)
        }) by {
            let c = conditions@[i];
            let fs = seq![
                ("condition"@, c.condition@),
                ("dest"@, opt_string_json(c.dest)),
                ("key"@, JsonView::Str(c.key@)),
            ];
            assert(bs[i] == JsonView::Object(fs));
            assert("condition"@[0] != "dest"@[0]);
            assert("condition"@[0] != "key"@[0]);
            assert("dest"@[0] != "key"@[0]);
            assert(fs.drop_first() =~= seq![("dest"@, opt_string_json(c.dest)), ("key"@, JsonView::Str(c.key@))]);
            assert(fs.drop_first().drop_first() =~= seq![("key"@, JsonView::Str(c.key@))]);
            assert(lookup(fs.drop_first().drop_first(), "key"@) == Some(JsonView::Str(c.key@)));
            assert(lookup(fs.drop_first(), "dest"@) == Some(opt_string_json(c.dest)));
            assert(lookup(fs.drop_first(), "key"@) == Some(JsonView::Str(c.key@)));
        }
    }
}

} // verus!
