//! Routes in the full-text index: the indexed document, the search request,
//! and what is read back from the answer.

use vstd::prelude::*;
use vstd::string::*;

use crate::entities::{route_status_name, Route};
use crate::ext::{parse_uuid, uuid_parse, uuid_text, uuid_to_string};
use crate::json::{entries_view, json_view, lookup, values_view, JsonValue, JsonView};
use crate::text::{i64_text, signed_decimal};

verus! {

/// Route document for indexing.
#[derive(Debug)]
pub struct RouteDocument {
    pub id: String,
    pub link: String,
    pub dest: Option<String>,
    pub domain_id: Option<String>,
    pub owner_id: Option<String>,
    pub workspace_id: Option<String>,
    pub tags: Vec<String>,
    pub status: String,
    pub created_at: Option<String>,
}

/// The text of an optional string.
pub open spec fn opt_text(o: Option<String>) -> Option<Seq<char>> {
    match o {
        Some(s) => Some(s@),
        None => None,
    }
}

impl RouteDocument {
    /// The document indexed for a route: its id, link and destination, its
    /// domain in hyphenated form, its owner, workspace and tags (none where it
    /// has none), its status by name, and no creation time.
    pub fn from_route(route: &Route) -> (r: Self)
        ensures
            r.id@ == uuid_text(route.id),
            r.link == route.link,
            r.dest == route.dest,
            opt_text(r.domain_id) == match route.domain_id { Some(d) => Some(uuid_text(d)), None => None },
            r.owner_id == route.properties.owner_id,
            r.workspace_id == route.properties.workspace_id,
            r.tags@ == match route.properties.tags { Some(t) => t@, None => Seq::<String>::empty() },
            r.status@ == route_status_name(route.status),
            r.created_at is None,
    {
        let tags = match &route.properties.tags {
            Some(t) => crate::entities::copy_strings(t),
            None => Vec::new(),
        };
        RouteDocument {
            id: uuid_to_string(route.id),
            link: route.link.clone(),
            dest: crate::entities::copy_opt_string(&route.dest),
            domain_id: match route.domain_id {
                Some(d) => Some(uuid_to_string(d)),
                None => None,
            },
            owner_id: crate::entities::copy_opt_string(&route.properties.owner_id),
            workspace_id: crate::entities::copy_opt_string(&route.properties.workspace_id),
            tags,
            status: String::from_str(route.status.as_str()),
            created_at: None,
        }
    }
}

// ---------------------------------------------------------------------------
// The search request
// ---------------------------------------------------------------------------

/// `{"<k>": <v>}`.
pub open spec fn obj1(k: Seq<char>, v: JsonView) -> JsonView {
    JsonView::Object(seq![(k, v)])
}

/// The full-text clause: the query over link (weight 3), destination
/// (weight 2) and tags, with automatic fuzziness.
pub open spec fn match_clause(query: Seq<char>) -> JsonView {
    obj1("multi_match"@, JsonView::Object(seq![
        ("fields"@, JsonView::Array(seq![JsonView::Str("link^3"@), JsonView::Str("dest^2"@), JsonView::Str("tags"@)])),
        ("fuzziness"@, JsonView::Str("AUTO"@)),
        ("query"@, JsonView::Str(query)),
    ]))
}

/// An exact-term clause on a field.
pub open spec fn term_clause(field: Seq<char>, value: Seq<char>) -> JsonView {
    obj1("term"@, obj1(field, JsonView::Str(value)))
}

/// The clauses that must all match: the text, then the owner and the workspace where given.
pub open spec fn must_clauses(query: Seq<char>, owner_id: Option<Seq<char>>, workspace_id: Option<Seq<char>>) -> Seq<JsonView> {
    let c0 = seq![match_clause(query)];
    let c1 = match owner_id { Some(o) => c0.push(term_clause("owner_id"@, o)), None => c0 };
    match workspace_id { Some(w) => c1.push(term_clause("workspace_id"@, w)), None => c1 }
}

/// The search request: the page's offset and size, the clauses, best score
/// first then newest first.
pub open spec fn search_body_json(query: Seq<char>, owner_id: Option<Seq<char>>, workspace_id: Option<Seq<char>>, from: int, size: int) -> JsonView {
    JsonView::Object(seq![
        ("from"@, JsonView::Number(signed_decimal(from))),
        ("query"@, obj1("bool"@, obj1("must"@, JsonView::Array(must_clauses(query, owner_id, workspace_id))))),
        ("size"@, JsonView::Number(signed_decimal(size))),
        ("sort"@, JsonView::Array(seq![obj1("_score"@, JsonView::Str("desc"@)), obj1("created_at"@, JsonView::Str("desc"@))])),
    ])
}

/// `{"<k>": <v>}`.
fn make_obj1(k: &str, v: JsonValue) -> (r: JsonValue)
    ensures
        r@ == obj1(k@, v@),
{
    let es = vec![(String::from_str(k), v)];
    proof {
        assert(entries_view(es@) =~= seq![(k@, json_view(es@[0].1))]);
    }
    JsonValue::Object(es)
}

/// A JSON string.
fn jstr(s: &str) -> (r: JsonValue)
    ensures
        r@ == JsonView::Str(s@),
{
    JsonValue::Str(String::from_str(s))
}

/// The text of an optional string slice.
pub open spec fn opt_slice(o: Option<&str>) -> Option<Seq<char>> {
    match o {
        Some(s) => Some(s@),
        None => None,
    }
}

/// The search request for a page of routes matching `query`, limited to an
/// owner and a workspace where given.
pub fn search_body(query: &str, owner_id: Option<&str>, workspace_id: Option<&str>, page: i32, page_size: i32) -> (r: JsonValue)
    requires
        page > i32::MIN,
        i32::MIN <= (page - 1) * page_size <= i32::MAX,
    ensures
        r@ == search_body_json(query@, opt_slice(owner_id), opt_slice(workspace_id), (page - 1) * page_size, page_size as int),
{
    let from: i32 = (page - 1) * page_size;
    let fields = vec![jstr("link^3"), jstr("dest^2"), jstr("tags")];
    proof {
        assert(values_view(fields@) =~= seq![JsonView::Str("link^3"@), JsonView::Str("dest^2"@), JsonView::Str("tags"@)]);
    }
    let mm = vec![
        (String::from_str("fields"), JsonValue::Array(fields)),
        (String::from_str("fuzziness"), jstr("AUTO")),
        (String::from_str("query"), jstr(query)),
    ];
    proof {
        assert(entries_view(mm@) =~= seq![
            ("fields"@, JsonView::Array(seq![JsonView::Str("link^3"@), JsonView::Str("dest^2"@), JsonView::Str("tags"@)])),
            ("fuzziness"@, JsonView::Str("AUTO"@)),
            ("query"@, JsonView::Str(query@)),
        ]);
    }
    let mut must: Vec<JsonValue> = vec![make_obj1("multi_match", JsonValue::Object(mm))];
    proof {
        assert(values_view(must@) =~= seq![match_clause(query@)]);
    }
    let ghost c0 = values_view(must@);
    if let Some(o) = owner_id {
        let ghost prev = must@;
        must.push(make_obj1("term", make_obj1("owner_id", jstr(o))));
        assert(values_view(must@) =~= values_view(prev).push(term_clause("owner_id"@, o@)));
    }
    let ghost c1 = values_view(must@);
    assert(c1 == match opt_slice(owner_id) { Some(o) => c0.push(term_clause("owner_id"@, o)), None => c0 });
    if let Some(w) = workspace_id {
        let ghost prev = must@;
        must.push(make_obj1("term", make_obj1("workspace_id", jstr(w))));
        assert(values_view(must@) =~= values_view(prev).push(term_clause("workspace_id"@, w@)));
    }
    assert(values_view(must@) == must_clauses(query@, opt_slice(owner_id), opt_slice(workspace_id)));
    let sort = vec![make_obj1("_score", jstr("desc")), make_obj1("created_at", jstr("desc"))];
    proof {
        assert(values_view(sort@) =~= seq![obj1("_score"@, JsonView::Str("desc"@)), obj1("created_at"@, JsonView::Str("desc"@))]);
    }
    let q = make_obj1("bool", make_obj1("must", JsonValue::Array(must)));
    let es = vec![
        (String::from_str("from"), JsonValue::Number(i64_text(from as i64))),
        (String::from_str("query"), q),
        (String::from_str("size"), JsonValue::Number(i64_text(page_size as i64))),
        (String::from_str("sort"), JsonValue::Array(sort)),
    ];
    proof {
        assert(entries_view(es@) =~= seq![
            ("from"@, JsonView::Number(signed_decimal(from as int))),
            ("query"@, obj1("bool"@, obj1("must"@, JsonView::Array(must_clauses(query@, opt_slice(owner_id), opt_slice(workspace_id)))))),
            ("size"@, JsonView::Number(signed_decimal(page_size as int))),
            ("sort"@, JsonView::Array(seq![obj1("_score"@, JsonView::Str("desc"@)), obj1("created_at"@, JsonView::Str("desc"@))])),
        ]);
    }
    JsonValue::Object(es)
}

// ---------------------------------------------------------------------------
// Reading the answer
// ---------------------------------------------------------------------------

/// The value of a decimal digit character.
pub open spec fn digit_value(c: char) -> int {
    (c as u32) - 48
}

/// Whether a character is a decimal digit.
pub open spec fn is_digit(c: char) -> bool {
    '0' <= c && c <= '9'
}

/// The value of a run of decimal digits.
pub open spec fn digits_value(s: Seq<char>) -> int
    decreases s.len(),
{
    if s.len() == 0 {
        0
    } else {
        10 * digits_value(s.drop_last()) + digit_value(s.last())
    }
}

/// Whether `s` is one or more decimal digits.
pub open spec fn all_digits(s: Seq<char>) -> bool {
    s.len() > 0 && forall|i: int| 0 <= i < s.len() ==> is_digit(#[trigger] s[i])
}

/// The integer that a JSON number's text denotes, where it is an integer
/// (an optional minus and digits) within the range of `i64`, as
/// `Value::as_i64` gives it.
pub open spec fn integer_of(t: Seq<char>) -> Option<i64> {
    if t.len() > 0 && t[0] == '-' && all_digits(t.drop_first()) {
        let v = -digits_value(t.drop_first());
        if i64::MIN <= v { Some(v as i64) } else { None }
    } else if all_digits(t) {
        let v = digits_value(t);
        if v <= i64::MAX { Some(v as i64) } else { None }
    } else {
        None
    }
}

proof fn lemma_digits_nonneg(s: Seq<char>)
    requires
        forall|i: int| 0 <= i < s.len() ==> is_digit(#[trigger] s[i]),
    ensures
        digits_value(s) >= 0,
    decreases s.len(),
{
    if s.len() > 0 {
        lemma_digits_nonneg(s.drop_last());
    }
}

proof fn lemma_digits_grow(s: Seq<char>, k: int)
    requires
        0 <= k <= s.len(),
        forall|i: int| 0 <= i < s.len() ==> is_digit(#[trigger] s[i]),
    ensures
        digits_value(s.take(k)) <= digits_value(s),
    decreases s.len() - k,
{
    if k < s.len() {
        lemma_digits_grow(s, k + 1);
        assert(s.take(k + 1).drop_last() =~= s.take(k));
        lemma_digits_nonneg(s.take(k));
    } else {
        assert(s.take(k) =~= s);
    }
}

/// The magnitude of a run of digits, where it is at most `limit`.
fn digits_up_to(s: &str, start: usize, limit: u64) -> (r: Option<u64>)
    requires
        start <= s@.len(),
        limit >= 9,
    ensures
        all_digits(s@.skip(start as int)) && digits_value(s@.skip(start as int)) <= limit ==> r == Some(digits_value(s@.skip(start as int)) as u64),
        r matches Some(v) ==> v <= limit && v == digits_value(s@.skip(start as int)),
        !(all_digits(s@.skip(start as int)) && digits_value(s@.skip(start as int)) <= limit) ==> r is None,
{
    let n = s.unicode_len();
    if start >= n {
        return None;
    }
    let ghost t = s@.skip(start as int);
    let mut acc: u64 = 0;
    let mut i: usize = start;
    assert(t.take(0) =~= Seq::<char>::empty());
    while i < n
        invariant
            start <= i <= n,
            n == s@.len(),
            t == s@.skip(start as int),
            t.len() > 0,
            forall|j: int| 0 <= j < i - start ==> is_digit(#[trigger] t[j]),
            acc == digits_value(t.take(i - start)),
            acc <= limit,
            limit >= 9,
        decreases n - i,
    {
        let c = s.get_char(i);
        assert(t[i - start] == c);
        assert(t.take(i - start + 1).drop_last() =~= t.take(i - start));
        assert(t.take(i - start + 1).last() == c);
        if c < '0' || c > '9' {
            proof {
                assert(!is_digit(t[i - start]));
            }
            return None;
        }
        let d: u64 = (c as u32 - 48) as u64;
        assert(d <= 9);
        if acc > (limit - d) / 10 {
            proof {
                assert(digits_value(t.take(i - start + 1)) == 10 * acc + d);
                assert(10 * acc + d > limit) by (nonlinear_arith)
                    requires
                        acc > (limit - d) / 10,
                        d <= 9,
                        d <= limit,
                ;
                if all_digits(t) {
                    lemma_digits_grow(t, i - start + 1);
                }
            }
            return None;
        }
        proof {
            assert(10 * acc + d <= limit) by (nonlinear_arith)
                requires
                    acc <= (limit - d) / 10,
                    d <= limit,
            ;
        }
        acc = 10 * acc + d;
        i = i + 1;
    }
    assert(t.take(i - start) =~= t);
    Some(acc)
}

/// The integer a JSON number's text denotes, as `Value::as_i64` reads it.
pub fn parse_json_integer(t: &str) -> (r: Option<i64>)
    ensures
        r == integer_of(t@),
{
    let n = t.unicode_len();
    if n > 0 && t.get_char(0) == '-' {
        assert(t@.skip(1) =~= t@.drop_first());
        match digits_up_to(t, 1, 9_223_372_036_854_775_808u64) {
            Some(m) => {
                if m == 9_223_372_036_854_775_808u64 {
                    Some(i64::MIN)
                } else {
                    Some(0i64 - (m as i64))
                }
            },
            None => None,
        }
    } else {
        assert(t@.skip(0) =~= t@);
        proof {
            if n > 0 {
                assert(t@[0] != '-');
            }
            if t@.len() > 0 && t@[0] == '-' {
                assert(!all_digits(t@));
            }
        }
        match digits_up_to(t, 0, 9_223_372_036_854_775_807u64) {
            Some(m) => Some(m as i64),
            None => None,
        }
    }
}

/// `value[key]`: the entry of an object under `key`, or null.
pub open spec fn at(v: JsonView, key: Seq<char>) -> JsonView {
    match v {
        JsonView::Object(es) => match lookup(es, key) {
            Some(x) => x,
            None => JsonView::Null,
        },
        _ => JsonView::Null,
    }
}

impl JsonValue {
    /// The entry of an object under `key`, if the value is an object that has one.
    pub fn get(&self, key: &str) -> (r: Option<&JsonValue>)
        ensures
            match r {
                Some(x) => at(self@, key@) == x@ && (self@ matches JsonView::Object(es) && lookup(es, key@) == Some(x@)),
                None => at(self@, key@) == JsonView::Null && (self@ matches JsonView::Object(es) ==> lookup(es, key@) is None),
            },
    {
        match self {
            JsonValue::Object(entries) => {
                let ghost es = entries_view(entries@);
                let mut i: usize = 0;
                assert(es.skip(0) =~= es);
                while i < entries.len()
                    invariant
                        0 <= i <= entries.len(),
                        es == entries_view(entries@),
                        es.len() == entries.len(),
                        self@ == JsonView::Object(es),
                        lookup(es, key@) == lookup(es.skip(i as int), key@),
                    decreases entries.len() - i,
                {
                    let ghost rest = es.skip(i as int);
                    assert(rest[0] == es[i as int]);
                    if crate::ext::str_eq(entries[i].0.as_str(), key) {
                        assert(es[i as int] == (entries@[i as int].0@, json_view(entries@[i as int].1)));
                        return Some(&entries[i].1);
                    }
                    assert(rest.drop_first() =~= es.skip(i + 1));
                    i = i + 1;
                }
                assert(es.skip(i as int).len() == 0);
                None
            },
            _ => None,
        }
    }
}

/// `value.as_i64()` on our numbers: an integer number's value, else nothing.
pub open spec fn as_i64(v: JsonView) -> Option<i64> {
    match v {
        JsonView::Number(t) => integer_of(t),
        _ => None,
    }
}

/// The total a search answer reports: `hits.total.value`, or 0.
pub open spec fn total_hits_of(resp: JsonView) -> i64 {
    match as_i64(at(at(at(resp, "hits"@), "total"@), "value"@)) {
        Some(n) => n,
        None => 0,
    }
}

/// `value[key]` as an optional reference.
fn at_ref<'a>(v: Option<&'a JsonValue>, key: &str) -> (r: Option<&'a JsonValue>)
    ensures
        match v {
            Some(x) => match r {
                Some(y) => y@ == at(x@, key@),
                None => at(x@, key@) == JsonView::Null,
            },
            None => r is None,
        },
{
    match v {
        Some(x) => x.get(key),
        None => None,
    }
}

/// Reads the total of a search answer.
pub fn total_hits(resp: &JsonValue) -> (r: i64)
    ensures
        r == total_hits_of(resp@),
{
    let value = at_ref(at_ref(at_ref(Some(resp), "hits"), "total"), "value");
    match value {
        Some(JsonValue::Number(t)) => match parse_json_integer(t.as_str()) {
            Some(n) => n,
            None => 0,
        },
        _ => 0,
    }
}

/// The route id of a hit: its `_id`, where that is a string holding a UUID.
pub open spec fn hit_id(hit: JsonView) -> Option<u128> {
    match at(hit, "_id"@) {
        JsonView::Str(s) => uuid_parse(s),
        _ => None,
    }
}

/// The ids of the hits in order, skipping those without a UUID.
pub open spec fn hit_ids(hits: Seq<JsonView>) -> Seq<u128>
    decreases hits.len(),
{
    if hits.len() == 0 {
        Seq::empty()
    } else {
        let prev = hit_ids(hits.drop_last());
        match hit_id(hits.last()) {
            Some(id) => prev.push(id),
            None => prev,
        }
    }
}

/// The route ids a search answer lists: `hits.hits[*]._id` (none where the
/// answer has no such list).
pub open spec fn answer_ids(resp: JsonView) -> Seq<u128> {
    match at(at(resp, "hits"@), "hits"@) {
        JsonView::Array(hits) => hit_ids(hits),
        _ => Seq::empty(),
    }
}

/// Reads the route ids of a search answer.
pub fn hit_route_ids(resp: &JsonValue) -> (r: Vec<u128>)
    ensures
        r@ == answer_ids(resp@),
{
    let list = at_ref(at_ref(Some(resp), "hits"), "hits");
    let mut out: Vec<u128> = Vec::new();
    match list {
        Some(JsonValue::Array(hits)) => {
            let ghost hs = values_view(hits@);
            let mut i: usize = 0;
            assert(hs.take(0) =~= Seq::<JsonView>::empty());
            while i < hits.len()
                invariant
                    i <= hits.len(),
                    hs == values_view(hits@),
                    hs.len() == hits.len(),
                    out@ == hit_ids(hs.take(i as int)),
                decreases hits.len() - i,
            {
                assert(hs.take(i + 1).drop_last() =~= hs.take(i as int));
                assert(hs.take(i + 1).last() == hs[i as int]);
                assert(hs[i as int] == json_view(hits@[i as int]));
                let id = hits[i].get("_id");
                match id {
                    Some(JsonValue::Str(s)) => {
                        match parse_uuid(s.as_str()) {
                            Ok(u) => out.push(u),
                            Err(_) => {},
                        }
                    },
                    _ => {},
                }
                i = i + 1;
            }
            assert(hs.take(i as int) =~= hs);
        },
        _ => {},
    }
    out
}

/// A search's answer as the service reads it.
#[derive(Debug)]
pub struct SearchResult {
    pub route_ids: Vec<u128>,
    pub total_count: i64,
}

/// Reads a search answer.
pub fn read_search_answer(resp: &JsonValue) -> (r: SearchResult)
    ensures
        r.route_ids@ == answer_ids(resp@),
        r.total_count == total_hits_of(resp@),
{
    SearchResult { route_ids: hit_route_ids(resp), total_count: total_hits(resp) }
}

/// The action line that precedes a document in a bulk request.
pub open spec fn bulk_action(index: Seq<char>, id: Seq<char>) -> JsonView {
    obj1("index"@, JsonView::Object(seq![("_id"@, JsonView::Str(id)), ("_index"@, JsonView::Str(index))]))
}

/// `{"index": {"_id": <id>, "_index": <index>}}`.
pub fn bulk_action_line(index: &str, id: &str) -> (r: JsonValue)
    ensures
        r@ == bulk_action(index@, id@),
{
    let es = vec![(String::from_str("_id"), jstr(id)), (String::from_str("_index"), jstr(index))];
    proof {
        assert(entries_view(es@) =~= seq![("_id"@, JsonView::Str(id@)), ("_index"@, JsonView::Str(index@))]);
    }
    make_obj1("index", JsonValue::Object(es))
}

/// The body of a bulk request from its serialised lines: each line followed
/// by a newline.
pub fn bulk_body(lines: &Vec<String>) -> (r: String)
    ensures
        r@ == lines@.map_values(|l: String| l@ + "\n"@).fold_left(Seq::<char>::empty(), |acc: Seq<char>, x: Seq<char>| acc + x),
{
    let ghost ls = lines@.map_values(|l: String| l@ + "\n"@);
    let mut out = String::new();
    let mut i: usize = 0;
    assert(ls.take(0) =~= Seq::<Seq<char>>::empty());
    while i < lines.len()
        invariant
            i <= lines.len(),
            ls == lines@.map_values(|l: String| l@ + "\n"@),
            ls.len() == lines.len(),
            out@ == ls.take(i as int).fold_left(Seq::<char>::empty(), |acc: Seq<char>, x: Seq<char>| acc + x),
        decreases lines.len() - i,
    {
        out.append(lines[i].as_str());
        out.append("\n");
        proof {
            assert(ls.take(i + 1).drop_last() =~= ls.take(i as int));
            assert(ls[i as int] == lines@[i as int]@ + "\n"@);
            assert(out@ =~= ls.take(i as int).fold_left(Seq::<char>::empty(), |acc: Seq<char>, x: Seq<char>| acc + x) + ls[i as int]);
        }
        i = i + 1;
    }
    assert(ls.take(i as int) =~= ls);
    out
}

/// The term clause `{"term": {"<field>": "<value>"}}`, written out.
pub open spec fn literal_term(field: Seq<char>, value: Seq<char>) -> JsonView {
    JsonView::Object(seq![("term"@, JsonView::Object(seq![(field, JsonView::Str(value))]))])
}

/// A search request asks Elasticsearch for the query text, and narrows it to
/// the owner and to the workspace wherever they are given: the clauses that
/// must match are the full-text clause on the query, then one exact-term clause
/// per given filter and no other; the page starts at `from` and holds `size`.
pub proof fn lemma_search_applies_every_filter(
    query: Seq<char>,
    owner_id: Option<Seq<char>>,
    workspace_id: Option<Seq<char>>,
    from: int,
    size: int,
)
    ensures
        at(at(at(search_body_json(query, owner_id, workspace_id, from, size), "query"@), "bool"@), "must"@)
            matches JsonView::Array(ms) && {
            &&& ms.len() == 1 + (if owner_id is Some { 1int } else { 0int }) + (if workspace_id is Some { 1int } else { 0int })
            &&& at(at(ms[0], "multi_match"@), "query"@) == JsonView::Str(query)
            &&& (owner_id matches Some(o) ==> ms.contains(literal_term("owner_id"@, o)))
            &&& (workspace_id matches Some(w) ==> ms.contains(literal_term("workspace_id"@, w)))
        },
        at(search_body_json(query, owner_id, workspace_id, from, size), "from"@) == JsonView::Number(signed_decimal(from)),
        at(search_body_json(query, owner_id, workspace_id, from, size), "size"@) == JsonView::Number(signed_decimal(size)),
{
    reveal_strlit("from");
    reveal_strlit("query");
    reveal_strlit("size");
    reveal_strlit("sort");
    reveal_strlit("bool");
    reveal_strlit("must");
    reveal_strlit("multi_match");
    reveal_strlit("fields");
    reveal_strlit("fuzziness");
    let body = search_body_json(query, owner_id, workspace_id, from, size);
    let ms = must_clauses(query, owner_id, workspace_id);
    let es = seq![
        ("from"@, JsonView::Number(signed_decimal(from))),
        ("query"@, obj1("bool"@, obj1("must"@, JsonView::Array(ms)))),
        ("size"@, JsonView::Number(signed_decimal(size))),
        ("sort"@, JsonView::Array(seq![obj1("_score"@, JsonView::Str("desc"@)), obj1("created_at"@, JsonView::Str("desc"@))])),
    ];
    assert(body == JsonView::Object(es));
    assert("from"@[0] != "query"@[0]);
    assert("from"@[0] != "size"@[0]);
    assert("query"@[0] != "size"@[0]);
    assert(es.drop_first() =~= seq![es[1], es[2], es[3]]);
    assert(es.drop_first().drop_first() =~= seq![es[2], es[3]]);
    assert(lookup(es.drop_first().drop_first(), "size"@) == Some(es[2].1));
    assert(lookup(es.drop_first(), "size"@) == Some(es[2].1));
    assert(lookup(es.drop_first(), "query"@) == Some(es[1].1));
    assert(at(body, "query"@) == obj1("bool"@, obj1("must"@, JsonView::Array(ms))));
    assert(at(at(body, "query"@), "bool"@) == obj1("must"@, JsonView::Array(ms)));
    let mm = match_clause(query);
    let inner = seq![
        ("fields"@, JsonView::Array(seq![JsonView::Str("link^3"@), JsonView::Str("dest^2"@), JsonView::Str("tags"@)])),
        ("fuzziness"@, JsonView::Str("AUTO"@)),
        ("query"@, JsonView::Str(query)),
    ];
    assert(ms[0] == mm);
    assert("fields"@[0] != "query"@[0]);
    assert("fuzziness"@[0] != "query"@[0]);
    assert(inner.drop_first().drop_first() =~= seq![inner[2]]);
    assert(inner.drop_first() =~= seq![inner[1], inner[2]]);
    assert(lookup(inner.drop_first().drop_first(), "query"@) == Some(JsonView::Str(query)));
    assert(lookup(inner.drop_first(), "query"@) == Some(JsonView::Str(query)));
    assert(at(mm, "multi_match"@) == JsonView::Object(inner));
    let c0 = seq![mm];
    let c1 = match owner_id { Some(o) => c0.push(term_clause("owner_id"@, o)), None => c0 };
    if let Some(o) = owner_id {
        assert(c1[1] == literal_term("owner_id"@, o));
        assert(ms[1] == c1[1]);
    }
    if let Some(w) = workspace_id {
        assert(ms[c1.len() as int] == literal_term("workspace_id"@, w));
    }
}

} // verus!
