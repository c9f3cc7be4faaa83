//! Listing a user's domains, page by page, and what the API tells about a
//! domain's DNS set-up.

use vstd::prelude::*;
use vstd::string::*;

use crate::dto::domain::{domain_shown_as, DnsConfigDto, DomainDto};
use crate::entities::RouteDomain;
use crate::error::{forbidden_message, ApiError, ErrorCode};
use crate::ext::{contains_seq, lowercase, str_contains, str_eq, to_lowercase, uuid_text, uuid_to_string};
use crate::json::{entries_view, values_view, JsonValue, JsonView};
use crate::pagination::{page_of, page_window, pages_for, PaginationDto};
use crate::queries::texts;
use crate::route_service::{holds, list_holds};

verus! {

/// Whether a domain name matches a search term, ignoring case.
pub open spec fn name_matches(name: Seq<char>, term: Seq<char>) -> bool {
    contains_seq(lowercase(name), lowercase(term))
}

/// The domains that a search keeps, in order (all of them without a search).
pub open spec fn search_kept(domains: Seq<RouteDomain>, search: Option<Seq<char>>) -> Seq<RouteDomain>
    decreases domains.len(),
{
    match search {
        None => domains,
        Some(t) => if domains.len() == 0 {
            Seq::empty()
        } else {
            let prev = search_kept(domains.drop_last(), search);
            if name_matches(domains.last().name@, t) { prev.push(domains.last()) } else { prev }
        },
    }
}

/// `n` occurs in `h`: `h` is some text, then `n`, then some text.
pub open spec fn occurs_in(h: Seq<char>, n: Seq<char>) -> bool {
    exists|a: Seq<char>, b: Seq<char>| #[trigger] (a + n + b) == h
}

proof fn lemma_contains_is_occurrence(h: Seq<char>, n: Seq<char>)
    ensures
        contains_seq(h, n) <==> occurs_in(h, n),
{
    if contains_seq(h, n) {
        let i = choose|i: int| 0 <= i <= h.len() - n.len() && #[trigger] h.subrange(i, i + n.len()) == n;
        let a = h.subrange(0, i);
        let b = h.subrange(i + n.len(), h.len() as int);
        assert(a + n + b =~= h);
    }
    if occurs_in(h, n) {
        let (a, b) = choose|a: Seq<char>, b: Seq<char>| #[trigger] (a + n + b) == h;
        let i = a.len() as int;
        assert(h.subrange(i, i + n.len()) =~= n);
    }
}

/// A name search keeps a domain exactly when the lower-cased term occurs in
/// the lower-cased name, anywhere in it (not only at its start): every domain
/// whose name holds the term is kept, and every kept domain is one of the
/// given ones whose name holds the term.
pub proof fn lemma_search_keeps_names_holding_term(domains: Seq<RouteDomain>, t: Seq<char>)
    ensures
        forall|i: int| 0 <= i < domains.len() && occurs_in(lowercase(domains[i].name@), lowercase(t))
            ==> #[trigger] search_kept(domains, Some(t)).contains(domains[i]),
        forall|d: RouteDomain| #[trigger] search_kept(domains, Some(t)).contains(d)
            ==> domains.contains(d) && occurs_in(lowercase(d.name@), lowercase(t)),
    decreases domains.len(),
{
    if domains.len() > 0 {
        let p = domains.drop_last();
        let last = domains.last();
        lemma_search_keeps_names_holding_term(p, t);
        let prev = search_kept(p, Some(t));
        let kept = search_kept(domains, Some(t));
        lemma_contains_is_occurrence(lowercase(last.name@), lowercase(t));
        assert forall|i: int| 0 <= i < domains.len() && occurs_in(lowercase(domains[i].name@), lowercase(t))
            implies #[trigger] kept.contains(domains[i]) by {
            if i < domains.len() - 1 {
                assert(domains[i] == p[i]);
                assert(prev.contains(p[i]));
                let j = choose|j: int| 0 <= j < prev.len() && prev[j] == p[i];
                if kept != prev {
                    assert(kept == prev.push(last));
                    assert(kept[j] == prev[j]);
                }
            } else {
                assert(domains[i] == last);
                assert(kept == prev.push(last));
                assert(kept[prev.len() as int] == last);
            }
        }
        assert forall|d: RouteDomain| #[trigger] kept.contains(d)
            implies domains.contains(d) && occurs_in(lowercase(d.name@), lowercase(t)) by {
            let j = choose|j: int| 0 <= j < kept.len() && kept[j] == d;
            if j < prev.len() {
                if kept != prev {
                    assert(kept == prev.push(last));
                    assert(kept[j] == prev[j]);
                }
                assert(prev.contains(d));
                let k = choose|k: int| 0 <= k < p.len() && p[k] == d;
                assert(domains[k] == d);
            } else {
                assert(kept == prev.push(last));
                assert(d == last);
                assert(domains[domains.len() - 1] == d);
            }
        }
    } else {
        assert(search_kept(domains, Some(t)) =~= Seq::<RouteDomain>::empty());
    }
}

/// The text of an optional search.
pub open spec fn opt_term(o: Option<String>) -> Option<Seq<char>> {
    match o {
        Some(s) => Some(s@),
        None => None,
    }
}

/// A search keeps at most the domains it is given.
proof fn lemma_search_kept_len(domains: Seq<RouteDomain>, search: Option<Seq<char>>)
    ensures
        search_kept(domains, search).len() <= domains.len(),
    decreases domains.len(),
{
    if search is Some && domains.len() > 0 {
        lemma_search_kept_len(domains.drop_last(), search);
    }
}

/// Keeps the domains whose name contains the search term, ignoring case.
pub fn filter_domains(domains: Vec<RouteDomain>, search: &Option<String>) -> (r: Vec<RouteDomain>)
    ensures
        r@ == search_kept(domains@, opt_term(*search)),
{
    match search {
        None => domains,
        Some(term) => {
            let t = to_lowercase(term.as_str());
            let ghost src = domains@;
            let mut rest = domains;
            let mut out: Vec<RouteDomain> = Vec::new();
            let mut i: usize = 0;
            let n = rest.len();
            assert(src.len() == n);
            assert(src.take(0) =~= Seq::<RouteDomain>::empty());
            while rest.len() > 0
                invariant
                    i + rest.len() == src.len(),
                    src.len() <= usize::MAX,
                    rest@ == src.subrange(i as int, src.len() as int),
                    t@ == lowercase(term@),
                    out@ == search_kept(src.take(i as int), Some(term@)),
                decreases rest.len(),
            {
                let d = rest.remove(0);
                assert(d == src[i as int]);
                proof {
                    assert(src.take(i + 1).drop_last() =~= src.take(i as int));
                    assert(src.take(i + 1).last() == d);
                }
                let name = to_lowercase(d.name.as_str());
                if str_contains(name.as_str(), t.as_str()) {
                    out.push(d);
                }
                i = i + 1;
                assert(rest@ =~= src.subrange(i as int, src.len() as int));
            }
            assert(src.take(i as int) =~= src);
            out
        },
    }
}

/// A page of domains.
#[derive(Debug)]
pub struct PaginatedDomainsDto {
    pub data: Vec<DomainDto>,
    pub pagination: PaginationDto,
}

impl PaginatedDomainsDto {
    pub fn new(domains: Vec<DomainDto>, page: i32, page_size: i32, total_count: i64) -> (r: Self)
        ensures
            r.data == domains,
            r.pagination.page == page,
            r.pagination.page_size == page_size,
            r.pagination.total_count == total_count,
            r.pagination.total_pages == pages_for(total_count as int, page_size as int),
    {
        PaginatedDomainsDto { data: domains, pagination: PaginationDto::new(page, page_size, total_count) }
    }
}

/// One page of the domains a user can see: those that the search keeps,
/// counted, then the page's window of them in response form.
pub fn list_domains_page(domains: Vec<RouteDomain>, search: &Option<String>, page: i32, page_size: i32) -> (r: PaginatedDomainsDto)
    requires
        page > i32::MIN,
        i32::MIN <= (page - 1) * page_size <= i32::MAX,
        domains@.len() <= i64::MAX,
    ensures
        r.pagination.total_count == search_kept(domains@, opt_term(*search)).len(),
        r.pagination.page == page,
        r.pagination.page_size == page_size,
        r.pagination.total_pages == pages_for(search_kept(domains@, opt_term(*search)).len() as int, page_size as int),
        r.data.len() == page_window(search_kept(domains@, opt_term(*search)), page as int, page_size as int).len(),
        forall|i: int| 0 <= i < r.data.len() ==> domain_shown_as(
            page_window(search_kept(domains@, opt_term(*search)), page as int, page_size as int)[i],
            #[trigger] r.data@[i],
        ),
{
    proof {
        lemma_search_kept_len(domains@, opt_term(*search));
    }
    let filtered = filter_domains(domains, search);
    let total_count = filtered.len() as i64;
    let ghost kept = filtered@;
    let window = page_of(filtered, page, page_size);
    let ghost w = window@;
    let mut rest = window;
    let mut dtos: Vec<DomainDto> = Vec::new();
    let mut i: usize = 0;
    let n = rest.len();
    assert(w.len() == n);
    while rest.len() > 0
        invariant
            i + rest.len() == w.len(),
            w.len() <= usize::MAX,
            rest@ == w.subrange(i as int, w.len() as int),
            dtos.len() == i,
            forall|j: int| 0 <= j < i ==> domain_shown_as(w[j], #[trigger] dtos@[j]),
        decreases rest.len(),
    {
        let d = rest.remove(0);
        assert(d == w[i as int]);
        dtos.push(DomainDto::from_entity(d));
        i = i + 1;
        assert(rest@ =~= w.subrange(i as int, w.len() as int));
    }
    PaginatedDomainsDto::new(dtos, page, page_size, total_count)
}

/// Refuses a caller who does not own the domain.
pub fn check_domain_owner(domain: &RouteDomain, user_id: &str) -> (r: Result<(), ApiError>)
    ensures
        r is Ok <==> domain.owner_id@ == user_id@,
        r matches Err(e) ==> e.code == ErrorCode::Forbidden && e.message@ == forbidden_message(),
{
    if str_eq(domain.owner_id.as_str(), user_id) {
        Ok(())
    } else {
        Err(ApiError::forbidden())
    }
}

/// The DNS records that prove ownership of a domain: a TXT record
/// `shortas-verify=<id>`, the CNAME target, and the A records.
pub fn dns_config_for(domain_id: u128) -> (r: DnsConfigDto)
    ensures
        r.txt_record@ == "shortas-verify="@ + uuid_text(domain_id),
        r.cname_target@ == "redirect.shortas.work"@,
        r.a_records@.len() == 1,
        r.a_records@[0]@ == "1.2.3.4"@,
{
    let mut txt = String::from_str("shortas-verify=");
    let id = uuid_to_string(domain_id);
    txt.append(id.as_str());
    DnsConfigDto {
        txt_record: txt,
        cname_target: String::from_str("redirect.shortas.work"),
        a_records: vec![String::from_str("1.2.3.4")],
    }
}

/// The DNS set-up shared by all domains, as a JSON map.
pub open spec fn global_dns_json() -> JsonView {
    JsonView::Object(seq![
        ("allowedIpv4"@, JsonView::Array(seq![JsonView::Str("203.0.113.10"@)])),
        ("allowedIpv6"@, JsonView::Array(Seq::empty())),
        ("txtRecordName"@, JsonView::Str("_shortas-domain-challenge"@)),
    ])
}

/// The DNS set-up shared by all domains.
pub fn global_dns_config() -> (r: JsonValue)
    ensures
        r@ == global_dns_json(),
{
    let v4 = vec![JsonValue::Str(String::from_str("203.0.113.10"))];
    let v6: Vec<JsonValue> = Vec::new();
    proof {
        assert(values_view(v4@) =~= seq![JsonView::Str("203.0.113.10"@)]);
        assert(values_view(v6@) =~= Seq::<JsonView>::empty());
    }
    let es = vec![
        (String::from_str("allowedIpv4"), JsonValue::Array(v4)),
        (String::from_str("allowedIpv6"), JsonValue::Array(v6)),
        (String::from_str("txtRecordName"), JsonValue::Str(String::from_str("_shortas-domain-challenge"))),
    ];
    proof {
        assert(entries_view(es@) =~= seq![
            ("allowedIpv4"@, JsonView::Array(seq![JsonView::Str("203.0.113.10"@)])),
            ("allowedIpv6"@, JsonView::Array(Seq::empty())),
            ("txtRecordName"@, JsonView::Str("_shortas-domain-challenge"@)),
        ]);
    }
    JsonValue::Object(es)
}

/// What start-up does with a configured shared domain.
pub enum SeedAction {
    /// No domain of that name: create it, shared and verified.
    Create,
    /// It exists and is shared already.
    AlreadyShared,
    /// It exists but belongs to someone: leave it alone.
    SkipPrivate,
}

/// The step for a shared domain, given whether a domain of that name exists
/// and, if so, whether it is shared.
pub fn seed_action(existing_is_shared: Option<bool>) -> (r: SeedAction)
    ensures
        existing_is_shared is None ==> r is Create,
        existing_is_shared == Some(true) ==> r is AlreadyShared,
        existing_is_shared == Some(false) ==> r is SkipPrivate,
{
    match existing_is_shared {
        None => SeedAction::Create,
        Some(true) => SeedAction::AlreadyShared,
        Some(false) => SeedAction::SkipPrivate,
    }
}

/// The owner recorded for shared domains.
pub open spec fn system_owner_id() -> Seq<char> {
    "__system__"@
}

/// The owner recorded for shared domains: `__system__`.
pub fn system_owner() -> (r: String)
    ensures
        r@ == system_owner_id(),
{
    String::from_str("__system__")
}

/// A configured shared domain's name as stored: lower case.
pub fn normalize_domain_name(name: &str) -> (r: String)
    ensures
        r@ == lowercase(name@),
{
    to_lowercase(name)
}

/// The rows that seeding inserts into a table whose rows are matched by the
/// lower-cased names `table` (the domain names as the store compares them):
/// each configured name, lower-cased, unless the table or an earlier
/// insertion has it already; in the order configured.
pub open spec fn seed_inserts(table: Seq<Seq<char>>, names: Seq<Seq<char>>) -> Seq<Seq<char>>
    decreases names.len(),
{
    if names.len() == 0 {
        Seq::empty()
    } else {
        let prev = seed_inserts(table, names.drop_last());
        let k = lowercase(names.last());
        if table.contains(k) || prev.contains(k) {
            prev
        } else {
            prev.push(k)
        }
    }
}

/// The table after seeding: its rows, then the inserted ones.
pub open spec fn after_seed(table: Seq<Seq<char>>, names: Seq<Seq<char>>) -> Seq<Seq<char>> {
    table + seed_inserts(table, names)
}

proof fn lemma_seed_prefix(table: Seq<Seq<char>>, names: Seq<Seq<char>>, k: Seq<char>)
    requires
        names.len() > 0,
        seed_inserts(table, names.drop_last()).contains(k),
    ensures
        seed_inserts(table, names).contains(k),
{
    let prev = seed_inserts(table, names.drop_last());
    let i = choose|i: int| 0 <= i < prev.len() && prev[i] == k;
    let lk = lowercase(names.last());
    if !(table.contains(lk) || prev.contains(lk)) {
        assert(prev.push(lk)[i] == k);
    }
}

proof fn lemma_seed_covers(table: Seq<Seq<char>>, names: Seq<Seq<char>>)
    ensures
        forall|i: int| 0 <= i < names.len() ==> #[trigger] after_seed(table, names).contains(lowercase(names[i])),
    decreases names.len(),
{
    if names.len() > 0 {
        let p = names.drop_last();
        lemma_seed_covers(table, p);
        let prev = seed_inserts(table, p);
        let ins = seed_inserts(table, names);
        assert forall|i: int| 0 <= i < names.len() implies #[trigger] after_seed(table, names).contains(lowercase(names[i])) by {
            let k = lowercase(names[i]);
            if i < names.len() - 1 {
                assert(names[i] == p[i]);
                assert(after_seed(table, p).contains(k));
                let j = choose|j: int| 0 <= j < after_seed(table, p).len() && after_seed(table, p)[j] == k;
                if j < table.len() {
                    assert(after_seed(table, names)[j] == k);
                } else {
                    assert(prev[j - table.len()] == k);
                    assert(prev.contains(k));
                    lemma_seed_prefix(table, names, k);
                    let m = choose|m: int| 0 <= m < ins.len() && ins[m] == k;
                    assert(after_seed(table, names)[table.len() + m] == k);
                }
            } else {
                if table.contains(k) {
                    let j = choose|j: int| 0 <= j < table.len() && table[j] == k;
                    assert(after_seed(table, names)[j] == k);
                } else if prev.contains(k) {
                    let m = choose|m: int| 0 <= m < prev.len() && prev[m] == k;
                    assert(ins[m] == k);
                    assert(after_seed(table, names)[table.len() + m] == k);
                } else {
                    assert(ins[prev.len() as int] == k);
                    assert(after_seed(table, names)[(table.len() + prev.len()) as int] == k);
                }
            }
        }
    }
}

proof fn lemma_nothing_to_seed(table: Seq<Seq<char>>, names: Seq<Seq<char>>)
    requires
        forall|i: int| 0 <= i < names.len() ==> #[trigger] table.contains(lowercase(names[i])),
    ensures
        seed_inserts(table, names) == Seq::<Seq<char>>::empty(),
    decreases names.len(),
{
    if names.len() > 0 {
        let p = names.drop_last();
        assert forall|i: int| 0 <= i < p.len() implies #[trigger] table.contains(lowercase(p[i])) by {
            assert(p[i] == names[i]);
        }
        lemma_nothing_to_seed(table, p);
        assert(table.contains(lowercase(names[names.len() - 1])));
    }
}

/// Seeding shared domains keeps every row the table had, leaves a row for
/// every configured name (lower-cased), and is idempotent: seeding the
/// seeded table with the same names inserts nothing. No names insert nothing.
pub proof fn lemma_seeding_is_idempotent(table: Seq<Seq<char>>, names: Seq<Seq<char>>)
    ensures
        after_seed(table, names).take(table.len() as int) == table,
        forall|i: int| 0 <= i < names.len() ==> #[trigger] after_seed(table, names).contains(lowercase(names[i])),
        seed_inserts(after_seed(table, names), names) == Seq::<Seq<char>>::empty(),
        names.len() == 0 ==> seed_inserts(table, names) == Seq::<Seq<char>>::empty(),
{
    assert(after_seed(table, names).take(table.len() as int) =~= table);
    lemma_seed_covers(table, names);
    lemma_nothing_to_seed(after_seed(table, names), names);
}

/// The shared domains that seeding creates, given the names of the domains
/// the store has (as it compares them) and the configured names: see
/// [`seed_inserts`]. Each is created shared and verified, owned by
/// [`system_owner_id`].
pub fn seed_plan(existing: &Vec<String>, names: &Vec<String>) -> (r: Vec<String>)
    ensures
        texts(r@) == seed_inserts(texts(existing@), texts(names@)),
{
    let ghost ex = texts(existing@);
    let ghost ns = texts(names@);
    let mut out: Vec<String> = Vec::new();
    let mut i: usize = 0;
    assert(texts(out@) =~= seed_inserts(ex, ns.take(0)));
    while i < names.len()
        invariant
            i <= names.len(),
            ex == texts(existing@),
            ns == texts(names@),
            texts(out@) == seed_inserts(ex, ns.take(i as int)),
        decreases names.len() - i,
    {
        let k = to_lowercase(names[i].as_str());
        assert(ns.take(i as int + 1).drop_last() =~= ns.take(i as int));
        assert(ns.take(i as int + 1).last() == names@[i as int]@);
        let in_table = list_holds(existing, &k);
        let in_out = list_holds(&out, &k);
        proof {
            if holds(existing@, k@) {
                let j = choose|j: int| 0 <= j < existing@.len() && #[trigger] existing@[j]@ == k@;
                assert(ex[j] == k@);
            }
            if ex.contains(k@) {
                let j = choose|j: int| 0 <= j < ex.len() && ex[j] == k@;
                assert(existing@[j]@ == k@);
            }
            if holds(out@, k@) {
                let j = choose|j: int| 0 <= j < out@.len() && #[trigger] out@[j]@ == k@;
                assert(texts(out@)[j] == k@);
            }
            if texts(out@).contains(k@) {
                let j = choose|j: int| 0 <= j < texts(out@).len() && texts(out@)[j] == k@;
                assert(out@[j]@ == k@);
            }
        }
        if !in_table && !in_out {
            out.push(k);
            assert(texts(out@) =~= seed_inserts(ex, ns.take(i as int)).push(lowercase(names@[i as int]@)));
        }
        i = i + 1;
    }
    assert(ns.take(names.len() as int) =~= ns);
    out
}

} // verus!
