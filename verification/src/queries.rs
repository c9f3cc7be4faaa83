//! Keys and query fragments the stores are addressed with: the filter of a
//! route listing, and where QR images live in object storage.

use vstd::prelude::*;
use vstd::string::*;

use crate::ext::{str_eq, uuid_text, uuid_to_string};
use crate::route_service::RouteFilters;
use crate::settings::MinioSettings;
use crate::text::{decimal, signed_decimal, i64_text, u64_text};

verus! {

/// `$<n>`: the `n`-th bound parameter.
pub open spec fn bind_marker(n: nat) -> Seq<char> {
    "$"@ + decimal(n)
}

/// The text of an optional string.
pub open spec fn opt_text(o: Option<String>) -> Option<Seq<char>> {
    match o {
        Some(s) => Some(s@),
        None => None,
    }
}

/// The bound parameters of a route listing, in order: status, owner,
/// workspace, domain id (hyphenated), and `%<search>%`, each where the
/// filter sets it.
pub open spec fn filter_params(f: RouteFilters) -> Seq<Seq<char>> {
    let p0: Seq<Seq<char>> = Seq::empty();
    let p1 = match opt_text(f.status) { Some(s) => p0.push(s), None => p0 };
    let p2 = match opt_text(f.owner_id) { Some(s) => p1.push(s), None => p1 };
    let p3 = match opt_text(f.workspace_id) { Some(s) => p2.push(s), None => p2 };
    let p4 = match f.domain_id { Some(d) => p3.push(uuid_text(d)), None => p3 };
    match opt_text(f.search) { Some(s) => p4.push("%"@ + s + "%"@), None => p4 }
}

/// The conditions of a route listing, in the order of [`filter_params`],
/// each naming its parameter by position; then the condition that only
/// main routes are listed.
pub open spec fn filter_conditions(f: RouteFilters) -> Seq<Seq<char>> {
    let c0: Seq<Seq<char>> = Seq::empty();
    let c1 = match f.status { Some(_) => c0.push("r.status = "@ + bind_marker(c0.len() + 1)), None => c0 };
    let c2 = match f.owner_id { Some(_) => c1.push("p.owner_id = "@ + bind_marker(c1.len() + 1)), None => c1 };
    let c3 = match f.workspace_id { Some(_) => c2.push("p.workspace_id = "@ + bind_marker(c2.len() + 1)), None => c2 };
    let c4 = match f.domain_id { Some(_) => c3.push("r.domain_id = "@ + bind_marker(c3.len() + 1) + "::uuid"@), None => c3 };
    let c5 = match f.search {
        Some(_) => c4.push("(r.link ILIKE "@ + bind_marker(c4.len() + 1) + " OR r.dest ILIKE "@ + bind_marker(c4.len() + 1) + ")"@),
        None => c4,
    };
    c5.push("r.switch = 'main'"@)
}

/// Each filter that is set binds one parameter and adds one condition, which
/// names that parameter by its position; the last condition, on the switch,
/// binds none. So the numbered markers `$1..$n` cover the parameters exactly.
pub proof fn lemma_one_condition_per_parameter(f: RouteFilters)
    ensures
        filter_conditions(f).len() == filter_params(f).len() + 1,
        filter_conditions(f).last() == "r.switch = 'main'"@,
{
}

/// Some condition is `<before>$k<after>`, naming the `k`-th bound
/// parameter, and that parameter is `v`.
pub open spec fn binds(cs: Seq<Seq<char>>, ps: Seq<Seq<char>>, before: Seq<char>, after: Seq<char>, v: Seq<char>) -> bool {
    exists|k: int| 1 <= k <= ps.len() && ps[k - 1] == v
        && #[trigger] cs.contains(before + ("$"@ + decimal(k as nat)) + after)
}

/// Some condition is `<before>$k<middle>$k<after>`, naming the `k`-th bound
/// parameter twice, and that parameter is `v`.
pub open spec fn binds_twice(cs: Seq<Seq<char>>, ps: Seq<Seq<char>>, before: Seq<char>, middle: Seq<char>, after: Seq<char>, v: Seq<char>) -> bool {
    exists|k: int| 1 <= k <= ps.len() && ps[k - 1] == v
        && #[trigger] cs.contains(before + ("$"@ + decimal(k as nat)) + middle + ("$"@ + decimal(k as nat)) + after)
}

/// Every filter of a route listing keeps exactly the rows that match its
/// value: the status, owner and workspace are compared for equality with
/// their bound parameter, the domain for equality with its id's text, and the
/// search text is matched (`ILIKE`, case-insensitively, anywhere) against the
/// link or the destination as `%<text>%`; the last condition keeps main routes.
pub proof fn lemma_filters_select_their_values(f: RouteFilters)
    ensures
        f.status matches Some(s) ==> binds(filter_conditions(f), filter_params(f), "r.status = "@, Seq::empty(), s@),
        f.owner_id matches Some(o) ==> binds(filter_conditions(f), filter_params(f), "p.owner_id = "@, Seq::empty(), o@),
        f.workspace_id matches Some(w) ==> binds(filter_conditions(f), filter_params(f), "p.workspace_id = "@, Seq::empty(), w@),
        f.domain_id matches Some(d) ==> binds(filter_conditions(f), filter_params(f), "r.domain_id = "@, "::uuid"@, uuid_text(d)),
        f.search matches Some(q) ==> binds_twice(filter_conditions(f), filter_params(f),
            "(r.link ILIKE "@, " OR r.dest ILIKE "@, ")"@, "%"@ + q@ + "%"@),
        filter_conditions(f).last() == "r.switch = 'main'"@,
{
    let cs = filter_conditions(f);
    let ps = filter_params(f);
    let c0: Seq<Seq<char>> = Seq::empty();
    let c1 = match f.status { Some(_) => c0.push("r.status = "@ + bind_marker(c0.len() + 1)), None => c0 };
    let c2 = match f.owner_id { Some(_) => c1.push("p.owner_id = "@ + bind_marker(c1.len() + 1)), None => c1 };
    let c3 = match f.workspace_id { Some(_) => c2.push("p.workspace_id = "@ + bind_marker(c2.len() + 1)), None => c2 };
    let c4 = match f.domain_id { Some(_) => c3.push("r.domain_id = "@ + bind_marker(c3.len() + 1) + "::uuid"@), None => c3 };
    lemma_one_condition_per_parameter(f);
    if let Some(s) = f.status {
        let x = "r.status = "@ + ("$"@ + decimal(1nat)) + Seq::<char>::empty();
        assert(cs[0] =~= x);
        assert(ps[0] == s@);
        assert(cs.contains(x));
    }
    if let Some(o) = f.owner_id {
        let k = c1.len() + 1;
        let x = "p.owner_id = "@ + ("$"@ + decimal(k as nat)) + Seq::<char>::empty();
        assert(cs[k - 1] =~= x);
        assert(ps[k - 1] == o@);
        assert(cs.contains(x));
    }
    if let Some(w) = f.workspace_id {
        let k = c2.len() + 1;
        let x = "p.workspace_id = "@ + ("$"@ + decimal(k as nat)) + Seq::<char>::empty();
        assert(cs[k - 1] =~= x);
        assert(ps[k - 1] == w@);
        assert(cs.contains(x));
    }
    if let Some(d) = f.domain_id {
        let k = c3.len() + 1;
        let x = "r.domain_id = "@ + ("$"@ + decimal(k as nat)) + "::uuid"@;
        assert(cs[k - 1] == x);
        assert(ps[k - 1] == uuid_text(d));
        assert(cs.contains(x));
    }
    if let Some(q) = f.search {
        let k = c4.len() + 1;
        let m = "$"@ + decimal(k as nat);
        let x = "(r.link ILIKE "@ + m + " OR r.dest ILIKE "@ + m + ")"@;
        assert(cs[k - 1] == x);
        assert(ps[k - 1] == "%"@ + q@ + "%"@);
        assert(cs.contains(x));
    }
}

/// Texts joined by ` AND `.
pub open spec fn join_and(cs: Seq<Seq<char>>) -> Seq<char>
    decreases cs.len(),
{
    if cs.len() == 0 {
        Seq::empty()
    } else if cs.len() == 1 {
        cs[0]
    } else {
        join_and(cs.drop_last()) + " AND "@ + cs.last()
    }
}

/// The texts of a list of strings.
pub open spec fn texts(v: Seq<String>) -> Seq<Seq<char>> {
    v.map_values(|s: String| s@)
}

/// `<prefix>$<n>` as a string.
fn with_number(prefix: &str, n: usize) -> (r: String)
    ensures
        r@ == prefix@ + bind_marker(n as nat),
{
    let mut s = String::from_str(prefix);
    s.append("$");
    let t = u64_text(n as u64);
    s.append(t.as_str());
    assert(s@ =~= prefix@ + bind_marker(n as nat));
    s
}

/// The `WHERE` clause of a route listing and its bound parameters.
pub fn route_list_where(filters: &RouteFilters) -> (r: (String, Vec<String>))
    ensures
        r.0@ == "WHERE "@ + join_and(filter_conditions(*filters)),
        texts(r.1@) == filter_params(*filters),
{
    let mut params: Vec<String> = Vec::new();
    let mut conds: Vec<String> = Vec::new();
    assert(texts(params@) =~= Seq::<Seq<char>>::empty());
    assert(texts(conds@) =~= Seq::<Seq<char>>::empty());
    if let Some(status) = &filters.status {
        params.push(status.clone());
        let c = with_number("r.status = ", params.len());
        conds.push(c);
        assert(texts(params@) =~= seq![status@]);
        assert(texts(conds@) =~= seq!["r.status = "@ + bind_marker(1)]);
    }
    proof {
        let p0: Seq<Seq<char>> = Seq::empty();
        assert(texts(params@) =~= match opt_text(filters.status) { Some(s) => p0.push(s), None => p0 });
    }
    let ghost p1 = texts(params@);
    let ghost c1 = texts(conds@);
    assert(p1.len() == c1.len());
    if let Some(owner) = &filters.owner_id {
        params.push(owner.clone());
        conds.push(with_number("p.owner_id = ", params.len()));
        assert(texts(params@) =~= p1.push(owner@));
        assert(texts(conds@) =~= c1.push("p.owner_id = "@ + bind_marker(c1.len() + 1)));
    }
    let ghost p2 = texts(params@);
    let ghost c2 = texts(conds@);
    if let Some(ws) = &filters.workspace_id {
        params.push(ws.clone());
        conds.push(with_number("p.workspace_id = ", params.len()));
        assert(texts(params@) =~= p2.push(ws@));
        assert(texts(conds@) =~= c2.push("p.workspace_id = "@ + bind_marker(c2.len() + 1)));
    }
    let ghost p3 = texts(params@);
    let ghost c3 = texts(conds@);
    if let Some(d) = filters.domain_id {
        params.push(uuid_to_string(d));
        let mut c = with_number("r.domain_id = ", params.len());
        let ghost c_before = c@;
        c.append("::uuid");
        assert(c@ =~= "r.domain_id = "@ + bind_marker(c3.len() + 1) + "::uuid"@);
        conds.push(c);
        assert(texts(params@) =~= p3.push(uuid_text(d)));
        assert(texts(conds@) =~= c3.push("r.domain_id = "@ + bind_marker(c3.len() + 1) + "::uuid"@));
    }
    let ghost p4 = texts(params@);
    let ghost c4 = texts(conds@);
    if let Some(search) = &filters.search {
        let mut pattern = String::from_str("%");
        pattern.append(search.as_str());
        pattern.append("%");
        assert(pattern@ =~= "%"@ + search@ + "%"@);
        params.push(pattern);
        let n = params.len();
        let mut c = with_number("(r.link ILIKE ", n);
        let tail = with_number(" OR r.dest ILIKE ", n);
        c.append(tail.as_str());
        c.append(")");
        assert(c@ =~= "(r.link ILIKE "@ + bind_marker(c4.len() + 1) + " OR r.dest ILIKE "@ + bind_marker(c4.len() + 1) + ")"@);
        conds.push(c);
        assert(texts(params@) =~= p4.push("%"@ + search@ + "%"@));
        assert(texts(conds@) =~= c4.push("(r.link ILIKE "@ + bind_marker(c4.len() + 1) + " OR r.dest ILIKE "@ + bind_marker(c4.len() + 1) + ")"@));
    }
    let ghost c5 = texts(conds@);
    conds.push(String::from_str("r.switch = 'main'"));
    assert(texts(conds@) =~= c5.push("r.switch = 'main'"@));
    assert(texts(conds@) == filter_conditions(*filters));
    let ghost cs = texts(conds@);
    let mut clause = String::from_str("WHERE ");
    let mut i: usize = 0;
    assert(cs.take(0) =~= Seq::<Seq<char>>::empty());
    while i < conds.len()
        invariant
            i <= conds.len(),
            cs == texts(conds@),
            cs.len() == conds.len(),
            clause@ == "WHERE "@ + join_and(cs.take(i as int)),
        decreases conds.len() - i,
    {
        assert(cs.take(i + 1).drop_last() =~= cs.take(i as int));
        assert(cs.take(i + 1).last() == conds@[i as int]@);
        if i > 0 {
            clause.append(" AND ");
        }
        clause.append(conds[i].as_str());
        proof {
            if i == 0 {
                assert(clause@ =~= "WHERE "@ + join_and(cs.take(1)));
            } else {
                assert(clause@ =~= "WHERE "@ + join_and(cs.take(i + 1)));
            }
        }
        i = i + 1;
    }
    assert(cs.take(i as int) =~= cs);
    (clause, params)
}

/// The paging tail of a listing query: `LIMIT <page_size> OFFSET <offset>`
/// with the offset `(page - 1) * page_size`.
pub fn limit_offset(page: i32, page_size: i32) -> (r: String)
    requires
        page > i32::MIN,
        i32::MIN <= (page - 1) * page_size <= i32::MAX,
    ensures
        r@ == "LIMIT "@ + signed_decimal(page_size as int) + " OFFSET "@ + signed_decimal((page - 1) * page_size),
{
    let offset: i32 = (page - 1) * page_size;
    let mut s = String::from_str("LIMIT ");
    let a = i64_text(page_size as i64);
    s.append(a.as_str());
    s.append(" OFFSET ");
    let b = i64_text(offset as i64);
    s.append(b.as_str());
    s
}

/// `<owner>/<route>/qr.svg`: where a route's QR code is stored.
pub open spec fn qr_key_spec(owner_id: Seq<char>, route_id: Seq<char>) -> Seq<char> {
    owner_id + "/"@ + route_id + "/qr.svg"@
}

/// The storage key of a route's QR code.
pub fn qr_key(owner_id: &str, route_id: &str) -> (r: String)
    ensures
        r@ == qr_key_spec(owner_id@, route_id@),
{
    let mut s = String::from_str(owner_id);
    s.append("/");
    s.append(route_id);
    s.append("/qr.svg");
    s
}

/// `<owner>/<route>/qr-logo.<extension>`: where a route's QR logo is stored.
pub open spec fn qr_logo_key_spec(owner_id: Seq<char>, route_id: Seq<char>, extension: Seq<char>) -> Seq<char> {
    owner_id + "/"@ + route_id + "/qr-logo."@ + extension
}

/// The storage key of a route's QR logo.
pub fn qr_logo_key(owner_id: &str, route_id: &str, extension: &str) -> (r: String)
    ensures
        r@ == qr_logo_key_spec(owner_id@, route_id@, extension@),
{
    let mut s = String::from_str(owner_id);
    s.append("/");
    s.append(route_id);
    s.append("/qr-logo.");
    s.append(extension);
    s
}

/// The content type of a logo by its extension (PNG for anything unknown).
pub open spec fn logo_content_type(extension: Seq<char>) -> Seq<char> {
    if extension == "png"@ {
        "image/png"@
    } else if extension == "jpg"@ || extension == "jpeg"@ {
        "image/jpeg"@
    } else if extension == "gif"@ {
        "image/gif"@
    } else if extension == "webp"@ {
        "image/webp"@
    } else if extension == "svg"@ {
        "image/svg+xml"@
    } else {
        "image/png"@
    }
}

/// The content type of a logo by its extension.
pub fn logo_content_type_for(extension: &str) -> (r: &'static str)
    ensures
        r@ == logo_content_type(extension@),
{
    if str_eq(extension, "png") {
        "image/png"
    } else if str_eq(extension, "jpg") || str_eq(extension, "jpeg") {
        "image/jpeg"
    } else if str_eq(extension, "gif") {
        "image/gif"
    } else if str_eq(extension, "webp") {
        "image/webp"
    } else if str_eq(extension, "svg") {
        "image/svg+xml"
    } else {
        "image/png"
    }
}

/// How long an upload URL is valid, in seconds (15 minutes).
pub const UPLOAD_URL_SECONDS: u64 = 900;

/// How long a download URL is valid, in seconds (one hour).
pub const DOWNLOAD_URL_SECONDS: u64 = 3600;

/// The endpoint that signed URLs name: the public one where it is set, else
/// the internal one.
pub fn presign_endpoint(settings: &MinioSettings) -> (r: String)
    ensures
        r@ == match settings.public_endpoint { Some(p) => p@, None => settings.endpoint@ },
{
    match &settings.public_endpoint {
        Some(p) => p.clone(),
        None => settings.endpoint.clone(),
    }
}

} // verus!
