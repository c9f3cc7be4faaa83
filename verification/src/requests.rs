//! What the API reads out of a request before acting on it: ids in paths,
//! paging parameters, search terms and bulk bodies.

use vstd::prelude::*;
use vstd::string::*;

use crate::dto::route::{create_route_error, route_described, BulkDeleteDto, BulkRoutesDto, CreateRouteDto, QrSettingsDto};
use crate::entities::{QrSettings, Route};
use crate::error::{ApiError, ErrorCode};
use crate::ext::{parse_uuid, uuid_parse};
use crate::json::{entries_view, JsonValue, JsonView};

verus! {

/// Which id a path names, for the message when it is not a UUID.
#[derive(PartialEq, Eq, Structural, Clone, Copy, Debug)]
pub enum IdKind {
    Route,
    Domain,
    DomainQuery,
}

/// The refusal for an id that is not a UUID.
pub open spec fn invalid_id_message(k: IdKind) -> Seq<char> {
    match k {
        IdKind::Route => "Invalid route ID"@,
        IdKind::Domain => "Invalid domain ID"@,
        IdKind::DomainQuery => "Invalid domain_id"@,
    }
}

/// Reads an id parameter; refused as a validation error where it is not a UUID.
pub fn parse_id(s: &str, kind: IdKind) -> (r: Result<u128, ApiError>)
    ensures
        r is Ok <==> uuid_parse(s@) is Some,
        r matches Ok(id) ==> uuid_parse(s@) == Some(id),
        r matches Err(e) ==> e.code == ErrorCode::ValidationError && e.message@ == invalid_id_message(kind),
{
    match parse_uuid(s) {
        Ok(id) => Ok(id),
        Err(_) => {
            let m = match kind {
                IdKind::Route => "Invalid route ID",
                IdKind::Domain => "Invalid domain ID",
                IdKind::DomainQuery => "Invalid domain_id",
            };
            Err(ApiError::validation(String::from_str(m)))
        },
    }
}

/// The page asked for: 1 where none is given.
pub fn requested_page(page: Option<i32>) -> (r: i32)
    ensures
        r == match page { Some(p) => p, None => 1 },
{
    match page {
        Some(p) => p,
        None => 1,
    }
}

/// The page size of a route listing or search: the one asked for (20 where
/// none is given), at most 100.
pub fn route_page_size(page_size: Option<i32>) -> (r: i32)
    ensures
        r == ({
            let s = match page_size { Some(p) => p as int, None => 20 };
            if s > 100 { 100 } else { s }
        }),
{
    let s = match page_size {
        Some(p) => p,
        None => 20,
    };
    if s > 100 {
        100
    } else {
        s
    }
}

/// The page size of a domain listing: the one asked for, or 20.
pub fn domain_page_size(page_size: Option<i32>) -> (r: i32)
    ensures
        r == match page_size { Some(p) => p, None => 20 },
{
    match page_size {
        Some(p) => p,
        None => 20,
    }
}

/// A search needs a query.
pub fn require_query(q: &str) -> (r: Result<(), ApiError>)
    ensures
        r is Ok <==> q@.len() > 0,
        r matches Err(e) ==> e.code == ErrorCode::ValidationError && e.message@ == "Search query is required"@,
{
    if q.is_empty() {
        Err(ApiError::validation(String::from_str("Search query is required")))
    } else {
        Ok(())
    }
}

/// The first request of a bulk body that cannot become a route, if any.
pub open spec fn first_invalid(rs: Seq<CreateRouteDto>) -> Option<int> {
    if exists|i: int| 0 <= i < rs.len() && (#[trigger] create_route_error(rs[i].domain_id)) is Some {
        Some(choose|i: int| 0 <= i < rs.len() && (#[trigger] create_route_error(rs[i].domain_id)) is Some
            && forall|j: int| 0 <= j < i ==> (#[trigger] create_route_error(rs[j].domain_id)) is None)
    } else {
        None
    }
}

/// The routes that a bulk body describes, for `user_id`; refused, as a
/// validation error with its reason, at the first request that cannot
/// become a route.
pub fn routes_from_bulk(dto: BulkRoutesDto, user_id: &str) -> (r: Result<Vec<Route>, ApiError>)
    ensures
        r is Ok <==> forall|i: int| 0 <= i < dto.routes.len() ==> (#[trigger] create_route_error(dto.routes@[i].domain_id)) is None,
        r matches Ok(v) ==> v.len() == dto.routes.len() && forall|i: int| 0 <= i < v.len()
            ==> route_described(dto.routes@[i], user_id@, #[trigger] v@[i]),
        r matches Err(e) ==> e.code == ErrorCode::ValidationError && exists|i: int| 0 <= i < dto.routes.len()
            && create_route_error(dto.routes@[i].domain_id) == Some(e.message@)
            && forall|j: int| 0 <= j < i ==> (#[trigger] create_route_error(dto.routes@[j].domain_id)) is None,
{
    let ghost all = dto.routes@;
    let mut rest = dto.routes;
    let mut out: Vec<Route> = Vec::new();
    let mut i: usize = 0;
    let n = rest.len();
    assert(all.len() == n);
    while rest.len() > 0
        invariant
            i + rest.len() == all.len(),
            all.len() <= usize::MAX,
            all == dto.routes@,
            rest@ == all.subrange(i as int, all.len() as int),
            out.len() == i,
            forall|j: int| 0 <= j < i ==> (#[trigger] create_route_error(all[j].domain_id)) is None,
            forall|j: int| 0 <= j < i ==> route_described(all[j], user_id@, #[trigger] out@[j]),
        decreases rest.len(),
    {
        let c = rest.remove(0);
        assert(c == all[i as int]);
        match c.to_entity(user_id) {
            Ok(route) => {
                out.push(route);
            },
            Err(m) => {
                assert(create_route_error(all[i as int].domain_id) == Some(m@));
                return Err(ApiError::validation(m));
            },
        }
        i = i + 1;
        assert(rest@ =~= all.subrange(i as int, all.len() as int));
    }
    Ok(out)
}

/// The ids of a bulk delete; refused, as `Invalid route IDs`, where any is not a UUID.
pub fn ids_from_bulk(dto: &BulkDeleteDto) -> (r: Result<Vec<u128>, ApiError>)
    ensures
        r is Ok <==> forall|i: int| 0 <= i < dto.ids.len() ==> (#[trigger] uuid_parse(dto.ids@[i]@)) is Some,
        r matches Ok(v) ==> v.len() == dto.ids.len() && forall|i: int| 0 <= i < v.len() ==> uuid_parse(dto.ids@[i]@) == Some(#[trigger] v@[i]),
        r matches Err(e) ==> e.code == ErrorCode::ValidationError && e.message@ == "Invalid route IDs"@,
{
    let mut out: Vec<u128> = Vec::new();
    let mut i: usize = 0;
    while i < dto.ids.len()
        invariant
            i <= dto.ids.len(),
            out.len() == i,
            forall|j: int| 0 <= j < i ==> uuid_parse(dto.ids@[j]@) == Some(#[trigger] out@[j]),
        decreases dto.ids.len() - i,
    {
        match parse_uuid(dto.ids[i].as_str()) {
            Ok(id) => out.push(id),
            Err(_) => {
                assert(uuid_parse(dto.ids@[i as int]@) is None);
                return Err(ApiError::validation(String::from_str("Invalid route IDs")));
            },
        }
        i = i + 1;
    }
    assert forall|k: int| 0 <= k < dto.ids.len() implies (#[trigger] uuid_parse(dto.ids@[k]@)) is Some by {
        assert(uuid_parse(dto.ids@[k]@) == Some(out@[k]));
    }
    Ok(out)
}

impl Default for QrSettingsDto {
    /// No settings at all.
    fn default() -> (r: Self)
        ensures
            r.foreground_color is None && r.background_color is None && r.logo_url is None,
            r.logo_size is None && r.size is None && r.margin is None && r.error_correction is None,
    {
        QrSettingsDto {
            foreground_color: None,
            background_color: None,
            logo_url: None,
            logo_size: None,
            size: None,
            margin: None,
            error_correction: None,
        }
    }
}

/// The QR settings a route shows: its own, or none at all.
pub fn qr_settings_shown(settings: &Option<QrSettings>) -> (r: QrSettingsDto)
    ensures
        match settings {
            Some(s) => r.foreground_color == s.foreground_color && r.background_color == s.background_color
                && r.logo_url == s.logo_url && r.logo_size == s.logo_size && r.size == s.size
                && r.margin == s.margin && r.error_correction == s.error_correction,
            None => r.foreground_color is None && r.logo_url is None && r.size is None && r.error_correction is None,
        },
{
    match settings {
        Some(s) => QrSettingsDto::from_entity(s),
        None => QrSettingsDto::default(),
    }
}

/// `{"message": <text>}`.
pub fn message_body(text: &str) -> (r: JsonValue)
    ensures
        r@ == JsonView::Object(seq![("message"@, JsonView::Str(text@))]),
{
    let es = vec![(String::from_str("message"), JsonValue::Str(String::from_str(text)))];
    proof {
        assert(entries_view(es@) =~= seq![("message"@, JsonView::Str(text@))]);
    }
    JsonValue::Object(es)
}

} // verus!
