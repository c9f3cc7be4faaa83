//! Entities rebuilt from stored rows: each column as the store read it
//! (absent where it could not be read), with the defaults the service
//! applies to missing columns.

use vstd::prelude::*;
use vstd::string::*;

use crate::entities::{
    dest_format_from_name, status_name_blocks, terminal_from_name, verification_from_name,
    BlockedReason, Certificate, DestinationFormat, DomainVerificationStatus, QrSettings, Route,
    RouteDomain, RouteProperties, RouteStatus, RoutingPolicy, RoutingTerminal, UserWorkspace,
    Workspace, route_status_from_name,
};
use crate::error::{ApiError, ErrorCode};
use crate::ext::{now, Timestamp};
use crate::json::{JsonValue, JsonView};
use crate::outbox::{type_from_name, status_from_name, OutboxMessage, OutboxMessageType, OutboxStatus};

verus! {

/// A string column, or its default where it could not be read.
pub open spec fn text_or(o: Option<String>, default: Seq<char>) -> Seq<char> {
    match o {
        Some(s) => s@,
        None => default,
    }
}

/// A string column, or a default.
fn string_or(o: Option<String>, default: &str) -> (r: String)
    ensures
        r@ == text_or(o, default@),
{
    match o {
        Some(s) => s,
        None => String::from_str(default),
    }
}

/// A string column, or empty.
fn empty_or(o: Option<String>) -> (r: String)
    ensures
        r@ == text_or(o, Seq::empty()),
{
    match o {
        Some(s) => s,
        None => String::new(),
    }
}

/// The columns of a stored route joined with its properties.
#[derive(Debug)]
pub struct RouteRow {
    pub id: Result<u128, String>,
    pub switch: Option<String>,
    pub link: Option<String>,
    pub dest: Option<String>,
    pub dest_format: Option<String>,
    pub code: Option<i32>,
    pub ttl: Option<i64>,
    pub status: Option<String>,
    pub terminal: Option<String>,
    pub policy: RoutingPolicy,
    pub domain_id: Option<u128>,
    pub prop_route_id: Option<String>,
    pub prop_domain_id: Option<u128>,
    pub owner_id: Option<String>,
    pub creator_id: Option<String>,
    pub workspace_id: Option<String>,
    pub scripts: Option<Vec<String>>,
    pub tags: Option<Vec<String>>,
    pub custom: Option<JsonValue>,
    pub native: Option<JsonValue>,
    pub bundling: Option<JsonValue>,
    pub qr_settings: Option<QrSettings>,
    pub opengraph: Option<bool>,
    pub allow_debug: Option<bool>,
}

/// The route a row describes: refused (as an internal error with the
/// store's message) without an id; an unreadable switch or link is empty;
/// the format, status and terminal read from their names (defaulting to
/// `Http`, `Active` and `External`); code and TTL narrowed as the columns'
/// wider integers are cast; flags false where unreadable.
pub fn route_from_row(row: RouteRow) -> (r: Result<Route, ApiError>)
    ensures
        row.id is Err <==> r is Err,
        row.id matches Err(m) ==> (r matches Err(e) && e.code == ErrorCode::InternalError && e.message@ == m@),
        r matches Ok(route) ==> {
            &&& row.id == Ok::<u128, String>(route.id)
            &&& route.switch@ == text_or(row.switch, Seq::empty())
            &&& route.link@ == text_or(row.link, Seq::empty())
            &&& route.dest == row.dest
            &&& route.dest_format == dest_format_from_name(text_or(row.dest_format, "Http"@))
            &&& route.code == match row.code { Some(c) => Some(c as u16), None => None }
            &&& route.ttl == match row.ttl { Some(t) => Some(t as u64), None => None }
            &&& (if status_name_blocks(text_or(row.status, "Active"@)) {
                route.status matches RouteStatus::Blocked(BlockedReason::Unknown)
            } else {
                route.status is Active
            })
            &&& route.terminal == terminal_from_name(text_or(row.terminal, "External"@))
            &&& route.policy == row.policy
            &&& route.domain_id == row.domain_id
            &&& route.properties.route_id == row.prop_route_id
            &&& crate::dto::domain::opt_text(route.properties.domain_id) == match row.prop_domain_id {
                Some(d) => Some(crate::ext::uuid_text(d)),
                None => None,
            }
            &&& route.properties.scripts == row.scripts
            &&& route.properties.tags == row.tags
            &&& route.properties.custom == row.custom
            &&& route.properties.native == row.native
            &&& route.properties.bundling == row.bundling
            &&& route.properties.qr_settings == row.qr_settings
            &&& route.properties.owner_id == row.owner_id
            &&& route.properties.creator_id == row.creator_id
            &&& route.properties.workspace_id == row.workspace_id
            &&& route.properties.opengraph == (row.opengraph == Some(true))
            &&& route.properties.allow_debug == (row.allow_debug == Some(true))
        },
{
    let id = match row.id {
        Ok(id) => id,
        Err(m) => {
            return Err(ApiError::internal(m));
        },
    };
    let switch = empty_or(row.switch);
    let link = empty_or(row.link);
    let dest_format_name = string_or(row.dest_format, "Http");
    let status_name = string_or(row.status, "Active");
    let terminal_name = string_or(row.terminal, "External");
    let prop_domain_id = match row.prop_domain_id {
        Some(d) => Some(crate::ext::uuid_to_string(d)),
        None => None,
    };
    let properties = RouteProperties {
        route_id: row.prop_route_id,
        domain_id: prop_domain_id,
        owner_id: row.owner_id,
        creator_id: row.creator_id,
        workspace_id: row.workspace_id,
        scripts: row.scripts,
        tags: row.tags,
        custom: row.custom,
        native: row.native,
        bundling: row.bundling,
        qr_settings: row.qr_settings,
        opengraph: match row.opengraph { Some(b) => b, None => false },
        allow_debug: match row.allow_debug { Some(b) => b, None => false },
    };
    let code = match row.code {
        Some(c) => Some(c as u16),
        None => None,
    };
    let ttl = match row.ttl {
        Some(t) => Some(t as u64),
        None => None,
    };
    Ok(Route {
        id,
        switch,
        link,
        dest: row.dest,
        dest_format: DestinationFormat::from_name(dest_format_name.as_str()),
        code,
        ttl,
        status: route_status_from_name(status_name.as_str()),
        terminal: RoutingTerminal::from_name(terminal_name.as_str()),
        policy: row.policy,
        properties,
        domain_id: row.domain_id,
    })
}

/// The columns of a stored outbox message.
#[derive(Debug)]
pub struct OutboxRow {
    pub id: Result<u128, String>,
    pub message_type: Option<String>,
    pub payload: Option<JsonValue>,
    pub status: Option<String>,
    pub retry_count: Option<i32>,
    pub max_retries: Option<i32>,
    pub error_message: Option<String>,
    pub created_at: Option<Timestamp>,
    pub processed_at: Option<Timestamp>,
    pub next_retry_at: Option<Timestamp>,
}

/// The outbox message a row describes: refused without an id; an unknown
/// type reads as route indexing, an unknown status as pending, an unreadable
/// payload as `{}`; no retries and a limit of three where unreadable; an
/// unreadable creation time is now.
pub fn outbox_from_row(row: OutboxRow) -> (r: Result<OutboxMessage, ApiError>)
    ensures
        row.id is Err <==> r is Err,
        row.id matches Err(m) ==> (r matches Err(e) && e.code == ErrorCode::InternalError && e.message@ == m@),
        r matches Ok(m) ==> {
            &&& row.id == Ok::<u128, String>(m.id)
            &&& m.message_type == match type_from_name(text_or(row.message_type, Seq::empty())) {
                Some(t) => t,
                None => OutboxMessageType::IndexRoute,
            }
            &&& m.payload@ == match row.payload { Some(p) => p@, None => JsonView::Object(Seq::empty()) }
            &&& m.status == status_from_name(text_or(row.status, "Pending"@))
            &&& m.retry_count == match row.retry_count { Some(c) => c, None => 0 }
            &&& m.max_retries == match row.max_retries { Some(c) => c, None => 3 }
            &&& m.error_message == row.error_message
            &&& row.created_at is Some ==> m.created_at == row.created_at->0
            &&& m.processed_at == row.processed_at
            &&& m.next_retry_at == row.next_retry_at
        },
{
    let id = match row.id {
        Ok(id) => id,
        Err(e) => {
            return Err(ApiError::internal(e));
        },
    };
    let kind_name = empty_or(row.message_type);
    let message_type = match OutboxMessageType::from_str(kind_name.as_str()) {
        Some(t) => t,
        None => OutboxMessageType::IndexRoute,
    };
    let payload = match row.payload {
        Some(p) => p,
        None => {
            let empty: Vec<(String, JsonValue)> = Vec::new();
            proof {
                assert(crate::json::entries_view(empty@) =~= Seq::<(Seq<char>, JsonView)>::empty());
            }
            JsonValue::Object(empty)
        },
    };
    let status_name = string_or(row.status, "Pending");
    let created_at = match row.created_at {
        Some(t) => t,
        None => now(),
    };
    Ok(OutboxMessage {
        id,
        message_type,
        payload,
        status: OutboxStatus::from_str(status_name.as_str()),
        retry_count: match row.retry_count { Some(c) => c, None => 0 },
        max_retries: match row.max_retries { Some(c) => c, None => 3 },
        error_message: row.error_message,
        created_at,
        processed_at: row.processed_at,
        next_retry_at: row.next_retry_at,
    })
}

/// The columns of a stored domain.
#[derive(Debug)]
pub struct DomainRow {
    pub id: Result<u128, String>,
    pub name: Option<String>,
    pub owner_id: Option<String>,
    pub is_shared: Option<bool>,
    pub verification_status: Option<String>,
    pub verification_reason: Option<String>,
    pub last_verification_check: Option<Timestamp>,
    pub next_verification_check: Option<Timestamp>,
    pub custom_index_url: Option<String>,
    pub custom_not_found_url: Option<String>,
    pub created_at: Option<Timestamp>,
    pub updated_at: Option<Timestamp>,
}

/// The domain a row describes: refused without an id; empty name and owner
/// where unreadable, not shared, status `Pending` and reason `not_checked`
/// where unreadable, no DNS configuration.
pub fn domain_from_row(row: DomainRow) -> (r: Result<RouteDomain, ApiError>)
    ensures
        row.id is Err <==> r is Err,
        row.id matches Err(m) ==> (r matches Err(e) && e.code == ErrorCode::InternalError && e.message@ == m@),
        r matches Ok(d) ==> {
            &&& row.id == Ok::<u128, String>(d.id)
            &&& d.name@ == text_or(row.name, Seq::empty())
            &&& d.owner_id@ == text_or(row.owner_id, Seq::empty())
            &&& d.is_shared == (row.is_shared == Some(true))
            &&& d.verification_status == verification_from_name(text_or(row.verification_status, "Pending"@))
            &&& d.verification_reason@ == text_or(row.verification_reason, "not_checked"@)
            &&& d.last_verification_check == row.last_verification_check
            &&& d.next_verification_check == row.next_verification_check
            &&& d.custom_index_url == row.custom_index_url
            &&& d.custom_not_found_url == row.custom_not_found_url
            &&& d.dns_config is None
            &&& d.created_at == row.created_at
            &&& d.updated_at == row.updated_at
        },
{
    let id = match row.id {
        Ok(id) => id,
        Err(e) => {
            return Err(ApiError::internal(e));
        },
    };
    let status_name = string_or(row.verification_status, "Pending");
    Ok(RouteDomain {
        id,
        name: empty_or(row.name),
        owner_id: empty_or(row.owner_id),
        is_shared: match row.is_shared { Some(b) => b, None => false },
        verification_status: DomainVerificationStatus::from_str(status_name.as_str()),
        verification_reason: string_or(row.verification_reason, "not_checked"),
        last_verification_check: row.last_verification_check,
        next_verification_check: row.next_verification_check,
        custom_index_url: row.custom_index_url,
        custom_not_found_url: row.custom_not_found_url,
        dns_config: None,
        created_at: row.created_at,
        updated_at: row.updated_at,
    })
}

/// The columns of a stored certificate.
#[derive(Debug)]
pub struct CertificateRow {
    pub id: Result<u128, String>,
    pub key: Option<String>,
    pub cert: Option<String>,
    pub ocsp_resp: Option<String>,
    pub owner_id: Option<String>,
    pub domain_id: Option<u128>,
    pub expires_at: Option<Timestamp>,
    pub created_at: Option<Timestamp>,
}

/// The certificate a row describes: refused without an id; empty texts and
/// the nil domain id where unreadable.
pub fn certificate_from_row(row: CertificateRow) -> (r: Result<Certificate, ApiError>)
    ensures
        row.id is Err <==> r is Err,
        row.id matches Err(m) ==> (r matches Err(e) && e.code == ErrorCode::InternalError && e.message@ == m@),
        r matches Ok(c) ==> {
            &&& row.id == Ok::<u128, String>(c.id)
            &&& c.key@ == text_or(row.key, Seq::empty())
            &&& c.cert@ == text_or(row.cert, Seq::empty())
            &&& c.ocsp_resp == row.ocsp_resp
            &&& c.owner_id@ == text_or(row.owner_id, Seq::empty())
            &&& c.domain_id == match row.domain_id { Some(d) => d, None => 0 }
            &&& c.expires_at == row.expires_at
            &&& c.created_at == row.created_at
        },
{
    let id = match row.id {
        Ok(id) => id,
        Err(e) => {
            return Err(ApiError::internal(e));
        },
    };
    Ok(Certificate {
        id,
        key: empty_or(row.key),
        cert: empty_or(row.cert),
        ocsp_resp: row.ocsp_resp,
        owner_id: empty_or(row.owner_id),
        domain_id: match row.domain_id { Some(d) => d, None => 0 },
        expires_at: row.expires_at,
        created_at: row.created_at,
    })
}

/// The columns of a stored workspace.
#[derive(Debug)]
pub struct WorkspaceRow {
    pub id: Result<u128, String>,
    pub name: Option<String>,
    pub description: Option<String>,
    pub workspace_type: Option<String>,
    pub created_at: Option<Timestamp>,
    pub updated_at: Option<Timestamp>,
}

/// The workspace a row describes: refused without an id; empty texts where
/// unreadable, and type `User`.
pub fn workspace_from_row(row: WorkspaceRow) -> (r: Result<Workspace, ApiError>)
    ensures
        row.id is Err <==> r is Err,
        row.id matches Err(m) ==> (r matches Err(e) && e.code == ErrorCode::InternalError && e.message@ == m@),
        r matches Ok(w) ==> {
            &&& row.id == Ok::<u128, String>(w.id)
            &&& w.name@ == text_or(row.name, Seq::empty())
            &&& w.description@ == text_or(row.description, Seq::empty())
            &&& w.workspace_type@ == text_or(row.workspace_type, "User"@)
            &&& w.created_at == row.created_at
            &&& w.updated_at == row.updated_at
        },
{
    let id = match row.id {
        Ok(id) => id,
        Err(e) => {
            return Err(ApiError::internal(e));
        },
    };
    Ok(Workspace {
        id,
        name: empty_or(row.name),
        description: empty_or(row.description),
        workspace_type: string_or(row.workspace_type, "User"),
        created_at: row.created_at,
        updated_at: row.updated_at,
    })
}

/// The columns of a stored membership.
#[derive(Debug)]
pub struct MembershipRow {
    pub id: Result<u128, String>,
    pub user_id: Option<String>,
    pub workspace_id: Option<u128>,
    pub role: Option<String>,
    pub joined_at: Option<Timestamp>,
}

/// The membership a row describes: refused without an id; an empty user,
/// the nil workspace id and role `Member` where unreadable.
pub fn membership_from_row(row: MembershipRow) -> (r: Result<UserWorkspace, ApiError>)
    ensures
        row.id is Err <==> r is Err,
        row.id matches Err(m) ==> (r matches Err(e) && e.code == ErrorCode::InternalError && e.message@ == m@),
        r matches Ok(m) ==> {
            &&& row.id == Ok::<u128, String>(m.id)
            &&& m.user_id@ == text_or(row.user_id, Seq::empty())
            &&& m.workspace_id == match row.workspace_id { Some(w) => w, None => 0 }
            &&& m.role@ == text_or(row.role, "Member"@)
            &&& m.joined_at == row.joined_at
        },
{
    let id = match row.id {
        Ok(id) => id,
        Err(e) => {
            return Err(ApiError::internal(e));
        },
    };
    Ok(UserWorkspace {
        id,
        user_id: empty_or(row.user_id),
        workspace_id: match row.workspace_id { Some(w) => w, None => 0 },
        role: string_or(row.role, "Member"),
        joined_at: row.joined_at,
    })
}

} // verus!
