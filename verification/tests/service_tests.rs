use shortas::access::{check_certificate_owner, creator_membership};
use shortas::analytics::append_query;
use shortas::click_router::{key_less, url_for_route_id, url_for_route_path};
use shortas::domain_listing::{check_domain_owner, global_dns_config, normalize_domain_name, system_owner};
use shortas::dto::route::{
    branches_from_dtos, branches_from_shorthand, default_dest_format, default_status, default_switch,
    default_terminal, or_opt, ConditionDestinationDto, ConditionalRoutingDto, RoutePropertiesDto,
};
use shortas::dto::workspace::default_role;
use shortas::entities::{
    copy_opt_json, copy_opt_string, copy_opt_strings, copy_strings, format_opt_time, route_status_from_name,
    BlockedReason, DestinationFormat, DomainVerificationStatus, RouteDomain, RouteProperties, RouteStatus,
    RoutingTerminal,
};
use shortas::error::{ApiError, ErrorCode};
use shortas::ext::Timestamp;
use shortas::json::JsonValue;
use shortas::messaging::{verification_target, DomainVerificationMessage};
use shortas::outbox::{
    delivery_record, pow2_i64, route_id_from_payload, shift_secs, DeliveryError, DeliveryRecord, OutboxMessage,
    OutboxStatus,
};
use shortas::requests::message_body;
use shortas::route_service::{creation_messages, require_domain_id, unblocked};
use shortas::rows::{certificate_from_row, domain_from_row, membership_from_row, CertificateRow, DomainRow, MembershipRow};
use shortas::search::{hit_route_ids, total_hits};
use shortas::text::push_decimal;
use shortas::web::{jwks_fresh, rate_limited_body, rejection_body, AuthRejection, HealthStatus};

fn s(x: &str) -> String {
    x.to_string()
}

fn obj(entries: Vec<(&str, JsonValue)>) -> JsonValue {
    JsonValue::Object(entries.into_iter().map(|(k, v)| (k.to_string(), v)).collect())
}

fn text_of(v: &JsonValue) -> Option<&str> {
    match v {
        JsonValue::Str(t) => Some(t.as_str()),
        _ => None,
    }
}

fn entry<'a>(v: &'a JsonValue, key: &str) -> Option<&'a JsonValue> {
    match v {
        JsonValue::Object(es) => es.iter().find(|(k, _)| k == key).map(|(_, x)| x),
        _ => None,
    }
}

fn sample_route(dest: Option<&str>) -> shortas::entities::Route {
    shortas::dto::route::CreateRouteDto {
        switch: s("main"),
        link: Some(s("abc")),
        dest: dest.map(s),
        dest_format: s("Http"),
        code: None,
        ttl: None,
        status: s("Active"),
        terminal: s("External"),
        policy: None,
        properties: None,
        domain_id: Some(s("00000000-0000-0000-0000-000000000009")),
        conditions: None,
    }
    .to_entity("owner-1")
    .unwrap()
}

#[test]
fn creator_becomes_owner() {
    let m = creator_membership(s("u-1"), 42);
    assert_eq!(m.user_id, "u-1");
    assert_eq!(m.workspace_id, 42);
    assert_eq!(m.role, "Owner");
    assert!(m.joined_at.is_some());
    assert!(m.is_owner());
    assert!(m.is_admin());
}

#[test]
fn query_strings() {
    assert_eq!(append_query(s("http://a/x"), &vec![]), "http://a/x");
    assert_eq!(append_query(s("http://a/x"), &vec![(s("k"), s("1"))]), "http://a/x?k=1");
    assert_eq!(
        append_query(s("http://a/x"), &vec![(s("k"), s("1")), (s("from"), s("2024-01-02"))]),
        "http://a/x?k=1&from=2024-01-02"
    );
}

#[test]
fn key_order_and_router_urls() {
    assert!(key_less("a", "b"));
    assert!(key_less("a", "ab"));
    assert!(!key_less("ab", "a"));
    assert!(!key_less("same", "same"));
    assert!(key_less("", "x"));
    assert_eq!(url_for_route_id("http://router", "r-1"), "http://router/v1/routes/r-1");
    assert_eq!(url_for_route_path("http://router", "main", "sho.rt", "abc"), "http://router/v1/routes/main/sho.rt/abc");
}

fn domain_owned_by(owner: &str) -> RouteDomain {
    RouteDomain::new(s("example.com"), s(owner))
}

#[test]
fn domain_owner_and_system_values() {
    let d = domain_owned_by("alice");
    assert!(check_domain_owner(&d, "alice").is_ok());
    let e = check_domain_owner(&d, "bob").unwrap_err();
    assert_eq!(e.code, ErrorCode::Forbidden);
    assert_eq!(system_owner(), "__system__");
    assert_eq!(normalize_domain_name("ShortAs.SPACE"), "shortas.space");
    let g = global_dns_config();
    assert_eq!(entry(&g, "txtRecordName").and_then(text_of), Some("_shortas-domain-challenge"));
    match entry(&g, "allowedIpv4") {
        Some(JsonValue::Array(xs)) => {
            assert_eq!(xs.len(), 1);
            assert_eq!(text_of(&xs[0]), Some("203.0.113.10"));
        }
        _ => panic!("allowedIpv4 is an array"),
    }
    assert!(matches!(entry(&g, "allowedIpv6"), Some(JsonValue::Array(xs)) if xs.is_empty()));
}

#[test]
fn route_defaults_and_or() {
    assert_eq!(default_switch(), "main");
    assert_eq!(default_dest_format(), "Http");
    assert_eq!(default_status(), "Active");
    assert_eq!(default_terminal(), "External");
    assert_eq!(default_role(), "Member");
    assert_eq!(or_opt(Some(1), Some(2)), Some(1));
    assert_eq!(or_opt(None, Some(2)), Some(2));
    assert_eq!(or_opt::<i32>(None, None), None);
}

#[test]
fn property_merge_keeps_identity_fields() {
    let mut existing = RouteProperties::empty();
    existing.owner_id = Some(s("owner"));
    existing.domain_id = Some(s("dom"));
    existing.workspace_id = Some(s("ws-old"));
    existing.tags = Some(vec![s("old")]);
    let dto = RoutePropertiesDto {
        route_id: None,
        domain_id: Some(s("other-dom")),
        owner_id: Some(s("intruder")),
        creator_id: None,
        workspace_id: Some(s("ws-new")),
        scripts: None,
        tags: None,
        custom: None,
        native: None,
        bundling: None,
        qr_settings: None,
        opengraph: true,
        allow_debug: false,
    };
    let merged = dto.merge_with(existing);
    assert_eq!(merged.owner_id, Some(s("owner")));
    assert_eq!(merged.domain_id, Some(s("dom")));
    assert_eq!(merged.workspace_id, Some(s("ws-new")));
    assert_eq!(merged.tags, Some(vec![s("old")]));
    assert!(merged.opengraph);
    assert!(!merged.allow_debug);
}

#[test]
fn branches_are_keyed_by_position() {
    let shorthand = vec![
        ConditionDestinationDto { key: None, condition: JsonValue::Bool(true), dest: s("https://a") },
        ConditionDestinationDto { key: Some(s("mine")), condition: JsonValue::Null, dest: s("https://b") },
    ];
    let bs = branches_from_shorthand(shorthand);
    assert_eq!(bs.len(), 2);
    assert_eq!(bs[0].key, "cond-0");
    assert_eq!(bs[0].dest, Some(s("https://a")));
    assert!(matches!(bs[0].condition, JsonValue::Bool(true)));
    assert_eq!(bs[1].key, "mine");
    let dtos = vec![
        ConditionalRoutingDto { key: None, condition: JsonValue::Null, dest: None },
        ConditionalRoutingDto { key: None, condition: JsonValue::Null, dest: Some(s("https://c")) },
    ];
    let bs = branches_from_dtos(dtos);
    assert_eq!(bs[0].key, "cond-0");
    assert_eq!(bs[0].dest, None);
    assert_eq!(bs[1].key, "cond-1");
    assert_eq!(bs[1].dest, Some(s("https://c")));
}

#[test]
fn copies_and_names() {
    assert_eq!(copy_opt_string(&Some(s("x"))), Some(s("x")));
    assert_eq!(copy_opt_string(&None), None);
    assert_eq!(copy_strings(&vec![s("a"), s("b")]), vec![s("a"), s("b")]);
    assert_eq!(copy_opt_strings(&Some(vec![s("a")])), Some(vec![s("a")]));
    assert_eq!(copy_opt_strings(&None), None);
    assert!(matches!(copy_opt_json(&Some(JsonValue::Number(s("3")))), Some(JsonValue::Number(ref t)) if t == "3"));
    assert!(copy_opt_json(&None).is_none());
    assert_eq!(format_opt_time(None), None);
    assert_eq!(
        format_opt_time(Some(Timestamp { secs: 86_400, nanos: 0 })),
        Some(s("1970-01-02T00:00:00+00:00"))
    );
    assert!(matches!(DestinationFormat::from_name("Http"), DestinationFormat::Http));
    assert!(matches!(RoutingTerminal::from_name("External"), RoutingTerminal::External));
    assert!(matches!(route_status_from_name("Active"), RouteStatus::Active));
    assert!(matches!(route_status_from_name("Blocked"), RouteStatus::Blocked(BlockedReason::Unknown)));
}

#[test]
fn error_constructors() {
    let e = ApiError::validation(s("bad"));
    assert_eq!(e.code, ErrorCode::ValidationError);
    assert_eq!(e.message, "bad");
    assert!(e.details.is_none());
    assert_eq!(e.status_code(), 400);
    let e = ApiError::unauthorized(s("who"));
    assert_eq!(e.code, ErrorCode::Unauthorized);
    assert_eq!(e.status_code(), 401);
    let e = ApiError::conflict(s("taken"));
    assert_eq!(e.code, ErrorCode::Conflict);
    assert_eq!(e.status_code(), 409);
    let e = ApiError::internal(s("boom"));
    assert_eq!(e.code, ErrorCode::InternalError);
    assert_eq!(e.message, "boom");
    assert_eq!(e.status_code(), 500);
}

#[test]
fn verification_message_target() {
    let m = DomainVerificationMessage {
        domain_id: s("00000000-0000-0000-0000-00000000000a"),
        status: s("Verified"),
        reason: s("ok"),
    };
    assert_eq!(verification_target(&m), Some(10));
    let m = DomainVerificationMessage { domain_id: s("nope"), status: s("Verified"), reason: s("ok") };
    assert_eq!(verification_target(&m), None);
}

#[test]
fn outbox_time_arithmetic_and_states() {
    assert_eq!(pow2_i64(0), 1);
    assert_eq!(pow2_i64(10), 1024);
    assert_eq!(pow2_i64(62), 1i64 << 62);
    let t = shift_secs(Timestamp { secs: 100, nanos: 7 }, 60);
    assert_eq!(t, Timestamp { secs: 160, nanos: 7 });
    let mut m = OutboxMessage::index_route(5);
    m.mark_processing();
    assert_eq!(m.status, OutboxStatus::Processing);
    assert!(m.processed_at.is_none());
    m.mark_completed();
    assert_eq!(m.status, OutboxStatus::Completed);
    assert!(m.processed_at.is_some());
    assert_eq!(m.retry_count, 0);
}

#[test]
fn payload_route_ids() {
    let ok = obj(vec![("route_id", JsonValue::Str(s("00000000-0000-0000-0000-000000000001")))]);
    assert_eq!(route_id_from_payload(&ok).unwrap(), 1);
    let missing = obj(vec![("other", JsonValue::Str(s("x")))]);
    assert!(matches!(route_id_from_payload(&missing), Err(DeliveryError::MissingRouteId)));
    let bad = obj(vec![("route_id", JsonValue::Str(s("not-a-uuid")))]);
    assert!(matches!(route_id_from_payload(&bad), Err(DeliveryError::InvalidRouteId(_))));
    assert!(matches!(delivery_record(Ok(())), DeliveryRecord::Completed));
    assert!(matches!(delivery_record(Err(s("down"))), DeliveryRecord::Failed(ref m) if m == "down"));
}

#[test]
fn message_and_rejection_bodies() {
    let b = message_body("done");
    assert_eq!(entry(&b, "message").and_then(text_of), Some("done"));
    let b = rejection_body(AuthRejection::Missing);
    assert_eq!(entry(&b, "code").and_then(text_of), Some("UNAUTHORIZED"));
    assert_eq!(entry(&b, "message").and_then(text_of), Some("Authorization header required"));
    let b = rejection_body(AuthRejection::Malformed);
    assert_eq!(entry(&b, "message").and_then(text_of), Some("Invalid Authorization header format"));
    let b = rejection_body(AuthRejection::Invalid);
    assert_eq!(entry(&b, "message").and_then(text_of), Some("Invalid or expired token"));
    let b = rate_limited_body();
    assert_eq!(entry(&b, "code").and_then(text_of), Some("RATE_LIMIT_EXCEEDED"));
    assert_eq!(entry(&b, "message").and_then(text_of), Some("Too many requests. Please try again later."));
}

#[test]
fn health_and_jwks() {
    let h = HealthStatus::alive("1.2.3");
    assert_eq!(h.status, "ok");
    assert_eq!(h.version, "1.2.3");
    assert!(h.database.is_none());
    let h = HealthStatus::unknown("1.2.3");
    assert_eq!(h.status, "error");
    assert_eq!(h.database, Some(s("unknown")));
    assert_eq!(h.elasticsearch, Some(s("unknown")));
    assert_eq!(h.storage, Some(s("unknown")));
    assert!(jwks_fresh(0, 3_600_000));
    assert!(jwks_fresh(3_600_000, 3_600_000));
    assert!(!jwks_fresh(3_600_001, 3_600_000));
}

#[test]
fn route_service_steps() {
    let r = sample_route(Some("https://dest.example"));
    assert_eq!(require_domain_id(&r).unwrap(), 9);
    let mut no_domain = sample_route(None);
    no_domain.domain_id = None;
    let e = require_domain_id(&no_domain).unwrap_err();
    assert_eq!(e.code, ErrorCode::ValidationError);
    assert_eq!(e.message, "Field 'domain_id' is required");
    let msgs = creation_messages(&r);
    assert_eq!(msgs.len(), 2);
    assert_eq!(msgs[0].message_type, shortas::outbox::OutboxMessageType::IndexRoute);
    assert_eq!(msgs[1].message_type, shortas::outbox::OutboxMessageType::CheckRouteSafety);
    assert_eq!(creation_messages(&no_domain).len(), 1);
    let mut blocked = sample_route(None);
    blocked.status = RouteStatus::Blocked(BlockedReason::Unknown);
    let link = blocked.link.clone();
    let u = unblocked(blocked);
    assert!(matches!(u.status, RouteStatus::Active));
    assert_eq!(u.link, link);
}

#[test]
fn rows_into_entities() {
    let d = domain_from_row(DomainRow {
        id: Ok(3),
        name: Some(s("ex.com")),
        owner_id: None,
        is_shared: None,
        verification_status: None,
        verification_reason: None,
        last_verification_check: None,
        next_verification_check: None,
        custom_index_url: None,
        custom_not_found_url: None,
        created_at: None,
        updated_at: None,
    })
    .unwrap();
    assert_eq!(d.id, 3);
    assert_eq!(d.name, "ex.com");
    assert_eq!(d.owner_id, "");
    assert!(!d.is_shared);
    assert_eq!(d.verification_status, DomainVerificationStatus::Pending);
    assert_eq!(d.verification_reason, "not_checked");
    let e = domain_from_row(DomainRow {
        id: Err(s("bad uuid")),
        name: None,
        owner_id: None,
        is_shared: None,
        verification_status: None,
        verification_reason: None,
        last_verification_check: None,
        next_verification_check: None,
        custom_index_url: None,
        custom_not_found_url: None,
        created_at: None,
        updated_at: None,
    })
    .unwrap_err();
    assert_eq!(e.code, ErrorCode::InternalError);
    assert_eq!(e.message, "bad uuid");
    let c = certificate_from_row(CertificateRow {
        id: Ok(4),
        key: Some(s("K")),
        cert: None,
        ocsp_resp: None,
        owner_id: Some(s("o")),
        domain_id: None,
        expires_at: None,
        created_at: None,
    })
    .unwrap();
    assert_eq!(c.id, 4);
    assert_eq!(c.key, "K");
    assert_eq!(c.cert, "");
    assert_eq!(c.domain_id, 0);
    let m = membership_from_row(MembershipRow {
        id: Ok(5),
        user_id: Some(s("u")),
        workspace_id: Some(6),
        role: Some(s("Admin")),
        joined_at: None,
    })
    .unwrap();
    assert_eq!(m.id, 5);
    assert_eq!(m.workspace_id, 6);
    assert!(m.is_admin());
    assert!(!m.is_owner());
}

#[test]
fn search_answer_reading() {
    let hits = vec![
        obj(vec![("_id", JsonValue::Str(s("00000000-0000-0000-0000-000000000002")))]),
        obj(vec![("_id", JsonValue::Str(s("garbage")))]),
        obj(vec![("_id", JsonValue::Str(s("00000000-0000-0000-0000-000000000003")))]),
    ];
    let resp = obj(vec![(
        "hits",
        obj(vec![
            ("total", obj(vec![("value", JsonValue::Number(s("17")))])),
            ("hits", JsonValue::Array(hits)),
        ]),
    )]);
    assert_eq!(total_hits(&resp), 17);
    assert_eq!(hit_route_ids(&resp), vec![2, 3]);
    assert_eq!(total_hits(&obj(vec![])), 0);
    assert!(hit_route_ids(&JsonValue::Null).is_empty());
    assert!(matches!(resp.get("hits"), Some(JsonValue::Object(_))));
    assert!(resp.get("none").is_none());
}

#[test]
fn decimal_append() {
    let mut t = s("n=");
    push_decimal(&mut t, 0);
    assert_eq!(t, "n=0");
    push_decimal(&mut t, 907);
    assert_eq!(t, "n=0907");
}

#[test]
fn certificate_owner_check() {
    let c = shortas::entities::Certificate::new(s("K"), s("C"), s("alice"), 1);
    assert!(check_certificate_owner(&c, "alice").is_ok());
    let e = check_certificate_owner(&c, "mallory").unwrap_err();
    assert_eq!(e.code, ErrorCode::Forbidden);
    assert_eq!(e.status_code(), 403);
}
