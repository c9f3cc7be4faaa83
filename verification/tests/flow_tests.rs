use shortas::analytics::date_param;
use shortas::dto::route::BulkRoutesDto;
use shortas::ext::Ymd;
use shortas::requests::routes_from_bulk;
use shortas::access::{create_certificate_step, delete_workspace_step, remove_member_step, update_workspace_step, CertificateStep, ChangeStep};
use shortas::domain_listing::seed_plan;
use shortas::dto::certificate::CreateCertificateDto;
use shortas::dto::user::{init_step, InitAction, InitEvent, InitStage};
use shortas::analytics::{
    clickstream_events, clickstream_items, stats_response, ClickStreamItem, ClickStreamResponse, DailyStats,
    DeviceStats, GeographicStats, RouteInfo,
};
use shortas::dto::route::CreateRouteDto;
use shortas::dto::workspace::UpdateWorkspaceDto;
use shortas::entities::{BlockedReason, Route, RouteDomain, RouteStatus, UserWorkspace, Workspace};
use shortas::error::{ApiError, ErrorCode};
use shortas::json::JsonValue;
use shortas::messaging::{
    verdict_on_delivery, verdict_on_route, verdict_on_store, verification_on_delivery, DomainVerificationMessage,
    RouteStatusMessage, Settlement, VerdictAction,
};
use shortas::outbox::{outbox_step, DeliveryStep, OutboxAction, OutboxEvent, OutboxMessageType};
use shortas::route_service::{
    create_step, owned_route, suggest_batch, suggest_domain_gate, suggest_first_length, update_to_store, CreateEvent,
    CreateState, SuggestStep,
};
use shortas::tls::{CryptoCache, Error as TlsError, IoKind, MokaCryptoCache};
use shortas::web::{authenticate_token, check_token, AuthRejection, SigningKey};

fn s(x: &str) -> String {
    x.to_string()
}

const R1: &str = "00000000-0000-0000-0000-000000000001";

fn daily(total: i64) -> DailyStats {
    DailyStats { date: s("2024-01-01"), total_clicks: total, unique_clicks: 1, bot_clicks: 0, human_clicks: total, unique_ips: 1 }
}

fn geo(country: Option<&str>, clicks: i64) -> GeographicStats {
    GeographicStats { continent: None, country: country.map(s), location: None, total_clicks: clicks, unique_clicks: 0, unique_ips: 0 }
}

#[test]
fn stats_answer_policy() {
    let e = stats_response(Err(s("daily down")), Ok(vec![]), Ok(vec![])).unwrap_err();
    assert_eq!(e.code, ErrorCode::ExternalServiceError);
    assert_eq!(e.status_code(), 502);
    assert_eq!(e.message, "daily down");
    let r = stats_response(Ok(vec![daily(3), daily(4)]), Err(s("geo down")), Err(s("devices down"))).unwrap();
    assert_eq!(r.total_clicks, 7);
    assert!(r.top_countries.is_empty());
    assert!(r.top_devices.is_empty());
    assert_eq!(r.click_trends.len(), 2);
    let r = stats_response(
        Ok(vec![daily(1)]),
        Ok(vec![geo(None, 2), geo(Some("NL"), 5)]),
        Ok(vec![DeviceStats { device_family: Some(s("Mac")), os_family: None, total_clicks: 1, unique_clicks: 1 }]),
    )
    .unwrap();
    assert_eq!(r.top_countries[0].country, "NL");
    assert_eq!(r.top_countries[1].country, "Unknown");
    assert_eq!(r.top_devices[0].device, "Mac");
}

fn item(id: &str, route: Option<&str>) -> ClickStreamItem {
    ClickStreamItem {
        id: s(id),
        owner_id: None,
        creator_id: None,
        route_id: route.map(s),
        route_name: None,
        route_domain_name: None,
        workspace_id: None,
        created: s("t"),
        dest: None,
        ip: None,
        continent: None,
        country: None,
        location: None,
        os_family: None,
        os_version: None,
        user_agent_family: None,
        user_agent_version: None,
        device_brand: None,
        device_family: None,
        device_model: None,
        session_first: None,
        session_clicks: None,
        is_unique: None,
        is_bot: None,
    }
}

#[test]
fn clickstream_answer_policy() {
    let e = clickstream_items(Err(s("aggregator down"))).unwrap_err();
    assert_eq!(e.code, ErrorCode::ExternalServiceError);
    assert_eq!(e.message, "aggregator down");
    let items = clickstream_items(Ok(ClickStreamResponse {
        items: vec![item("a", Some(R1)), item("b", None)],
        total: 2,
        offset: 0,
        limit: 10,
        has_more: false,
    }))
    .unwrap();
    assert_eq!(items.len(), 2);
    let infos = vec![RouteInfo { id: 1, link: s("abc"), domain_name: Some(s("sho.rt")) }];
    let events = clickstream_events(items, Ok(infos));
    assert_eq!(events[0].route_name, Some(s("abc")));
    assert_eq!(events[0].route_domain_name, Some(s("sho.rt")));
    assert_eq!(events[1].route_name, None);
    let events = clickstream_events(vec![item("a", Some(R1))], Err(s("db down")));
    assert_eq!(events.len(), 1);
    assert_eq!(events[0].id, "a");
    assert_eq!(events[0].route_name, None);
}

fn member(role: &str) -> Result<Option<UserWorkspace>, ApiError> {
    Ok(Some(UserWorkspace::new(s("u"), 7, s(role))))
}

#[test]
fn workspace_update_steps() {
    let dto = UpdateWorkspaceDto { name: Some(s("New")), description: None };
    let r = update_workspace_step(&member("Member"), None, "ws", &dto);
    assert!(matches!(r, ChangeStep::Refuse(ref e) if e.code == ErrorCode::Forbidden));
    let r = update_workspace_step(&Ok(None), Some(Ok(None)), "ws", &dto);
    assert!(matches!(r, ChangeStep::Refuse(ref e) if e.code == ErrorCode::Forbidden));
    let r = update_workspace_step(&Err(ApiError::internal(s("db"))), None, "ws", &dto);
    assert!(matches!(r, ChangeStep::Refuse(ref e) if e.code == ErrorCode::Forbidden));
    assert!(matches!(update_workspace_step(&member("Admin"), None, "ws", &dto), ChangeStep::Fetch));
    let r = update_workspace_step(&member("Admin"), Some(Ok(None)), "ws", &dto);
    assert!(matches!(r, ChangeStep::Refuse(ref e) if e.code == ErrorCode::NotFound && e.message == "Workspace with id 'ws' not found"));
    let r = update_workspace_step(&member("Admin"), Some(Err(ApiError::internal(s("db")))), "ws", &dto);
    assert!(matches!(r, ChangeStep::Refuse(ref e) if e.code == ErrorCode::InternalError));
    let sys = Workspace::new(s("Shared"), s("System"));
    let r = update_workspace_step(&member("Owner"), Some(Ok(Some(sys))), "ws", &dto);
    assert!(matches!(r, ChangeStep::Refuse(ref e) if e.message == "Cannot update system workspace"));
    let mut w = Workspace::new(s("Old"), s("Personal"));
    w.description = s("keep");
    match update_workspace_step(&member("Admin"), Some(Ok(Some(w))), "ws", &dto) {
        ChangeStep::Proceed(u) => {
            assert_eq!(u.name, "New");
            assert_eq!(u.description, "keep");
        }
        other => panic!("unexpected {:?}", other),
    }
}

#[test]
fn workspace_delete_and_removal_steps() {
    let r = delete_workspace_step(&member("Admin"), None, "ws");
    assert!(matches!(r, ChangeStep::Refuse(ref e) if e.code == ErrorCode::Forbidden));
    assert!(matches!(delete_workspace_step(&member("Owner"), None, "ws"), ChangeStep::Fetch));
    let sys = Workspace::new(s("Shared"), s("System"));
    let r = delete_workspace_step(&member("Owner"), Some(Ok(Some(sys))), "ws");
    assert!(matches!(r, ChangeStep::Refuse(ref e) if e.message == "Cannot delete system workspace"));
    let w = Workspace::new(s("Mine"), s("Personal"));
    let id = w.id;
    assert!(matches!(delete_workspace_step(&member("Owner"), Some(Ok(Some(w))), "ws"), ChangeStep::Proceed(x) if x == id));

    assert!(matches!(remove_member_step(&member("Member"), None), ChangeStep::Refuse(ref e) if e.code == ErrorCode::Forbidden));
    assert!(matches!(remove_member_step(&member("Admin"), None), ChangeStep::Fetch));
    let r = remove_member_step(&member("Admin"), Some(member("Owner")));
    assert!(matches!(r, ChangeStep::Refuse(ref e) if e.message == "Cannot remove workspace owner"));
    assert!(matches!(remove_member_step(&member("Admin"), Some(member("Member"))), ChangeStep::Proceed(())));
    assert!(matches!(remove_member_step(&member("Admin"), Some(Ok(None))), ChangeStep::Proceed(())));
    assert!(matches!(remove_member_step(&member("Admin"), Some(Err(ApiError::internal(s("db"))))), ChangeStep::Proceed(())));
}

fn route_for(owner: &str, link: Option<&str>) -> Route {
    CreateRouteDto {
        switch: s("main"),
        link: link.map(s),
        dest: None,
        dest_format: s("Http"),
        code: None,
        ttl: None,
        status: s("Active"),
        terminal: s("External"),
        policy: None,
        properties: None,
        domain_id: Some(s("00000000-0000-0000-0000-000000000009")),
        conditions: None,
    }
    .to_entity(owner)
    .unwrap()
}

#[test]
fn route_lookup_and_update() {
    let e = owned_route(Ok(None), 1, "alice").unwrap_err();
    assert_eq!(e.code, ErrorCode::NotFound);
    assert_eq!(e.message, format!("Route with id '{}' not found", R1));
    let e = owned_route(Err(ApiError::internal(s("db"))), 1, "alice").unwrap_err();
    assert_eq!(e.code, ErrorCode::InternalError);
    let e = owned_route(Ok(Some(route_for("bob", Some("x")))), 1, "alice").unwrap_err();
    assert_eq!(e.code, ErrorCode::Forbidden);
    assert!(owned_route(Ok(Some(route_for("alice", Some("x")))), 1, "alice").is_ok());

    let existing = route_for("alice", Some("keep"));
    let mut updated = route_for("mallory", Some("changed"));
    updated.dest = Some(s("https://new"));
    let stored = update_to_store(Ok(Some(existing)), 1, updated, "alice").unwrap();
    assert_eq!(stored.link, "keep");
    assert_eq!(stored.properties.owner_id, Some(s("alice")));
    assert_eq!(stored.dest, Some(s("https://new")));
    let e = update_to_store(Ok(Some(route_for("bob", Some("k")))), 1, route_for("bob", Some("k")), "alice").unwrap_err();
    assert_eq!(e.code, ErrorCode::Forbidden);
}

#[test]
fn route_creation_steps() {
    let mut no_domain = route_for("alice", Some("x"));
    no_domain.domain_id = None;
    assert!(matches!(create_step(CreateState::Start(no_domain), CreateEvent::Go, "alice"),
        CreateState::Refused(ref e) if e.code == ErrorCode::ValidationError));

    let state = create_step(CreateState::Start(route_for("alice", None)), CreateEvent::Go, "alice");
    assert!(matches!(state, CreateState::AwaitDomain(_, 9)));
    let refused = create_step(state, CreateEvent::Domain(Ok(None)), "alice");
    assert!(matches!(refused, CreateState::Refused(ref e) if e.code == ErrorCode::NotFound));

    let state = CreateState::AwaitDomain(route_for("alice", None), 9);
    let foreign = RouteDomain::new(s("x.com"), s("bob"));
    assert!(matches!(create_step(state, CreateEvent::Domain(Ok(Some(foreign))), "alice"),
        CreateState::Refused(ref e) if e.code == ErrorCode::Forbidden));

    let state = CreateState::AwaitDomain(route_for("alice", None), 9);
    let own = RouteDomain::new(s("x.com"), s("alice"));
    let state = create_step(state, CreateEvent::Domain(Ok(Some(own))), "alice");
    assert!(matches!(state, CreateState::AwaitSuggestion(_, 9)));
    let state = create_step(state, CreateEvent::Suggested(Ok(s("k3y"))), "alice");
    assert!(matches!(state, CreateState::AwaitLinkCheck(ref r, 9) if r.link == "k3y"));
    let taken = create_step(CreateState::AwaitLinkCheck(route_for("alice", Some("k3y")), 9), CreateEvent::LinkTaken(Ok(true)), "alice");
    assert!(matches!(taken, CreateState::Refused(ref e) if e.code == ErrorCode::Conflict && e.message == "Link 'k3y' already exists in this domain"));
    match create_step(state, CreateEvent::LinkTaken(Ok(false)), "alice") {
        CreateState::Store(r) => {
            assert_eq!(r.link, "k3y");
            assert_eq!(r.properties.route_id, Some(uuid::Uuid::from_u128(r.id).to_string()));
        }
        other => panic!("unexpected {:?}", other),
    }
    // an event that does not belong to the state changes nothing
    let state = create_step(CreateState::Start(route_for("alice", Some("x"))), CreateEvent::LinkTaken(Ok(false)), "alice");
    assert!(matches!(state, CreateState::Start(_)));
}

#[test]
fn link_suggestion_steps() {
    let e = suggest_domain_gate(Ok(None), 9).unwrap_err();
    assert_eq!(e.code, ErrorCode::NotFound);
    assert!(suggest_domain_gate(Ok(Some(RouteDomain::new(s("x"), s("o")))), 9).is_ok());
    assert_eq!(suggest_first_length(Ok(0)).unwrap(), 3);
    assert_eq!(suggest_first_length(Err(ApiError::internal(s("db")))).unwrap_err().code, ErrorCode::InternalError);
    let r = suggest_batch(0, 3, vec![s("aaa")], Err(ApiError::internal(s("db"))));
    assert!(matches!(r, SuggestStep::GiveUp(ref e) if e.code == ErrorCode::InternalError && e.message == "db"));
    assert!(matches!(suggest_batch(0, 3, vec![s("aaa")], Ok(vec![s("aaa")])), SuggestStep::Retry(4)));
    assert!(matches!(suggest_batch(2, 3, vec![s("aaa")], Ok(vec![s("aaa")])), SuggestStep::GiveUp(_)));
    assert!(matches!(suggest_batch(2, 3, vec![s("aaa"), s("bbb")], Ok(vec![s("aaa")])), SuggestStep::Found(ref c) if c == "bbb"));
}

#[test]
fn route_status_consumer_steps() {
    assert!(matches!(verdict_on_delivery(&None), VerdictAction::Settle(Settlement::Reject)));
    let msg = RouteStatusMessage { route_id: s(R1), status: s("Blocked"), reason: None };
    assert!(matches!(verdict_on_delivery(&Some(msg)), VerdictAction::FetchRoute(1)));
    let msg = RouteStatusMessage { route_id: s("junk"), status: s("Blocked"), reason: None };
    assert!(matches!(verdict_on_delivery(&Some(msg)), VerdictAction::Settle(Settlement::Ack)));

    let msg = RouteStatusMessage { route_id: s(R1), status: s("Blocked"), reason: None };
    let route = route_for("alice", Some("x"));
    let link = route.link.clone();
    match verdict_on_route(msg, Ok(Some(route))) {
        VerdictAction::Store(r) => {
            assert!(matches!(r.status, RouteStatus::Blocked(BlockedReason::Reasoned(ref w)) if w == "Safe Browsing"));
            assert_eq!(r.link, link);
        }
        other => panic!("unexpected {:?}", other),
    }
    let msg = RouteStatusMessage { route_id: s(R1), status: s("Blocked"), reason: Some(s("malware")) };
    assert!(matches!(verdict_on_route(msg, Ok(None)), VerdictAction::Settle(Settlement::Ack)));
    let msg = RouteStatusMessage { route_id: s(R1), status: s("Safe"), reason: None };
    assert!(matches!(verdict_on_route(msg, Ok(Some(route_for("a", Some("x"))))), VerdictAction::Settle(Settlement::Ack)));
    assert_eq!(verdict_on_store(&Ok(())), Settlement::Ack);
    assert_eq!(verdict_on_store(&Err(ApiError::internal(s("db")))), Settlement::Requeue);

    assert_eq!(verification_on_delivery(&None), Some(Settlement::Reject));
    let m = DomainVerificationMessage { domain_id: s(R1), status: s("Verified"), reason: s("ok") };
    assert_eq!(verification_on_delivery(&Some(m)), None);
    let m = DomainVerificationMessage { domain_id: s("x"), status: s("Verified"), reason: s("ok") };
    assert_eq!(verification_on_delivery(&Some(m)), Some(Settlement::Ack));
}

#[test]
fn outbox_loop_steps() {
    let payload = JsonValue::Object(vec![(s("route_id"), JsonValue::Str(s(R1)))]);
    let t = OutboxMessageType::IndexRoute;
    assert!(matches!(outbox_step(5, t, &payload, OutboxEvent::Begin), OutboxAction::MarkProcessing(5)));
    assert!(matches!(outbox_step(5, t, &payload, OutboxEvent::Marked(Err(s("db")))), OutboxAction::Skip));
    assert!(matches!(outbox_step(5, t, &payload, OutboxEvent::Marked(Ok(()))), OutboxAction::Deliver(DeliveryStep::IndexRoute(1))));
    assert!(matches!(outbox_step(5, t, &payload, OutboxEvent::Delivered(Ok(()))), OutboxAction::MarkCompleted(5)));
    assert!(matches!(outbox_step(5, t, &payload, OutboxEvent::Delivered(Err(s("es down")))), OutboxAction::MarkFailed(5, ref m) if m == "es down"));
    let empty = JsonValue::Object(vec![]);
    assert!(matches!(outbox_step(5, t, &empty, OutboxEvent::Marked(Ok(()))), OutboxAction::MarkFailed(5, ref m) if m == "Missing route_id"));
    assert!(matches!(outbox_step(5, OutboxMessageType::VerifyDomain, &empty, OutboxEvent::Marked(Ok(()))), OutboxAction::MarkCompleted(5)));
}

#[test]
fn cache_miss_is_not_found() {
    let c = MokaCryptoCache::new();
    match c.get_certificate("example.com") {
        Err(TlsError::Io(kind, m)) => {
            assert_eq!(kind, IoKind::NotFound);
            assert_eq!(m, "Certificate not found");
        }
        _ => panic!("expected a not-found miss"),
    }
    assert_eq!(ApiError::internal(s("shown")).text(), "shown");
}

const SECRET_B64: &str = "c2hvcnRhcy10ZXN0LXNlY3JldA";

fn signed_token(kid: &str, iss: &str, aud: &str) -> String {
    let exp = std::time::SystemTime::now().duration_since(std::time::UNIX_EPOCH).unwrap().as_secs() + 3600;
    let claims: serde_json::Value =
        serde_json::from_str(&format!(r#"{{"sub":"u-1","iss":"{}","aud":"{}","exp":{}}}"#, iss, aud, exp)).unwrap();
    let mut header = jsonwebtoken::Header::new(jsonwebtoken::Algorithm::HS256);
    header.kid = Some(kid.to_string());
    jsonwebtoken::encode(&header, &claims, &jsonwebtoken::EncodingKey::from_secret(b"shortas-test-secret")).unwrap()
}

fn keys() -> Vec<SigningKey> {
    vec![SigningKey {
        kid: Some(s("k1")),
        jwk_json: format!(r#"{{"kty":"oct","k":"{}","kid":"k1","alg":"HS256"}}"#, SECRET_B64),
    }]
}

#[test]
fn token_checks() {
    let good = signed_token("k1", "https://id", "shortas");
    assert!(check_token(&good, &keys(), "https://id", "shortas").is_ok());
    assert_eq!(check_token(&good, &keys(), "https://other", "shortas"), Err(AuthRejection::Invalid));
    assert_eq!(check_token(&good, &keys(), "https://id", "elsewhere"), Err(AuthRejection::Invalid));
    let unknown_key = signed_token("k9", "https://id", "shortas");
    assert_eq!(check_token(&unknown_key, &keys(), "https://id", "shortas"), Err(AuthRejection::Invalid));
    assert_eq!(check_token("not.a.token", &keys(), "https://id", "shortas"), Err(AuthRejection::Invalid));

    let header = format!("Bearer {}", good);
    assert_eq!(authenticate_token(Some(&header), &keys(), "https://id", "shortas"), Ok(good.clone()));
    assert_eq!(authenticate_token(None, &keys(), "https://id", "shortas"), Err(AuthRejection::Missing));
    assert_eq!(authenticate_token(Some("Basic abc"), &keys(), "https://id", "shortas"), Err(AuthRejection::Malformed));
}

#[test]
fn initialization_steps() {
    let e = init_step(InitStage::Start, InitEvent::Listed(Err(ApiError::internal(s("db")))), None);
    assert!(matches!(e, InitAction::Fail(ref e) if e.code == ErrorCode::InternalError));
    assert!(matches!(init_step(InitStage::Start, InitEvent::Listed(Ok(vec![])), None), InitAction::CreateSystemWorkspace));
    let first = Workspace::new(s("First"), s("Personal"));
    let first_id = first.id;
    let second = Workspace::new(s("Second"), s("Personal"));
    match init_step(InitStage::Start, InitEvent::Listed(Ok(vec![first, second])), None) {
        InitAction::FetchMembership(w) => assert_eq!(w.id, first_id),
        other => panic!("unexpected {:?}", other),
    }
    let created = Workspace::new(s("Mine"), s("System"));
    let created_id = created.id;
    let w = match init_step(InitStage::Start, InitEvent::Created(Ok(created)), None) {
        InitAction::FetchMembership(w) => w,
        other => panic!("unexpected {:?}", other),
    };
    assert_eq!(w.id, created_id);
    let membership = Ok(Some(UserWorkspace::new(s("u"), created_id, s("Owner"))));
    match init_step(InitStage::Chosen(w), InitEvent::Membership(membership), Some(s("u@x.org"))) {
        InitAction::Respond(resp) => {
            let ws = resp.workspace.unwrap();
            assert_eq!(ws.name, "Mine");
            assert_eq!(ws.workspace_type, "System");
            assert_eq!(ws.user_role, Some(s("Owner")));
            assert!(ws.description.is_none());
            let u = resp.user_settings.unwrap();
            assert_eq!(u.email, Some(s("u@x.org")));
            assert_eq!(u.status, "Active");
            assert!(!u.debug && !u.overflow);
            assert_eq!(resp.message, "User initialization completed successfully");
        }
        other => panic!("unexpected {:?}", other),
    }
    let w = Workspace::new(s("Other"), s("Personal"));
    match init_step(InitStage::Chosen(w), InitEvent::Membership(Err(ApiError::internal(s("db")))), None) {
        InitAction::Respond(resp) => assert_eq!(resp.workspace.unwrap().user_role, None),
        other => panic!("unexpected {:?}", other),
    }
}

fn cert_request(domain_id: &str) -> CreateCertificateDto {
    CreateCertificateDto { domain_id: s(domain_id), key: s("K"), cert: s("C"), ocsp_resp: Some(s("O")) }
}

#[test]
fn certificate_creation_steps() {
    let r = create_certificate_step(&cert_request("nope"), "alice", None);
    assert!(matches!(r, CertificateStep::Refuse(ref e) if e.code == ErrorCode::ValidationError && e.message == "Invalid domain_id"));
    // the id is refused before any lookup answer counts
    let r = create_certificate_step(&cert_request("nope"), "alice", Some(Ok(None)));
    assert!(matches!(r, CertificateStep::Refuse(ref e) if e.code == ErrorCode::ValidationError));
    assert!(matches!(create_certificate_step(&cert_request(R1), "alice", None), CertificateStep::FetchDomain(1)));
    let r = create_certificate_step(&cert_request(R1), "alice", Some(Ok(None)));
    assert!(matches!(r, CertificateStep::Refuse(ref e) if e.code == ErrorCode::NotFound && e.message == format!("Domain with id '{}' not found", R1)));
    let r = create_certificate_step(&cert_request(R1), "alice", Some(Ok(Some(RouteDomain::new(s("x"), s("bob"))))));
    assert!(matches!(r, CertificateStep::Refuse(ref e) if e.code == ErrorCode::Forbidden));
    match create_certificate_step(&cert_request(R1), "alice", Some(Ok(Some(RouteDomain::new(s("x"), s("alice")))))) {
        CertificateStep::Store(c) => {
            assert_eq!(c.domain_id, 1);
            assert_eq!(c.owner_id, "alice");
            assert_eq!(c.key, "K");
            assert_eq!(c.ocsp_resp, Some(s("O")));
        }
        other => panic!("unexpected {:?}", other),
    }
}

#[test]
fn seeding_is_idempotent() {
    let names = vec![s("Shortas.SPACE"), s("go.link"), s("GO.link")];
    let first = seed_plan(&vec![s("example.com")], &names);
    assert_eq!(first, vec![s("shortas.space"), s("go.link")]);
    let mut table = vec![s("example.com")];
    table.extend(first);
    assert!(seed_plan(&table, &names).is_empty());
    assert!(seed_plan(&table, &vec![]).is_empty());
}

#[test]
fn failed_validation_after_the_prefix_is_invalid() {
    let header = format!("Bearer {}", signed_token("k9", "https://id", "shortas"));
    assert_eq!(authenticate_token(Some(&header), &keys(), "https://id", "shortas"), Err(AuthRejection::Invalid));
    assert_eq!(authenticate_token(Some("Bearer garbage"), &keys(), "https://id", "shortas"), Err(AuthRejection::Invalid));
}

fn signed_claims(kid: &str, claims_json: &str) -> String {
    let claims: serde_json::Value = serde_json::from_str(claims_json).unwrap();
    let mut header = jsonwebtoken::Header::new(jsonwebtoken::Algorithm::HS256);
    header.kid = Some(kid.to_string());
    jsonwebtoken::encode(&header, &claims, &jsonwebtoken::EncodingKey::from_secret(b"shortas-test-secret")).unwrap()
}

#[test]
fn absent_issuer_and_audience_are_not_checked() {
    let exp = std::time::SystemTime::now().duration_since(std::time::UNIX_EPOCH).unwrap().as_secs() + 3600;
    let bare = signed_claims("k1", &format!(r#"{{"sub":"u-1","exp":{}}}"#, exp));
    assert!(check_token(&bare, &keys(), "https://id", "shortas").is_ok());
    let listed = signed_claims("k1", &format!(r#"{{"sub":"u-1","iss":"https://id","aud":["x","shortas"],"exp":{}}}"#, exp));
    assert!(check_token(&listed, &keys(), "https://id", "shortas").is_ok());
    let other = signed_claims("k1", &format!(r#"{{"sub":"u-1","iss":"https://id","aud":["x"],"exp":{}}}"#, exp));
    assert_eq!(check_token(&other, &keys(), "https://id", "shortas"), Err(AuthRejection::Invalid));
    let expired = signed_claims("k1", r#"{"sub":"u-1","iss":"https://id","aud":"shortas","exp":1}"#);
    assert_eq!(check_token(&expired, &keys(), "https://id", "shortas"), Err(AuthRejection::Invalid));
}

#[test]
fn calendar_dates_as_text() {
    let d = |year: i32, month: u32, day: u32| date_param(Some(Ymd { year, month, day }));
    assert_eq!(d(2024, 2, 29), Some(s("2024-02-29")));
    assert_eq!(d(2023, 2, 29), None);
    assert_eq!(d(2000, 2, 29), Some(s("2000-02-29")));
    assert_eq!(d(1900, 2, 29), None);
    assert_eq!(d(2024, 4, 31), None);
    assert_eq!(d(2024, 13, 1), None);
    assert_eq!(d(2024, 0, 1), None);
    assert_eq!(d(2024, 1, 0), None);
    assert_eq!(d(5, 7, 3), Some(s("0005-07-03")));
    assert_eq!(d(10000, 1, 1), Some(s("+10000-01-01")));
    assert_eq!(d(-1, 12, 31), Some(s("-0001-12-31")));
    assert_eq!(d(262142, 12, 31), Some(s("+262142-12-31")));
    assert_eq!(d(262143, 1, 1), None);
    assert_eq!(d(-262143, 1, 1), Some(s("-262143-01-01")));
    assert_eq!(d(-262144, 12, 31), None);
    assert_eq!(date_param(None), None);
}

#[test]
fn bulk_routes_keep_each_request() {
    let mut a = CreateRouteDto {
        switch: s("main"),
        link: Some(s("first")),
        dest: Some(s("https://a")),
        dest_format: s("Http"),
        code: Some(301),
        ttl: None,
        status: s("Active"),
        terminal: s("External"),
        policy: None,
        properties: None,
        domain_id: Some(s("00000000-0000-0000-0000-000000000009")),
        conditions: None,
    };
    let b = CreateRouteDto {
        switch: s("main"),
        link: None,
        dest: None,
        dest_format: s("Http"),
        code: None,
        ttl: None,
        status: s("Active"),
        terminal: s("External"),
        policy: None,
        properties: None,
        domain_id: Some(s("00000000-0000-0000-0000-000000000009")),
        conditions: None,
    };
    a.status = s("Blocked");
    let v = routes_from_bulk(BulkRoutesDto { routes: vec![a, b] }, "alice").unwrap();
    assert_eq!(v[0].link, "first");
    assert_eq!(v[0].dest, Some(s("https://a")));
    assert_eq!(v[0].code, Some(301));
    assert!(matches!(v[0].status, RouteStatus::Blocked(_)));
    assert_eq!(v[1].link, "");
    assert_eq!(v[1].dest, None);
    assert_eq!(v[1].properties.creator_id, Some(s("alice")));
}
