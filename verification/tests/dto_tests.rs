use shortas::access::{check_not_system, check_removable, parse_workspace_id, require_admin, require_owner, WorkspaceChange};
use shortas::domain_listing::{filter_domains, list_domains_page, dns_config_for, seed_action, SeedAction};
use shortas::dto::certificate::{CertificateDto, CreateCertificateDto, UpdateCertificateDto};
use shortas::dto::domain::{CreateDomainDto, DomainDto, UpdateDomainDto, VerifyDomainDto};
use shortas::dto::route::{
    ConditionDestinationDto, ConditionalRoutingDto, CreateRouteDto, PaginatedRoutesDto, RouteDto,
    RoutePropertiesDto, RoutingPolicyDto, UpdateRouteDto,
};
use shortas::dto::user::{InitializationStatusResponse, OnboardingDto, UserProfileDto, onboarding_after_step};
use shortas::dto::workspace::{CreateWorkspaceDto, UpdateWorkspaceDto, WorkspaceDto, WorkspaceMemberDto};
use shortas::entities::{
    BlockedReason, Certificate, ConditionalRouting, DestinationFormat, DomainVerificationStatus,
    RouteDomain, RouteProperties, RouteStatus, RoutingPolicy, RoutingTerminal, UserWorkspace, Workspace,
};
use shortas::error::ErrorCode;
use shortas::ext::Timestamp;
use shortas::json::JsonValue;
use shortas::pagination::{page_of, total_pages_for, PaginatedResult};
use shortas::user::{UserOnboarding, UserProfile};

const DOMAIN: &str = "0f0e0d0c-0b0a-4908-8706-050403020100";

fn create_dto(domain_id: Option<&str>) -> CreateRouteDto {
    CreateRouteDto {
        switch: "main".to_string(),
        link: None,
        dest: Some("https://example.com".to_string()),
        dest_format: "Native".to_string(),
        code: Some(302),
        ttl: None,
        status: "Blocked".to_string(),
        terminal: "Middleware".to_string(),
        policy: None,
        properties: None,
        domain_id: domain_id.map(|s| s.to_string()),
        conditions: None,
    }
}

#[test]
fn create_route_needs_a_valid_domain() {
    assert_eq!(create_dto(None).to_entity("u").unwrap_err(), "domain_id is required");
    assert_eq!(create_dto(Some("not-a-uuid")).to_entity("u").unwrap_err(), "Invalid domain_id");
}

#[test]
fn create_route_reads_names_and_stamps_the_user() {
    let route = create_dto(Some(DOMAIN)).to_entity("user-1").unwrap();
    assert_eq!(route.link, "");
    assert_eq!(route.dest_format, DestinationFormat::Native);
    assert_eq!(route.terminal, RoutingTerminal::Middleware);
    assert!(matches!(route.status, RouteStatus::Blocked(BlockedReason::Unknown)));
    assert!(matches!(route.policy, RoutingPolicy::Basic));
    assert_eq!(route.properties.owner_id, Some("user-1".to_string()));
    assert_eq!(route.properties.creator_id, Some("user-1".to_string()));
    assert_eq!(route.properties.domain_id, Some(DOMAIN.to_string()));
    assert_eq!(route.domain_id, Some(uuid::Uuid::parse_str(DOMAIN).unwrap().as_u128()));
}

#[test]
fn shorthand_conditions_are_keyed_by_position() {
    let mut dto = create_dto(Some(DOMAIN));
    dto.conditions = Some(vec![
        ConditionDestinationDto { key: None, condition: JsonValue::Null, dest: "a".to_string() },
        ConditionDestinationDto { key: Some("mine".to_string()), condition: JsonValue::Bool(true), dest: "b".to_string() },
        ConditionDestinationDto { key: None, condition: JsonValue::Null, dest: "c".to_string() },
    ]);
    dto.policy = Some(RoutingPolicyDto::Mirroring);
    let route = dto.to_entity("u").unwrap();
    match route.policy {
        RoutingPolicy::Conditional { conditions } => {
            let keys: Vec<&str> = conditions.iter().map(|c| c.key.as_str()).collect();
            assert_eq!(keys, vec!["cond-0", "mine", "cond-2"]);
            assert_eq!(conditions[1].dest, Some("b".to_string()));
        }
        _ => panic!("expected a conditional policy"),
    }
}

#[test]
fn unknown_names_fall_back() {
    let mut dto = create_dto(Some(DOMAIN));
    dto.dest_format = "ftp".to_string();
    dto.terminal = "nowhere".to_string();
    dto.status = "Paused".to_string();
    let route = dto.to_entity("u").unwrap();
    assert_eq!(route.dest_format, DestinationFormat::Http);
    assert_eq!(route.terminal, RoutingTerminal::External);
    assert!(matches!(route.status, RouteStatus::Active));
}

fn sample_route() -> shortas::entities::Route {
    create_dto(Some(DOMAIN)).to_entity("owner").unwrap()
}

#[test]
fn route_dto_shows_names() {
    let mut route = sample_route();
    route.policy = RoutingPolicy::Unknown;
    let id = route.id;
    let dto = RouteDto::from_entity(route, None);
    assert_eq!(dto.id, uuid::Uuid::from_u128(id).to_string());
    assert_eq!(dto.dest_format, "Native");
    assert_eq!(dto.terminal, "Middleware");
    assert_eq!(dto.status, "Blocked");
    assert!(matches!(dto.policy, Some(RoutingPolicyDto::Basic)));
    assert_eq!(dto.domain_id, Some(DOMAIN.to_string()));
    assert!(dto.domain.is_none());
}

#[test]
fn update_route_keeps_identity_and_merges_properties() {
    let route = sample_route();
    let id = route.id;
    let update = UpdateRouteDto {
        dest: Some("https://new".to_string()),
        dest_format: None,
        code: None,
        ttl: Some(60),
        status: Some("Active".to_string()),
        terminal: None,
        policy: Some(RoutingPolicyDto::Mirroring),
        properties: Some(RoutePropertiesDto {
            route_id: None,
            domain_id: Some("other".to_string()),
            owner_id: Some("thief".to_string()),
            creator_id: None,
            workspace_id: Some("ws".to_string()),
            scripts: None,
            tags: Some(vec!["t".to_string()]),
            custom: None,
            native: None,
            bundling: None,
            qr_settings: None,
            opengraph: true,
            allow_debug: false,
        }),
        conditions: None,
    };
    let r = update.apply_to(route);
    assert_eq!(r.id, id);
    assert_eq!(r.dest, Some("https://new".to_string()));
    assert_eq!(r.code, Some(302));
    assert_eq!(r.ttl, Some(60));
    assert!(matches!(r.status, RouteStatus::Active));
    assert!(matches!(r.policy, RoutingPolicy::Mirroring));
    assert_eq!(r.properties.owner_id, Some("owner".to_string()));
    assert_eq!(r.properties.domain_id, Some(DOMAIN.to_string()));
    assert_eq!(r.properties.workspace_id, Some("ws".to_string()));
    assert_eq!(r.properties.tags, Some(vec!["t".to_string()]));
    assert!(r.properties.opengraph);
}

#[test]
fn policy_round_trip_keeps_branches() {
    let policy = RoutingPolicy::Conditional {
        conditions: vec![ConditionalRouting { key: "k1".to_string(), condition: JsonValue::Null, dest: Some("d".to_string()) }],
    };
    let dto = RoutingPolicyDto::from_entity(&policy);
    match dto.to_entity() {
        RoutingPolicy::Conditional { conditions } => {
            assert_eq!(conditions.len(), 1);
            assert_eq!(conditions[0].key, "k1");
            assert_eq!(conditions[0].dest, Some("d".to_string()));
        }
        _ => panic!("kind changed"),
    }
    let c = ConditionalRoutingDto { key: None, condition: JsonValue::Null, dest: None }.to_entity(12);
    assert_eq!(c.key, "cond-12");
}

#[test]
fn paginated_routes_count_pages() {
    let p = PaginatedRoutesDto::new(vec![], 2, 20, 41);
    assert_eq!(p.pagination.total_pages, 3);
    assert_eq!(PaginatedRoutesDto::new(vec![], 1, 20, 40).pagination.total_pages, 2);
    assert_eq!(PaginatedRoutesDto::new(vec![], 1, 20, 0).pagination.total_pages, 0);
}

#[test]
fn total_pages_edge_cases() {
    assert_eq!(total_pages_for(1, 1), 1);
    assert_eq!(total_pages_for(5, 0), i32::MAX);
    assert_eq!(total_pages_for(0, 0), 0);
    assert_eq!(total_pages_for(-5, 0), i32::MIN);
    assert_eq!(total_pages_for(-5, 2), -2);
    assert_eq!(total_pages_for(5, -2), -2);
    assert_eq!(total_pages_for(-5, -2), 3);
    assert_eq!(total_pages_for(i64::MAX, 1), i32::MAX);
    let r = PaginatedResult::new(vec![1, 2, 3], 7, 1, 3);
    assert_eq!(r.total_pages(), 3);
    // the same as the floating-point formula on ordinary counts
    for total in 0i64..200 {
        for size in 1i32..30 {
            assert_eq!(total_pages_for(total, size), ((total as f64) / (size as f64)).ceil() as i32);
        }
    }
}

#[test]
fn page_windows() {
    let v: Vec<i32> = (1..=10).collect();
    assert_eq!(page_of(v.clone(), 1, 3), vec![1, 2, 3]);
    assert_eq!(page_of(v.clone(), 4, 3), vec![10]);
    assert_eq!(page_of(v.clone(), 5, 3), Vec::<i32>::new());
    assert_eq!(page_of(v.clone(), 0, 3), Vec::<i32>::new());
    assert_eq!(page_of(v.clone(), 2, -1), Vec::<i32>::new());
    assert_eq!(page_of(v.clone(), 1, -1), v.clone());
}

fn domain(name: &str, owner: &str) -> RouteDomain {
    RouteDomain::new(name.to_string(), owner.to_string())
}

#[test]
fn domain_search_ignores_case() {
    let ds = vec![domain("Alpha.COM", "u"), domain("beta.io", "u"), domain("ALPHA.net", "u")];
    let kept = filter_domains(ds, &Some("alpha".to_string()));
    let names: Vec<String> = kept.into_iter().map(|d| d.name).collect();
    assert_eq!(names, vec!["Alpha.COM".to_string(), "ALPHA.net".to_string()]);
    let all = filter_domains(vec![domain("a", "u")], &None);
    assert_eq!(all.len(), 1);
}

#[test]
fn domain_listing_pages() {
    let ds: Vec<RouteDomain> = (0..5).map(|i| domain(&format!("d{}.com", i), "u")).collect();
    let page = list_domains_page(ds, &Some("D".to_string()), 2, 2);
    assert_eq!(page.pagination.total_count, 5);
    assert_eq!(page.pagination.total_pages, 3);
    let names: Vec<String> = page.data.into_iter().map(|d| d.name).collect();
    assert_eq!(names, vec!["d2.com".to_string(), "d3.com".to_string()]);
}

#[test]
fn domain_dto_and_updates() {
    let d = CreateDomainDto {
        name: "x.com".to_string(),
        is_shared: true,
        custom_index_url: Some("i".to_string()),
        custom_not_found_url: None,
    }
    .to_entity("owner");
    assert_eq!(d.owner_id, "owner");
    assert_eq!(d.verification_status, DomainVerificationStatus::Pending);
    assert_eq!(d.verification_reason, "not_checked");
    let d = UpdateDomainDto { is_shared: Some(false), custom_index_url: None, custom_not_found_url: Some("nf".to_string()) }.apply_to(d);
    assert!(!d.is_shared);
    assert_eq!(d.custom_index_url, Some("i".to_string()));
    assert_eq!(d.custom_not_found_url, Some("nf".to_string()));
    let mut d = d;
    d.id = 1;
    d.created_at = Some(Timestamp { secs: 0, nanos: 0 });
    d.last_verification_check = None;
    let dto = DomainDto::from_entity(d);
    assert_eq!(dto.id, "00000000-0000-0000-0000-000000000001");
    assert_eq!(dto.verification_status, "Pending");
    assert_eq!(dto.created_at, Some("1970-01-01T00:00:00+00:00".to_string()));
    assert_eq!(dto.last_verification_check, None);
}

#[test]
fn verify_domain_parses_ids() {
    assert_eq!(VerifyDomainDto { domain_id: DOMAIN.to_string() }.parse_id().unwrap(), uuid::Uuid::parse_str(DOMAIN).unwrap().as_u128());
    assert_eq!(VerifyDomainDto { domain_id: "x".to_string() }.parse_id().unwrap_err(), "Invalid domain_id");
}

#[test]
fn dns_records() {
    let c = dns_config_for(1);
    assert_eq!(c.txt_record, "shortas-verify=00000000-0000-0000-0000-000000000001");
    assert_eq!(c.cname_target, "redirect.shortas.work");
    assert_eq!(c.a_records, vec!["1.2.3.4".to_string()]);
    assert!(matches!(seed_action(None), SeedAction::Create));
    assert!(matches!(seed_action(Some(true)), SeedAction::AlreadyShared));
    assert!(matches!(seed_action(Some(false)), SeedAction::SkipPrivate));
}

#[test]
fn certificates_are_masked() {
    let c = CreateCertificateDto { domain_id: DOMAIN.to_string(), key: "k".to_string(), cert: String::new(), ocsp_resp: None }
        .to_entity("o")
        .unwrap();
    let c = UpdateCertificateDto { key: None, cert: Some("c".to_string()), ocsp_resp: Some("x".to_string()) }.apply_to(c);
    let dto = CertificateDto::from_entity(c);
    assert!(dto.has_key && dto.has_cert && dto.has_ocsp);
    assert_eq!(dto.domain_id, DOMAIN);
    assert_eq!(dto.expires_at, None);
    assert!(CreateCertificateDto { domain_id: "bad".to_string(), key: String::new(), cert: String::new(), ocsp_resp: None }
        .to_entity("o")
        .is_err());
    let empty = Certificate::new(String::new(), String::new(), "o".to_string(), 0);
    let dto = CertificateDto::from_entity(empty);
    assert!(!dto.has_key && !dto.has_cert && !dto.has_ocsp);
}

#[test]
fn workspaces_and_members() {
    let w = CreateWorkspaceDto { name: "n".to_string(), description: "d".to_string() }.to_entity();
    assert_eq!(w.workspace_type, "User");
    assert!(!w.is_system());
    let w = UpdateWorkspaceDto { name: Some("m".to_string()), description: None }.apply_to(w);
    assert_eq!(w.name, "m");
    assert_eq!(w.description, "d");
    let dto = WorkspaceDto::from_entity(w).with_counts(1, 0);
    assert_eq!(dto.member_count, Some(1));
    assert_eq!(dto.route_count, Some(0));
    assert!(!dto.is_system);
    let m = UserWorkspace::new("u".to_string(), 5, "Admin".to_string());
    let dto = WorkspaceMemberDto::from_entity(m);
    assert!(dto.is_admin && !dto.is_owner);
    assert_eq!(dto.workspace_id, "00000000-0000-0000-0000-000000000005");
}

#[test]
fn workspace_access_rules() {
    assert_eq!(parse_workspace_id("x").unwrap_err().message, "Invalid workspace ID");
    let owner = UserWorkspace::new("u".to_string(), 1, "Owner".to_string());
    let member = UserWorkspace::new("v".to_string(), 1, "Member".to_string());
    assert!(require_admin(Some(UserWorkspace::new("u".to_string(), 1, "Owner".to_string()))).is_ok());
    assert_eq!(require_admin(Some(member)).unwrap_err().code, ErrorCode::Forbidden);
    assert_eq!(require_owner(None).unwrap_err().code, ErrorCode::Forbidden);
    assert!(require_owner(Some(UserWorkspace::new("u".to_string(), 1, "Admin".to_string()))).is_err());
    assert_eq!(check_removable(&Some(owner)).unwrap_err().message, "Cannot remove workspace owner");
    assert!(check_removable(&None).is_ok());
    let system = Workspace::new("Personal".to_string(), "System".to_string());
    assert_eq!(check_not_system(&system, WorkspaceChange::Delete).unwrap_err().message, "Cannot delete system workspace");
    assert_eq!(check_not_system(&system, WorkspaceChange::Update).unwrap_err().code, ErrorCode::ValidationError);
}

#[test]
fn user_dtos() {
    let p = UserProfile {
        id: "1".to_string(),
        email: None,
        name: Some("N".to_string()),
        preferred_username: None,
        email_verified: true,
        roles: vec!["admin".to_string()],
    };
    let dto = UserProfileDto::from_entity(p);
    assert!(dto.is_admin);
    assert_eq!(dto.name, Some("N".to_string()));
    let s = InitializationStatusResponse::from_checks(true, false);
    assert!(s.needs_initialization && s.has_user_settings);
    assert!(!InitializationStatusResponse::from_checks(true, true).needs_initialization);
    let o: OnboardingDto = onboarding_after_step("u".to_string(), "create_workspace");
    assert_eq!(o.current_step, 1);
    assert_eq!(o.steps_completed, vec!["create_workspace".to_string()]);
    let mut ob = UserOnboarding::new("u".to_string());
    ob.complete();
    assert!(OnboardingDto::from_entity(ob).completed);
}

#[test]
fn properties_default_is_empty() {
    let p = RouteProperties::default();
    assert!(p.owner_id.is_none() && !p.opengraph && !p.allow_debug);
}
