use shortas::error::{ApiError, ErrorCode, ErrorResponse, OptionExt, ResultExt};
use shortas::json::JsonValue;
use shortas::outbox::{
    delivery_step, failure_update, DeliveryError, DeliveryStep, OutboxMessage, OutboxMessageType,
    OutboxStatus,
};
use shortas::user::{JwtClaims, RealmAccess, UserOnboarding, UserProfile};

#[test]
fn test_outbox_message_creation() {
    let msg = OutboxMessage::index_route(uuid::Uuid::new_v4().as_u128());
    assert!(matches!(msg.message_type, OutboxMessageType::IndexRoute));
    assert!(matches!(msg.status, OutboxStatus::Pending));
    assert_eq!(msg.retry_count, 0);
}

#[test]
fn test_outbox_message_retry() {
    let mut msg = OutboxMessage::index_route(uuid::Uuid::new_v4().as_u128());

    msg.mark_failed("Error 1".to_string());
    assert!(msg.can_retry());
    assert_eq!(msg.retry_count, 1);

    msg.mark_failed("Error 2".to_string());
    msg.mark_failed("Error 3".to_string());
    assert!(!msg.can_retry());
    assert!(matches!(msg.status, OutboxStatus::Failed));
}

#[test]
fn test_user_profile_admin() {
    let admin = UserProfile {
        id: "123".to_string(),
        email: Some("admin@example.com".to_string()),
        name: None,
        preferred_username: None,
        email_verified: true,
        roles: vec!["admin".to_string()],
    };
    assert!(admin.is_admin());

    let user = UserProfile {
        id: "456".to_string(),
        email: Some("user@example.com".to_string()),
        name: None,
        preferred_username: None,
        email_verified: true,
        roles: vec!["user".to_string()],
    };
    assert!(!user.is_admin());
}

#[test]
fn test_onboarding() {
    let mut onboarding = UserOnboarding::new("user-123".to_string());
    assert!(!onboarding.completed);
    assert_eq!(onboarding.current_step, 0);

    onboarding.complete_step("create_workspace");
    assert_eq!(onboarding.current_step, 1);
    assert!(onboarding.steps_completed.contains(&"create_workspace".to_string()));

    onboarding.complete();
    assert!(onboarding.completed);
}

#[test]
fn onboarding_step_twice_changes_nothing() {
    let mut onboarding = UserOnboarding::new("u".to_string());
    onboarding.complete_step("a");
    onboarding.complete_step("b");
    let before = onboarding.updated_at;
    onboarding.complete_step("a");
    assert_eq!(onboarding.steps_completed, vec!["a".to_string(), "b".to_string()]);
    assert_eq!(onboarding.current_step, 2);
    assert_eq!(onboarding.updated_at, before);
}

#[test]
fn capitalized_admin_role_counts() {
    let p = UserProfile {
        id: "1".to_string(),
        email: None,
        name: None,
        preferred_username: None,
        email_verified: false,
        roles: vec!["viewer".to_string(), "Admin".to_string()],
    };
    assert!(p.is_admin());
    let q = UserProfile { roles: vec!["ADMIN".to_string()], ..p };
    assert!(!q.is_admin());
}

#[test]
fn profile_from_claims_defaults() {
    let claims = JwtClaims {
        sub: "sub-1".to_string(),
        email: Some("e@x".to_string()),
        name: None,
        preferred_username: Some("pu".to_string()),
        email_verified: None,
        realm_access: None,
        resource_access: None,
        exp: 10,
        iat: 1,
        iss: "iss".to_string(),
        aud: JsonValue::Str("aud".to_string()),
    };
    let p = UserProfile::from_claims(claims);
    assert_eq!(p.id, "sub-1");
    assert_eq!(p.email, Some("e@x".to_string()));
    assert!(!p.email_verified);
    assert!(p.roles.is_empty());

    let claims = JwtClaims {
        sub: "s".to_string(),
        email: None,
        name: None,
        preferred_username: None,
        email_verified: Some(true),
        realm_access: Some(RealmAccess { roles: vec!["admin".to_string()] }),
        resource_access: None,
        exp: 0,
        iat: 0,
        iss: String::new(),
        aud: JsonValue::Null,
    };
    let p = UserProfile::from_claims(claims);
    assert!(p.email_verified);
    assert!(p.is_admin());
}

#[test]
fn outbox_names_round_trip() {
    for s in [OutboxStatus::Pending, OutboxStatus::Processing, OutboxStatus::Completed, OutboxStatus::Failed] {
        assert_eq!(OutboxStatus::from_str(s.as_str()), s);
    }
    assert_eq!(OutboxStatus::from_str("nonsense"), OutboxStatus::Pending);
    for t in [
        OutboxMessageType::IndexRoute,
        OutboxMessageType::DeleteRouteIndex,
        OutboxMessageType::VerifyDomain,
        OutboxMessageType::CheckRouteSafety,
        OutboxMessageType::SendNotification,
    ] {
        assert_eq!(OutboxMessageType::from_str(t.as_str()), Some(t));
    }
    assert_eq!(OutboxMessageType::from_str("indexroute"), None);
}

#[test]
fn outbox_payloads_carry_hyphenated_ids() {
    let id = 0x0123_4567_89ab_cdef_0123_4567_89ab_cdefu128;
    let msg = OutboxMessage::verify_domain(id);
    match &msg.payload {
        JsonValue::Object(es) => {
            assert_eq!(es.len(), 1);
            assert_eq!(es[0].0, "domain_id");
            assert!(matches!(&es[0].1, JsonValue::Str(s) if s == "01234567-89ab-cdef-0123-456789abcdef"));
        }
        _ => panic!("payload is not an object"),
    }
    let msg = OutboxMessage::check_route_safety(id, "https://x.test".to_string());
    assert!(matches!(msg.message_type, OutboxMessageType::CheckRouteSafety));
    assert_eq!(msg.payload.str_field("url"), Some("https://x.test".to_string()));
    assert_eq!(msg.payload.str_field("route_id"), Some("01234567-89ab-cdef-0123-456789abcdef".to_string()));
    assert_eq!(msg.id >> 76 & 15, 4);
    assert!(msg.created_at.secs > 1_600_000_000);
}

#[test]
fn failed_message_waits_twice_as_long_each_time() {
    let mut msg = OutboxMessage::delete_route_index(7);
    msg.max_retries = 10;
    msg.mark_failed("e".to_string());
    let first = msg.next_retry_at.unwrap().secs;
    msg.mark_failed("e".to_string());
    let second = msg.next_retry_at.unwrap().secs;
    assert_eq!(msg.error_message, Some("e".to_string()));
    assert!(matches!(msg.status, OutboxStatus::Pending));
    // 2 s then 4 s after (nearly) the same moment
    assert!(second - first >= 1 && second - first <= 3);
}

#[test]
fn store_failure_update_follows_the_limit() {
    let now = shortas::ext::Timestamp { secs: 1_000, nanos: 250 };
    let u = failure_update(0, 3, now);
    assert_eq!(u.retry_count, 1);
    assert_eq!(u.status, OutboxStatus::Pending);
    assert_eq!(u.next_retry_at, shortas::ext::Timestamp { secs: 1_002, nanos: 250 });
    let u = failure_update(2, 3, now);
    assert_eq!(u.retry_count, 3);
    assert_eq!(u.status, OutboxStatus::Failed);
    assert_eq!(u.next_retry_at, shortas::ext::Timestamp { secs: 1_008, nanos: 250 });
}

#[test]
fn failure_at_a_given_instant() {
    let now = shortas::ext::Timestamp { secs: 500, nanos: 7 };
    let mut msg = OutboxMessage::index_route(1);
    msg.mark_failed_at("boom".to_string(), now);
    assert_eq!(msg.retry_count, 1);
    assert_eq!(msg.status, OutboxStatus::Pending);
    assert_eq!(msg.next_retry_at, Some(shortas::ext::Timestamp { secs: 502, nanos: 7 }));
    msg.mark_failed_at("boom".to_string(), now);
    assert_eq!(msg.next_retry_at, Some(shortas::ext::Timestamp { secs: 504, nanos: 7 }));
    msg.mark_failed_at("boom".to_string(), now);
    assert_eq!(msg.status, OutboxStatus::Failed);
    assert_eq!(msg.next_retry_at, Some(shortas::ext::Timestamp { secs: 504, nanos: 7 }));
}

#[test]
fn delivery_steps_by_kind() {
    let id = 0xffu128;
    let msg = OutboxMessage::index_route(id);
    assert!(matches!(delivery_step(msg.message_type, &msg.payload), DeliveryStep::IndexRoute(x) if x == id));
    let msg = OutboxMessage::delete_route_index(id);
    assert!(matches!(delivery_step(msg.message_type, &msg.payload), DeliveryStep::DeleteRouteIndex(x) if x == id));
    let msg = OutboxMessage::verify_domain(id);
    assert!(matches!(delivery_step(msg.message_type, &msg.payload), DeliveryStep::Complete));
    let empty = JsonValue::Object(vec![]);
    assert!(matches!(
        delivery_step(OutboxMessageType::IndexRoute, &empty),
        DeliveryStep::Fail(DeliveryError::MissingRouteId)
    ));
    let bad = JsonValue::Object(vec![("route_id".to_string(), JsonValue::Str("nope".to_string()))]);
    assert!(matches!(
        delivery_step(OutboxMessageType::DeleteRouteIndex, &bad),
        DeliveryStep::Fail(DeliveryError::InvalidRouteId(_))
    ));
}

#[test]
fn error_codes_and_constructors() {
    assert_eq!(ErrorCode::ValidationError.status_code(), 400);
    assert_eq!(ErrorCode::RateLimitExceeded.status_code(), 429);
    assert_eq!(ErrorCode::ServiceUnavailable.as_str(), "SERVICE_UNAVAILABLE");
    let e = ApiError::required("name");
    assert_eq!(e.message, "Field 'name' is required");
    assert_eq!(e.status_code(), 400);
    let e = ApiError::not_found("Route", "42");
    assert_eq!(e.message, "Route with id '42' not found");
    assert_eq!(e.code, ErrorCode::NotFound);
    let e = ApiError::forbidden();
    assert_eq!(e.message, "You don't have permission to perform this action");
    assert_eq!(e.status_code(), 403);
    let e = ApiError::with_details(ErrorCode::Conflict, "m".to_string(), "d".to_string());
    assert_eq!(e.details, Some("d".to_string()));
    let body = ErrorResponse::from_error(ApiError::external_service("down".to_string()));
    assert_eq!(body.code, "EXTERNAL_SERVICE_ERROR");
    assert_eq!(body.message, "down");
}

#[test]
fn option_and_result_extensions() {
    let r: Result<u8, ApiError> = None::<u8>.ok_or_not_found("Domain", "x");
    let e = r.unwrap_err();
    assert_eq!(e.code, ErrorCode::NotFound);
    assert_eq!(e.message, "Domain with id 'x' not found");
    assert_eq!(Some(3u8).ok_or_not_found("Domain", "x").unwrap(), 3);
    let r: Result<u8, String> = Err("boom".to_string());
    let e = r.map_internal_err("saving").unwrap_err();
    assert_eq!(e.code, ErrorCode::InternalError);
    assert_eq!(e.message, "saving");
    assert_eq!(e.details, Some("boom".to_string()));
    let r: Result<u8, String> = Err("x".to_string());
    assert_eq!(r.map_external_err("calling").unwrap_err().code, ErrorCode::ExternalServiceError);
}
