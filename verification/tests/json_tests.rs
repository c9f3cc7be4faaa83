use shortas::click_router::{
    convert_keys_to_camel_case, convert_policy_for_click_router, delete_accepted, encode_link,
    lookup_outcome, to_camel_case, upsert_request, ClickRouterRouteDto, LookupOutcome,
};
use shortas::entities::{ChallengeRouting, ConditionalRouting, FileRouting, RoutingPolicy};
use shortas::json::JsonValue;
use shortas::search::{bulk_action_line, bulk_body, parse_json_integer, read_search_answer, search_body, RouteDocument};

fn s(x: &str) -> JsonValue {
    JsonValue::Str(x.to_string())
}

fn obj(es: Vec<(&str, JsonValue)>) -> JsonValue {
    JsonValue::Object(es.into_iter().map(|(k, v)| (k.to_string(), v)).collect())
}

fn keys(v: &JsonValue) -> Vec<String> {
    match v {
        JsonValue::Object(es) => es.iter().map(|(k, _)| k.clone()).collect(),
        _ => vec![],
    }
}

#[test]
fn camel_case_names() {
    assert_eq!(to_camel_case("owner_id"), "ownerId");
    assert_eq!(to_camel_case("qr_settings_json"), "qrSettingsJson");
    assert_eq!(to_camel_case("a__b"), "aB");
    assert_eq!(to_camel_case("trailing_"), "trailing");
    assert_eq!(to_camel_case("_x"), "X");
    assert_eq!(to_camel_case("plain"), "plain");
    assert_eq!(to_camel_case("x_1"), "x1");
    assert_eq!(to_camel_case(""), "");
    let once = to_camel_case("allow_debug_mode");
    assert_eq!(to_camel_case(&once), once);
}

#[test]
fn keys_convert_at_every_depth_and_sort() {
    let v = obj(vec![
        ("z_key", s("1")),
        ("inner_obj", obj(vec![("deep_key", JsonValue::Array(vec![obj(vec![("a_b", JsonValue::Null)])]))])),
        ("alpha", JsonValue::Bool(true)),
    ]);
    let c = convert_keys_to_camel_case(v);
    assert_eq!(keys(&c), vec!["alpha".to_string(), "innerObj".to_string(), "zKey".to_string()]);
    match &c {
        JsonValue::Object(es) => match &es[1].1 {
            JsonValue::Object(inner) => {
                assert_eq!(inner[0].0, "deepKey");
                match &inner[0].1 {
                    JsonValue::Array(items) => assert_eq!(keys(&items[0]), vec!["aB".to_string()]),
                    _ => panic!("array expected"),
                }
            }
            _ => panic!("object expected"),
        },
        _ => panic!("object expected"),
    }
}

#[test]
fn colliding_keys_keep_the_last_value() {
    let v = obj(vec![("a_b", s("first")), ("aB", s("second"))]);
    let c = convert_keys_to_camel_case(v);
    match c {
        JsonValue::Object(es) => {
            assert_eq!(es.len(), 1);
            assert_eq!(es[0].0, "aB");
            assert!(matches!(&es[0].1, JsonValue::Str(x) if x == "second"));
        }
        _ => panic!("object expected"),
    }
}

#[test]
fn converting_twice_is_converting_once() {
    let v = obj(vec![("b_c", obj(vec![("x_y", s("1")), ("a", s("2"))])), ("a_b", JsonValue::Number("3".to_string()))]);
    let once = convert_keys_to_camel_case(v);
    let twice = convert_keys_to_camel_case(once.deep_copy());
    assert_eq!(format!("{:?}", once), format!("{:?}", twice));
}

#[test]
fn policies_in_router_form() {
    assert!(matches!(convert_policy_for_click_router(&RoutingPolicy::Basic), JsonValue::Str(x) if x == "Basic"));
    assert!(matches!(convert_policy_for_click_router(&RoutingPolicy::Mirroring), JsonValue::Str(x) if x == "Mirroring"));
    assert!(matches!(convert_policy_for_click_router(&RoutingPolicy::Challenge { challenge: None }), JsonValue::Str(x) if x == "Unknown"));
    assert!(matches!(convert_policy_for_click_router(&RoutingPolicy::File { file: None }), JsonValue::Str(x) if x == "Unknown"));
    let f = convert_policy_for_click_router(&RoutingPolicy::File { file: Some(FileRouting { content_type: "text/plain".to_string() }) });
    assert_eq!(keys(&f), vec!["File".to_string()]);
    let c = convert_policy_for_click_router(&RoutingPolicy::Challenge {
        challenge: Some(ChallengeRouting { key: "k".to_string(), source: "s".to_string(), challenge_type: "t".to_string() }),
    });
    match &c {
        JsonValue::Object(es) => assert_eq!(keys(&es[0].1), vec!["challenge_type".to_string(), "key".to_string(), "source".to_string()]),
        _ => panic!(),
    }
    let p = RoutingPolicy::Conditional {
        conditions: vec![ConditionalRouting { key: "c".to_string(), condition: JsonValue::Null, dest: None }],
    };
    let j = convert_keys_to_camel_case(convert_policy_for_click_router(&p));
    match &j {
        JsonValue::Object(es) => {
            assert_eq!(es[0].0, "Conditional");
            match &es[0].1 {
                JsonValue::Array(items) => {
                    assert_eq!(keys(&items[0]), vec!["condition".to_string(), "dest".to_string(), "key".to_string()]);
                }
                _ => panic!(),
            }
        }
        _ => panic!(),
    }
}

#[test]
fn router_links_and_urls() {
    assert_eq!(encode_link("ex.com", "abc"), "ex.com%2Fabc");
    let mut route = shortas::dto::route::CreateRouteDto {
        switch: "main".to_string(),
        link: Some("abc".to_string()),
        dest: None,
        dest_format: "Http".to_string(),
        code: None,
        ttl: None,
        status: "Active".to_string(),
        terminal: "External".to_string(),
        policy: None,
        properties: None,
        domain_id: Some("00000000-0000-0000-0000-000000000001".to_string()),
        conditions: None,
    }
    .to_entity("u")
    .unwrap();
    let req = upsert_request("http://r", "ex.com", &route, None);
    assert_eq!(req.url, "http://r/v1/routes/main/ex.com/abc");
    assert_eq!(req.body.link, "abc");
    assert_eq!(req.body.dest_format, "Http");
    assert_eq!(req.body.status, "Active");
    route.properties.route_id = Some("rid".to_string());
    let req = upsert_request("http://r", "ex.com", &route, Some(obj(vec![("owner_id", s("u"))])));
    assert_eq!(req.url, "http://r/v1/routes/rid");
    assert_eq!(req.body.link, "ex.com%2Fabc");
    assert_eq!(keys(req.body.properties.as_ref().unwrap()), vec!["ownerId".to_string()]);
    let dto = ClickRouterRouteDto::from_route(&route, None);
    assert!(dto.properties.is_none());
    assert!(matches!(dto.policy, Some(JsonValue::Str(ref x)) if x == "Basic"));
    assert!(delete_accepted(204) && delete_accepted(404) && !delete_accepted(500));
    assert!(matches!(lookup_outcome(404), LookupOutcome::Missing));
    assert!(matches!(lookup_outcome(200), LookupOutcome::Found));
    assert!(matches!(lookup_outcome(503), LookupOutcome::Failed));
}

#[test]
fn json_integers() {
    assert_eq!(parse_json_integer("0"), Some(0));
    assert_eq!(parse_json_integer("42"), Some(42));
    assert_eq!(parse_json_integer("-17"), Some(-17));
    assert_eq!(parse_json_integer("9223372036854775807"), Some(i64::MAX));
    assert_eq!(parse_json_integer("-9223372036854775808"), Some(i64::MIN));
    assert_eq!(parse_json_integer("9223372036854775808"), None);
    assert_eq!(parse_json_integer("1.5"), None);
    assert_eq!(parse_json_integer("1e3"), None);
    assert_eq!(parse_json_integer("-"), None);
    assert_eq!(parse_json_integer(""), None);
}

#[test]
fn search_requests_and_answers() {
    let body = search_body("abc", Some("o"), None, 3, 10);
    assert_eq!(keys(&body), vec!["from".to_string(), "query".to_string(), "size".to_string(), "sort".to_string()]);
    match &body {
        JsonValue::Object(es) => {
            assert!(matches!(&es[0].1, JsonValue::Number(n) if n == "20"));
            assert!(matches!(&es[2].1, JsonValue::Number(n) if n == "10"));
        }
        _ => panic!(),
    }
    let hit = |id: &str| obj(vec![("_id", s(id))]);
    let answer = obj(vec![(
        "hits",
        obj(vec![
            ("total", obj(vec![("value", JsonValue::Number("2".to_string()))])),
            ("hits", JsonValue::Array(vec![hit("00000000-0000-0000-0000-00000000000a"), hit("junk"), obj(vec![])])),
        ]),
    )]);
    let r = read_search_answer(&answer);
    assert_eq!(r.total_count, 2);
    assert_eq!(r.route_ids, vec![10u128]);
    let r = read_search_answer(&JsonValue::Null);
    assert_eq!(r.total_count, 0);
    assert!(r.route_ids.is_empty());
    assert_eq!(keys(&bulk_action_line("routes", "x")), vec!["index".to_string()]);
    assert_eq!(bulk_body(&vec!["{}".to_string(), "[]".to_string()]), "{}\n[]\n");
}

#[test]
fn route_documents() {
    let route = shortas::dto::route::CreateRouteDto {
        switch: "main".to_string(),
        link: Some("l".to_string()),
        dest: Some("d".to_string()),
        dest_format: "Http".to_string(),
        code: None,
        ttl: None,
        status: "Active".to_string(),
        terminal: "External".to_string(),
        policy: None,
        properties: None,
        domain_id: Some("00000000-0000-0000-0000-000000000001".to_string()),
        conditions: None,
    }
    .to_entity("u")
    .unwrap();
    let doc = RouteDocument::from_route(&route);
    assert_eq!(doc.link, "l");
    assert_eq!(doc.owner_id, Some("u".to_string()));
    assert!(doc.tags.is_empty());
    assert_eq!(doc.status, "Active");
    assert_eq!(doc.domain_id, Some("00000000-0000-0000-0000-000000000001".to_string()));
}
