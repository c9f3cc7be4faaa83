use shortas::analytics::{instant_param, plain_date_param, series_bounds, series_query, SeriesQuery};
use shortas::analytics::{
    clickstream_url, combine_stats, date_param, enrich_events, hour_param, is_hourly_interval,
    route_click_stats, stats_date, stats_url, time_series_from_daily, time_series_from_hourly,
    top_routes_from_performance, top_ten_counts, unique_route_ids, workspace_click_stats,
    ClickStreamItem, DailyStats, DeviceStats, GeographicStats, HourlyStats, RouteInfo,
    RoutePerformance, StatsEndpoint,
};
use shortas::ext::{Timestamp, Ymd};

fn day(date: &str, total: i64, unique: i64, bot: i64) -> DailyStats {
    DailyStats { date: date.to_string(), total_clicks: total, unique_clicks: unique, bot_clicks: bot, human_clicks: 0, unique_ips: 0 }
}

fn geo(country: Option<&str>, clicks: i64) -> GeographicStats {
    GeographicStats { continent: None, country: country.map(|c| c.to_string()), location: None, total_clicks: clicks, unique_clicks: 0, unique_ips: 0 }
}

#[test]
fn combined_stats_sum_and_rank() {
    let daily = vec![day("2024-01-01", 10, 5, 1), day("2024-01-02", 7, 3, 2)];
    let mut geos = vec![geo(Some("US"), 5), geo(None, 9), geo(Some("DE"), 5)];
    for i in 0..10 {
        geos.push(geo(Some(&format!("C{}", i)), 1));
    }
    let devices = vec![DeviceStats { device_family: Some("iPhone".to_string()), os_family: None, total_clicks: 3, unique_clicks: 1 }];
    let c = combine_stats(daily, geos, devices);
    assert_eq!(c.total_clicks, 17);
    assert_eq!(c.unique_clicks, 8);
    assert_eq!(c.bot_clicks, 3);
    assert_eq!(c.top_countries.len(), 10);
    let names: Vec<&str> = c.top_countries.iter().map(|x| x.country.as_str()).collect();
    assert_eq!(&names[..4], &["Unknown", "US", "DE", "C0"]);
    assert_eq!(c.top_countries[9].country, "C6");
    assert_eq!(c.top_devices.len(), 1);
    assert_eq!(c.top_devices[0].device, "iPhone");
    assert_eq!(c.click_trends.len(), 2);
    assert_eq!(c.click_trends[1].date, "2024-01-02");
    assert_eq!(c.click_trends[1].clicks, 7);
}

#[test]
fn ranking_is_stable_and_descending() {
    let items = vec![("a".to_string(), 1), ("b".to_string(), 3), ("c".to_string(), 1), ("d".to_string(), 3), ("e".to_string(), 2)];
    let r = top_ten_counts(items);
    let names: Vec<&str> = r.iter().map(|x| x.0.as_str()).collect();
    assert_eq!(names, vec!["b", "d", "e", "a", "c"]);
    assert!(top_ten_counts(vec![]).is_empty());
}

#[test]
fn legacy_figures() {
    let daily = vec![day("d1", 4, 2, 0), day("d2", 6, 1, 0)];
    let s = route_click_stats(&daily);
    assert_eq!((s.total_clicks, s.unique_clicks, s.qr_scans), (10, 3, 0));
    let w = workspace_click_stats(9);
    assert_eq!((w.total_clicks, w.unique_clicks, w.qr_scans), (9, 9, 0));
    assert!(is_hourly_interval("hour"));
    assert!(!is_hourly_interval("day"));
    let ts = time_series_from_daily(daily);
    assert_eq!(ts[1].timestamp, "d2");
    assert_eq!(ts[1].clicks, 6);
    let hs = time_series_from_hourly(vec![HourlyStats { hour: "h".to_string(), total_clicks: 1, unique_clicks: 1, bot_clicks: 0, human_clicks: 1, unique_ips: 1 }]);
    assert_eq!(hs[0].timestamp, "h");
    let perf = vec![RoutePerformance {
        route_id: "r".to_string(),
        route_name: None,
        route_domain_name: None,
        total_clicks: 5,
        unique_visitors: 0,
        bot_clicks: 0,
        human_clicks: 0,
        countries_reached: 0,
        device_types: 0,
    }];
    let top = top_routes_from_performance(perf);
    assert_eq!(top[0].link, "");
    assert_eq!(top[0].clicks, 5);
}

#[test]
fn stats_query_urls() {
    let u = stats_url("http://agg", StatsEndpoint::Daily, Some("o1"), None, Some("2024-01-01".to_string()), None, Some(5));
    assert_eq!(u, "http://agg/v1/stats/daily?owner_id=o1&from_date=2024-01-01");
    let u = stats_url("http://agg", StatsEndpoint::RoutePerformance, None, Some("r"), None, None, Some(5));
    assert_eq!(u, "http://agg/v1/stats/route-performance?limit=5");
    let u = stats_url("http://agg", StatsEndpoint::TrafficTypes, None, Some("r"), Some("A".to_string()), Some("B".to_string()), None);
    assert_eq!(u, "http://agg/v1/stats/traffic-types?route_id=r&from_hour=A&to_hour=B");
    let u = stats_url("http://agg", StatsEndpoint::Geographic, None, None, None, None, None);
    assert_eq!(u, "http://agg/v1/stats/geographic");
    let u = clickstream_url("http://agg", None, Some("c"), None, Some("w"), None, None, Some(50), Some(0));
    assert_eq!(u, "http://agg/v1/clickstream?creator_id=c&workspace_id=w&limit=50&offset=0");
}

#[test]
fn dates_in_queries() {
    assert_eq!(date_param(Some(Ymd { year: 2024, month: 2, day: 9 })), Some("2024-02-09".to_string()));
    assert_eq!(date_param(Some(Ymd { year: 2024, month: 2, day: 30 })), None);
    assert_eq!(date_param(None), None);
    assert_eq!(hour_param(Some(Timestamp { secs: 3600, nanos: 0 })), Some("1970-01-01T01:00:00Z".to_string()));
    assert_eq!(stats_date("2024-03-05"), Some(Ymd { year: 2024, month: 3, day: 5 }));
    assert_eq!(stats_date("2024-03-05T23:30:00-02:00"), Some(Ymd { year: 2024, month: 3, day: 5 }));
    assert_eq!(stats_date("yesterday"), None);
}

fn item(id: &str, route: Option<&str>) -> ClickStreamItem {
    ClickStreamItem {
        id: id.to_string(),
        owner_id: None,
        creator_id: None,
        route_id: route.map(|r| r.to_string()),
        route_name: None,
        route_domain_name: None,
        workspace_id: None,
        created: "t".to_string(),
        dest: None,
        ip: None,
        continent: None,
        country: Some("NL".to_string()),
        location: None,
        os_family: None,
        os_version: None,
        user_agent_family: None,
        user_agent_version: None,
        device_brand: None,
        device_family: None,
        device_model: None,
        session_first: None,
        session_clicks: Some(2),
        is_unique: None,
        is_bot: Some(false),
    }
}

const R1: &str = "00000000-0000-0000-0000-000000000001";
const R2: &str = "00000000-0000-0000-0000-000000000002";

#[test]
fn clickstream_route_ids_are_distinct() {
    let items = vec![item("a", Some(R1)), item("b", Some("junk")), item("c", Some(R2)), item("d", Some(R1)), item("e", None)];
    let mut ids = unique_route_ids(&items);
    ids.sort();
    assert_eq!(ids, vec![1u128, 2u128]);
}

#[test]
fn clickstream_events_are_labelled() {
    let items = vec![item("a", Some(R1)), item("b", Some(R2)), item("c", None)];
    let infos = vec![
        RouteInfo { id: 1, link: "old".to_string(), domain_name: None },
        RouteInfo { id: 1, link: "l1".to_string(), domain_name: Some("ex.com".to_string()) },
    ];
    let ev = enrich_events(items, &infos);
    assert_eq!(ev.len(), 3);
    assert_eq!(ev[0].route_name, Some("l1".to_string()));
    assert_eq!(ev[0].route_domain_name, Some("ex.com".to_string()));
    assert_eq!(ev[1].route_name, None);
    assert_eq!(ev[2].route_name, None);
    assert_eq!(ev[0].country, Some("NL".to_string()));
    assert_eq!(ev[0].session_clicks, Some(2));
}

#[test]
fn query_bounds_and_series_plan() {
    let t = instant_param(Some("2024-01-02T03:04:05+01:00"));
    assert_eq!(t, Some(Timestamp { secs: 1_704_161_045, nanos: 0 }));
    assert_eq!(instant_param(Some("yesterday")), None);
    assert_eq!(instant_param(None), None);
    assert_eq!(plain_date_param(Some("2024-02-29")), Some(Ymd { year: 2024, month: 2, day: 29 }));
    assert_eq!(plain_date_param(Some("2024-02-30")), None);
    assert_eq!(plain_date_param(None), None);

    let (f, to) = series_bounds("2024-01-01T23:30:00Z", "2024-01-02T03:04:05+01:00").unwrap();
    assert_eq!(f, Timestamp { secs: 1_704_151_800, nanos: 0 });
    assert_eq!(to, Timestamp { secs: 1_704_161_045, nanos: 0 });
    let e = series_bounds("nope", "also nope").unwrap_err();
    assert_eq!(e.message, "Invalid 'from' date format");
    let e = series_bounds("2024-01-01T23:30:00Z", "nope").unwrap_err();
    assert_eq!(e.message, "Invalid 'to' date format");

    assert_eq!(series_query(f, to, "hour"), SeriesQuery::Hourly { from: f, to });
    assert_eq!(
        series_query(f, to, "day"),
        SeriesQuery::Daily {
            from: Some(Ymd { year: 2024, month: 1, day: 1 }),
            to: Some(Ymd { year: 2024, month: 1, day: 2 }),
        }
    );
}
