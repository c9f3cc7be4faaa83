//! Click analytics: the aggregator's statistics, what the API derives from
//! them, and the queries that fetch them.

use vstd::prelude::*;
use vstd::string::*;

use crate::error::{ApiError, ErrorCode};
use crate::ext::{date_of, format_hour, format_ymd, hour_text, parse_rfc3339_date, parse_rfc3339_instant, parse_uuid, parse_ymd, rfc3339_instant, rfc3339_local_date, utc_date, uuid_parse, ymd_parse, ymd_text, Timestamp, Ymd};
use crate::text::{decimal, u64_text};

verus! {

// ---------------------------------------------------------------------------
// What the aggregator reports
// ---------------------------------------------------------------------------

/// Daily statistics.
#[derive(Debug)]
pub struct DailyStats {
    pub date: String,
    pub total_clicks: i64,
    pub unique_clicks: i64,
    pub bot_clicks: i64,
    pub human_clicks: i64,
    pub unique_ips: i64,
}

/// Hourly statistics.
#[derive(Debug)]
pub struct HourlyStats {
    pub hour: String,
    pub total_clicks: i64,
    pub unique_clicks: i64,
    pub bot_clicks: i64,
    pub human_clicks: i64,
    pub unique_ips: i64,
}

/// Geographic statistics.
#[derive(Debug)]
pub struct GeographicStats {
    pub continent: Option<String>,
    pub country: Option<String>,
    pub location: Option<String>,
    pub total_clicks: i64,
    pub unique_clicks: i64,
    pub unique_ips: i64,
}

/// Device statistics.
#[derive(Debug)]
pub struct DeviceStats {
    pub device_family: Option<String>,
    pub os_family: Option<String>,
    pub total_clicks: i64,
    pub unique_clicks: i64,
}

/// Browser statistics.
#[derive(Debug)]
pub struct BrowserStats {
    pub user_agent_family: Option<String>,
    pub user_agent_version: Option<String>,
    pub total_clicks: i64,
    pub unique_clicks: i64,
}

/// Route performance statistics.
#[derive(Debug)]
pub struct RoutePerformance {
    pub route_id: String,
    pub route_name: Option<String>,
    pub route_domain_name: Option<String>,
    pub total_clicks: i64,
    pub unique_visitors: i64,
    pub bot_clicks: i64,
    pub human_clicks: i64,
    pub countries_reached: i64,
    pub device_types: i64,
}

/// Top destination statistics.
#[derive(Debug)]
pub struct TopDestination {
    pub dest: String,
    pub total_clicks: i64,
    pub unique_visitors: i64,
}

/// Traffic type statistics.
#[derive(Debug)]
pub struct TrafficTypeStats {
    pub is_bot: bool,
    pub total_clicks: i64,
    pub unique_ips: i64,
}

/// One click event.
#[derive(Debug)]
pub struct ClickStreamItem {
    pub id: String,
    pub owner_id: Option<String>,
    pub creator_id: Option<String>,
    pub route_id: Option<String>,
    pub route_name: Option<String>,
    pub route_domain_name: Option<String>,
    pub workspace_id: Option<String>,
    pub created: String,
    pub dest: Option<String>,
    pub ip: Option<String>,
    pub continent: Option<String>,
    pub country: Option<String>,
    pub location: Option<String>,
    pub os_family: Option<String>,
    pub os_version: Option<String>,
    pub user_agent_family: Option<String>,
    pub user_agent_version: Option<String>,
    pub device_brand: Option<String>,
    pub device_family: Option<String>,
    pub device_model: Option<String>,
    pub session_first: Option<String>,
    pub session_clicks: Option<i64>,
    pub is_unique: Option<bool>,
    pub is_bot: Option<bool>,
}

/// A page of click events.
#[derive(Debug)]
pub struct ClickStreamResponse {
    pub items: Vec<ClickStreamItem>,
    pub total: i64,
    pub offset: u32,
    pub limit: u32,
    pub has_more: bool,
}

/// Click totals.
#[derive(Debug)]
pub struct ClickStats {
    pub total_clicks: i64,
    pub unique_clicks: i64,
    pub qr_scans: i64,
}

/// Time series data point.
#[derive(Debug)]
pub struct TimeSeriesPoint {
    pub timestamp: String,
    pub clicks: i64,
    pub unique_clicks: i64,
}

/// Top routes by clicks.
#[derive(Debug)]
pub struct TopRoute {
    pub route_id: String,
    pub link: String,
    pub clicks: i64,
}

// ---------------------------------------------------------------------------
// Sums
// ---------------------------------------------------------------------------

/// The sum of a sequence of integers.
pub open spec fn sum_ints(s: Seq<int>) -> int
    decreases s.len(),
{
    if s.len() == 0 {
        0
    } else {
        sum_ints(s.drop_last()) + s.last()
    }
}

/// Adding the values one by one never leaves the range of `i64`.
pub open spec fn sums_fit(s: Seq<int>) -> bool {
    forall|k: int| 0 <= k <= s.len() ==> i64::MIN <= #[trigger] sum_ints(s.take(k)) <= i64::MAX
}

/// Total clicks of each day.
pub open spec fn daily_totals(s: Seq<DailyStats>) -> Seq<int> {
    s.map_values(|d: DailyStats| d.total_clicks as int)
}

/// Unique clicks of each day.
pub open spec fn daily_uniques(s: Seq<DailyStats>) -> Seq<int> {
    s.map_values(|d: DailyStats| d.unique_clicks as int)
}

/// Bot clicks of each day.
pub open spec fn daily_bots(s: Seq<DailyStats>) -> Seq<int> {
    s.map_values(|d: DailyStats| d.bot_clicks as int)
}

/// Which count of a day.
pub enum DailyField {
    Total,
    Unique,
    Bot,
}

/// The chosen count of each day.
pub open spec fn daily_field(s: Seq<DailyStats>, f: DailyField) -> Seq<int> {
    match f {
        DailyField::Total => daily_totals(s),
        DailyField::Unique => daily_uniques(s),
        DailyField::Bot => daily_bots(s),
    }
}

/// The sum of one count over all days.
fn sum_daily(days: &Vec<DailyStats>, f: DailyField) -> (r: i64)
    requires
        sums_fit(daily_field(days@, f)),
    ensures
        r == sum_ints(daily_field(days@, f)),
{
    let ghost s = daily_field(days@, f);
    let mut acc: i64 = 0;
    let mut i: usize = 0;
    assert(s.take(0) =~= Seq::<int>::empty());
    while i < days.len()
        invariant
            i <= days.len(),
            s == daily_field(days@, f),
            s.len() == days.len(),
            sums_fit(s),
            acc == sum_ints(s.take(i as int)),
        decreases days.len() - i,
    {
        let v = match f {
            DailyField::Total => days[i].total_clicks,
            DailyField::Unique => days[i].unique_clicks,
            DailyField::Bot => days[i].bot_clicks,
        };
        assert(s[i as int] == v);
        assert(s.take(i + 1).drop_last() =~= s.take(i as int));
        assert(i64::MIN <= sum_ints(s.take(i + 1)) <= i64::MAX);
        acc = acc + v;
        i = i + 1;
    }
    assert(s.take(i as int) =~= s);
    acc
}

// ---------------------------------------------------------------------------
// Ranking
// ---------------------------------------------------------------------------

/// `(name, count)` pairs as the ranking sees them.
pub open spec fn counts_view(v: Seq<(String, i64)>) -> Seq<(Seq<char>, i64)> {
    v.map_values(|p: (String, i64)| (p.0@, p.1))
}

/// Places `x` after every item that counts at least as much, scanning a list
/// that is already ranked.
pub open spec fn insert_ranked(s: Seq<(Seq<char>, i64)>, x: (Seq<char>, i64)) -> Seq<(Seq<char>, i64)>
    decreases s.len(),
{
    if s.len() == 0 {
        seq![x]
    } else if s.last().1 >= x.1 {
        s.push(x)
    } else {
        insert_ranked(s.drop_last(), x).push(s.last())
    }
}

/// Items ranked by count, highest first; items with equal counts keep their
/// order (a stable sort, descending).
pub open spec fn ranked(s: Seq<(Seq<char>, i64)>) -> Seq<(Seq<char>, i64)>
    decreases s.len(),
{
    if s.len() == 0 {
        Seq::empty()
    } else {
        insert_ranked(ranked(s.drop_last()), s.last())
    }
}

/// The ten highest by count (fewer where there are fewer items).
pub open spec fn top_ten(s: Seq<(Seq<char>, i64)>) -> Seq<(Seq<char>, i64)> {
    let r = ranked(s);
    if r.len() <= 10 {
        r
    } else {
        r.take(10)
    }
}

/// Counts never increase along the list.
pub open spec fn descending(s: Seq<(Seq<char>, i64)>) -> bool {
    forall|i: int, j: int| 0 <= i < j < s.len() ==> s[i].1 >= s[j].1
}

proof fn lemma_insert_ranked_len(s: Seq<(Seq<char>, i64)>, x: (Seq<char>, i64))
    ensures
        insert_ranked(s, x).len() == s.len() + 1,
    decreases s.len(),
{
    if s.len() > 0 && s.last().1 < x.1 {
        lemma_insert_ranked_len(s.drop_last(), x);
    }
}

proof fn lemma_insert_ranked_descending(s: Seq<(Seq<char>, i64)>, x: (Seq<char>, i64))
    requires
        descending(s),
    ensures
        descending(insert_ranked(s, x)),
        insert_ranked(s, x).len() == s.len() + 1,
        forall|i: int| 0 <= i < insert_ranked(s, x).len() ==> #[trigger] insert_ranked(s, x)[i].1 >= x.1 || exists|j: int| 0 <= j < s.len() && insert_ranked(s, x)[i] == s[j],
    decreases s.len(),
{
    lemma_insert_ranked_len(s, x);
    if s.len() == 0 {
    } else if s.last().1 >= x.1 {
        let r = s.push(x);
        assert forall|i: int, j: int| 0 <= i < j < r.len() implies r[i].1 >= r[j].1 by {
            if j == s.len() as int {
                assert(s[i].1 >= s.last().1);
            }
        }
        assert forall|i: int| 0 <= i < r.len() implies #[trigger] r[i].1 >= x.1 || exists|j: int| 0 <= j < s.len() && r[i] == s[j] by {
            if i < s.len() {
                assert(r[i] == s[i]);
            }
        }
    } else {
        let p = s.drop_last();
        assert(descending(p));
        lemma_insert_ranked_descending(p, x);
        let q = insert_ranked(p, x);
        let r = q.push(s.last());
        assert forall|i: int| 0 <= i < q.len() implies #[trigger] q[i].1 >= s.last().1 by {
            if q[i].1 >= x.1 {
            } else {
                let j = choose|j: int| 0 <= j < p.len() && q[i] == p[j];
                assert(s[j].1 >= s[s.len() - 1].1);
            }
        }
        assert forall|i: int, j: int| 0 <= i < j < r.len() implies r[i].1 >= r[j].1 by {
            if j == q.len() as int {
                assert(r[i] == q[i]);
            } else {
                assert(r[i] == q[i] && r[j] == q[j]);
            }
        }
        assert forall|i: int| 0 <= i < r.len() implies #[trigger] r[i].1 >= x.1 || exists|j: int| 0 <= j < s.len() && r[i] == s[j] by {
            if i == q.len() as int {
                assert(r[i] == s[s.len() - 1]);
            } else {
                assert(r[i] == q[i]);
                if q[i].1 < x.1 {
                    let j = choose|j: int| 0 <= j < p.len() && q[i] == p[j];
                    assert(s[j] == p[j]);
                }
            }
        }
    }
}

proof fn lemma_insert_ranked_multiset(s: Seq<(Seq<char>, i64)>, x: (Seq<char>, i64))
    ensures
        insert_ranked(s, x).to_multiset() =~= s.to_multiset().insert(x),
    decreases s.len(),
{
    broadcast use vstd::seq_lib::group_to_multiset_ensures;
    if s.len() == 0 {
        assert(seq![x] =~= s.push(x));
    } else if s.last().1 >= x.1 {
    } else {
        let p = s.drop_last();
        lemma_insert_ranked_multiset(p, x);
        assert(s =~= p.push(s.last()));
    }
}

/// A ranking lists exactly the items it was given (the same multiset) and
/// puts higher counts first.
pub proof fn lemma_ranked_is_descending(s: Seq<(Seq<char>, i64)>)
    ensures
        descending(ranked(s)),
        ranked(s).len() == s.len(),
        ranked(s).to_multiset() =~= s.to_multiset(),
    decreases s.len(),
{
    broadcast use vstd::seq_lib::group_to_multiset_ensures;
    if s.len() > 0 {
        lemma_ranked_is_descending(s.drop_last());
        lemma_insert_ranked_descending(ranked(s.drop_last()), s.last());
        lemma_insert_ranked_multiset(ranked(s.drop_last()), s.last());
        assert(s =~= s.drop_last().push(s.last()));
    } else {
        assert(ranked(s) =~= s);
    }
}

/// The top ten lists ten items (or all of them, where there are fewer),
/// highest count first, taken from the front of the ranking; every item of
/// the ranking left out counts no more than any item listed.
pub proof fn lemma_top_ten_shape(s: Seq<(Seq<char>, i64)>)
    ensures
        top_ten(s).len() == if s.len() <= 10 { s.len() } else { 10 },
        descending(top_ten(s)),
        top_ten(s) =~= ranked(s).take(top_ten(s).len() as int),
        forall|i: int, j: int| 0 <= i < top_ten(s).len() <= j < ranked(s).len()
            ==> #[trigger] top_ten(s)[i].1 >= #[trigger] ranked(s)[j].1,
{
    lemma_ranked_is_descending(s);
    let r = ranked(s);
    if r.len() > 10 {
        assert forall|i: int, j: int| 0 <= i < j < r.take(10).len() implies r.take(10)[i].1 >= r.take(10)[j].1 by {
            assert(r.take(10)[i] == r[i] && r.take(10)[j] == r[j]);
        }
        assert forall|i: int, j: int| 0 <= i < top_ten(s).len() <= j < r.len() implies #[trigger] top_ten(s)[i].1 >= #[trigger] r[j].1 by {
            assert(top_ten(s)[i] == r[i]);
        }
    } else {
        assert(r.take(r.len() as int) =~= r);
    }
}

/// Inserts `x` into a ranked list, after every item that counts at least as much.
fn insert_into_ranking(v: &mut Vec<(String, i64)>, x: (String, i64))
    ensures
        counts_view(final(v)@) == insert_ranked(counts_view(old(v)@), (x.0@, x.1)),
{
    let ghost xs = (x.0@, x.1);
    let ghost before = counts_view(v@);
    let mut j: usize = v.len();
    assert(before.take(j as int) =~= before);
    assert(before.skip(j as int) =~= Seq::<(Seq<char>, i64)>::empty());
    while j > 0 && v[j - 1].1 < x.1
        invariant
            j <= v.len(),
            v@ == old(v)@,
            before == counts_view(v@),
            insert_ranked(before, xs) == insert_ranked(before.take(j as int), xs) + before.skip(j as int),
            xs == (x.0@, x.1),
        decreases j,
    {
        proof {
            let t = before.take(j as int);
            assert(t.last() == before[j - 1]);
            assert(t.drop_last() =~= before.take(j - 1));
            assert(insert_ranked(t, xs) == insert_ranked(before.take(j - 1), xs).push(before[j - 1]));
            assert(insert_ranked(before.take(j - 1), xs).push(before[j - 1]) + before.skip(j as int)
                =~= insert_ranked(before.take(j - 1), xs) + before.skip(j - 1));
        }
        j = j - 1;
    }
    proof {
        let t = before.take(j as int);
        if j > 0 {
            assert(t.last() == before[j - 1]);
            assert(insert_ranked(t, xs) == t.push(xs));
        } else {
            assert(insert_ranked(t, xs) == seq![xs]);
        }
    }
    v.insert(j, x);
    proof {
        assert(counts_view(v@) =~= before.take(j as int).push(xs) + before.skip(j as int));
        if j > 0 {
            assert(insert_ranked(before.take(j as int), xs) == before.take(j as int).push(xs));
        } else {
            assert(before.take(0).push(xs) =~= seq![xs]);
        }
    }
}

/// Ranks `(name, count)` pairs by count, highest first, keeping the order of
/// equal counts, and keeps the first ten.
pub fn top_ten_counts(items: Vec<(String, i64)>) -> (r: Vec<(String, i64)>)
    ensures
        counts_view(r@) == top_ten(counts_view(items@)),
{
    let ghost all = counts_view(items@);
    let ghost src = items@;
    let mut rest = items;
    let mut out: Vec<(String, i64)> = Vec::new();
    let mut i: usize = 0;
    let n = rest.len();
    assert(src.len() == n);
    assert(all.take(0) =~= Seq::<(Seq<char>, i64)>::empty());
    while rest.len() > 0
        invariant
            i + rest.len() == src.len(),
            src.len() <= usize::MAX,
            all == counts_view(src),
            rest@ == src.subrange(i as int, src.len() as int),
            counts_view(out@) == ranked(all.take(i as int)),
        decreases rest.len(),
    {
        let x = rest.remove(0);
        assert(x == src[i as int]);
        proof {
            assert(all.take(i + 1).drop_last() =~= all.take(i as int));
            assert(all.take(i + 1).last() == (x.0@, x.1));
        }
        insert_into_ranking(&mut out, x);
        i = i + 1;
        assert(rest@ =~= src.subrange(i as int, src.len() as int));
    }
    assert(all.take(i as int) =~= all);
    proof {
        lemma_ranked_is_descending(all);
    }
    out.truncate(10);
    proof {
        if ranked(all).len() > 10 {
            assert(counts_view(out@) =~= ranked(all).take(10));
        }
    }
    out
}

// ---------------------------------------------------------------------------
// Combined statistics
// ---------------------------------------------------------------------------

/// Country count for stats.
#[derive(Debug)]
pub struct CountryCount {
    pub country: String,
    pub count: i64,
}

/// Device count for stats.
#[derive(Debug)]
pub struct DeviceCount {
    pub device: String,
    pub count: i64,
}

/// Click trend for stats.
#[derive(Debug)]
pub struct ClickTrend {
    pub date: String,
    pub clicks: i64,
}

/// Combined stats response.
#[derive(Debug)]
pub struct CombinedStats {
    pub total_clicks: i64,
    pub unique_clicks: i64,
    pub bot_clicks: i64,
    pub top_countries: Vec<CountryCount>,
    pub top_devices: Vec<DeviceCount>,
    pub click_trends: Vec<ClickTrend>,
}

/// The rows of an answer, or none where the query failed.
pub open spec fn rows_or_none<T>(answer: Result<Vec<T>, String>) -> Seq<T> {
    match answer {
        Ok(v) => v@,
        Err(_) => Seq::empty(),
    }
}

/// The statistics answer from the three aggregator answers: a failed daily
/// query is a failure of the aggregator (502 with its message); a failed
/// geographic or device query only leaves its list empty.
pub fn stats_response(
    daily: Result<Vec<DailyStats>, String>,
    geo: Result<Vec<GeographicStats>, String>,
    devices: Result<Vec<DeviceStats>, String>,
) -> (r: Result<CombinedStats, ApiError>)
    requires
        daily matches Ok(d) ==> sums_fit(daily_totals(d@)) && sums_fit(daily_uniques(d@)) && sums_fit(daily_bots(d@)),
    ensures
        daily matches Err(m) ==> (r matches Err(e) && e.code == ErrorCode::ExternalServiceError
            && e.message@ == m@ && e.details is None),
        daily matches Ok(d) ==> (r matches Ok(s) && {
            &&& s.total_clicks == sum_ints(daily_totals(d@))
            &&& s.unique_clicks == sum_ints(daily_uniques(d@))
            &&& s.bot_clicks == sum_ints(daily_bots(d@))
            &&& s.top_countries@.map_values(|c: CountryCount| (c.country@, c.count))
                == top_ten(country_counts(rows_or_none(geo)))
            &&& s.top_devices@.map_values(|x: DeviceCount| (x.device@, x.count))
                == top_ten(device_counts(rows_or_none(devices)))
            &&& s.click_trends.len() == d.len()
            &&& forall|i: int| 0 <= i < d.len() ==> (#[trigger] s.click_trends@[i]).date == d@[i].date
                && s.click_trends@[i].clicks == d@[i].total_clicks
        }),
{
    let d = match daily {
        Ok(d) => d,
        Err(m) => {
            return Err(ApiError::external_service(m));
        },
    };
    let g = match geo {
        Ok(g) => g,
        Err(_) => Vec::new(),
    };
    let v = match devices {
        Ok(v) => v,
        Err(_) => Vec::new(),
    };
    Ok(combine_stats(d, g, v))
}

/// The label of an optional name: the name, or `Unknown`.
pub open spec fn label(o: Option<String>) -> Seq<char> {
    match o {
        Some(s) => s@,
        None => "Unknown"@,
    }
}

/// Countries with their clicks, in the order reported.
pub open spec fn country_counts(geo: Seq<GeographicStats>) -> Seq<(Seq<char>, i64)> {
    geo.map_values(|g: GeographicStats| (label(g.country), g.total_clicks))
}

/// Device families with their clicks, in the order reported.
pub open spec fn device_counts(devices: Seq<DeviceStats>) -> Seq<(Seq<char>, i64)> {
    devices.map_values(|d: DeviceStats| (label(d.device_family), d.total_clicks))
}

/// The name of an optional string, or `Unknown`.
fn label_of(o: Option<String>) -> (r: String)
    ensures
        r@ == label(o),
{
    match o {
        Some(s) => s,
        None => String::from_str("Unknown"),
    }
}

/// The combined statistics of a period: the click sums over its days, the
/// ten countries and ten device families with most clicks, and the daily
/// clicks as a trend.
pub fn combine_stats(daily: Vec<DailyStats>, geo: Vec<GeographicStats>, devices: Vec<DeviceStats>) -> (r: CombinedStats)
    requires
        sums_fit(daily_totals(daily@)),
        sums_fit(daily_uniques(daily@)),
        sums_fit(daily_bots(daily@)),
    ensures
        r.total_clicks == sum_ints(daily_totals(daily@)),
        r.unique_clicks == sum_ints(daily_uniques(daily@)),
        r.bot_clicks == sum_ints(daily_bots(daily@)),
        r.top_countries@.map_values(|c: CountryCount| (c.country@, c.count)) == top_ten(country_counts(geo@)),
        r.top_devices@.map_values(|d: DeviceCount| (d.device@, d.count)) == top_ten(device_counts(devices@)),
        r.click_trends.len() == daily.len(),
        forall|i: int| 0 <= i < daily.len() ==> (#[trigger] r.click_trends@[i]).date == daily@[i].date
            && r.click_trends@[i].clicks == daily@[i].total_clicks,
{
    let total_clicks = sum_daily(&daily, DailyField::Total);
    let unique_clicks = sum_daily(&daily, DailyField::Unique);
    let bot_clicks = sum_daily(&daily, DailyField::Bot);

    let ghost gsrc = geo@;
    let mut countries: Vec<(String, i64)> = Vec::new();
    let mut geo = geo;
    let mut i: usize = 0;
    let n = geo.len();
    assert(gsrc.len() == n);
    while geo.len() > 0
        invariant
            i + geo.len() == gsrc.len(),
            gsrc.len() <= usize::MAX,
            geo@ == gsrc.subrange(i as int, gsrc.len() as int),
            counts_view(countries@) == country_counts(gsrc).take(i as int),
        decreases geo.len(),
    {
        let g = geo.remove(0);
        assert(g == gsrc[i as int]);
        let ghost prev = countries@;
        let item = (label_of(g.country), g.total_clicks);
        countries.push(item);
        assert(countries@ == prev.push(item));
        assert(counts_view(countries@) =~= counts_view(prev).push((item.0@, item.1)));
        assert(country_counts(gsrc).take(i + 1) =~= country_counts(gsrc).take(i as int).push((item.0@, item.1)));
        i = i + 1;
        assert(geo@ =~= gsrc.subrange(i as int, gsrc.len() as int));
        assert(counts_view(countries@) =~= country_counts(gsrc).take(i as int));
    }
    assert(country_counts(gsrc).take(i as int) =~= country_counts(gsrc));
    let ranked_countries = top_ten_counts(countries);

    let ghost dsrc = devices@;
    let mut families: Vec<(String, i64)> = Vec::new();
    let mut devices = devices;
    let mut i: usize = 0;
    let n = devices.len();
    assert(dsrc.len() == n);
    while devices.len() > 0
        invariant
            i + devices.len() == dsrc.len(),
            dsrc.len() <= usize::MAX,
            devices@ == dsrc.subrange(i as int, dsrc.len() as int),
            counts_view(families@) == device_counts(dsrc).take(i as int),
        decreases devices.len(),
    {
        let d = devices.remove(0);
        assert(d == dsrc[i as int]);
        let ghost prev = families@;
        let item = (label_of(d.device_family), d.total_clicks);
        families.push(item);
        assert(families@ == prev.push(item));
        assert(counts_view(families@) =~= counts_view(prev).push((item.0@, item.1)));
        assert(device_counts(dsrc).take(i + 1) =~= device_counts(dsrc).take(i as int).push((item.0@, item.1)));
        i = i + 1;
        assert(devices@ =~= dsrc.subrange(i as int, dsrc.len() as int));
        assert(counts_view(families@) =~= device_counts(dsrc).take(i as int));
    }
    assert(device_counts(dsrc).take(i as int) =~= device_counts(dsrc));
    let ranked_devices = top_ten_counts(families);

    let ghost rc = ranked_countries@;
    let mut top_countries: Vec<CountryCount> = Vec::new();
    let mut rest = ranked_countries;
    let mut i: usize = 0;
    let n = rest.len();
    assert(rc.len() == n);
    while rest.len() > 0
        invariant
            i + rest.len() == rc.len(),
            rc.len() <= usize::MAX,
            rest@ == rc.subrange(i as int, rc.len() as int),
            top_countries@.map_values(|c: CountryCount| (c.country@, c.count)) == counts_view(rc).take(i as int),
        decreases rest.len(),
    {
        let (name, count) = rest.remove(0);
        assert((name, count) == rc[i as int]);
        let ghost prev = top_countries@;
        top_countries.push(CountryCount { country: name, count });
        assert(top_countries@.map_values(|c: CountryCount| (c.country@, c.count)) =~= prev.map_values(|c: CountryCount| (c.country@, c.count)).push((name@, count)));
        assert(counts_view(rc).take(i + 1) =~= counts_view(rc).take(i as int).push((name@, count)));
        i = i + 1;
        assert(rest@ =~= rc.subrange(i as int, rc.len() as int));
        assert(top_countries@.map_values(|c: CountryCount| (c.country@, c.count)) =~= counts_view(rc).take(i as int));
    }
    assert(counts_view(rc).take(i as int) =~= counts_view(rc));

    let ghost rd = ranked_devices@;
    let mut top_devices: Vec<DeviceCount> = Vec::new();
    let mut rest = ranked_devices;
    let mut i: usize = 0;
    let n = rest.len();
    assert(rd.len() == n);
    while rest.len() > 0
        invariant
            i + rest.len() == rd.len(),
            rd.len() <= usize::MAX,
            rest@ == rd.subrange(i as int, rd.len() as int),
            top_devices@.map_values(|d: DeviceCount| (d.device@, d.count)) == counts_view(rd).take(i as int),
        decreases rest.len(),
    {
        let (name, count) = rest.remove(0);
        assert((name, count) == rd[i as int]);
        let ghost prev = top_devices@;
        top_devices.push(DeviceCount { device: name, count });
        assert(top_devices@.map_values(|d: DeviceCount| (d.device@, d.count)) =~= prev.map_values(|d: DeviceCount| (d.device@, d.count)).push((name@, count)));
        assert(counts_view(rd).take(i + 1) =~= counts_view(rd).take(i as int).push((name@, count)));
        i = i + 1;
        assert(rest@ =~= rd.subrange(i as int, rd.len() as int));
        assert(top_devices@.map_values(|d: DeviceCount| (d.device@, d.count)) =~= counts_view(rd).take(i as int));
    }
    assert(counts_view(rd).take(i as int) =~= counts_view(rd));

    let ghost days = daily@;
    let mut click_trends: Vec<ClickTrend> = Vec::new();
    let mut rest = daily;
    let mut i: usize = 0;
    let n = rest.len();
    assert(days.len() == n);
    while rest.len() > 0
        invariant
            i + rest.len() == days.len(),
            days.len() <= usize::MAX,
            rest@ == days.subrange(i as int, days.len() as int),
            click_trends.len() == i,
            forall|j: int| 0 <= j < i ==> (#[trigger] click_trends@[j]).date == days[j].date
                && click_trends@[j].clicks == days[j].total_clicks,
        decreases rest.len(),
    {
        let d = rest.remove(0);
        assert(d == days[i as int]);
        click_trends.push(ClickTrend { date: d.date, clicks: d.total_clicks });
        i = i + 1;
        assert(rest@ =~= days.subrange(i as int, days.len() as int));
    }

    CombinedStats { total_clicks, unique_clicks, bot_clicks, top_countries, top_devices, click_trends }
}

// ---------------------------------------------------------------------------
// Figures derived for older endpoints
// ---------------------------------------------------------------------------

/// The click totals of a route over its days: the sums of total and unique
/// clicks; QR scans are not counted there.
pub fn route_click_stats(daily: &Vec<DailyStats>) -> (r: ClickStats)
    requires
        sums_fit(daily_totals(daily@)),
        sums_fit(daily_uniques(daily@)),
    ensures
        r.total_clicks == sum_ints(daily_totals(daily@)),
        r.unique_clicks == sum_ints(daily_uniques(daily@)),
        r.qr_scans == 0,
{
    let total_clicks = sum_daily(daily, DailyField::Total);
    let unique_clicks = sum_daily(daily, DailyField::Unique);
    ClickStats { total_clicks, unique_clicks, qr_scans: 0 }
}

/// The click totals of a workspace as its clickstream count gives them.
pub fn workspace_click_stats(total: i64) -> (r: ClickStats)
    ensures
        r.total_clicks == total,
        r.unique_clicks == total,
        r.qr_scans == 0,
{
    ClickStats { total_clicks: total, unique_clicks: total, qr_scans: 0 }
}

/// Whether a time-series interval asks for hours (anything else means days).
pub fn is_hourly_interval(interval: &str) -> (r: bool)
    ensures
        r == (interval@ == "hour"@),
{
    crate::ext::str_eq(interval, "hour")
}

/// Hourly figures as a time series.
pub fn time_series_from_hourly(hourly: Vec<HourlyStats>) -> (r: Vec<TimeSeriesPoint>)
    ensures
        r.len() == hourly.len(),
        forall|i: int| 0 <= i < hourly.len() ==> (#[trigger] r@[i]).timestamp == hourly@[i].hour
            && r@[i].clicks == hourly@[i].total_clicks && r@[i].unique_clicks == hourly@[i].unique_clicks,
{
    let ghost src = hourly@;
    let mut rest = hourly;
    let mut out: Vec<TimeSeriesPoint> = Vec::new();
    let mut i: usize = 0;
    let n = rest.len();
    assert(src.len() == n);
    while rest.len() > 0
        invariant
            i + rest.len() == src.len(),
            src.len() <= usize::MAX,
            rest@ == src.subrange(i as int, src.len() as int),
            out.len() == i,
            forall|j: int| 0 <= j < i ==> (#[trigger] out@[j]).timestamp == src[j].hour
                && out@[j].clicks == src[j].total_clicks && out@[j].unique_clicks == src[j].unique_clicks,
        decreases rest.len(),
    {
        let h = rest.remove(0);
        assert(h == src[i as int]);
        out.push(TimeSeriesPoint { timestamp: h.hour, clicks: h.total_clicks, unique_clicks: h.unique_clicks });
        i = i + 1;
        assert(rest@ =~= src.subrange(i as int, src.len() as int));
    }
    out
}

/// Daily figures as a time series.
pub fn time_series_from_daily(daily: Vec<DailyStats>) -> (r: Vec<TimeSeriesPoint>)
    ensures
        r.len() == daily.len(),
        forall|i: int| 0 <= i < daily.len() ==> (#[trigger] r@[i]).timestamp == daily@[i].date
            && r@[i].clicks == daily@[i].total_clicks && r@[i].unique_clicks == daily@[i].unique_clicks,
{
    let ghost src = daily@;
    let mut rest = daily;
    let mut out: Vec<TimeSeriesPoint> = Vec::new();
    let mut i: usize = 0;
    let n = rest.len();
    assert(src.len() == n);
    while rest.len() > 0
        invariant
            i + rest.len() == src.len(),
            src.len() <= usize::MAX,
            rest@ == src.subrange(i as int, src.len() as int),
            out.len() == i,
            forall|j: int| 0 <= j < i ==> (#[trigger] out@[j]).timestamp == src[j].date
                && out@[j].clicks == src[j].total_clicks && out@[j].unique_clicks == src[j].unique_clicks,
        decreases rest.len(),
    {
        let d = rest.remove(0);
        assert(d == src[i as int]);
        out.push(TimeSeriesPoint { timestamp: d.date, clicks: d.total_clicks, unique_clicks: d.unique_clicks });
        i = i + 1;
        assert(rest@ =~= src.subrange(i as int, src.len() as int));
    }
    out
}

/// Route performance as top routes: the route's name as its link (empty
/// where it has none), and its total clicks.
pub fn top_routes_from_performance(performance: Vec<RoutePerformance>) -> (r: Vec<TopRoute>)
    ensures
        r.len() == performance.len(),
        forall|i: int| 0 <= i < performance.len() ==> (#[trigger] r@[i]).route_id == performance@[i].route_id
            && r@[i].link@ == (match performance@[i].route_name { Some(n) => n@, None => Seq::<char>::empty() })
            && r@[i].clicks == performance@[i].total_clicks,
{
    let ghost src = performance@;
    let mut rest = performance;
    let mut out: Vec<TopRoute> = Vec::new();
    let mut i: usize = 0;
    let n = rest.len();
    assert(src.len() == n);
    while rest.len() > 0
        invariant
            i + rest.len() == src.len(),
            src.len() <= usize::MAX,
            rest@ == src.subrange(i as int, src.len() as int),
            out.len() == i,
            forall|j: int| 0 <= j < i ==> (#[trigger] out@[j]).route_id == src[j].route_id
                && out@[j].link@ == (match src[j].route_name { Some(n) => n@, None => Seq::<char>::empty() })
                && out@[j].clicks == src[j].total_clicks,
        decreases rest.len(),
    {
        let p = rest.remove(0);
        assert(p == src[i as int]);
        let link = match p.route_name {
            Some(n) => n,
            None => String::new(),
        };
        out.push(TopRoute { route_id: p.route_id, link, clicks: p.total_clicks });
        i = i + 1;
        assert(rest@ =~= src.subrange(i as int, src.len() as int));
    }
    out
}

/// The date a stats query names: an RFC 3339 timestamp's local date, else a
/// plain `YYYY-MM-DD` date.
pub open spec fn stats_date_of(s: Seq<char>) -> Option<Ymd> {
    match rfc3339_local_date(s) {
        Some(d) => Some(d),
        None => ymd_parse(s),
    }
}

/// Reads the date of a stats query parameter.
pub fn stats_date(s: &str) -> (r: Option<Ymd>)
    ensures
        r == stats_date_of(s@),
{
    match parse_rfc3339_date(s) {
        Some(d) => Some(d),
        None => parse_ymd(s),
    }
}

/// Reads a `YYYY-MM-DD` query parameter; an absent or unreadable one gives no date.
pub fn plain_date_param(s: Option<&str>) -> (r: Option<Ymd>)
    ensures
        r == match s {
            Some(t) => ymd_parse(t@),
            None => None,
        },
{
    match s {
        Some(t) => parse_ymd(t),
        None => None,
    }
}

/// Reads an instant query parameter: an RFC 3339 timestamp taken to UTC; an
/// absent or unreadable one gives no bound.
pub fn instant_param(s: Option<&str>) -> (r: Option<Timestamp>)
    ensures
        r == match s {
            Some(t) => rfc3339_instant(t@),
            None => None,
        },
{
    match s {
        Some(t) => parse_rfc3339_instant(t),
        None => None,
    }
}

/// The message for a time-series bound that does not read as RFC 3339.
pub open spec fn invalid_bound_message(name: Seq<char>) -> Seq<char> {
    "Invalid '"@ + name + "' date format"@
}

/// Reads the two bounds of a route's time series; both are required RFC 3339
/// timestamps, and the first that does not read is refused.
pub fn series_bounds(from: &str, to: &str) -> (r: Result<(Timestamp, Timestamp), ApiError>)
    ensures
        r is Ok <==> (rfc3339_instant(from@) is Some && rfc3339_instant(to@) is Some),
        r matches Ok(b) ==> Some(b.0) == rfc3339_instant(from@) && Some(b.1) == rfc3339_instant(to@),
        rfc3339_instant(from@) is None ==> (r matches Err(e) && e.code == ErrorCode::ValidationError
            && e.message@ == invalid_bound_message("from"@)),
        (rfc3339_instant(from@) is Some && rfc3339_instant(to@) is None) ==> (r matches Err(e)
            && e.code == ErrorCode::ValidationError && e.message@ == invalid_bound_message("to"@)),
{
    let f = match parse_rfc3339_instant(from) {
        Some(t) => t,
        None => {
            let mut m = String::from_str("Invalid '");
            m.append("from");
            m.append("' date format");
            return Err(ApiError::validation(m));
        },
    };
    let t = match parse_rfc3339_instant(to) {
        Some(t) => t,
        None => {
            let mut m = String::from_str("Invalid '");
            m.append("to");
            m.append("' date format");
            return Err(ApiError::validation(m));
        },
    };
    Ok((f, t))
}

/// Which aggregator query a route's time series needs.
#[derive(PartialEq, Eq, Structural, Debug)]
pub enum SeriesQuery {
    /// Hourly figures between the two instants.
    Hourly { from: Timestamp, to: Timestamp },
    /// Daily figures between the UTC dates of the two instants.
    Daily { from: Option<Ymd>, to: Option<Ymd> },
}

/// The query for a route's time series: hourly figures for the interval
/// `hour`, daily figures between the instants' UTC dates for any other.
pub fn series_query(from: Timestamp, to: Timestamp, interval: &str) -> (r: SeriesQuery)
    ensures
        interval@ == "hour"@ ==> r == (SeriesQuery::Hourly { from, to }),
        interval@ != "hour"@ ==> r == (SeriesQuery::Daily {
            from: utc_date(from.secs, from.nanos),
            to: utc_date(to.secs, to.nanos),
        }),
{
    if is_hourly_interval(interval) {
        SeriesQuery::Hourly { from, to }
    } else {
        SeriesQuery::Daily { from: date_of(from), to: date_of(to) }
    }
}

// ---------------------------------------------------------------------------
// Query URLs
// ---------------------------------------------------------------------------

/// `name=value`.
pub open spec fn param_text(p: (Seq<char>, Seq<char>)) -> Seq<char> {
    p.0 + "="@ + p.1
}

/// The parameters joined by `&`.
pub open spec fn join_params(ps: Seq<(Seq<char>, Seq<char>)>) -> Seq<char>
    decreases ps.len(),
{
    if ps.len() == 0 {
        Seq::empty()
    } else if ps.len() == 1 {
        param_text(ps[0])
    } else {
        join_params(ps.drop_last()) + "&"@ + param_text(ps.last())
    }
}

/// The URL with its query: `url?a=1&b=2`, or the URL alone without parameters.
pub open spec fn with_query(url: Seq<char>, ps: Seq<(Seq<char>, Seq<char>)>) -> Seq<char> {
    if ps.len() == 0 {
        url
    } else {
        url + "?"@ + join_params(ps)
    }
}

/// The parameters as text pairs.
pub open spec fn params_view(ps: Seq<(String, String)>) -> Seq<(Seq<char>, Seq<char>)> {
    ps.map_values(|p: (String, String)| (p.0@, p.1@))
}

/// Appends the query of `params` to `url`.
pub fn append_query(url: String, params: &Vec<(String, String)>) -> (r: String)
    ensures
        r@ == with_query(url@, params_view(params@)),
{
    let ghost ps = params_view(params@);
    if params.len() == 0 {
        return url;
    }
    let mut url = url;
    let ghost base = url@;
    url.append("?");
    let mut i: usize = 0;
    assert(ps.take(0) =~= Seq::<(Seq<char>, Seq<char>)>::empty());
    while i < params.len()
        invariant
            i <= params.len(),
            params.len() > 0,
            ps == params_view(params@),
            ps.len() == params.len(),
            url@ == base + "?"@ + join_params(ps.take(i as int)),
        decreases params.len() - i,
    {
        assert(ps[i as int] == (params@[i as int].0@, params@[i as int].1@));
        assert(ps.take(i + 1).drop_last() =~= ps.take(i as int));
        assert(ps.take(i + 1).last() == ps[i as int]);
        if i > 0 {
            url.append("&");
        }
        url.append(params[i].0.as_str());
        url.append("=");
        url.append(params[i].1.as_str());
        proof {
            if i == 0 {
                assert(join_params(ps.take(1)) == param_text(ps[0]));
                assert(url@ =~= base + "?"@ + join_params(ps.take(1)));
            } else {
                assert(url@ =~= base + "?"@ + join_params(ps.take(i + 1)));
            }
        }
        i = i + 1;
    }
    assert(ps.take(i as int) =~= ps);
    url
}

/// `params` with `(name, value)` added where there is a value.
pub open spec fn opt_param(ps: Seq<(Seq<char>, Seq<char>)>, name: Seq<char>, value: Option<Seq<char>>) -> Seq<(Seq<char>, Seq<char>)> {
    match value {
        Some(v) => ps.push((name, v)),
        None => ps,
    }
}

/// The text of an optional string slice.
pub open spec fn opt_text_of(o: Option<&str>) -> Option<Seq<char>> {
    match o {
        Some(s) => Some(s@),
        None => None,
    }
}

/// The text of an optional string.
pub open spec fn opt_string_text(o: Option<String>) -> Option<Seq<char>> {
    match o {
        Some(s) => Some(s@),
        None => None,
    }
}

/// The decimal text of an optional number.
pub open spec fn opt_number(o: Option<u32>) -> Option<Seq<char>> {
    match o {
        Some(n) => Some(decimal(n as nat)),
        None => None,
    }
}

/// Adds `(name, value)` where there is a value.
fn push_opt(params: &mut Vec<(String, String)>, name: &str, value: Option<String>)
    ensures
        params_view(final(params)@) == opt_param(params_view(old(params)@), name@, opt_string_text(value)),
{
    match value {
        Some(v) => {
            params.push((String::from_str(name), v));
            assert(params_view(params@) =~= params_view(old(params)@).push((name@, v@)));
        },
        None => {},
    }
}

/// An optional string slice, copied.
fn own(o: Option<&str>) -> (r: Option<String>)
    ensures
        opt_string_text(r) == opt_text_of(o),
{
    match o {
        Some(s) => Some(String::from_str(s)),
        None => None,
    }
}

/// An optional number as text.
fn number_text(o: Option<u32>) -> (r: Option<String>)
    ensures
        opt_string_text(r) == opt_number(o),
{
    match o {
        Some(n) => Some(u64_text(n as u64)),
        None => None,
    }
}

/// The statistics the aggregator serves.
#[derive(PartialEq, Eq, Structural, Clone, Copy, Debug)]
pub enum StatsEndpoint {
    Daily,
    Hourly,
    Geographic,
    Devices,
    Browsers,
    RoutePerformance,
    TopDestinations,
    TrafficTypes,
}

/// The path of an endpoint under the base URL.
pub open spec fn endpoint_path(e: StatsEndpoint) -> Seq<char> {
    match e {
        StatsEndpoint::Daily => "/v1/stats/daily"@,
        StatsEndpoint::Hourly => "/v1/stats/hourly"@,
        StatsEndpoint::Geographic => "/v1/stats/geographic"@,
        StatsEndpoint::Devices => "/v1/stats/devices"@,
        StatsEndpoint::Browsers => "/v1/stats/browsers"@,
        StatsEndpoint::RoutePerformance => "/v1/stats/route-performance"@,
        StatsEndpoint::TopDestinations => "/v1/stats/top-destinations"@,
        StatsEndpoint::TrafficTypes => "/v1/stats/traffic-types"@,
    }
}

/// Whether an endpoint's period is in hours (else in dates).
pub open spec fn hourly_period(e: StatsEndpoint) -> bool {
    e == StatsEndpoint::Hourly || e == StatsEndpoint::TrafficTypes
}

/// Whether an endpoint filters by route.
pub open spec fn takes_route(e: StatsEndpoint) -> bool {
    e != StatsEndpoint::RoutePerformance
}

/// Whether an endpoint takes a limit.
pub open spec fn takes_limit(e: StatsEndpoint) -> bool {
    e == StatsEndpoint::RoutePerformance || e == StatsEndpoint::TopDestinations
}

/// The parameters of a statistics query: owner, route (where the endpoint
/// filters by route), the period's start and end (as `from_hour`/`to_hour`
/// or `from_date`/`to_date`), and the limit (where the endpoint takes one).
pub open spec fn stats_params(
    e: StatsEndpoint,
    owner_id: Option<Seq<char>>,
    route_id: Option<Seq<char>>,
    from: Option<Seq<char>>,
    to: Option<Seq<char>>,
    limit: Option<u32>,
) -> Seq<(Seq<char>, Seq<char>)> {
    let p0 = opt_param(Seq::empty(), "owner_id"@, owner_id);
    let p1 = if takes_route(e) { opt_param(p0, "route_id"@, route_id) } else { p0 };
    let p2 = opt_param(p1, if hourly_period(e) { "from_hour"@ } else { "from_date"@ }, from);
    let p3 = opt_param(p2, if hourly_period(e) { "to_hour"@ } else { "to_date"@ }, to);
    if takes_limit(e) { opt_param(p3, "limit"@, opt_number(limit)) } else { p3 }
}

/// The query holds the parameter `name=value`.
pub open spec fn has_param(ps: Seq<(Seq<char>, Seq<char>)>, name: Seq<char>, value: Seq<char>) -> bool {
    exists|i: int| 0 <= i < ps.len() && ps[i] == (name, value)
}

/// The query holds some parameter called `name`.
pub open spec fn has_name(ps: Seq<(Seq<char>, Seq<char>)>, name: Seq<char>) -> bool {
    exists|i: int| 0 <= i < ps.len() && ps[i].0 == name
}

proof fn lemma_opt_param_has(ps: Seq<(Seq<char>, Seq<char>)>, name: Seq<char>, value: Option<Seq<char>>, n: Seq<char>, v: Seq<char>)
    ensures
        has_param(ps, n, v) ==> has_param(opt_param(ps, name, value), n, v),
        value matches Some(x) ==> has_param(opt_param(ps, name, value), name, x),
        has_name(opt_param(ps, name, value), n) ==> has_name(ps, n) || (n == name && value is Some),
{
    let r = opt_param(ps, name, value);
    if has_param(ps, n, v) {
        let i = choose|i: int| 0 <= i < ps.len() && ps[i] == (n, v);
        assert(r[i] == ps[i]);
    }
    if let Some(x) = value {
        assert(r[ps.len() as int] == (name, x));
    }
    if has_name(r, n) {
        let i = choose|i: int| 0 <= i < r.len() && r[i].0 == n;
        if i < ps.len() {
            assert(r[i] == ps[i]);
        }
    }
}

/// The period of a statistics query is applied under the names its endpoint
/// reads: the hourly figures and the traffic types take a given start and end
/// as `from_hour` and `to_hour`, every other endpoint as `from_date` and
/// `to_date`; a given bound is always passed, and never under the other
/// endpoint kind's names.
pub proof fn lemma_stats_period_names(
    e: StatsEndpoint,
    owner_id: Option<Seq<char>>,
    route_id: Option<Seq<char>>,
    from: Option<Seq<char>>,
    to: Option<Seq<char>>,
    limit: Option<u32>,
)
    ensures
        (e is Hourly || e is TrafficTypes) ==> {
            let ps = stats_params(e, owner_id, route_id, from, to, limit);
            &&& from matches Some(f) ==> has_param(ps, "from_hour"@, f)
            &&& to matches Some(x) ==> has_param(ps, "to_hour"@, x)
            &&& !has_name(ps, "from_date"@)
            &&& !has_name(ps, "to_date"@)
        },
        !(e is Hourly || e is TrafficTypes) ==> {
            let ps = stats_params(e, owner_id, route_id, from, to, limit);
            &&& from matches Some(f) ==> has_param(ps, "from_date"@, f)
            &&& to matches Some(x) ==> has_param(ps, "to_date"@, x)
            &&& !has_name(ps, "from_hour"@)
            &&& !has_name(ps, "to_hour"@)
        },
{
    reveal_strlit("owner_id");
    reveal_strlit("route_id");
    reveal_strlit("from_hour");
    reveal_strlit("to_hour");
    reveal_strlit("from_date");
    reveal_strlit("to_date");
    reveal_strlit("limit");
    let hourly = e is Hourly || e is TrafficTypes;
    let fk = if hourly { "from_hour"@ } else { "from_date"@ };
    let tk = if hourly { "to_hour"@ } else { "to_date"@ };
    let ofk = if hourly { "from_date"@ } else { "from_hour"@ };
    let otk = if hourly { "to_date"@ } else { "to_hour"@ };
    assert(hourly_period(e) == hourly);
    let p0 = opt_param(Seq::empty(), "owner_id"@, owner_id);
    let p1 = if takes_route(e) { opt_param(p0, "route_id"@, route_id) } else { p0 };
    let p2 = opt_param(p1, fk, from);
    let p3 = opt_param(p2, tk, to);
    let p4 = if takes_limit(e) { opt_param(p3, "limit"@, opt_number(limit)) } else { p3 };
    assert(stats_params(e, owner_id, route_id, from, to, limit) == p4);
    // distinct names
    assert("from_hour"@[5] != "from_date"@[5]);
    assert("to_hour"@[3] != "to_date"@[3]);
    assert("owner_id"@[0] != "from_hour"@[0] && "owner_id"@[0] != "from_date"@[0]);
    assert("owner_id"@[0] != "to_hour"@[0] && "owner_id"@[0] != "to_date"@[0]);
    assert("route_id"@[0] != "from_hour"@[0] && "route_id"@[0] != "from_date"@[0]);
    assert("route_id"@[0] != "to_hour"@[0] && "route_id"@[0] != "to_date"@[0]);
    assert("limit"@[0] != "from_hour"@[0] && "limit"@[0] != "from_date"@[0]);
    assert("limit"@[0] != "to_hour"@[0] && "limit"@[0] != "to_date"@[0]);
    assert("from_hour"@.len() != "to_date"@.len());
    assert("from_date"@.len() != "to_hour"@.len());
    assert("from_hour"@[0] != "to_hour"@[0] && "from_date"@[0] != "to_date"@[0]);
    let empty = Seq::<(Seq<char>, Seq<char>)>::empty();
    // presence of the given bounds
    if let Some(f) = from {
        lemma_opt_param_has(p1, fk, from, fk, f);
        lemma_opt_param_has(p2, tk, to, fk, f);
        if takes_limit(e) {
            lemma_opt_param_has(p3, "limit"@, opt_number(limit), fk, f);
        }
    }
    if let Some(x) = to {
        lemma_opt_param_has(p2, tk, to, tk, x);
        if takes_limit(e) {
            lemma_opt_param_has(p3, "limit"@, opt_number(limit), tk, x);
        }
    }
    // absence of the other names
    lemma_opt_param_has(empty, "owner_id"@, owner_id, ofk, ofk);
    lemma_opt_param_has(empty, "owner_id"@, owner_id, otk, otk);
    lemma_opt_param_has(p0, "route_id"@, route_id, ofk, ofk);
    lemma_opt_param_has(p0, "route_id"@, route_id, otk, otk);
    lemma_opt_param_has(p1, fk, from, ofk, ofk);
    lemma_opt_param_has(p1, fk, from, otk, otk);
    lemma_opt_param_has(p2, tk, to, ofk, ofk);
    lemma_opt_param_has(p2, tk, to, otk, otk);
    lemma_opt_param_has(p3, "limit"@, opt_number(limit), ofk, ofk);
    lemma_opt_param_has(p3, "limit"@, opt_number(limit), otk, otk);
    assert(!has_name(empty, ofk));
    assert(!has_name(empty, otk));
}

/// A statistics query passes a given owner as `owner_id`; a given route as
/// `route_id` on every endpoint but route performance, which never filters by
/// route; and a given limit, in decimal, as `limit` on route performance and
/// top destinations, and on no other endpoint.
pub proof fn lemma_stats_filters_passed(
    e: StatsEndpoint,
    owner_id: Option<Seq<char>>,
    route_id: Option<Seq<char>>,
    from: Option<Seq<char>>,
    to: Option<Seq<char>>,
    limit: Option<u32>,
)
    ensures
        owner_id matches Some(o) ==> has_param(stats_params(e, owner_id, route_id, from, to, limit), "owner_id"@, o),
        route_id matches Some(r) ==> (if e is RoutePerformance {
            !has_name(stats_params(e, owner_id, route_id, from, to, limit), "route_id"@)
        } else {
            has_param(stats_params(e, owner_id, route_id, from, to, limit), "route_id"@, r)
        }),
        limit matches Some(l) ==> (if e is RoutePerformance || e is TopDestinations {
            has_param(stats_params(e, owner_id, route_id, from, to, limit), "limit"@, decimal(l as nat))
        } else {
            !has_name(stats_params(e, owner_id, route_id, from, to, limit), "limit"@)
        }),
{
    reveal_strlit("owner_id");
    reveal_strlit("route_id");
    reveal_strlit("from_hour");
    reveal_strlit("to_hour");
    reveal_strlit("from_date");
    reveal_strlit("to_date");
    reveal_strlit("limit");
    let fk = if hourly_period(e) { "from_hour"@ } else { "from_date"@ };
    let tk = if hourly_period(e) { "to_hour"@ } else { "to_date"@ };
    let empty = Seq::<(Seq<char>, Seq<char>)>::empty();
    let p0 = opt_param(empty, "owner_id"@, owner_id);
    let p1 = if takes_route(e) { opt_param(p0, "route_id"@, route_id) } else { p0 };
    let p2 = opt_param(p1, fk, from);
    let p3 = opt_param(p2, tk, to);
    let p4 = if takes_limit(e) { opt_param(p3, "limit"@, opt_number(limit)) } else { p3 };
    assert(stats_params(e, owner_id, route_id, from, to, limit) == p4);
    assert("owner_id"@[0] != "route_id"@[0] && "owner_id"@[0] != "limit"@[0] && "route_id"@[0] != "limit"@[0]);
    assert(fk[0] != "route_id"@[0] && fk[0] != "limit"@[0] && tk[0] != "route_id"@[0] && tk[0] != "limit"@[0]);
    if let Some(o) = owner_id {
        lemma_opt_param_has(empty, "owner_id"@, owner_id, "owner_id"@, o);
        if takes_route(e) {
            lemma_opt_param_has(p0, "route_id"@, route_id, "owner_id"@, o);
        }
        lemma_opt_param_has(p1, fk, from, "owner_id"@, o);
        lemma_opt_param_has(p2, tk, to, "owner_id"@, o);
        if takes_limit(e) {
            lemma_opt_param_has(p3, "limit"@, opt_number(limit), "owner_id"@, o);
        }
    }
    if let Some(r) = route_id {
        if takes_route(e) {
            lemma_opt_param_has(p0, "route_id"@, route_id, "route_id"@, r);
            lemma_opt_param_has(p1, fk, from, "route_id"@, r);
            lemma_opt_param_has(p2, tk, to, "route_id"@, r);
            if takes_limit(e) {
                lemma_opt_param_has(p3, "limit"@, opt_number(limit), "route_id"@, r);
            }
        } else {
            let n = "route_id"@;
            lemma_opt_param_has(empty, "owner_id"@, owner_id, n, n);
            lemma_opt_param_has(p1, fk, from, n, n);
            lemma_opt_param_has(p2, tk, to, n, n);
            lemma_opt_param_has(p3, "limit"@, opt_number(limit), n, n);
            assert(!has_name(empty, n));
        }
    }
    if let Some(l) = limit {
        let n = "limit"@;
        if takes_limit(e) {
            lemma_opt_param_has(p3, n, opt_number(limit), n, decimal(l as nat));
        } else {
            lemma_opt_param_has(empty, "owner_id"@, owner_id, n, n);
            if takes_route(e) {
                lemma_opt_param_has(p0, "route_id"@, route_id, n, n);
            }
            lemma_opt_param_has(p1, fk, from, n, n);
            lemma_opt_param_has(p2, tk, to, n, n);
            assert(!has_name(empty, n));
        }
    }
}

/// The URL of a statistics query. The period bounds come formatted (see
/// [`format_ymd`] and [`format_hour`]).
pub fn stats_url(
    base_url: &str,
    endpoint: StatsEndpoint,
    owner_id: Option<&str>,
    route_id: Option<&str>,
    from: Option<String>,
    to: Option<String>,
    limit: Option<u32>,
) -> (r: String)
    ensures
        r@ == with_query(
            base_url@ + endpoint_path(endpoint),
            stats_params(endpoint, opt_text_of(owner_id), opt_text_of(route_id), opt_string_text(from), opt_string_text(to), limit),
        ),
{
    let path = match endpoint {
        StatsEndpoint::Daily => "/v1/stats/daily",
        StatsEndpoint::Hourly => "/v1/stats/hourly",
        StatsEndpoint::Geographic => "/v1/stats/geographic",
        StatsEndpoint::Devices => "/v1/stats/devices",
        StatsEndpoint::Browsers => "/v1/stats/browsers",
        StatsEndpoint::RoutePerformance => "/v1/stats/route-performance",
        StatsEndpoint::TopDestinations => "/v1/stats/top-destinations",
        StatsEndpoint::TrafficTypes => "/v1/stats/traffic-types",
    };
    let hourly = endpoint == StatsEndpoint::Hourly || endpoint == StatsEndpoint::TrafficTypes;
    let mut url = String::from_str(base_url);
    url.append(path);
    let mut params: Vec<(String, String)> = Vec::new();
    assert(params_view(params@) =~= Seq::<(Seq<char>, Seq<char>)>::empty());
    push_opt(&mut params, "owner_id", own(owner_id));
    if endpoint != StatsEndpoint::RoutePerformance {
        push_opt(&mut params, "route_id", own(route_id));
    }
    if hourly {
        push_opt(&mut params, "from_hour", from);
        push_opt(&mut params, "to_hour", to);
    } else {
        push_opt(&mut params, "from_date", from);
        push_opt(&mut params, "to_date", to);
    }
    if endpoint == StatsEndpoint::RoutePerformance || endpoint == StatsEndpoint::TopDestinations {
        push_opt(&mut params, "limit", number_text(limit));
    }
    append_query(url, &params)
}

/// A date bound as query text.
pub fn date_param(d: Option<Ymd>) -> (r: Option<String>)
    ensures
        opt_string_text(r) == match d {
            Some(d) => ymd_text(d.year, d.month, d.day),
            None => None,
        },
{
    match d {
        Some(d) => format_ymd(d),
        None => None,
    }
}

/// An hour bound as query text.
pub fn hour_param(t: Option<Timestamp>) -> (r: Option<String>)
    ensures
        opt_string_text(r) == match t {
            Some(t) => hour_text(t.secs, t.nanos),
            None => None,
        },
{
    match t {
        Some(t) => format_hour(t),
        None => None,
    }
}

/// The parameters of a clickstream query, in this order: owner, creator,
/// route, workspace, `created_from`, `created_to`, limit, offset.
pub open spec fn clickstream_params(
    owner_id: Option<Seq<char>>,
    creator_id: Option<Seq<char>>,
    route_id: Option<Seq<char>>,
    workspace_id: Option<Seq<char>>,
    from: Option<Seq<char>>,
    to: Option<Seq<char>>,
    limit: Option<u32>,
    offset: Option<u32>,
) -> Seq<(Seq<char>, Seq<char>)> {
    let p0 = opt_param(Seq::empty(), "owner_id"@, owner_id);
    let p1 = opt_param(p0, "creator_id"@, creator_id);
    let p2 = opt_param(p1, "route_id"@, route_id);
    let p3 = opt_param(p2, "workspace_id"@, workspace_id);
    let p4 = opt_param(p3, "created_from"@, from);
    let p5 = opt_param(p4, "created_to"@, to);
    let p6 = opt_param(p5, "limit"@, opt_number(limit));
    opt_param(p6, "offset"@, opt_number(offset))
}

/// A clickstream query passes every given filter under its name: the owner,
/// creator, route and workspace as `owner_id`, `creator_id`, `route_id`,
/// `workspace_id`, the period as `created_from` and `created_to`, and the
/// limit and offset in decimal as `limit` and `offset`.
pub proof fn lemma_clickstream_filters_passed(
    owner_id: Option<Seq<char>>,
    creator_id: Option<Seq<char>>,
    route_id: Option<Seq<char>>,
    workspace_id: Option<Seq<char>>,
    from: Option<Seq<char>>,
    to: Option<Seq<char>>,
    limit: Option<u32>,
    offset: Option<u32>,
)
    ensures
        owner_id matches Some(x) ==> has_param(clickstream_params(owner_id, creator_id, route_id, workspace_id, from, to, limit, offset), "owner_id"@, x),
        creator_id matches Some(x) ==> has_param(clickstream_params(owner_id, creator_id, route_id, workspace_id, from, to, limit, offset), "creator_id"@, x),
        route_id matches Some(x) ==> has_param(clickstream_params(owner_id, creator_id, route_id, workspace_id, from, to, limit, offset), "route_id"@, x),
        workspace_id matches Some(x) ==> has_param(clickstream_params(owner_id, creator_id, route_id, workspace_id, from, to, limit, offset), "workspace_id"@, x),
        from matches Some(x) ==> has_param(clickstream_params(owner_id, creator_id, route_id, workspace_id, from, to, limit, offset), "created_from"@, x),
        to matches Some(x) ==> has_param(clickstream_params(owner_id, creator_id, route_id, workspace_id, from, to, limit, offset), "created_to"@, x),
        limit matches Some(l) ==> has_param(clickstream_params(owner_id, creator_id, route_id, workspace_id, from, to, limit, offset), "limit"@, decimal(l as nat)),
        offset matches Some(o) ==> has_param(clickstream_params(owner_id, creator_id, route_id, workspace_id, from, to, limit, offset), "offset"@, decimal(o as nat)),
{
    let e0 = Seq::<(Seq<char>, Seq<char>)>::empty();
    let q0 = opt_param(e0, "owner_id"@, owner_id);
    let q1 = opt_param(q0, "creator_id"@, creator_id);
    let q2 = opt_param(q1, "route_id"@, route_id);
    let q3 = opt_param(q2, "workspace_id"@, workspace_id);
    let q4 = opt_param(q3, "created_from"@, from);
    let q5 = opt_param(q4, "created_to"@, to);
    let q6 = opt_param(q5, "limit"@, opt_number(limit));
    let q7 = opt_param(q6, "offset"@, opt_number(offset));
    assert(clickstream_params(owner_id, creator_id, route_id, workspace_id, from, to, limit, offset) == q7);
    if let Some(x) = owner_id {
        lemma_opt_param_has(e0, "owner_id"@, owner_id, "owner_id"@, x);
        lemma_opt_param_has(q0, "creator_id"@, creator_id, "owner_id"@, x);
        lemma_opt_param_has(q1, "route_id"@, route_id, "owner_id"@, x);
        lemma_opt_param_has(q2, "workspace_id"@, workspace_id, "owner_id"@, x);
        lemma_opt_param_has(q3, "created_from"@, from, "owner_id"@, x);
        lemma_opt_param_has(q4, "created_to"@, to, "owner_id"@, x);
        lemma_opt_param_has(q5, "limit"@, opt_number(limit), "owner_id"@, x);
        lemma_opt_param_has(q6, "offset"@, opt_number(offset), "owner_id"@, x);
    }
    if let Some(x) = creator_id {
        lemma_opt_param_has(q0, "creator_id"@, creator_id, "creator_id"@, x);
        lemma_opt_param_has(q1, "route_id"@, route_id, "creator_id"@, x);
        lemma_opt_param_has(q2, "workspace_id"@, workspace_id, "creator_id"@, x);
        lemma_opt_param_has(q3, "created_from"@, from, "creator_id"@, x);
        lemma_opt_param_has(q4, "created_to"@, to, "creator_id"@, x);
        lemma_opt_param_has(q5, "limit"@, opt_number(limit), "creator_id"@, x);
        lemma_opt_param_has(q6, "offset"@, opt_number(offset), "creator_id"@, x);
    }
    if let Some(x) = route_id {
        lemma_opt_param_has(q1, "route_id"@, route_id, "route_id"@, x);
        lemma_opt_param_has(q2, "workspace_id"@, workspace_id, "route_id"@, x);
        lemma_opt_param_has(q3, "created_from"@, from, "route_id"@, x);
        lemma_opt_param_has(q4, "created_to"@, to, "route_id"@, x);
        lemma_opt_param_has(q5, "limit"@, opt_number(limit), "route_id"@, x);
        lemma_opt_param_has(q6, "offset"@, opt_number(offset), "route_id"@, x);
    }
    if let Some(x) = workspace_id {
        lemma_opt_param_has(q2, "workspace_id"@, workspace_id, "workspace_id"@, x);
        lemma_opt_param_has(q3, "created_from"@, from, "workspace_id"@, x);
        lemma_opt_param_has(q4, "created_to"@, to, "workspace_id"@, x);
        lemma_opt_param_has(q5, "limit"@, opt_number(limit), "workspace_id"@, x);
        lemma_opt_param_has(q6, "offset"@, opt_number(offset), "workspace_id"@, x);
    }
    if let Some(x) = from {
        lemma_opt_param_has(q3, "created_from"@, from, "created_from"@, x);
        lemma_opt_param_has(q4, "created_to"@, to, "created_from"@, x);
        lemma_opt_param_has(q5, "limit"@, opt_number(limit), "created_from"@, x);
        lemma_opt_param_has(q6, "offset"@, opt_number(offset), "created_from"@, x);
    }
    if let Some(x) = to {
        lemma_opt_param_has(q4, "created_to"@, to, "created_to"@, x);
        lemma_opt_param_has(q5, "limit"@, opt_number(limit), "created_to"@, x);
        lemma_opt_param_has(q6, "offset"@, opt_number(offset), "created_to"@, x);
    }
    if let Some(x) = opt_number(limit) {
        lemma_opt_param_has(q5, "limit"@, opt_number(limit), "limit"@, x);
        lemma_opt_param_has(q6, "offset"@, opt_number(offset), "limit"@, x);
    }
    if let Some(x) = opt_number(offset) {
        lemma_opt_param_has(q6, "offset"@, opt_number(offset), "offset"@, x);
    }
}

/// The URL of a clickstream query; the bounds come formatted.
pub fn clickstream_url(
    base_url: &str,
    owner_id: Option<&str>,
    creator_id: Option<&str>,
    route_id: Option<&str>,
    workspace_id: Option<&str>,
    from: Option<String>,
    to: Option<String>,
    limit: Option<u32>,
    offset: Option<u32>,
) -> (r: String)
    ensures
        r@ == with_query(
            base_url@ + "/v1/clickstream"@,
            clickstream_params(opt_text_of(owner_id), opt_text_of(creator_id), opt_text_of(route_id),
                opt_text_of(workspace_id), opt_string_text(from), opt_string_text(to), limit, offset),
        ),
{
    let mut url = String::from_str(base_url);
    url.append("/v1/clickstream");
    let mut params: Vec<(String, String)> = Vec::new();
    assert(params_view(params@) =~= Seq::<(Seq<char>, Seq<char>)>::empty());
    push_opt(&mut params, "owner_id", own(owner_id));
    push_opt(&mut params, "creator_id", own(creator_id));
    push_opt(&mut params, "route_id", own(route_id));
    push_opt(&mut params, "workspace_id", own(workspace_id));
    push_opt(&mut params, "created_from", from);
    push_opt(&mut params, "created_to", to);
    push_opt(&mut params, "limit", number_text(limit));
    push_opt(&mut params, "offset", number_text(offset));
    append_query(url, &params)
}

// ---------------------------------------------------------------------------
// Click events enriched with their routes
// ---------------------------------------------------------------------------

/// What the store knows of a route for labelling events.
#[derive(Debug)]
pub struct RouteInfo {
    pub id: u128,
    pub link: String,
    pub domain_name: Option<String>,
}

/// A click event as the front end receives it.
#[derive(Debug)]
pub struct ClickStreamEventDto {
    pub id: String,
    pub owner_id: Option<String>,
    pub creator_id: Option<String>,
    pub route_id: Option<String>,
    pub route_name: Option<String>,
    pub route_domain_name: Option<String>,
    pub workspace_id: Option<String>,
    pub created: String,
    pub dest: Option<String>,
    pub ip: Option<String>,
    pub continent: Option<String>,
    pub country: Option<String>,
    pub location: Option<String>,
    pub os_family: Option<String>,
    pub os_version: Option<String>,
    pub user_agent_family: Option<String>,
    pub user_agent_version: Option<String>,
    pub device_brand: Option<String>,
    pub device_family: Option<String>,
    pub device_model: Option<String>,
    pub session_first: Option<String>,
    pub session_clicks: Option<i64>,
    pub is_unique: Option<bool>,
    pub is_bot: Option<bool>,
}

/// The route id an event names, where it names one that parses as a UUID.
pub open spec fn event_route(item: ClickStreamItem) -> Option<u128> {
    match item.route_id {
        Some(s) => uuid_parse(s@),
        None => None,
    }
}

/// The ids named by the events.
pub open spec fn named_ids(items: Seq<ClickStreamItem>) -> Set<u128> {
    Set::new(|id: u128| exists|i: int| 0 <= i < items.len() && #[trigger] event_route(items[i]) == Some(id))
}

/// The route id an event names, parsed.
fn route_of(item: &ClickStreamItem) -> (r: Option<u128>)
    ensures
        r == event_route(*item),
{
    match &item.route_id {
        Some(s) => match parse_uuid(s.as_str()) {
            Ok(id) => Some(id),
            Err(_) => None,
        },
        None => None,
    }
}

/// The distinct route ids that the events name, each once.
pub fn unique_route_ids(items: &Vec<ClickStreamItem>) -> (r: Vec<u128>)
    ensures
        forall|i: int, j: int| 0 <= i < j < r.len() ==> r@[i] != r@[j],
        r@.to_set() == named_ids(items@),
{
    broadcast use vstd::std_specs::hash::group_hash_axioms;
    let mut out: Vec<u128> = Vec::new();
    let mut seen_ids: std::collections::HashSet<u128> = std::collections::HashSet::new();
    let mut i: usize = 0;
    while i < items.len()
        invariant
            i <= items.len(),
            forall|x: u128| seen_ids@.contains(x) <==> out@.contains(x),
            forall|a: int, b: int| 0 <= a < b < out.len() ==> out@[a] != out@[b],
            forall|id: u128| out@.contains(id) <==> exists|k: int| 0 <= k < i && #[trigger] event_route(items@[k]) == Some(id),
        decreases items.len() - i,
    {
        let ghost prev = out@;
        assert(forall|x: u128| prev.contains(x) <==> exists|k: int| 0 <= k < i && #[trigger] event_route(items@[k]) == Some(x));
        match route_of(&items[i]) {
            Some(id) => {
                let seen = seen_ids.contains(&id);
                if !seen {
                    out.push(id);
                    seen_ids.insert(id);
                    assert forall|a: int, b: int| 0 <= a < b < out.len() implies out@[a] != out@[b] by {
                        if b == prev.len() {
                            assert(out@[a] == prev[a]);
                        } else {
                            assert(out@[a] == prev[a] && out@[b] == prev[b]);
                        }
                    }
                    assert forall|x: u128| out@.contains(x) <==> (prev.contains(x) || x == id) by {
                        if out@.contains(x) {
                            let k = choose|k: int| 0 <= k < out@.len() && out@[k] == x;
                            if k < prev.len() {
                                assert(prev[k] == x);
                            }
                        }
                        if prev.contains(x) {
                            let k = choose|k: int| 0 <= k < prev.len() && prev[k] == x;
                            assert(out@[k] == x);
                        }
                        if x == id {
                            assert(out@[prev.len() as int] == x);
                        }
                    }
                } else {
                    assert(prev.contains(id));
                }
                assert(event_route(items@[i as int]) == Some(id));
                assert forall|x: u128| out@.contains(x) <==> exists|k: int| 0 <= k < i + 1 && #[trigger] event_route(items@[k]) == Some(x) by {
                    if out@.contains(x) {
                        if x == id {
                            assert(event_route(items@[i as int]) == Some(x));
                        } else {
                            assert(prev.contains(x));
                            let k = choose|k: int| 0 <= k < i && #[trigger] event_route(items@[k]) == Some(x);
                            assert(event_route(items@[k]) == Some(x));
                        }
                    }
                    if exists|k: int| 0 <= k < i + 1 && #[trigger] event_route(items@[k]) == Some(x) {
                        let k = choose|k: int| 0 <= k < i + 1 && #[trigger] event_route(items@[k]) == Some(x);
                        if k < i {
                            assert(prev.contains(x));
                        } else {
                            assert(x == id);
                        }
                    }
                }
            },
            None => {
                assert(event_route(items@[i as int]) is None);
                assert forall|x: u128| out@.contains(x) <==> exists|k: int| 0 <= k < i + 1 && #[trigger] event_route(items@[k]) == Some(x) by {
                    if out@.contains(x) {
                        assert(prev.contains(x));
                        let k = choose|k: int| 0 <= k < i && #[trigger] event_route(items@[k]) == Some(x);
                        assert(event_route(items@[k]) == Some(x));
                    }
                    if exists|k: int| 0 <= k < i + 1 && #[trigger] event_route(items@[k]) == Some(x) {
                        let k = choose|k: int| 0 <= k < i + 1 && #[trigger] event_route(items@[k]) == Some(x);
                        assert(k < i);
                        assert(prev.contains(x));
                    }
                }
            },
        }
        i = i + 1;
    }
    assert(out@.to_set() =~= named_ids(items@));
    out
}

/// The last route information with the id `id`, if any (later entries win,
/// as when collecting into a map).
pub open spec fn info_for(infos: Seq<RouteInfo>, id: u128) -> Option<RouteInfo>
    decreases infos.len(),
{
    if infos.len() == 0 {
        None
    } else if infos.last().id == id {
        Some(infos.last())
    } else {
        info_for(infos.drop_last(), id)
    }
}

/// The position of the last route information for `id` (the one a map
/// keyed by id keeps).
pub open spec fn last_pos(infos: Seq<RouteInfo>, id: u128) -> Option<int>
    decreases infos.len(),
{
    if infos.len() == 0 {
        None
    } else if infos.last().id == id {
        Some(infos.len() - 1)
    } else {
        last_pos(infos.drop_last(), id)
    }
}

proof fn lemma_last_pos(infos: Seq<RouteInfo>, id: u128)
    ensures
        match last_pos(infos, id) {
            Some(p) => 0 <= p < infos.len() && info_for(infos, id) == Some(infos[p]),
            None => info_for(infos, id) is None,
        },
    decreases infos.len(),
{
    if infos.len() > 0 && infos.last().id != id {
        lemma_last_pos(infos.drop_last(), id);
        if last_pos(infos.drop_last(), id) is Some {
            let p = last_pos(infos.drop_last(), id)->0;
            assert(infos.drop_last()[p] == infos[p]);
        }
    }
}

/// A map from route id to the position of its last information.
pub open spec fn indexes(m: Map<u128, usize>, infos: Seq<RouteInfo>) -> bool {
    forall|id: u128| #![trigger m.contains_key(id)] #![trigger last_pos(infos, id)]
        (m.contains_key(id) <==> last_pos(infos, id) is Some)
        && (m.contains_key(id) ==> last_pos(infos, id) == Some(m[id] as int))
}

/// The route information keyed by route id; a later entry for an id
/// replaces an earlier one, as inserting into a map does.
fn index_infos(infos: &Vec<RouteInfo>) -> (r: std::collections::HashMap<u128, usize>)
    ensures
        indexes(r@, infos@),
{
    broadcast use vstd::std_specs::hash::group_hash_axioms;
    let mut m: std::collections::HashMap<u128, usize> = std::collections::HashMap::new();
    let mut i: usize = 0;
    assert(infos@.take(0) =~= Seq::<RouteInfo>::empty());
    while i < infos.len()
        invariant
            i <= infos.len(),
            indexes(m@, infos@.take(i as int)),
        decreases infos.len() - i,
    {
        let ghost before = m@;
        m.insert(infos[i].id, i);
        proof {
            let s = infos@.take(i as int + 1);
            assert(s.drop_last() =~= infos@.take(i as int));
            assert(s.last() == infos@[i as int]);
            assert forall|id: u128| #![trigger m@.contains_key(id)] #![trigger last_pos(s, id)]
                (m@.contains_key(id) <==> last_pos(s, id) is Some)
                && (m@.contains_key(id) ==> last_pos(s, id) == Some(m@[id] as int)) by {
                if id != infos@[i as int].id {
                    assert(before.contains_key(id) <==> last_pos(infos@.take(i as int), id) is Some);
                }
            }
        }
        i = i + 1;
    }
    assert(infos@.take(infos.len() as int) =~= infos@);
    m
}

/// The route information for `id`, copied, found through the index.
fn find_info(infos: &Vec<RouteInfo>, index: &std::collections::HashMap<u128, usize>, id: u128) -> (r: Option<(String, Option<String>)>)
    requires
        indexes(index@, infos@),
    ensures
        match info_for(infos@, id) {
            Some(info) => r matches Some(p) && p.0 == info.link && p.1 == info.domain_name,
            None => r is None,
        },
{
    broadcast use vstd::std_specs::hash::group_hash_axioms;
    proof {
        lemma_last_pos(infos@, id);
        assert(index@.contains_key(id) <==> last_pos(infos@, id) is Some);
    }
    match index.get(&id) {
        Some(p) => {
            let p = *p;
            Some((infos[p].link.clone(), crate::entities::copy_opt_string(&infos[p].domain_name)))
        },
        None => None,
    }
}

/// An event labelled with its route: the route's link as its name and the
/// route's domain, where the event names a known route; the rest as reported.
pub open spec fn labelled(item: ClickStreamItem, infos: Seq<RouteInfo>, e: ClickStreamEventDto) -> bool {
    &&& e.id == item.id
    &&& e.owner_id == item.owner_id
    &&& e.creator_id == item.creator_id
    &&& e.route_id == item.route_id
    &&& e.workspace_id == item.workspace_id
    &&& e.created == item.created
    &&& e.dest == item.dest
    &&& e.ip == item.ip
    &&& e.continent == item.continent
    &&& e.country == item.country
    &&& e.location == item.location
    &&& e.os_family == item.os_family
    &&& e.os_version == item.os_version
    &&& e.user_agent_family == item.user_agent_family
    &&& e.user_agent_version == item.user_agent_version
    &&& e.device_brand == item.device_brand
    &&& e.device_family == item.device_family
    &&& e.device_model == item.device_model
    &&& e.session_first == item.session_first
    &&& e.session_clicks == item.session_clicks
    &&& e.is_unique == item.is_unique
    &&& e.is_bot == item.is_bot
    &&& match event_route(item) {
        Some(id) => match info_for(infos, id) {
            Some(info) => e.route_name == Some(info.link) && e.route_domain_name == info.domain_name,
            None => e.route_name is None && e.route_domain_name is None,
        },
        None => e.route_name is None && e.route_domain_name is None,
    }
}

/// Labels one event with its route.
fn label_event(item: ClickStreamItem, infos: &Vec<RouteInfo>, index: &std::collections::HashMap<u128, usize>) -> (r: ClickStreamEventDto)
    requires
        indexes(index@, infos@),
    ensures
        labelled(item, infos@, r),
{
    let (route_name, route_domain_name) = match route_of(&item) {
        Some(id) => match find_info(infos, index, id) {
            Some((link, domain)) => (Some(link), domain),
            None => (None, None),
        },
        None => (None, None),
    };
    ClickStreamEventDto {
        id: item.id,
        owner_id: item.owner_id,
        creator_id: item.creator_id,
        route_id: item.route_id,
        route_name,
        route_domain_name,
        workspace_id: item.workspace_id,
        created: item.created,
        dest: item.dest,
        ip: item.ip,
        continent: item.continent,
        country: item.country,
        location: item.location,
        os_family: item.os_family,
        os_version: item.os_version,
        user_agent_family: item.user_agent_family,
        user_agent_version: item.user_agent_version,
        device_brand: item.device_brand,
        device_family: item.device_family,
        device_model: item.device_model,
        session_first: item.session_first,
        session_clicks: item.session_clicks,
        is_unique: item.is_unique,
        is_bot: item.is_bot,
    }
}

/// The items of a clickstream query: a failed query is a failure of the
/// aggregator (502 with its message); an answered one gives its items.
pub fn clickstream_items(answer: Result<ClickStreamResponse, String>) -> (r: Result<Vec<ClickStreamItem>, ApiError>)
    ensures
        answer matches Ok(resp) ==> r == Ok::<Vec<ClickStreamItem>, ApiError>(resp.items),
        answer matches Err(m) ==> (r matches Err(e) && e.code == ErrorCode::ExternalServiceError
            && e.message@ == m@ && e.details is None),
{
    match answer {
        Ok(resp) => Ok(resp.items),
        Err(m) => Err(ApiError::external_service(m)),
    }
}

/// The known routes of a lookup's answer: a failed lookup knows none.
pub open spec fn infos_known(lookup: Result<Vec<RouteInfo>, String>) -> Seq<RouteInfo> {
    match lookup {
        Ok(v) => v@,
        Err(_) => Seq::empty(),
    }
}

/// The events of a clickstream, labelled with the routes that the lookup
/// found; a failed lookup only leaves the labels out, it is no error.
pub fn clickstream_events(items: Vec<ClickStreamItem>, lookup: Result<Vec<RouteInfo>, String>) -> (r: Vec<ClickStreamEventDto>)
    ensures
        r.len() == items.len(),
        forall|i: int| 0 <= i < items.len() ==> labelled(items@[i], infos_known(lookup), #[trigger] r@[i]),
{
    let infos = match lookup {
        Ok(v) => v,
        Err(_) => Vec::new(),
    };
    enrich_events(items, &infos)
}

/// Labels each event with its route (see [`labelled`]), in order.
pub fn enrich_events(items: Vec<ClickStreamItem>, infos: &Vec<RouteInfo>) -> (r: Vec<ClickStreamEventDto>)
    ensures
        r.len() == items.len(),
        forall|i: int| 0 <= i < items.len() ==> labelled(items@[i], infos@, #[trigger] r@[i]),
{
    let ghost src = items@;
    let index = index_infos(infos);
    let mut rest = items;
    let mut out: Vec<ClickStreamEventDto> = Vec::new();
    let mut i: usize = 0;
    let n = rest.len();
    assert(src.len() == n);
    while rest.len() > 0
        invariant
            i + rest.len() == src.len(),
            src.len() <= usize::MAX,
            rest@ == src.subrange(i as int, src.len() as int),
            out.len() == i,
            indexes(index@, infos@),
            forall|j: int| 0 <= j < i ==> labelled(src[j], infos@, #[trigger] out@[j]),
        decreases rest.len(),
    {
        let item = rest.remove(0);
        assert(item == src[i as int]);
        out.push(label_event(item, infos, &index));
        i = i + 1;
        assert(rest@ =~= src.subrange(i as int, src.len() as int));
    }
    out
}

} // verus!
