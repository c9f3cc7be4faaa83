//! Calls into std and into outside crates (uuid, chrono, rand, jsonwebtoken), each behind a
//! small trusted item whose contract states what the callee's source or
//! documentation promises.

use chrono::Datelike;
use rand::Rng;
use vstd::prelude::*;
use vstd::string::*;

use crate::json::{lookup, JsonView};
use crate::text::decimal;

verus! {

/// A point in time as seconds and nanoseconds since the Unix epoch (UTC).
#[derive(Clone, Copy, PartialEq, Eq, Structural, Debug)]
pub struct Timestamp {
    pub secs: i64,
    pub nanos: u32,
}

/// The lower-case hexadecimal digit for a nibble value below 16.
pub open spec fn hex_lower(n: u128) -> char {
    if n < 10 {
        (('0' as u8) + n) as char
    } else {
        (('a' as u8) + (n - 10)) as char
    }
}

/// The `k`-th hexadecimal digit (0 = most significant) of a 128-bit value.
pub open spec fn nibble(u: u128, k: int) -> u128 {
    ((u >> ((4 * (31 - k)) as u128)) & 15u128) as u128
}

/// The hyphenated lower-case text of a UUID: 8-4-4-4-12 hexadecimal digits,
/// most significant first, with hyphens at positions 8, 13, 18 and 23.
pub open spec fn uuid_text(u: u128) -> Seq<char> {
    Seq::new(
        36,
        |i: int|
            if i == 8 || i == 13 || i == 18 || i == 23 {
                '-'
            } else {
                let k = if i < 8 {
                    i
                } else if i < 13 {
                    i - 1
                } else if i < 18 {
                    i - 2
                } else if i < 23 {
                    i - 3
                } else {
                    i - 4
                };
                hex_lower(nibble(u, k))
            },
    )
}

/// What `uuid::Uuid::parse_str` accepts and yields, as the 128-bit value of the UUID.
pub uninterp spec fn uuid_parse(s: Seq<char>) -> Option<u128>;

/// What `chrono::DateTime::<Utc>::to_rfc3339` writes for a timestamp, or `None`
/// where `DateTime::from_timestamp` rejects the seconds/nanoseconds pair.
pub uninterp spec fn rfc3339_of(secs: i64, nanos: u32) -> Option<Seq<char>>;

/// What `str::to_lowercase` returns for a string.
pub uninterp spec fn lowercase(s: Seq<char>) -> Seq<char>;

/// Calls `uuid::Uuid::new_v4`. Its source masks a random 128-bit value so that
/// the version nibble (bits 76..80) is 4 and the variant bits (62..64) are
/// `10`; nothing else is promised of the value.
#[verifier::external_body]
pub(crate) fn new_uuid() -> (r: u128)
    ensures
        (r >> 76u128) & 15u128 == 4u128,
        (r >> 62u128) & 3u128 == 2u128,
{
    uuid::Uuid::new_v4().as_u128()
}

/// Calls `uuid::Uuid::parse_str` and hands back the parsed value as a `u128`
/// (`Uuid::as_u128`), or the parser's error message (`uuid::Error`'s
/// `Display`). Claimed: the result is `Ok` exactly where the named parse
/// succeeds, with the named value. The accepted formats and the wording of
/// the message are not spelled out.
#[verifier::external_body]
pub(crate) fn parse_uuid(s: &str) -> (r: Result<u128, String>)
    ensures
        r is Ok <==> uuid_parse(s@) is Some,
        r matches Ok(v) ==> uuid_parse(s@) == Some(v),
{
    uuid::Uuid::parse_str(s).map(|u| u.as_u128()).map_err(|e| e.to_string())
}

/// Calls `uuid::Uuid::from_u128(u).to_string()`. Claimed: the text is the
/// hyphenated lower-case form, as `uuid`'s `Display` (LowerHex, `format_hyphenated`) writes it,
/// and `Uuid::parse_str` reads that form back as the same value.
#[verifier::external_body]
pub(crate) fn uuid_to_string(u: u128) -> (r: String)
    ensures
        r@ == uuid_text(u),
        uuid_parse(r@) == Some(u),
{
    uuid::Uuid::from_u128(u).to_string()
}

/// Calls `chrono::Utc::now()`. Claimed: the seconds are not negative and the
/// nanoseconds are below one second, as `Utc::now` builds the value from a
/// `Duration` since the epoch (it panics on a clock before 1970); the seconds
/// stay below 8.3e12, as every `DateTime<Utc>` lies before chrono's last year
/// (262142). The value itself depends on the clock.
#[verifier::external_body]
pub(crate) fn now() -> (r: Timestamp)
    ensures
        0 <= r.secs < 8_300_000_000_000,
        r.nanos < 1_000_000_000,
{
    let t = chrono::Utc::now();
    Timestamp { secs: t.timestamp(), nanos: t.timestamp_subsec_nanos() }
}

/// Calls `chrono::DateTime::from_timestamp` and then `to_rfc3339` on the result.
/// Claimed: the text is the named RFC 3339 rendering of the timestamp.
#[verifier::external_body]
pub(crate) fn rfc3339(ts: Timestamp) -> (r: Option<String>)
    ensures
        r matches Some(s) ==> rfc3339_of(ts.secs, ts.nanos) == Some(s@),
        r is None <==> rfc3339_of(ts.secs, ts.nanos) is None,
{
    chrono::DateTime::from_timestamp(ts.secs, ts.nanos).map(|d| d.to_rfc3339())
}

/// Calls `rand::rng().random_range(0..n)`. Claimed: the value lies in `0..n`;
/// which value comes out is chance.
#[verifier::external_body]
pub(crate) fn random_below(n: usize) -> (r: usize)
    requires
        n > 0,
    ensures
        r < n,
{
    rand::rng().random_range(0..n)
}

/// Calls `String::push`. Claimed: the character is appended.
#[verifier::external_body]
pub(crate) fn string_push(s: &mut String, c: char)
    ensures
        final(s)@ == old(s)@.push(c),
{
    s.push(c)
}

/// The characters of a string, in order.
fn chars_of(s: &str) -> (r: Vec<char>)
    ensures
        r@ == s@,
{
    let n = s.unicode_len();
    let mut out: Vec<char> = Vec::new();
    let mut i: usize = 0;
    while i < n
        invariant
            n == s@.len(),
            i <= n,
            out@ == s@.take(i as int),
        decreases n - i,
    {
        out.push(s.get_char(i));
        i = i + 1;
        assert(out@ =~= s@.take(i as int));
    }
    assert(s@.take(n as int) =~= s@);
    out
}

/// Whether two strings hold the same characters.
pub(crate) fn str_eq(a: &str, b: &str) -> (r: bool)
    ensures
        r == (a@ == b@),
{
    let x = chars_of(a);
    let y = chars_of(b);
    if x.len() != y.len() {
        return false;
    }
    let mut i: usize = 0;
    while i < x.len()
        invariant
            x@ == a@,
            y@ == b@,
            x.len() == y.len(),
            i <= x.len(),
            forall|j: int| 0 <= j < i ==> x@[j] == y@[j],
        decreases x.len() - i,
    {
        if x[i] != y[i] {
            return false;
        }
        i = i + 1;
    }
    assert(a@ =~= b@);
    true
}

/// Calls `str::to_lowercase`. Claimed: the named lower-case form.
#[verifier::external_body]
pub(crate) fn to_lowercase(s: &str) -> (r: String)
    ensures
        r@ == lowercase(s@),
{
    s.to_lowercase()
}

/// `needle` occurs in `hay` as a contiguous run of characters.
pub open spec fn contains_seq(hay: Seq<char>, needle: Seq<char>) -> bool {
    exists|i: int| 0 <= i <= hay.len() - needle.len() && #[trigger] hay.subrange(i, i + needle.len()) == needle
}

/// Whether `needle` occurs in `hay` as a contiguous run of characters
/// (the empty needle always does).
pub(crate) fn str_contains(hay: &str, needle: &str) -> (r: bool)
    ensures
        r == contains_seq(hay@, needle@),
{
    let h = chars_of(hay);
    let nd = chars_of(needle);
    if nd.len() > h.len() {
        return false;
    }
    if nd.len() == 0 {
        assert(hay@.subrange(0int, 0int + needle@.len()) =~= needle@);
        return true;
    }
    let last = h.len() - nd.len();
    let mut i: usize = 0;
    while i <= last
        invariant
            h@ == hay@,
            nd@ == needle@,
            last == h.len() - nd.len(),
            nd.len() > 0,
            i <= last + 1,
            forall|k: int| 0 <= k < i ==> #[trigger] hay@.subrange(k, k + needle@.len()) != needle@,
        decreases last + 1 - i,
    {
        let mut j: usize = 0;
        let mut same = true;
        while j < nd.len()
            invariant
                h@ == hay@,
                nd@ == needle@,
                i <= last,
                last == h.len() - nd.len(),
                j <= nd.len(),
                same ==> forall|m: int| 0 <= m < j ==> h@[i + m] == nd@[m],
                !same ==> hay@.subrange(i as int, i + needle@.len()) != needle@,
            decreases nd.len() - j,
        {
            if h[i + j] != nd[j] {
                if same {
                    assert(hay@.subrange(i as int, i + needle@.len())[j as int] == h@[i + j]);
                }
                same = false;
            }
            j = j + 1;
        }
        if same {
            assert(hay@.subrange(i as int, i + needle@.len()) =~= needle@);
            return true;
        }
        i = i + 1;
    }
    assert forall|k: int| 0 <= k <= hay@.len() - needle@.len() implies #[trigger] hay@.subrange(k, k + needle@.len()) != needle@ by {
        assert(k < i);
    }
    false
}

/// A calendar date (proleptic Gregorian).
#[derive(Clone, Copy, PartialEq, Eq, Structural, Debug)]
pub struct Ymd {
    pub year: i32,
    pub month: u32,
    pub day: u32,
}

/// The local calendar date of an RFC 3339 timestamp, as
/// `DateTime::parse_from_rfc3339(s)` then `date_naive()` give it.
pub uninterp spec fn rfc3339_local_date(s: Seq<char>) -> Option<Ymd>;

/// The date that `NaiveDate::parse_from_str(s, "%Y-%m-%d")` reads.
pub uninterp spec fn ymd_parse(s: Seq<char>) -> Option<Ymd>;

/// A leap year of the proleptic Gregorian calendar.
pub open spec fn is_leap_year(y: int) -> bool {
    (y % 4 == 0 && y % 100 != 0) || y % 400 == 0
}

/// The number of days of month `m` (1 to 12) of year `y`.
pub open spec fn days_in_month(y: int, m: int) -> int {
    if m == 2 {
        if is_leap_year(y) { 29 } else { 28 }
    } else if m == 4 || m == 6 || m == 9 || m == 11 {
        30
    } else {
        31
    }
}

/// A date that `NaiveDate::from_ymd_opt` accepts: a year within chrono's
/// range (-262143 to 262142), a month from 1 to 12 and a day of that month.
pub open spec fn date_exists(year: i32, month: u32, day: u32) -> bool {
    &&& -262143 <= year <= 262142
    &&& 1 <= month <= 12
    &&& 1 <= day <= days_in_month(year as int, month as int)
}

/// The decimal digits of `n`, padded with leading zeros to `width`.
pub open spec fn zero_padded(n: nat, width: nat) -> Seq<char> {
    let t = decimal(n);
    if t.len() < width {
        Seq::new((width - t.len()) as nat, |_i: int| '0') + t
    } else {
        t
    }
}

/// A year as `%Y` writes it: four digits with leading zeros from 0 to 9999,
/// else a sign and at least four digits.
pub open spec fn year_text(y: int) -> Seq<char> {
    if 0 <= y < 10000 {
        zero_padded(y as nat, 4)
    } else if y < 0 {
        "-"@ + zero_padded((-y) as nat, 4)
    } else {
        "+"@ + zero_padded(y as nat, 4)
    }
}

/// What `NaiveDate::format("%Y-%m-%d")` writes for a date (the year as
/// [`year_text`], month and day as two digits), or `None` where
/// `NaiveDate::from_ymd_opt` rejects it.
pub open spec fn ymd_text(year: i32, month: u32, day: u32) -> Option<Seq<char>> {
    if date_exists(year, month, day) {
        Some(year_text(year as int) + "-"@ + zero_padded(month as nat, 2) + "-"@ + zero_padded(day as nat, 2))
    } else {
        None
    }
}

/// The instant of an RFC 3339 timestamp in UTC (seconds and nanoseconds), as
/// `DateTime::parse_from_rfc3339(s)` then `with_timezone(&Utc)` give it.
pub uninterp spec fn rfc3339_instant(s: Seq<char>) -> Option<Timestamp>;

/// What `DateTime::<Utc>::format("%Y-%m-%dT%H:%M:%SZ")` writes for an
/// instant, or `None` where `DateTime::from_timestamp` rejects it.
pub uninterp spec fn hour_text(secs: i64, nanos: u32) -> Option<Seq<char>>;

/// The UTC calendar date of an instant (`date_naive()`), or `None` where
/// `DateTime::from_timestamp` rejects it.
pub uninterp spec fn utc_date(secs: i64, nanos: u32) -> Option<Ymd>;

/// Calls `DateTime::parse_from_rfc3339` and takes the local date of the
/// result. Claimed: the named date, or `None` where the text does not parse.
#[verifier::external_body]
pub(crate) fn parse_rfc3339_date(s: &str) -> (r: Option<Ymd>)
    ensures
        r == rfc3339_local_date(s@),
{
    chrono::DateTime::parse_from_rfc3339(s).ok().map(|dt| {
        let d = dt.date_naive();
        Ymd { year: d.year(), month: d.month(), day: d.day() }
    })
}

/// Calls `NaiveDate::parse_from_str(s, "%Y-%m-%d")`. Claimed: the named date,
/// or `None` where the text does not parse.
#[verifier::external_body]
pub(crate) fn parse_ymd(s: &str) -> (r: Option<Ymd>)
    ensures
        r == ymd_parse(s@),
{
    chrono::NaiveDate::parse_from_str(s, "%Y-%m-%d").ok().map(|d| Ymd { year: d.year(), month: d.month(), day: d.day() })
}

/// Calls `NaiveDate::from_ymd_opt` and formats the date as `%Y-%m-%d`.
/// Claimed: the text [`ymd_text`] states, `None` for a date that does not exist.
#[verifier::external_body]
pub(crate) fn format_ymd(d: Ymd) -> (r: Option<String>)
    ensures
        r is Some <==> ymd_text(d.year, d.month, d.day) is Some,
        r matches Some(t) ==> ymd_text(d.year, d.month, d.day) == Some(t@),
{
    chrono::NaiveDate::from_ymd_opt(d.year, d.month, d.day).map(|x| x.format("%Y-%m-%d").to_string())
}

/// Calls `DateTime::parse_from_rfc3339` and converts the result to UTC.
/// Claimed: the named instant, or `None` where the text does not parse.
#[verifier::external_body]
pub(crate) fn parse_rfc3339_instant(s: &str) -> (r: Option<Timestamp>)
    ensures
        r == rfc3339_instant(s@),
{
    chrono::DateTime::parse_from_rfc3339(s).ok().map(|dt| {
        let u = dt.with_timezone(&chrono::Utc);
        Timestamp { secs: u.timestamp(), nanos: u.timestamp_subsec_nanos() }
    })
}

/// Calls `DateTime::from_timestamp` and formats the instant as
/// `%Y-%m-%dT%H:%M:%SZ`. Claimed: the named text.
#[verifier::external_body]
pub(crate) fn format_hour(ts: Timestamp) -> (r: Option<String>)
    ensures
        r is Some <==> hour_text(ts.secs, ts.nanos) is Some,
        r matches Some(t) ==> hour_text(ts.secs, ts.nanos) == Some(t@),
{
    chrono::DateTime::from_timestamp(ts.secs, ts.nanos).map(|d| d.format("%Y-%m-%dT%H:%M:%SZ").to_string())
}

/// Calls `DateTime::from_timestamp` and takes `date_naive()`. Claimed: the
/// named UTC date.
#[verifier::external_body]
pub(crate) fn date_of(ts: Timestamp) -> (r: Option<Ymd>)
    ensures
        r == utc_date(ts.secs, ts.nanos),
{
    chrono::DateTime::from_timestamp(ts.secs, ts.nanos).map(|dt| {
        let d = dt.date_naive();
        Ymd { year: d.year(), month: d.month(), day: d.day() }
    })
}

/// The key id (`kid`) in a JSON Web Token's header, as
/// `jsonwebtoken::decode_header` reads it; `None` where the header does not
/// decode or names no key.
pub uninterp spec fn jwt_kid(token: Seq<char>) -> Option<Seq<char>>;

/// The claims of a JSON Web Token (its payload, decoded as JSON), as
/// `jsonwebtoken::decode` reads them; `None` where the payload does not decode.
pub uninterp spec fn jwt_claims(token: Seq<char>) -> Option<JsonView>;

/// The claim `key` of a claims object names `v` where it is given as text:
/// it is the string `v`, or an array of strings that holds `v`. A claim that
/// is absent, or of another form, is not held to `v` (jsonwebtoken's
/// `validate` checks only a claim that reads as a string or strings).
pub open spec fn claim_names_if_given(claims: JsonView, key: Seq<char>, v: Seq<char>) -> bool {
    match claims {
        JsonView::Object(es) => match lookup(es, key) {
            Some(JsonView::Str(s)) => s == v,
            Some(JsonView::Array(xs)) => (forall|i: int| 0 <= i < xs.len() ==> #[trigger] xs[i] is Str)
                ==> exists|i: int| 0 <= i < xs.len() && xs[i] == JsonView::Str(v),
            _ => true,
        },
        _ => true,
    }
}

/// Calls `jsonwebtoken::decode_header` and takes the header's `kid`.
/// Claimed: the named key id.
#[verifier::external_body]
pub(crate) fn token_key_id(token: &str) -> (r: Option<String>)
    ensures
        r is None <==> jwt_kid(token@) is None,
        r matches Some(k) ==> jwt_kid(token@) == Some(k@),
{
    jsonwebtoken::decode_header(token).ok().and_then(|h| h.kid)
}

/// Calls `jsonwebtoken::decode` with the key that the JWK text describes
/// (`DecodingKey::from_jwk`), the header's algorithm, and the issuer and the
/// audience set (jsonwebtoken's other defaults kept). Claimed, of every
/// outcome: where it succeeds, the token's claims name the issuer under `iss`
/// and the audience under `aud` where those claims are given as text
/// (jsonwebtoken's `validate`). Left unsaid: the signature check and the
/// expiry, which depends on the clock.
#[verifier::external_body]
pub(crate) fn verify_token(token: &str, jwk_json: &str, issuer: &str, audience: &str) -> (r: Result<(), String>)
    ensures
        r is Ok ==> (jwt_claims(token@) matches Some(c) && claim_names_if_given(c, "iss"@, issuer@)
            && claim_names_if_given(c, "aud"@, audience@)),
{
    let jwk: jsonwebtoken::jwk::Jwk = serde_json::from_str(jwk_json).map_err(|e| e.to_string())?;
    let key = jsonwebtoken::DecodingKey::from_jwk(&jwk).map_err(|e| e.to_string())?;
    let header = jsonwebtoken::decode_header(token).map_err(|e| e.to_string())?;
    let mut validation = jsonwebtoken::Validation::new(header.alg);
    validation.set_issuer(&[issuer]);
    validation.set_audience(&[audience]);
    jsonwebtoken::decode::<serde::de::IgnoredAny>(token, &key, &validation).map(|_| ()).map_err(|e| e.to_string())
}

} // verus!
