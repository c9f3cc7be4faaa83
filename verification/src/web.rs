//! Rules of the HTTP surface: credentials in headers, error statuses,
//! response headers, health answers and rate-limit answers.

use vstd::prelude::*;
use vstd::string::*;

use crate::ext::{claim_names_if_given, jwt_claims, jwt_kid, str_eq, token_key_id, verify_token};
use crate::json::{entries_view, JsonValue, JsonView};
use crate::text::{decimal, u64_text};

verus! {

/// The scheme prefix of a bearer credential.
pub open spec fn bearer_prefix() -> Seq<char> {
    "Bearer "@
}

/// Why a request carries no usable credential.
#[derive(PartialEq, Eq, Structural, Clone, Copy, Debug)]
pub enum AuthRejection {
    /// There is no `Authorization` header.
    Missing,
    /// The header is not a bearer credential.
    Malformed,
    /// The token did not validate.
    Invalid,
}

/// The message the API answers a rejection with.
pub open spec fn rejection_message(r: AuthRejection) -> Seq<char> {
    match r {
        AuthRejection::Missing => "Authorization header required"@,
        AuthRejection::Malformed => "Invalid Authorization header format"@,
        AuthRejection::Invalid => "Invalid or expired token"@,
    }
}

/// The token of an `Authorization` header value: what follows `Bearer `;
/// refused where the header is missing or has another form.
pub fn bearer_token(header: Option<&str>) -> (r: Result<String, AuthRejection>)
    ensures
        header is None ==> r == Err::<String, AuthRejection>(AuthRejection::Missing),
        header matches Some(h) ==> {
            if h@.len() >= 7 && h@.take(7) == bearer_prefix() {
                r matches Ok(t) && t@ == h@.skip(7)
            } else {
                r == Err::<String, AuthRejection>(AuthRejection::Malformed)
            }
        },
{
    match header {
        None => Err(AuthRejection::Missing),
        Some(h) => {
            let n = h.unicode_len();
            proof {
                reveal_strlit("Bearer ");
            }
            if n < 7 {
                return Err(AuthRejection::Malformed);
            }
            let prefix = h.substring_char(0, 7);
            if crate::ext::str_eq(prefix, "Bearer ") {
                Ok(String::from_str(h.substring_char(7, n)))
            } else {
                Err(AuthRejection::Malformed)
            }
        },
    }
}

/// A signing key of the identity provider: its key id, where it has one,
/// and the key itself as JWK text.
#[derive(Debug)]
pub struct SigningKey {
    pub kid: Option<String>,
    pub jwk_json: String,
}

/// The position of the first key whose id is `kid` (the lookup of
/// `JwkSet::find`).
pub open spec fn first_key(keys: Seq<SigningKey>, kid: Seq<char>) -> Option<int>
    decreases keys.len(),
{
    if keys.len() == 0 {
        None
    } else {
        match first_key(keys.drop_last(), kid) {
            Some(i) => Some(i),
            None => if keys.last().kid matches Some(k) && k@ == kid {
                Some(keys.len() - 1)
            } else {
                None
            },
        }
    }
}

/// The first key whose id is `kid`.
pub fn find_key<'a>(keys: &'a Vec<SigningKey>, kid: &str) -> (r: Option<&'a SigningKey>)
    ensures
        match first_key(keys@, kid@) {
            Some(i) => r == Some(&keys@[i]),
            None => r is None,
        },
{
    let mut i: usize = 0;
    while i < keys.len()
        invariant
            i <= keys.len(),
            first_key(keys@.take(i as int), kid@) is None,
        decreases keys.len() - i,
    {
        assert(keys@.take(i as int + 1).drop_last() =~= keys@.take(i as int));
        let matches = match &keys[i].kid {
            Some(k) => str_eq(k.as_str(), kid),
            None => false,
        };
        if matches {
            proof {
                assert(first_key(keys@.take(i as int + 1), kid@) == Some(i as int));
                lemma_first_key_prefix(keys@, kid@, i as int + 1);
            }
            return Some(&keys[i]);
        }
        i = i + 1;
    }
    assert(keys@.take(keys.len() as int) =~= keys@);
    None
}

/// A found key stays found in any longer list.
proof fn lemma_first_key_prefix(keys: Seq<SigningKey>, kid: Seq<char>, n: int)
    requires
        0 <= n <= keys.len(),
        first_key(keys.take(n), kid) is Some,
    ensures
        first_key(keys, kid) == first_key(keys.take(n), kid),
    decreases keys.len() - n,
{
    if n < keys.len() {
        assert(keys.take(n + 1).drop_last() =~= keys.take(n));
        lemma_first_key_prefix(keys, kid, n + 1);
    } else {
        assert(keys.take(n) =~= keys);
    }
}

/// Validates a bearer token against the provider's keys: the key named by
/// the token's `kid` must be among them and the token must verify with it,
/// for this issuer and audience. Any failure is `Invalid`.
pub fn check_token(token: &str, keys: &Vec<SigningKey>, issuer: &str, audience: &str) -> (r: Result<(), AuthRejection>)
    ensures
        r is Err ==> r == Err::<(), AuthRejection>(AuthRejection::Invalid),
        jwt_kid(token@) is None ==> r is Err,
        (jwt_kid(token@) matches Some(k) && first_key(keys@, k) is None) ==> r is Err,
        r is Ok ==> {
            &&& jwt_kid(token@) matches Some(k) && first_key(keys@, k) is Some
            &&& jwt_claims(token@) matches Some(c) && claim_names_if_given(c, "iss"@, issuer@)
                && claim_names_if_given(c, "aud"@, audience@)
        },
{
    let kid = match token_key_id(token) {
        Some(k) => k,
        None => {
            return Err(AuthRejection::Invalid);
        },
    };
    let key = match find_key(keys, kid.as_str()) {
        Some(k) => k,
        None => {
            return Err(AuthRejection::Invalid);
        },
    };
    match verify_token(token, key.jwk_json.as_str(), issuer, audience) {
        Ok(()) => Ok(()),
        Err(_) => Err(AuthRejection::Invalid),
    }
}

/// Authenticates an `Authorization` header value: its bearer token, checked
/// by [`check_token`]. The token is handed back for its claims to be read.
pub fn authenticate_token(header: Option<&str>, keys: &Vec<SigningKey>, issuer: &str, audience: &str) -> (r: Result<String, AuthRejection>)
    ensures
        header is None ==> r == Err::<String, AuthRejection>(AuthRejection::Missing),
        (header matches Some(h) && !(h@.len() >= 7 && h@.take(7) == bearer_prefix()))
            ==> r == Err::<String, AuthRejection>(AuthRejection::Malformed),
        r is Err ==> (r == Err::<String, AuthRejection>(AuthRejection::Missing)
            || r == Err::<String, AuthRejection>(AuthRejection::Malformed)
            || r == Err::<String, AuthRejection>(AuthRejection::Invalid)),
        r matches Ok(t) ==> {
            &&& header matches Some(h) && h@.len() >= 7 && h@.take(7) == bearer_prefix() && t@ == h@.skip(7)
            &&& jwt_kid(t@) matches Some(k) && first_key(keys@, k) is Some
            &&& jwt_claims(t@) matches Some(c) && claim_names_if_given(c, "iss"@, issuer@)
                && claim_names_if_given(c, "aud"@, audience@)
        },
        (header matches Some(h) && h@.len() >= 7 && h@.take(7) == bearer_prefix() && r is Err)
            ==> r == Err::<String, AuthRejection>(AuthRejection::Invalid),
        (header matches Some(h) && h@.len() >= 7 && h@.take(7) == bearer_prefix() && jwt_kid(h@.skip(7)) is None)
            ==> r == Err::<String, AuthRejection>(AuthRejection::Invalid),
{
    let token = bearer_token(header)?;
    match check_token(token.as_str(), keys, issuer, audience) {
        Ok(()) => Ok(token),
        Err(e) => Err(e),
    }
}

/// The JSON answer to a rejected credential: `{"code": "UNAUTHORIZED", "message": ...}`.
pub fn rejection_body(r: AuthRejection) -> (b: JsonValue)
    ensures
        b@ == JsonView::Object(seq![
            ("code"@, JsonView::Str("UNAUTHORIZED"@)),
            ("message"@, JsonView::Str(rejection_message(r))),
        ]),
{
    let m = match r {
        AuthRejection::Missing => "Authorization header required",
        AuthRejection::Malformed => "Invalid Authorization header format",
        AuthRejection::Invalid => "Invalid or expired token",
    };
    let es = vec![
        (String::from_str("code"), JsonValue::Str(String::from_str("UNAUTHORIZED"))),
        (String::from_str("message"), JsonValue::Str(String::from_str(m))),
    ];
    proof {
        assert(entries_view(es@) =~= seq![
            ("code"@, JsonView::Str("UNAUTHORIZED"@)),
            ("message"@, JsonView::Str(rejection_message(r))),
        ]);
    }
    JsonValue::Object(es)
}

/// The status sent for an error status number: the number where it is a
/// valid HTTP status (100 to 999), else 500.
pub fn response_status(code: u16) -> (r: u16)
    ensures
        r == if 100 <= code <= 999 { code } else { 500 },
{
    if 100 <= code && code <= 999 {
        code
    } else {
        500
    }
}

/// The security headers added to every response.
pub open spec fn security_headers_spec() -> Seq<(Seq<char>, Seq<char>)> {
    seq![
        ("X-Content-Type-Options"@, "nosniff"@),
        ("X-Frame-Options"@, "DENY"@),
        ("X-XSS-Protection"@, "1; mode=block"@),
        ("Referrer-Policy"@, "strict-origin-when-cross-origin"@),
    ]
}

/// The pairs as text.
pub open spec fn pairs_view(v: Seq<(String, String)>) -> Seq<(Seq<char>, Seq<char>)> {
    v.map_values(|p: (String, String)| (p.0@, p.1@))
}

/// The security headers added to every response.
pub fn security_headers() -> (r: Vec<(String, String)>)
    ensures
        pairs_view(r@) == security_headers_spec(),
{
    let r = vec![
        (String::from_str("X-Content-Type-Options"), String::from_str("nosniff")),
        (String::from_str("X-Frame-Options"), String::from_str("DENY")),
        (String::from_str("X-XSS-Protection"), String::from_str("1; mode=block")),
        (String::from_str("Referrer-Policy"), String::from_str("strict-origin-when-cross-origin")),
    ];
    assert(pairs_view(r@) =~= security_headers_spec());
    r
}

/// Health status response.
#[derive(Debug)]
pub struct HealthStatus {
    pub status: String,
    pub version: String,
    pub database: Option<String>,
    pub elasticsearch: Option<String>,
    pub storage: Option<String>,
}

impl HealthStatus {
    /// The answer of a live process: `ok`, with no dependency reported.
    pub fn alive(version: &str) -> (r: Self)
        ensures
            r.status@ == "ok"@,
            r.version@ == version@,
            r.database is None,
            r.elasticsearch is None,
            r.storage is None,
    {
        HealthStatus {
            status: String::from_str("ok"),
            version: String::from_str(version),
            database: None,
            elasticsearch: None,
            storage: None,
        }
    }

    /// The answer where the service state cannot be reached: `error`, every
    /// dependency `unknown`.
    pub fn unknown(version: &str) -> (r: Self)
        ensures
            r.status@ == "error"@,
            r.version@ == version@,
            r.database matches Some(d) && d@ == "unknown"@,
            r.elasticsearch matches Some(e) && e@ == "unknown"@,
            r.storage matches Some(s) && s@ == "unknown"@,
    {
        HealthStatus {
            status: String::from_str("error"),
            version: String::from_str(version),
            database: Some(String::from_str("unknown")),
            elasticsearch: Some(String::from_str("unknown")),
            storage: Some(String::from_str("unknown")),
        }
    }
}

/// `ok` or `error`.
pub open spec fn ok_or_error(b: bool) -> Seq<char> {
    if b { "ok"@ } else { "error"@ }
}

/// The readiness answer: ready (200, `ok`) when search and storage both
/// answer, else degraded (503); the database counts as up.
pub fn readiness(search_ok: bool, storage_ok: bool, version: &str) -> (r: (u16, HealthStatus))
    ensures
        r.0 == if search_ok && storage_ok { 200u16 } else { 503u16 },
        r.1.status@ == if search_ok && storage_ok { "ok"@ } else { "degraded"@ },
        r.1.version@ == version@,
        r.1.database matches Some(d) && d@ == "ok"@,
        r.1.elasticsearch matches Some(e) && e@ == ok_or_error(search_ok),
        r.1.storage matches Some(s) && s@ == ok_or_error(storage_ok),
{
    let all_ok = search_ok && storage_ok;
    let es = if search_ok { "ok" } else { "error" };
    let st = if storage_ok { "ok" } else { "error" };
    let status = if all_ok { "ok" } else { "degraded" };
    let code: u16 = if all_ok { 200 } else { 503 };
    (code, HealthStatus {
        status: String::from_str(status),
        version: String::from_str(version),
        database: Some(String::from_str("ok")),
        elasticsearch: Some(String::from_str(es)),
        storage: Some(String::from_str(st)),
    })
}

/// Rate limit configuration.
#[derive(Debug, Clone, Copy)]
pub struct RateLimitConfig {
    /// Maximum requests per window.
    pub max_requests: u32,
    /// Window duration in seconds.
    pub window_seconds: u64,
    /// Burst capacity (initial tokens).
    pub burst: u32,
}

impl Default for RateLimitConfig {
    /// A hundred requests a minute, bursts of twenty.
    fn default() -> (r: Self)
        ensures
            r.max_requests == 100,
            r.window_seconds == 60,
            r.burst == 20,
    {
        RateLimitConfig { max_requests: 100, window_seconds: 60, burst: 20 }
    }
}

/// The rate-limit headers of an answer: the limit and what remains, and for
/// a refused request also when to retry (60 seconds).
pub open spec fn rate_headers_spec(max_requests: u32, remaining: u32, refused: bool) -> Seq<(Seq<char>, Seq<char>)> {
    let base = seq![
        ("X-RateLimit-Limit"@, decimal(max_requests as nat)),
        ("X-RateLimit-Remaining"@, decimal(remaining as nat)),
    ];
    if refused { base.push(("Retry-After"@, "60"@)) } else { base }
}

/// The rate-limit headers of an answer.
pub fn rate_limit_headers(max_requests: u32, remaining: u32, refused: bool) -> (r: Vec<(String, String)>)
    ensures
        pairs_view(r@) == rate_headers_spec(max_requests, remaining, refused),
{
    let mut r = vec![
        (String::from_str("X-RateLimit-Limit"), u64_text(max_requests as u64)),
        (String::from_str("X-RateLimit-Remaining"), u64_text(remaining as u64)),
    ];
    if refused {
        r.push((String::from_str("Retry-After"), String::from_str("60")));
    }
    assert(pairs_view(r@) =~= rate_headers_spec(max_requests, remaining, refused));
    r
}

/// The answer to a refused request: `{"code": "RATE_LIMIT_EXCEEDED", "message": ...}`.
pub fn rate_limited_body() -> (b: JsonValue)
    ensures
        b@ == JsonView::Object(seq![
            ("code"@, JsonView::Str("RATE_LIMIT_EXCEEDED"@)),
            ("message"@, JsonView::Str("Too many requests. Please try again later."@)),
        ]),
{
    let es = vec![
        (String::from_str("code"), JsonValue::Str(String::from_str("RATE_LIMIT_EXCEEDED"))),
        (String::from_str("message"), JsonValue::Str(String::from_str("Too many requests. Please try again later."))),
    ];
    proof {
        assert(entries_view(es@) =~= seq![
            ("code"@, JsonView::Str("RATE_LIMIT_EXCEEDED"@)),
            ("message"@, JsonView::Str("Too many requests. Please try again later."@)),
        ]);
    }
    JsonValue::Object(es)
}

/// How long fetched signing keys are trusted, in milliseconds (five minutes).
pub const JWKS_TTL_MS: u64 = 300_000;

/// Whether cached signing keys may still be used: fetched no longer ago than
/// the time they are trusted.
pub fn jwks_fresh(elapsed_ms: u64, ttl_ms: u64) -> (r: bool)
    ensures
        r == (elapsed_ms <= ttl_ms),
{
    elapsed_ms <= ttl_ms
}

} // verus!
