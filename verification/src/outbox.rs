//! Outbox messages for transactional messaging: their states, their kinds, and
//! the retry schedule that a failed delivery follows.

use vstd::prelude::*;
use vstd::string::*;
use vstd::arithmetic::power2::{pow2, lemma_pow2_unfold, lemma_pow2_strictly_increases, lemma2_to64, lemma2_to64_rest};

use crate::ext::{new_uuid, now, parse_uuid, str_eq, uuid_to_string, Timestamp, uuid_text, uuid_parse};
use crate::json::{JsonValue, JsonView, str_field};

verus! {

/// Outbox message status.
#[derive(PartialEq, Eq, Structural, Clone, Copy, Debug)]
pub enum OutboxStatus {
    Pending,
    Processing,
    Completed,
    Failed,
}

/// The stored name of a status.
pub open spec fn status_name(s: OutboxStatus) -> Seq<char> {
    match s {
        OutboxStatus::Pending => "Pending"@,
        OutboxStatus::Processing => "Processing"@,
        OutboxStatus::Completed => "Completed"@,
        OutboxStatus::Failed => "Failed"@,
    }
}

/// The status a stored name reads as; anything unknown reads as pending.
pub open spec fn status_from_name(s: Seq<char>) -> OutboxStatus {
    if s == "Processing"@ {
        OutboxStatus::Processing
    } else if s == "Completed"@ {
        OutboxStatus::Completed
    } else if s == "Failed"@ {
        OutboxStatus::Failed
    } else {
        OutboxStatus::Pending
    }
}

impl OutboxStatus {
    pub fn as_str(&self) -> (r: &'static str)
        ensures
            r@ == status_name(*self),
    {
        match self {
            OutboxStatus::Pending => "Pending",
            OutboxStatus::Processing => "Processing",
            OutboxStatus::Completed => "Completed",
            OutboxStatus::Failed => "Failed",
        }
    }

    pub fn from_str(s: &str) -> (r: Self)
        ensures
            r == status_from_name(s@),
    {
        if str_eq(s, "Processing") {
            OutboxStatus::Processing
        } else if str_eq(s, "Completed") {
            OutboxStatus::Completed
        } else if str_eq(s, "Failed") {
            OutboxStatus::Failed
        } else {
            OutboxStatus::Pending
        }
    }
}

/// Reading back the stored name of a status gives the same status.
pub proof fn lemma_status_round_trip(s: OutboxStatus)
    ensures
        status_from_name(status_name(s)) == s,
{
    reveal_strlit("Pending");
    reveal_strlit("Processing");
    reveal_strlit("Completed");
    reveal_strlit("Failed");
    assert("Pending"@.len() != "Processing"@.len());
    assert("Pending"@.len() != "Completed"@.len());
    assert("Pending"@.len() != "Failed"@.len());
    assert("Processing"@.len() != "Completed"@.len());
    assert("Processing"@.len() != "Failed"@.len());
    assert("Completed"@.len() != "Failed"@.len());
}

/// Outbox message types.
#[derive(PartialEq, Eq, Structural, Clone, Copy, Debug)]
pub enum OutboxMessageType {
    /// Index route in Elasticsearch.
    IndexRoute,
    /// Remove route from Elasticsearch.
    DeleteRouteIndex,
    /// Verify domain DNS.
    VerifyDomain,
    /// Check route against Safe Browsing.
    CheckRouteSafety,
    /// Send notification.
    SendNotification,
}

/// The stored name of a message type.
pub open spec fn message_type_name(t: OutboxMessageType) -> Seq<char> {
    match t {
        OutboxMessageType::IndexRoute => "IndexRoute"@,
        OutboxMessageType::DeleteRouteIndex => "DeleteRouteIndex"@,
        OutboxMessageType::VerifyDomain => "VerifyDomain"@,
        OutboxMessageType::CheckRouteSafety => "CheckRouteSafety"@,
        OutboxMessageType::SendNotification => "SendNotification"@,
    }
}

/// The message type a stored name reads as, if it names one.
pub open spec fn type_from_name(s: Seq<char>) -> Option<OutboxMessageType> {
    if s == "IndexRoute"@ {
        Some(OutboxMessageType::IndexRoute)
    } else if s == "DeleteRouteIndex"@ {
        Some(OutboxMessageType::DeleteRouteIndex)
    } else if s == "VerifyDomain"@ {
        Some(OutboxMessageType::VerifyDomain)
    } else if s == "CheckRouteSafety"@ {
        Some(OutboxMessageType::CheckRouteSafety)
    } else if s == "SendNotification"@ {
        Some(OutboxMessageType::SendNotification)
    } else {
        None
    }
}

impl OutboxMessageType {
    pub fn as_str(&self) -> (r: &'static str)
        ensures
            r@ == message_type_name(*self),
    {
        match self {
            OutboxMessageType::IndexRoute => "IndexRoute",
            OutboxMessageType::DeleteRouteIndex => "DeleteRouteIndex",
            OutboxMessageType::VerifyDomain => "VerifyDomain",
            OutboxMessageType::CheckRouteSafety => "CheckRouteSafety",
            OutboxMessageType::SendNotification => "SendNotification",
        }
    }

    pub fn from_str(s: &str) -> (r: Option<Self>)
        ensures
            r == type_from_name(s@),
    {
        if str_eq(s, "IndexRoute") {
            Some(OutboxMessageType::IndexRoute)
        } else if str_eq(s, "DeleteRouteIndex") {
            Some(OutboxMessageType::DeleteRouteIndex)
        } else if str_eq(s, "VerifyDomain") {
            Some(OutboxMessageType::VerifyDomain)
        } else if str_eq(s, "CheckRouteSafety") {
            Some(OutboxMessageType::CheckRouteSafety)
        } else if str_eq(s, "SendNotification") {
            Some(OutboxMessageType::SendNotification)
        } else {
            None
        }
    }
}

/// Reading back the stored name of a message type gives the same type.
pub proof fn lemma_type_round_trip(t: OutboxMessageType)
    ensures
        type_from_name(message_type_name(t)) == Some(t),
{
    reveal_strlit("IndexRoute");
    reveal_strlit("DeleteRouteIndex");
    reveal_strlit("VerifyDomain");
    reveal_strlit("CheckRouteSafety");
    reveal_strlit("SendNotification");
    let names = seq!["IndexRoute"@, "DeleteRouteIndex"@, "VerifyDomain"@, "CheckRouteSafety"@, "SendNotification"@];
    assert(forall|i: int, j: int| 0 <= i < j < 5 ==> names[i].len() != names[j].len() || names[i][0] != names[j][0]);
}

/// The retry limit a new message starts with.
pub const DEFAULT_MAX_RETRIES: i32 = 3;

/// Outbox message entity.
#[derive(Debug)]
pub struct OutboxMessage {
    pub id: u128,
    pub message_type: OutboxMessageType,
    pub payload: JsonValue,
    pub status: OutboxStatus,
    pub retry_count: i32,
    pub max_retries: i32,
    pub error_message: Option<String>,
    pub created_at: Timestamp,
    pub processed_at: Option<Timestamp>,
    pub next_retry_at: Option<Timestamp>,
}

/// The payload `{"<key>": "<uuid>"}`.
pub open spec fn uuid_payload(key: Seq<char>, id: u128) -> JsonView {
    JsonView::Object(seq![(key, JsonView::Str(uuid_text(id)))])
}

/// The wait, in seconds, before the next delivery attempt after the
/// `retry`-th failure: `2^retry`.
pub open spec fn backoff_secs(retry: int) -> int {
    pow2(retry as nat) as int
}

/// The instant of the next attempt after the `retry`-th failure at `now`:
/// `2^retry` seconds later, the nanoseconds kept.
pub open spec fn retry_time(now: Timestamp, retry: int) -> Timestamp {
    Timestamp { secs: (now.secs + backoff_secs(retry)) as i64, nanos: now.nanos }
}

/// A failure may be recorded without overflow: the counter can grow, and
/// where a retry follows, its backoff `2^(retry_count + 1)` fits in an `i64`.
pub open spec fn failure_recordable(retry_count: i32, max_retries: i32) -> bool {
    &&& retry_count < i32::MAX
    &&& (retry_count + 1 < max_retries ==> 0 <= retry_count + 1 <= 62)
}

proof fn lemma_pow2_bounds(n: nat)
    requires
        n <= 62,
    ensures
        1 <= pow2(n) <= 0x4000_0000_0000_0000,
{
    lemma2_to64();
    lemma2_to64_rest();
    if n < 62 {
        lemma_pow2_strictly_increases(n, 62);
    }
}

/// `2^n` for `n <= 62`.
pub fn pow2_i64(n: u32) -> (r: i64)
    requires
        n <= 62,
    ensures
        r == pow2(n as nat),
{
    let mut r: i64 = 1;
    let mut i: u32 = 0;
    proof {
        lemma2_to64();
    }
    while i < n
        invariant
            i <= n <= 62,
            r == pow2(i as nat),
        decreases n - i,
    {
        proof {
            lemma_pow2_unfold((i + 1) as nat);
            lemma_pow2_bounds((i + 1) as nat);
        }
        r = r * 2;
        i = i + 1;
    }
    r
}

/// The time `secs` seconds after `t`; chrono's timestamps stay below
/// 8.3e12 seconds, so a shift of at most 2^62 seconds fits.
pub fn shift_secs(t: Timestamp, secs: i64) -> (r: Timestamp)
    requires
        0 <= t.secs < 8_300_000_000_000,
        0 <= secs <= 0x4000_0000_0000_0000,
    ensures
        r.secs == t.secs + secs,
        r.nanos == t.nanos,
{
    Timestamp { secs: t.secs + secs, nanos: t.nanos }
}

impl OutboxMessage {
    /// Create a new outbox message: a fresh version-4 id, pending, no retries
    /// yet, a limit of three, created now.
    pub fn new(message_type: OutboxMessageType, payload: JsonValue) -> (r: Self)
        ensures
            r.message_type == message_type,
            r.payload@ == payload@,
            r.status == OutboxStatus::Pending,
            r.retry_count == 0,
            r.max_retries == DEFAULT_MAX_RETRIES,
            r.error_message is None,
            r.processed_at is None,
            r.next_retry_at is None,
            (r.id >> 76u128) & 15u128 == 4u128,
            0 <= r.created_at.secs < 8_300_000_000_000,
    {
        OutboxMessage {
            id: new_uuid(),
            message_type,
            payload,
            status: OutboxStatus::Pending,
            retry_count: 0,
            max_retries: DEFAULT_MAX_RETRIES,
            error_message: None,
            created_at: now(),
            processed_at: None,
            next_retry_at: None,
        }
    }

    /// `{"<key>": "<id>"}` with the id in hyphenated form.
    fn id_payload(key: &str, id: u128) -> (r: JsonValue)
        ensures
            r@ == uuid_payload(key@, id),
    {
        let v = vec![(String::from_str(key), JsonValue::Str(uuid_to_string(id)))];
        let r = JsonValue::Object(v);
        proof {
            assert(r@ == JsonView::Object(crate::json::entries_view(v@)));
            assert(crate::json::entries_view(v@) =~= seq![(key@, JsonView::Str(uuid_text(id)))]);
        }
        r
    }

    /// Create a message to index a route.
    pub fn index_route(route_id: u128) -> (r: Self)
        ensures
            r.message_type == OutboxMessageType::IndexRoute,
            r.payload@ == uuid_payload("route_id"@, route_id),
            r.status == OutboxStatus::Pending,
            r.retry_count == 0,
            r.max_retries == DEFAULT_MAX_RETRIES,
            r.error_message is None,
            r.processed_at is None,
            r.next_retry_at is None,
            0 <= r.created_at.secs < 8_300_000_000_000,
    {
        Self::new(OutboxMessageType::IndexRoute, Self::id_payload("route_id", route_id))
    }

    /// Create a message to delete a route index.
    pub fn delete_route_index(route_id: u128) -> (r: Self)
        ensures
            r.message_type == OutboxMessageType::DeleteRouteIndex,
            r.payload@ == uuid_payload("route_id"@, route_id),
            r.status == OutboxStatus::Pending,
            r.retry_count == 0,
            r.max_retries == DEFAULT_MAX_RETRIES,
            r.error_message is None,
            r.processed_at is None,
            r.next_retry_at is None,
            0 <= r.created_at.secs < 8_300_000_000_000,
    {
        Self::new(OutboxMessageType::DeleteRouteIndex, Self::id_payload("route_id", route_id))
    }

    /// Create a message to verify a domain.
    pub fn verify_domain(domain_id: u128) -> (r: Self)
        ensures
            r.message_type == OutboxMessageType::VerifyDomain,
            r.payload@ == uuid_payload("domain_id"@, domain_id),
            r.status == OutboxStatus::Pending,
            r.retry_count == 0,
            r.max_retries == DEFAULT_MAX_RETRIES,
            r.error_message is None,
            r.processed_at is None,
            r.next_retry_at is None,
            0 <= r.created_at.secs < 8_300_000_000_000,
    {
        Self::new(OutboxMessageType::VerifyDomain, Self::id_payload("domain_id", domain_id))
    }

    /// Create a message to check route safety: `{"route_id": <id>, "url": <url>}`.
    pub fn check_route_safety(route_id: u128, url: String) -> (r: Self)
        ensures
            r.message_type == OutboxMessageType::CheckRouteSafety,
            r.payload@ == JsonView::Object(seq![
                ("route_id"@, JsonView::Str(uuid_text(route_id))),
                ("url"@, JsonView::Str(url@)),
            ]),
            r.status == OutboxStatus::Pending,
            r.retry_count == 0,
            r.max_retries == DEFAULT_MAX_RETRIES,
            r.error_message is None,
            r.processed_at is None,
            r.next_retry_at is None,
            0 <= r.created_at.secs < 8_300_000_000_000,
    {
        let ghost u = url@;
        let v = vec![
            (String::from_str("route_id"), JsonValue::Str(uuid_to_string(route_id))),
            (String::from_str("url"), JsonValue::Str(url)),
        ];
        let p = JsonValue::Object(v);
        proof {
            assert(crate::json::entries_view(v@) =~= seq![
                ("route_id"@, JsonView::Str(uuid_text(route_id))),
                ("url"@, JsonView::Str(u)),
            ]);
        }
        Self::new(OutboxMessageType::CheckRouteSafety, p)
    }

    /// Mark the message as processing.
    pub fn mark_processing(&mut self)
        ensures
            final(self).status == OutboxStatus::Processing,
            final(self).id == old(self).id,
            final(self).message_type == old(self).message_type,
            final(self).payload@ == old(self).payload@,
            final(self).created_at == old(self).created_at,
            final(self).retry_count == old(self).retry_count,
            final(self).max_retries == old(self).max_retries,
            final(self).error_message == old(self).error_message,
            final(self).processed_at == old(self).processed_at,
            final(self).next_retry_at == old(self).next_retry_at,
    {
        self.status = OutboxStatus::Processing;
    }

    /// Mark the message as completed, processed now.
    pub fn mark_completed(&mut self)
        ensures
            final(self).status == OutboxStatus::Completed,
            final(self).processed_at matches Some(t) && 0 <= t.secs < 8_300_000_000_000,
            final(self).id == old(self).id,
            final(self).message_type == old(self).message_type,
            final(self).payload@ == old(self).payload@,
            final(self).created_at == old(self).created_at,
            final(self).retry_count == old(self).retry_count,
            final(self).max_retries == old(self).max_retries,
            final(self).error_message == old(self).error_message,
            final(self).next_retry_at == old(self).next_retry_at,
    {
        self.status = OutboxStatus::Completed;
        self.processed_at = Some(now());
    }

    /// Record a failed delivery at the instant `now`: count it, keep the
    /// error, and either give up (the count reached the limit) or go back to
    /// pending with the next attempt `2^count` seconds after `now`.
    pub fn mark_failed_at(&mut self, error: String, now: Timestamp)
        requires
            failure_recordable(old(self).retry_count, old(self).max_retries),
            0 <= now.secs < 8_300_000_000_000,
        ensures
            final(self).retry_count == old(self).retry_count + 1,
            final(self).error_message matches Some(e) && e@ == error@,
            final(self).retry_count >= final(self).max_retries ==> {
                &&& final(self).status == OutboxStatus::Failed
                &&& final(self).next_retry_at == old(self).next_retry_at
            },
            final(self).retry_count < final(self).max_retries ==> {
                &&& final(self).status == OutboxStatus::Pending
                &&& final(self).next_retry_at == Some(retry_time(now, final(self).retry_count as int))
            },
            final(self).id == old(self).id,
            final(self).message_type == old(self).message_type,
            final(self).payload@ == old(self).payload@,
            final(self).created_at == old(self).created_at,
            final(self).max_retries == old(self).max_retries,
            final(self).processed_at == old(self).processed_at,
    {
        self.retry_count = self.retry_count + 1;
        self.error_message = Some(error);
        if self.retry_count >= self.max_retries {
            self.status = OutboxStatus::Failed;
        } else {
            self.status = OutboxStatus::Pending;
            let delay = pow2_i64(self.retry_count as u32);
            proof {
                lemma_pow2_bounds(self.retry_count as nat);
            }
            self.next_retry_at = Some(shift_secs(now, delay));
        }
    }

    /// Record a failed delivery now (see [`OutboxMessage::mark_failed_at`]):
    /// where a retry follows, it is due `2^count` seconds after the clock
    /// reading taken here.
    pub fn mark_failed(&mut self, error: String)
        requires
            failure_recordable(old(self).retry_count, old(self).max_retries),
        ensures
            final(self).retry_count == old(self).retry_count + 1,
            final(self).error_message matches Some(e) && e@ == error@,
            final(self).retry_count >= final(self).max_retries ==> {
                &&& final(self).status == OutboxStatus::Failed
                &&& final(self).next_retry_at == old(self).next_retry_at
            },
            final(self).retry_count < final(self).max_retries ==> {
                &&& final(self).status == OutboxStatus::Pending
                &&& exists|t: Timestamp| 0 <= t.secs < 8_300_000_000_000 && t.nanos < 1_000_000_000
                    && final(self).next_retry_at == Some(#[trigger] retry_time(t, final(self).retry_count as int))
            },
            final(self).id == old(self).id,
            final(self).message_type == old(self).message_type,
            final(self).payload@ == old(self).payload@,
            final(self).created_at == old(self).created_at,
            final(self).max_retries == old(self).max_retries,
            final(self).processed_at == old(self).processed_at,
    {
        let t = now();
        self.mark_failed_at(error, t);
    }

    /// Check if message can be retried.
    pub fn can_retry(&self) -> (r: bool)
        ensures
            r == (self.retry_count < self.max_retries),
    {
        self.retry_count < self.max_retries
    }
}

/// The status a message takes after a failure that brings its count to
/// `retry_count`: failed once the limit is reached, pending otherwise.
pub open spec fn status_after_failure(retry_count: int, max_retries: int) -> OutboxStatus {
    if retry_count >= max_retries {
        OutboxStatus::Failed
    } else {
        OutboxStatus::Pending
    }
}

/// Each further failure doubles the wait before the next attempt.
pub proof fn lemma_backoff_doubles(retry: nat)
    ensures
        backoff_secs(retry + 1int) == 2 * backoff_secs(retry as int),
{
    lemma_pow2_unfold(retry + 1);
}

/// A fresh message (no failures, limit `max_retries > 0`) that fails
/// `max_retries` times in a row is retryable after each of the first
/// `max_retries - 1` failures and failed after the last one.
pub proof fn lemma_failures_exhaust_retries(max_retries: int, failures: int)
    requires
        0 < failures <= max_retries,
    ensures
        (failures < max_retries) <==> status_after_failure(failures, max_retries) == OutboxStatus::Pending,
        (failures == max_retries) <==> status_after_failure(failures, max_retries) == OutboxStatus::Failed,
{
}

/// What the store writes for a failed delivery.
pub struct FailureUpdate {
    pub status: OutboxStatus,
    pub retry_count: i32,
    pub next_retry_at: Timestamp,
}

/// The stored update for a failed delivery of a message that had failed
/// `retry_count` times: the count goes up by one, the status follows
/// [`status_after_failure`], and the next attempt is set `2^count` seconds
/// after `now` (also when the message gives up).
pub fn failure_update(retry_count: i32, max_retries: i32, now: Timestamp) -> (r: FailureUpdate)
    requires
        0 <= retry_count + 1 <= 62,
        0 <= now.secs < 8_300_000_000_000,
    ensures
        r.retry_count == retry_count + 1,
        r.status == status_after_failure(retry_count + 1, max_retries as int),
        r.next_retry_at == retry_time(now, retry_count + 1),
{
    let new_retry_count = retry_count + 1;
    let status = if new_retry_count >= max_retries {
        OutboxStatus::Failed
    } else {
        OutboxStatus::Pending
    };
    let delay = pow2_i64(new_retry_count as u32);
    proof {
        lemma_pow2_bounds(new_retry_count as nat);
    }
    FailureUpdate { status, retry_count: new_retry_count, next_retry_at: shift_secs(now, delay) }
}

/// What the delivery loop does with a pending message.
#[derive(Debug)]
pub enum DeliveryStep {
    /// Index the route with this id in the search service.
    IndexRoute(u128),
    /// Remove the route with this id from the search index.
    DeleteRouteIndex(u128),
    /// Nothing to deliver here (handled elsewhere): mark it completed.
    Complete,
    /// The payload cannot be delivered: mark it failed with this reason.
    Fail(DeliveryError),
}

/// Why a payload cannot be delivered.
#[derive(Debug)]
pub enum DeliveryError {
    /// The payload holds no string under `route_id`.
    MissingRouteId,
    /// The `route_id` is not a UUID; the text is the parser's message.
    InvalidRouteId(String),
}

/// The route id carried by a route payload: the string under `route_id`,
/// parsed as a UUID.
pub open spec fn payload_route_id(payload: JsonView) -> Option<u128> {
    match str_field(payload, "route_id"@) {
        Some(s) => uuid_parse(s),
        None => None,
    }
}

/// Reads the route id out of a route payload.
pub fn route_id_from_payload(payload: &JsonValue) -> (r: Result<u128, DeliveryError>)
    ensures
        r matches Ok(id) ==> payload_route_id(payload@) == Some(id),
        r matches Err(DeliveryError::MissingRouteId) <==> str_field(payload@, "route_id"@) is None,
        r matches Err(DeliveryError::InvalidRouteId(_)) <==> (str_field(payload@, "route_id"@) matches Some(s) && uuid_parse(s) is None),
{
    match payload.str_field("route_id") {
        None => Err(DeliveryError::MissingRouteId),
        Some(s) => match parse_uuid(s.as_str()) {
            Ok(id) => Ok(id),
            Err(e) => Err(DeliveryError::InvalidRouteId(e)),
        },
    }
}

/// The step the delivery loop takes for a message of type `message_type`
/// with payload `payload`: route messages name the route to (un)index, the
/// other kinds are completed at once.
pub fn delivery_step(message_type: OutboxMessageType, payload: &JsonValue) -> (r: DeliveryStep)
    ensures
        match message_type {
            OutboxMessageType::IndexRoute => match payload_route_id(payload@) {
                Some(id) => r == DeliveryStep::IndexRoute(id),
                None => r is Fail,
            },
            OutboxMessageType::DeleteRouteIndex => match payload_route_id(payload@) {
                Some(id) => r == DeliveryStep::DeleteRouteIndex(id),
                None => r is Fail,
            },
            _ => r is Complete,
        },
        r matches DeliveryStep::Fail(DeliveryError::MissingRouteId) ==> str_field(payload@, "route_id"@) is None,
        r matches DeliveryStep::Fail(DeliveryError::InvalidRouteId(_)) ==> (str_field(payload@, "route_id"@) matches Some(s) && uuid_parse(s) is None),
{
    match message_type {
        OutboxMessageType::IndexRoute => match route_id_from_payload(payload) {
            Ok(id) => DeliveryStep::IndexRoute(id),
            Err(e) => DeliveryStep::Fail(e),
        },
        OutboxMessageType::DeleteRouteIndex => match route_id_from_payload(payload) {
            Ok(id) => DeliveryStep::DeleteRouteIndex(id),
            Err(e) => DeliveryStep::Fail(e),
        },
        _ => DeliveryStep::Complete,
    }
}

/// What the store records after a delivery attempt.
#[derive(Debug)]
pub enum DeliveryRecord {
    /// The message was delivered.
    Completed,
    /// The attempt failed, for this reason.
    Failed(String),
}

/// The record of a delivery attempt: completed where it succeeded, failed
/// with the error's text otherwise.
pub fn delivery_record(result: Result<(), String>) -> (r: DeliveryRecord)
    ensures
        result is Ok ==> r is Completed,
        result matches Err(m) ==> (r matches DeliveryRecord::Failed(x) && x@ == m@),
{
    match result {
        Ok(()) => DeliveryRecord::Completed,
        Err(m) => DeliveryRecord::Failed(m),
    }
}

/// What the delivery loop does next with one pending message.
#[derive(Debug)]
pub enum OutboxAction {
    /// Mark the message as being processed.
    MarkProcessing(u128),
    /// Marking failed: leave the message for a later round, undelivered.
    Skip,
    /// Deliver it to the search index.
    Deliver(DeliveryStep),
    /// Record it delivered.
    MarkCompleted(u128),
    /// Record the failed attempt, with its reason.
    MarkFailed(u128, String),
}

/// What happened since the last action.
pub enum OutboxEvent {
    /// The message was fetched as pending.
    Begin,
    /// The store's answer to marking it as processing.
    Marked(Result<(), String>),
    /// The answer of the delivery.
    Delivered(Result<(), String>),
}

/// The reason recorded for a payload that names no route.
pub open spec fn missing_route_id_message() -> Seq<char> {
    "Missing route_id"@
}

/// One step of the delivery loop for message `id`: it is first marked as
/// processing (and skipped where that fails); then a route message whose
/// payload names a route is delivered, one whose payload does not is marked
/// failed, and any other kind is marked completed at once; a delivery is
/// then marked completed or failed with its error, exactly one of the two.
pub fn outbox_step(id: u128, message_type: OutboxMessageType, payload: &JsonValue, event: OutboxEvent) -> (r: OutboxAction)
    ensures
        event is Begin ==> r == OutboxAction::MarkProcessing(id),
        event matches OutboxEvent::Marked(Err(_)) ==> r is Skip,
        event matches OutboxEvent::Marked(Ok(_)) ==> match message_type {
            OutboxMessageType::IndexRoute => match payload_route_id(payload@) {
                Some(rid) => r == OutboxAction::Deliver(DeliveryStep::IndexRoute(rid)),
                None => r matches OutboxAction::MarkFailed(x, m) && x == id
                    && (str_field(payload@, "route_id"@) is None ==> m@ == missing_route_id_message()),
            },
            OutboxMessageType::DeleteRouteIndex => match payload_route_id(payload@) {
                Some(rid) => r == OutboxAction::Deliver(DeliveryStep::DeleteRouteIndex(rid)),
                None => r matches OutboxAction::MarkFailed(x, m) && x == id
                    && (str_field(payload@, "route_id"@) is None ==> m@ == missing_route_id_message()),
            },
            _ => r == OutboxAction::MarkCompleted(id),
        },
        event matches OutboxEvent::Delivered(Ok(_)) ==> r == OutboxAction::MarkCompleted(id),
        event matches OutboxEvent::Delivered(Err(m)) ==> r == OutboxAction::MarkFailed(id, m),
{
    match event {
        OutboxEvent::Begin => OutboxAction::MarkProcessing(id),
        OutboxEvent::Marked(Err(_)) => OutboxAction::Skip,
        OutboxEvent::Marked(Ok(())) => match delivery_step(message_type, payload) {
            DeliveryStep::Complete => OutboxAction::MarkCompleted(id),
            DeliveryStep::Fail(DeliveryError::MissingRouteId) => {
                OutboxAction::MarkFailed(id, String::from_str("Missing route_id"))
            },
            DeliveryStep::Fail(DeliveryError::InvalidRouteId(m)) => OutboxAction::MarkFailed(id, m),
            step => OutboxAction::Deliver(step),
        },
        OutboxEvent::Delivered(Ok(())) => OutboxAction::MarkCompleted(id),
        OutboxEvent::Delivered(Err(m)) => OutboxAction::MarkFailed(id, m),
    }
}

} // verus!
