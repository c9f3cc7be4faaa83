//! Messages that other services send back: domain verification results and
//! route safety verdicts, and what receiving one does.

use vstd::prelude::*;
use vstd::string::*;

use crate::entities::{BlockedReason, Route, RouteStatus};
use crate::error::ApiError;
use crate::ext::{parse_uuid, str_eq, uuid_parse};

verus! {

/// Domain verification message.
#[derive(Debug)]
pub struct DomainVerificationMessage {
    pub domain_id: String,
    pub status: String,
    pub reason: String,
}

/// Route status message (Safe Browsing results).
#[derive(Debug)]
pub struct RouteStatusMessage {
    pub route_id: String,
    pub status: String,
    pub reason: Option<String>,
}

/// What is done with a delivered message.
#[derive(PartialEq, Eq, Structural, Clone, Copy, Debug)]
pub enum Settlement {
    /// Done with it.
    Ack,
    /// It failed for now: deliver it again.
    Requeue,
    /// It can never be handled: drop it.
    Reject,
}

/// The settlement of a delivery: unreadable messages are dropped, a failed
/// store update is retried, anything else is done.
pub fn settle(parsed: bool, update_failed: bool) -> (r: Settlement)
    ensures
        !parsed ==> r == Settlement::Reject,
        parsed && update_failed ==> r == Settlement::Requeue,
        parsed && !update_failed ==> r == Settlement::Ack,
{
    if !parsed {
        Settlement::Reject
    } else if update_failed {
        Settlement::Requeue
    } else {
        Settlement::Ack
    }
}

/// The domain a verification result is for, where its id is a UUID
/// (a result for anything else is acknowledged without an update).
pub fn verification_target(msg: &DomainVerificationMessage) -> (r: Option<u128>)
    ensures
        r == uuid_parse(msg.domain_id@),
{
    match parse_uuid(msg.domain_id.as_str()) {
        Ok(id) => Some(id),
        Err(_) => None,
    }
}

/// The route a safety verdict is for, where its id is a UUID.
pub fn verdict_target(msg: &RouteStatusMessage) -> (r: Option<u128>)
    ensures
        r == uuid_parse(msg.route_id@),
{
    match parse_uuid(msg.route_id.as_str()) {
        Ok(id) => Some(id),
        Err(_) => None,
    }
}

/// The reason recorded where a blocking verdict gives none.
pub open spec fn default_block_reason() -> Seq<char> {
    "Safe Browsing"@
}

/// The route after a safety verdict, and whether it changed. A `Blocked`
/// verdict blocks the route for the stated reason, or for `Safe Browsing`
/// when the message states none; other verdicts keep the route unchanged.
pub fn apply_verdict(msg: RouteStatusMessage, route: Route) -> (r: (Route, bool))
    ensures
        msg.status@ == "Blocked"@ ==> {
            &&& r.1
            &&& r.0.status matches RouteStatus::Blocked(BlockedReason::Reasoned(why))
            &&& why@ == match msg.reason { Some(m) => m@, None => default_block_reason() }
            &&& r.0 == (Route { status: r.0.status, ..route })
        },
        msg.status@ != "Blocked"@ ==> !r.1 && r.0 == route,
{
    let mut route = route;
    if str_eq(msg.status.as_str(), "Blocked") {
        let reason = match msg.reason {
            Some(m) => m,
            None => String::from_str("Safe Browsing"),
        };
        route.status = RouteStatus::Blocked(BlockedReason::Reasoned(reason));
        (route, true)
    } else {
        (route, false)
    }
}

/// What the route-status consumer does next with a delivery.
#[derive(Debug)]
pub enum VerdictAction {
    /// Settle the delivery now.
    Settle(Settlement),
    /// Fetch the route with this id, then take the verdict with the answer.
    FetchRoute(u128),
    /// Store this route, then settle with the store's answer.
    Store(Route),
}

/// The first step for a delivery, given the parsed message (`None` where the
/// body did not parse): an unparsable delivery is rejected without requeue;
/// a message naming a route by a UUID fetches it; any other is acknowledged.
pub fn verdict_on_delivery(parsed: &Option<RouteStatusMessage>) -> (r: VerdictAction)
    ensures
        parsed is None ==> r == VerdictAction::Settle(Settlement::Reject),
        parsed matches Some(m) ==> match uuid_parse(m.route_id@) {
            Some(id) => r == VerdictAction::FetchRoute(id),
            None => r == VerdictAction::Settle(Settlement::Ack),
        },
{
    match parsed {
        None => VerdictAction::Settle(Settlement::Reject),
        Some(m) => match verdict_target(m) {
            Some(id) => VerdictAction::FetchRoute(id),
            None => VerdictAction::Settle(Settlement::Ack),
        },
    }
}

/// The step after the route lookup: a `Blocked` verdict for a stored route
/// stores the route blocked (see [`apply_verdict`]); a missing route, a
/// failed lookup or any other verdict is acknowledged with no update.
pub fn verdict_on_route(msg: RouteStatusMessage, found: Result<Option<Route>, ApiError>) -> (r: VerdictAction)
    ensures
        found matches Ok(Some(route)) ==> (msg.status@ == "Blocked"@ ==> (r matches VerdictAction::Store(s) && {
            &&& s.status matches RouteStatus::Blocked(BlockedReason::Reasoned(why))
            &&& why@ == match msg.reason { Some(m) => m@, None => default_block_reason() }
            &&& s == (Route { status: s.status, ..route })
        })),
        !(found matches Ok(Some(_)) && msg.status@ == "Blocked"@) ==> r == VerdictAction::Settle(Settlement::Ack),
{
    match found {
        Ok(Some(route)) => {
            let (updated, changed) = apply_verdict(msg, route);
            if changed {
                VerdictAction::Store(updated)
            } else {
                VerdictAction::Settle(Settlement::Ack)
            }
        },
        _ => VerdictAction::Settle(Settlement::Ack),
    }
}

/// The settlement after storing a blocked route: acknowledged where the
/// update succeeded, requeued where it failed.
pub fn verdict_on_store(stored: &Result<(), ApiError>) -> (r: Settlement)
    ensures
        stored is Ok ==> r == Settlement::Ack,
        stored is Err ==> r == Settlement::Requeue,
{
    settle(true, stored.is_err())
}

/// What the domain-verification consumer does first with a delivery: an
/// unparsable delivery is rejected without requeue; a message naming a domain
/// by a UUID updates its status; any other is acknowledged.
pub fn verification_on_delivery(parsed: &Option<DomainVerificationMessage>) -> (r: Option<Settlement>)
    ensures
        parsed is None ==> r == Some(Settlement::Reject),
        parsed matches Some(m) ==> match uuid_parse(m.domain_id@) {
            Some(_) => r is None,
            None => r == Some(Settlement::Ack),
        },
{
    match parsed {
        None => Some(Settlement::Reject),
        Some(m) => match verification_target(m) {
            Some(_) => None,
            None => Some(Settlement::Ack),
        },
    }
}

} // verus!
