//! The rules of the route service: who may touch a route, which fields an
//! update may not change, and how short links are chosen.

use vstd::prelude::*;
use vstd::string::*;

use crate::entities::{Route, RouteDomain, RouteProperties, RouteStatus};
use crate::outbox::{uuid_payload, OutboxMessage, OutboxMessageType};
use crate::json::JsonView;
use crate::error::{forbidden_message, not_found_message, required_message, ApiError, ErrorCode};
use crate::ext::{random_below, str_eq, string_push, uuid_text, uuid_to_string};

verus! {

/// Letters and digits of generated links: `a`-`z` then `0`-`9`.
pub open spec fn alphabet36(i: int) -> char {
    if i < 26 {
        ((97 + i) as u8) as char
    } else {
        ((48 + i - 26) as u8) as char
    }
}

/// Whether a character is one of [`alphabet36`].
pub open spec fn in_alphabet36(c: char) -> bool {
    ('a' <= c && c <= 'z') || ('0' <= c && c <= '9')
}

/// Letters of both cases and digits: `a`-`z`, `A`-`Z`, then `0`-`9`.
pub open spec fn alphabet62(i: int) -> char {
    if i < 26 {
        ((97 + i) as u8) as char
    } else if i < 52 {
        ((65 + i - 26) as u8) as char
    } else {
        ((48 + i - 52) as u8) as char
    }
}

/// Whether a character is one of [`alphabet62`].
pub open spec fn in_alphabet62(c: char) -> bool {
    ('a' <= c && c <= 'z') || ('A' <= c && c <= 'Z') || ('0' <= c && c <= '9')
}

/// The shortest generated link length.
pub const MIN_LENGTH: usize = 3;

/// The longest generated link length.
pub const MAX_LENGTH: usize = 10;

/// How many candidates one attempt generates.
pub const BATCH_SIZE: usize = 10;

/// How many attempts link suggestion makes.
pub const MAX_RETRIES: usize = 3;

/// `36^n`.
pub open spec fn pow36(n: nat) -> nat
    decreases n,
{
    if n == 0 {
        1
    } else {
        36 * pow36((n - 1) as nat)
    }
}

/// Links of `length` characters leave room for `count` more routes: the
/// routes fill less than 30% of the `36^length` possible links.
pub open spec fn roomy(count: nat, length: nat) -> bool {
    10 * count < 3 * pow36(length)
}

/// The link length for a domain that holds `count` routes: the smallest
/// length from 3 to 10 that leaves room, and 10 where none does.
pub open spec fn optimal_length(count: nat) -> nat {
    optimal_length_from(count, 3)
}

/// The smallest length from `from` to 10 that leaves room, or 10.
pub open spec fn optimal_length_from(count: nat, from: nat) -> nat
    decreases 10 - from,
{
    if from >= 10 {
        10
    } else if roomy(count, from) {
        from
    } else {
        optimal_length_from(count, from + 1)
    }
}

proof fn lemma_pow36_small(n: nat)
    requires
        n <= 10,
    ensures
        1 <= pow36(n) <= 3_656_158_440_062_976,
    decreases n,
{
    if n > 0 {
        lemma_pow36_small((n - 1) as nat);
        if n < 10 {
            lemma_pow36_mono((n - 1) as nat, 9);
            reveal_with_fuel(pow36, 10);
        } else {
            reveal_with_fuel(pow36, 11);
        }
    }
}

proof fn lemma_pow36_mono(a: nat, b: nat)
    requires
        a <= b,
    ensures
        pow36(a) <= pow36(b),
    decreases b,
{
    if a < b {
        lemma_pow36_mono(a, (b - 1) as nat);
    }
}

/// Calculate the link length for a domain that holds `existing_count` routes:
/// the smallest length `L` from 3 to 10 whose `36^L` links are less than 30%
/// used, else 10.
pub fn calculate_optimal_length(existing_count: usize) -> (r: usize)
    ensures
        r == optimal_length(existing_count as nat),
        MIN_LENGTH <= r <= MAX_LENGTH,
{
    let mut length: usize = MIN_LENGTH;
    let mut space: u128 = 46_656;
    proof {
        reveal_with_fuel(pow36, 4);
    }
    loop
        invariant
            MIN_LENGTH <= length <= MAX_LENGTH,
            space == pow36(length as nat),
            optimal_length(existing_count as nat) == optimal_length_from(existing_count as nat, length as nat),
        decreases MAX_LENGTH - length,
    {
        proof {
            lemma_pow36_small(length as nat);
        }
        if length == MAX_LENGTH {
            return MAX_LENGTH;
        }
        if 10 * (existing_count as u128) < 3 * space {
            return length;
        }
        proof {
            lemma_pow36_small((length + 1) as nat);
            assert(pow36((length + 1) as nat) == 36 * pow36(length as nat));
        }
        space = space * 36;
        length = length + 1;
    }
}

/// The character at position `i < 36` of [`alphabet36`].
fn alphabet36_char(i: usize) -> (c: char)
    requires
        i < 36,
    ensures
        c == alphabet36(i as int),
        in_alphabet36(c),
{
    if i < 26 {
        let b: u8 = 97u8 + (i as u8);
        b as char
    } else {
        let b: u8 = 48u8 + ((i - 26) as u8);
        b as char
    }
}

/// The character at position `i < 62` of [`alphabet62`].
fn alphabet62_char(i: usize) -> (c: char)
    requires
        i < 62,
    ensures
        c == alphabet62(i as int),
        in_alphabet62(c),
{
    if i < 26 {
        let b: u8 = 97u8 + (i as u8);
        b as char
    } else if i < 52 {
        let b: u8 = 65u8 + ((i - 26) as u8);
        b as char
    } else {
        let b: u8 = 48u8 + ((i - 52) as u8);
        b as char
    }
}

/// A link candidate: `length` characters of [`alphabet36`].
pub open spec fn is_candidate(s: Seq<char>, length: nat) -> bool {
    s.len() == length && forall|i: int| 0 <= i < s.len() ==> in_alphabet36(#[trigger] s[i])
}

/// A random string of `length` characters of [`alphabet36`].
fn random_candidate(length: usize) -> (r: String)
    ensures
        is_candidate(r@, length as nat),
{
    let mut s = String::new();
    let mut i: usize = 0;
    while i < length
        invariant
            i <= length,
            is_candidate(s@, i as nat),
        decreases length - i,
    {
        let c = alphabet36_char(random_below(36));
        string_push(&mut s, c);
        i = i + 1;
    }
    s
}

/// Generate `count` random link candidates of `length` characters each.
pub fn generate_candidates(length: usize, count: usize) -> (r: Vec<String>)
    ensures
        r.len() == count,
        forall|i: int| 0 <= i < count ==> is_candidate(#[trigger] r@[i]@, length as nat),
{
    let mut out: Vec<String> = Vec::new();
    let mut i: usize = 0;
    while i < count
        invariant
            i <= count,
            out.len() == i,
            forall|j: int| 0 <= j < i ==> is_candidate(#[trigger] out@[j]@, length as nat),
        decreases count - i,
    {
        out.push(random_candidate(length));
        i = i + 1;
    }
    out
}

/// A random link of eight letters (of both cases) and digits.
pub fn generate_link() -> (r: String)
    ensures
        r@.len() == 8,
        forall|i: int| 0 <= i < 8 ==> in_alphabet62(#[trigger] r@[i]),
{
    let mut s = String::new();
    let mut i: usize = 0;
    while i < 8
        invariant
            i <= 8,
            s@.len() == i,
            forall|j: int| 0 <= j < i ==> in_alphabet62(#[trigger] s@[j]),
        decreases 8 - i,
    {
        let c = alphabet62_char(random_below(62));
        string_push(&mut s, c);
        i = i + 1;
    }
    s
}

/// Whether a list of strings holds `s`.
pub open spec fn holds(v: Seq<String>, s: Seq<char>) -> bool {
    exists|i: int| 0 <= i < v.len() && #[trigger] v[i]@ == s
}

/// Whether `v` holds `s`.
pub(crate) fn list_holds(v: &Vec<String>, s: &String) -> (r: bool)
    ensures
        r == holds(v@, s@),
{
    let mut i: usize = 0;
    while i < v.len()
        invariant
            i <= v.len(),
            forall|j: int| 0 <= j < i ==> #[trigger] v@[j]@ != s@,
        decreases v.len() - i,
    {
        if str_eq(v[i].as_str(), s.as_str()) {
            return true;
        }
        i = i + 1;
    }
    false
}

/// The index of the first candidate that is not taken, if any.
pub open spec fn first_free_index(candidates: Seq<String>, taken: Seq<String>) -> Option<int> {
    if exists|i: int| 0 <= i < candidates.len() && !holds(taken, #[trigger] candidates[i]@) {
        Some(choose|i: int| 0 <= i < candidates.len() && !holds(taken, #[trigger] candidates[i]@)
            && forall|j: int| 0 <= j < i ==> holds(taken, #[trigger] candidates[j]@))
    } else {
        None
    }
}

/// The first candidate that is not among the taken links.
pub fn first_available(candidates: Vec<String>, taken: &Vec<String>) -> (r: Option<String>)
    ensures
        r is None <==> forall|i: int| 0 <= i < candidates.len() ==> holds(taken@, #[trigger] candidates@[i]@),
        r matches Some(c) ==> exists|i: int| 0 <= i < candidates.len() && c == candidates@[i]
            && !holds(taken@, c@)
            && forall|j: int| 0 <= j < i ==> holds(taken@, #[trigger] candidates@[j]@),
{
    let ghost all = candidates@;
    let mut rest = candidates;
    let mut i: usize = 0;
    let n = rest.len();
    assert(all.len() == n);
    while rest.len() > 0
        invariant
            i + rest.len() == all.len(),
            all.len() <= usize::MAX,
            all == candidates@,
            rest@ == all.subrange(i as int, all.len() as int),
            forall|j: int| 0 <= j < i ==> holds(taken@, #[trigger] all[j]@),
        decreases rest.len(),
    {
        let c = rest.remove(0);
        assert(c == all[i as int]);
        if !list_holds(taken, &c) {
            assert(candidates@[i as int] == c && !holds(taken@, c@));
            return Some(c);
        }
        i = i + 1;
        assert(rest@ =~= all.subrange(i as int, all.len() as int));
    }
    None
}

/// The length the next attempt uses after every candidate collided: one
/// longer, at most 10.
pub fn next_length(length: usize) -> (r: usize)
    ensures
        r == if length + 1 < MAX_LENGTH { length + 1 } else { MAX_LENGTH as int },
{
    if length >= MAX_LENGTH - 1 {
        MAX_LENGTH
    } else {
        length + 1
    }
}

/// The message when no free link was found.
pub open spec fn no_unique_link_message() -> Seq<char> {
    "Failed to generate a unique slash tag after maximum retries"@
}

/// Where link suggestion goes after an attempt.
pub enum SuggestStep {
    /// This candidate is free.
    Found(String),
    /// Every candidate collided: try again with this length.
    Retry(usize),
    /// Every attempt collided.
    GiveUp(ApiError),
}

/// The step after attempt number `retry` (from 0) with `length`-character
/// candidates, of which `taken` are already used.
pub fn suggest_step(retry: usize, length: usize, candidates: Vec<String>, taken: &Vec<String>) -> (r: SuggestStep)
    ensures
        r matches SuggestStep::Found(c) ==> exists|i: int| 0 <= i < candidates.len() && c == candidates@[i]
            && !holds(taken@, c@)
            && forall|j: int| 0 <= j < i ==> holds(taken@, #[trigger] candidates@[j]@),
        (r is Retry || r is GiveUp) <==> forall|i: int| 0 <= i < candidates.len() ==> holds(taken@, #[trigger] candidates@[i]@),
        r matches SuggestStep::Retry(l) ==> retry + 1 < MAX_RETRIES && l == if length + 1 < MAX_LENGTH { length + 1 } else { MAX_LENGTH as int },
        r matches SuggestStep::GiveUp(e) ==> retry + 1 >= MAX_RETRIES && e.code == ErrorCode::InternalError
            && e.message@ == no_unique_link_message(),
{
    match first_available(candidates, taken) {
        Some(c) => SuggestStep::Found(c),
        None => {
            if retry < MAX_RETRIES - 1 {
                SuggestStep::Retry(next_length(length))
            } else {
                SuggestStep::GiveUp(ApiError::internal(String::from_str("Failed to generate a unique slash tag after maximum retries")))
            }
        },
    }
}

/// Whether the route's owner is `user_id`.
pub open spec fn owned_by(route: Route, user_id: Seq<char>) -> bool {
    route.properties.owner_id matches Some(o) && o@ == user_id
}

/// Validate that `user_id` owns the route: refused as forbidden otherwise.
pub fn validate_ownership(route: &Route, user_id: &str) -> (r: Result<(), ApiError>)
    ensures
        r is Ok <==> owned_by(*route, user_id@),
        r matches Err(e) ==> e.code == ErrorCode::Forbidden && e.message@ == forbidden_message(),
{
    match &route.properties.owner_id {
        Some(o) => {
            if str_eq(o.as_str(), user_id) {
                Ok(())
            } else {
                Err(ApiError::forbidden())
            }
        },
        None => Err(ApiError::forbidden()),
    }
}

/// Whether a user may put routes on a domain: a shared domain, or one of theirs.
pub open spec fn domain_usable_by(domain: RouteDomain, user_id: Seq<char>) -> bool {
    domain.is_shared || domain.owner_id@ == user_id
}

impl RouteDomain {
    /// Whether `user_id` may put routes on this domain.
    pub fn can_use(&self, user_id: &str) -> (r: bool)
        ensures
            r == domain_usable_by(*self, user_id@),
    {
        self.is_shared || str_eq(self.owner_id.as_str(), user_id)
    }
}

/// The update of a route as it is stored: the requested route, but with the
/// link, the domain, the owner, the creator and the properties' route id of
/// the existing route, which no update may change.
pub fn enforce_immutable(updated: Route, existing: &Route) -> (r: Route)
    ensures
        r == (Route {
            link: existing.link,
            domain_id: existing.domain_id,
            properties: RouteProperties {
                owner_id: existing.properties.owner_id,
                creator_id: existing.properties.creator_id,
                route_id: existing.properties.route_id,
                ..updated.properties
            },
            ..updated
        }),
{
    let mut route = updated;
    route.link = existing.link.clone();
    route.domain_id = existing.domain_id;
    route.properties.owner_id = crate::entities::copy_opt_string(&existing.properties.owner_id);
    route.properties.creator_id = crate::entities::copy_opt_string(&existing.properties.creator_id);
    route.properties.route_id = crate::entities::copy_opt_string(&existing.properties.route_id);
    route
}

/// The route as it is created: its properties carry its own id in hyphenated form.
pub fn with_route_id(route: Route) -> (r: Route)
    ensures
        r.properties.route_id matches Some(s) && s@ == uuid_text(route.id),
        r == (Route {
            properties: RouteProperties { route_id: r.properties.route_id, ..route.properties },
            ..route
        }),
{
    let mut route = route;
    route.properties.route_id = Some(uuid_to_string(route.id));
    route
}

/// `Link '<link>' already exists in this domain`.
pub open spec fn link_conflict_message(link: Seq<char>) -> Seq<char> {
    "Link '"@ + link + "' already exists in this domain"@
}

/// The conflict error for a link that the domain already has.
pub fn link_conflict(link: &str) -> (r: ApiError)
    ensures
        r.code == ErrorCode::Conflict,
        r.message@ == link_conflict_message(link@),
        r.details is None,
{
    let mut m = String::from_str("Link '");
    m.append(link);
    m.append("' already exists in this domain");
    ApiError::conflict(m)
}

/// The route as an update stores it (see [`enforce_immutable`]).
pub open spec fn kept_immutable(updated: Route, existing: Route) -> Route {
    Route {
        link: existing.link,
        domain_id: existing.domain_id,
        properties: RouteProperties {
            owner_id: existing.properties.owner_id,
            creator_id: existing.properties.creator_id,
            route_id: existing.properties.route_id,
            ..updated.properties
        },
        ..updated
    }
}

/// The answer to a lookup of route `id` by `user_id`: the store's error as it
/// is, not found for a missing route, forbidden for a route the caller does
/// not own, else the route. Nothing is written.
pub fn owned_route(found: Result<Option<Route>, ApiError>, id: u128, user_id: &str) -> (r: Result<Route, ApiError>)
    ensures
        found matches Err(e) ==> r == Err::<Route, ApiError>(e),
        found is Ok && found->Ok_0 is None ==> (r matches Err(e) && e.code == ErrorCode::NotFound
            && e.message@ == not_found_message("Route"@, uuid_text(id))),
        found matches Ok(Some(route)) ==> if owned_by(route, user_id@) {
            r == Ok::<Route, ApiError>(route)
        } else {
            r matches Err(e) && e.code == ErrorCode::Forbidden && e.message@ == forbidden_message()
        },
{
    match found {
        Err(e) => Err(e),
        Ok(None) => {
            let id_text = uuid_to_string(id);
            Err(ApiError::not_found("Route", id_text.as_str()))
        },
        Ok(Some(route)) => match validate_ownership(&route, user_id) {
            Ok(()) => Ok(route),
            Err(e) => Err(e),
        },
    }
}

/// What an update of route `id` by `user_id` stores, from the store's answer
/// for the existing route: refused as [`owned_route`] refuses; otherwise the
/// requested route with the existing route's immutable fields, stored once.
pub fn update_to_store(found: Result<Option<Route>, ApiError>, id: u128, updated: Route, user_id: &str) -> (r: Result<Route, ApiError>)
    ensures
        found matches Err(e) ==> r == Err::<Route, ApiError>(e),
        found is Ok && found->Ok_0 is None ==> (r matches Err(e) && e.code == ErrorCode::NotFound
            && e.message@ == not_found_message("Route"@, uuid_text(id))),
        found matches Ok(Some(ex)) ==> if owned_by(ex, user_id@) {
            r == Ok::<Route, ApiError>(kept_immutable(updated, ex))
        } else {
            r matches Err(e) && e.code == ErrorCode::Forbidden && e.message@ == forbidden_message()
        },
{
    let existing = owned_route(found, id, user_id)?;
    Ok(enforce_immutable(updated, &existing))
}

/// Where the creation of a route stands.
#[derive(Debug)]
pub enum CreateState {
    /// Nothing checked yet.
    Start(Route),
    /// The route names this domain: fetch it.
    AwaitDomain(Route, u128),
    /// The domain may be used and the route has no link: ask for a suggestion.
    AwaitSuggestion(Route, u128),
    /// The route has its link: ask whether the domain has it already.
    AwaitLinkCheck(Route, u128),
    /// Every check passed: store this route.
    Store(Route),
    /// Refused: nothing is stored.
    Refused(ApiError),
}

/// What the store or the link suggestion answered.
pub enum CreateEvent {
    /// Begin.
    Go,
    /// The domain lookup's answer.
    Domain(Result<Option<RouteDomain>, ApiError>),
    /// The suggested link, or why there is none.
    Suggested(Result<String, ApiError>),
    /// Whether the link is taken in the domain.
    LinkTaken(Result<bool, ApiError>),
}

/// One step of creating a route for `user_id`. The refusals come in this
/// order: no domain id; the domain lookup's error, a missing domain, a
/// domain the caller may not use; the suggestion's error; the link check's
/// error, a taken link. Only a route that passed them all is stored, with its
/// own id in its properties. An event that does not belong to the state
/// leaves it as it is.
pub fn create_step(state: CreateState, event: CreateEvent, user_id: &str) -> (r: CreateState)
    ensures
        match (state, event) {
            (CreateState::Start(route), CreateEvent::Go) => match route.domain_id {
                None => r matches CreateState::Refused(e) && e.code == ErrorCode::ValidationError
                    && e.message@ == required_message("domain_id"@),
                Some(d) => r == CreateState::AwaitDomain(route, d),
            },
            (CreateState::AwaitDomain(route, d), CreateEvent::Domain(answer)) => match answer {
                Err(e) => r == CreateState::Refused(e),
                Ok(None) => r matches CreateState::Refused(e) && e.code == ErrorCode::NotFound
                    && e.message@ == not_found_message("Domain"@, uuid_text(d)),
                Ok(Some(domain)) => if !domain_usable_by(domain, user_id@) {
                    r matches CreateState::Refused(e) && e.code == ErrorCode::Forbidden
                        && e.message@ == forbidden_message()
                } else if route.link@.len() == 0 {
                    r == CreateState::AwaitSuggestion(route, d)
                } else {
                    r == CreateState::AwaitLinkCheck(route, d)
                },
            },
            (CreateState::AwaitSuggestion(route, d), CreateEvent::Suggested(answer)) => match answer {
                Err(e) => r == CreateState::Refused(e),
                Ok(link) => r == CreateState::AwaitLinkCheck(Route { link, ..route }, d),
            },
            (CreateState::AwaitLinkCheck(route, d), CreateEvent::LinkTaken(answer)) => match answer {
                Err(e) => r == CreateState::Refused(e),
                Ok(true) => r matches CreateState::Refused(e) && e.code == ErrorCode::Conflict
                    && e.message@ == link_conflict_message(route.link@),
                Ok(false) => r matches CreateState::Store(s)
                    && s.properties.route_id matches Some(rid) && rid@ == uuid_text(route.id)
                    && s == (Route {
                        properties: RouteProperties { route_id: s.properties.route_id, ..route.properties },
                        ..route
                    }),
            },
            _ => r == state,
        },
{
    match (state, event) {
        (CreateState::Start(route), CreateEvent::Go) => match require_domain_id(&route) {
            Err(e) => CreateState::Refused(e),
            Ok(d) => CreateState::AwaitDomain(route, d),
        },
        (CreateState::AwaitDomain(route, d), CreateEvent::Domain(answer)) => match answer {
            Err(e) => CreateState::Refused(e),
            Ok(None) => {
                let id_text = uuid_to_string(d);
                CreateState::Refused(ApiError::not_found("Domain", id_text.as_str()))
            },
            Ok(Some(domain)) => if !domain.can_use(user_id) {
                CreateState::Refused(ApiError::forbidden())
            } else if route.link.as_str().is_empty() {
                CreateState::AwaitSuggestion(route, d)
            } else {
                CreateState::AwaitLinkCheck(route, d)
            },
        },
        (CreateState::AwaitSuggestion(route, d), CreateEvent::Suggested(answer)) => match answer {
            Err(e) => CreateState::Refused(e),
            Ok(link) => {
                let mut route = route;
                route.link = link;
                CreateState::AwaitLinkCheck(route, d)
            },
        },
        (CreateState::AwaitLinkCheck(route, d), CreateEvent::LinkTaken(answer)) => match answer {
            Err(e) => CreateState::Refused(e),
            Ok(true) => CreateState::Refused(link_conflict(route.link.as_str())),
            Ok(false) => CreateState::Store(with_route_id(route)),
        },
        (state, _) => state,
    }
}

/// The first step of suggesting a link in domain `domain_id`: the domain
/// lookup's error as it is, not found for a missing domain, else go on.
pub fn suggest_domain_gate(answer: Result<Option<RouteDomain>, ApiError>, domain_id: u128) -> (r: Result<(), ApiError>)
    ensures
        answer matches Err(e) ==> r == Err::<(), ApiError>(e),
        answer is Ok && answer->Ok_0 is None ==> (r matches Err(e) && e.code == ErrorCode::NotFound
            && e.message@ == not_found_message("Domain"@, uuid_text(domain_id))),
        answer matches Ok(Some(_)) ==> r is Ok,
{
    match answer {
        Err(e) => Err(e),
        Ok(None) => {
            let id_text = uuid_to_string(domain_id);
            Err(ApiError::not_found("Domain", id_text.as_str()))
        },
        Ok(Some(_)) => Ok(()),
    }
}

/// The length of the first batch, from the store's count of the domain's
/// routes (taken as an unsigned count); the count's error as it is.
pub fn suggest_first_length(count: Result<i64, ApiError>) -> (r: Result<usize, ApiError>)
    ensures
        count matches Err(e) ==> r == Err::<usize, ApiError>(e),
        count matches Ok(c) ==> r == Ok::<usize, ApiError>(optimal_length((c as usize) as nat) as usize),
{
    match count {
        Err(e) => Err(e),
        Ok(c) => Ok(calculate_optimal_length(#[verifier::truncate] (c as usize))),
    }
}

/// The step after batch number `retry` (from 0) of `length`-character
/// candidates, given the store's answer for which of them are taken: its
/// error ends the suggestion; otherwise as [`suggest_step`]. Since only a
/// batch before the last (`retry + 1 < MAX_RETRIES`) retries, at most
/// `MAX_RETRIES` (three) batches are tried.
pub fn suggest_batch(retry: usize, length: usize, candidates: Vec<String>, taken: Result<Vec<String>, ApiError>) -> (r: SuggestStep)
    ensures
        taken matches Err(e) ==> r == SuggestStep::GiveUp(e),
        taken matches Ok(tk) ==> {
            &&& r matches SuggestStep::Found(c) ==> exists|i: int| 0 <= i < candidates.len() && c == candidates@[i]
                && !holds(tk@, c@)
                && forall|j: int| 0 <= j < i ==> holds(tk@, #[trigger] candidates@[j]@)
            &&& (r is Retry || r is GiveUp) <==> forall|i: int| 0 <= i < candidates.len() ==> holds(tk@, #[trigger] candidates@[i]@)
            &&& r matches SuggestStep::Retry(l) ==> retry + 1 < MAX_RETRIES && l == if length + 1 < MAX_LENGTH { length + 1 } else { MAX_LENGTH as int }
            &&& r matches SuggestStep::GiveUp(e) ==> retry + 1 >= MAX_RETRIES && e.code == ErrorCode::InternalError
                && e.message@ == no_unique_link_message()
        },
{
    match taken {
        Err(e) => SuggestStep::GiveUp(e),
        Ok(tk) => suggest_step(retry, length, candidates, &tk),
    }
}

/// Route query filters.
#[derive(Debug)]
pub struct RouteFilters {
    pub status: Option<String>,
    pub owner_id: Option<String>,
    pub workspace_id: Option<String>,
    pub domain_id: Option<u128>,
    pub search: Option<String>,
}

/// The filters a listing uses: the requested ones, limited to the caller's
/// own routes where they name no owner.
pub fn scope_filters(filters: RouteFilters, user_id: &str) -> (r: RouteFilters)
    ensures
        filters.owner_id is Some ==> r.owner_id == filters.owner_id,
        filters.owner_id is None ==> (r.owner_id matches Some(o) && o@ == user_id@),
        r.status == filters.status,
        r.workspace_id == filters.workspace_id,
        r.domain_id == filters.domain_id,
        r.search == filters.search,
{
    let mut filters = filters;
    if filters.owner_id.is_none() {
        filters.owner_id = Some(String::from_str(user_id));
    }
    filters
}

/// The domain a new route is created on; refused where it names none.
pub fn require_domain_id(route: &Route) -> (r: Result<u128, ApiError>)
    ensures
        route.domain_id matches Some(d) ==> r == Ok::<u128, ApiError>(d),
        route.domain_id is None ==> (r matches Err(e) && e.code == ErrorCode::ValidationError
            && e.message@ == required_message("domain_id"@)),
{
    match route.domain_id {
        Some(d) => Ok(d),
        None => Err(ApiError::required("domain_id")),
    }
}

/// The route put back in service.
pub fn unblocked(route: Route) -> (r: Route)
    ensures
        r.status is Active,
        r.id == route.id,
        r.switch == route.switch,
        r.link == route.link,
        r.dest == route.dest,
        r.dest_format == route.dest_format,
        r.code == route.code,
        r.ttl == route.ttl,
        r.terminal == route.terminal,
        r.policy == route.policy,
        r.properties == route.properties,
        r.domain_id == route.domain_id,
{
    let mut route = route;
    route.status = RouteStatus::Active;
    route
}

/// The messages queued when a route is created: its indexing, then a safety
/// check of its destination where it has one.
pub fn creation_messages(route: &Route) -> (r: Vec<OutboxMessage>)
    ensures
        r.len() == if route.dest is Some { 2int } else { 1int },
        r@[0].message_type == OutboxMessageType::IndexRoute,
        r@[0].payload@ == uuid_payload("route_id"@, route.id),
        route.dest matches Some(d) ==> {
            &&& r@[1].message_type == OutboxMessageType::CheckRouteSafety
            &&& r@[1].payload@ == JsonView::Object(seq![
                ("route_id"@, JsonView::Str(uuid_text(route.id))),
                ("url"@, JsonView::Str(d@)),
            ])
        },
{
    let mut out: Vec<OutboxMessage> = Vec::new();
    out.push(OutboxMessage::index_route(route.id));
    match &route.dest {
        Some(d) => {
            out.push(OutboxMessage::check_route_safety(route.id, d.clone()));
        },
        None => {},
    }
    out
}

} // verus!
