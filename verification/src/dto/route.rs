//! Route transfer objects, and how they turn into routes and back.

use vstd::prelude::*;

use crate::dto::domain::{domain_shown_as, DomainDto};
use crate::entities::{
    copy_opt_json, copy_opt_string, copy_opt_strings, dest_format_from_name, dest_format_name,
    opt_json, route_status_from_name, route_status_name, status_name_blocks, terminal_from_name,
    terminal_name, BlockedReason, ChallengeRouting, ConditionalRouting, DestinationFormat,
    FileRouting, QrSettings, Route, RouteDomain, RouteProperties, RouteStatus, RoutingPolicy,
    RoutingTerminal,
};
use crate::ext::{new_uuid, parse_uuid, uuid_parse, uuid_text, uuid_to_string};
use crate::json::JsonValue;
use crate::pagination::{pages_for, PaginationDto};
use crate::text::{decimal, u64_text};

verus! {

// ---------------------------------------------------------------------------
// QR settings
// ---------------------------------------------------------------------------

/// QR settings DTO; the logo size is the bit pattern of a 32-bit float.
#[derive(Debug)]
pub struct QrSettingsDto {
    pub foreground_color: Option<String>,
    pub background_color: Option<String>,
    pub logo_url: Option<String>,
    pub logo_size: Option<u32>,
    pub size: Option<u32>,
    pub margin: Option<u32>,
    pub error_correction: Option<String>,
}

impl QrSettingsDto {
    pub fn from_entity(settings: &QrSettings) -> (r: Self)
        ensures
            r.foreground_color == settings.foreground_color,
            r.background_color == settings.background_color,
            r.logo_url == settings.logo_url,
            r.logo_size == settings.logo_size,
            r.size == settings.size,
            r.margin == settings.margin,
            r.error_correction == settings.error_correction,
    {
        QrSettingsDto {
            foreground_color: copy_opt_string(&settings.foreground_color),
            background_color: copy_opt_string(&settings.background_color),
            logo_url: copy_opt_string(&settings.logo_url),
            logo_size: settings.logo_size,
            size: settings.size,
            margin: settings.margin,
            error_correction: copy_opt_string(&settings.error_correction),
        }
    }

    pub fn to_entity(self) -> (r: QrSettings)
        ensures
            r.foreground_color == self.foreground_color,
            r.background_color == self.background_color,
            r.logo_url == self.logo_url,
            r.logo_size == self.logo_size,
            r.size == self.size,
            r.margin == self.margin,
            r.error_correction == self.error_correction,
    {
        QrSettings {
            foreground_color: self.foreground_color,
            background_color: self.background_color,
            logo_url: self.logo_url,
            logo_size: self.logo_size,
            size: self.size,
            margin: self.margin,
            error_correction: self.error_correction,
        }
    }
}

/// The QR settings that a DTO describes, field by field.
pub open spec fn qr_matches(q: QrSettings, d: QrSettingsDto) -> bool {
    &&& q.foreground_color == d.foreground_color
    &&& q.background_color == d.background_color
    &&& q.logo_url == d.logo_url
    &&& q.logo_size == d.logo_size
    &&& q.size == d.size
    &&& q.margin == d.margin
    &&& q.error_correction == d.error_correction
}

/// Optional QR settings that an optional DTO describes.
pub open spec fn opt_qr_matches(q: Option<QrSettings>, d: Option<QrSettingsDto>) -> bool {
    match (q, d) {
        (Some(q), Some(d)) => qr_matches(q, d),
        (None, None) => true,
        _ => false,
    }
}

// ---------------------------------------------------------------------------
// Route properties
// ---------------------------------------------------------------------------

/// Route properties DTO.
#[derive(Debug)]
pub struct RoutePropertiesDto {
    pub route_id: Option<String>,
    pub domain_id: Option<String>,
    pub owner_id: Option<String>,
    pub creator_id: Option<String>,
    pub workspace_id: Option<String>,
    pub scripts: Option<Vec<String>>,
    pub tags: Option<Vec<String>>,
    pub custom: Option<JsonValue>,
    pub native: Option<JsonValue>,
    pub bundling: Option<JsonValue>,
    pub qr_settings: Option<QrSettingsDto>,
    pub opengraph: bool,
    pub allow_debug: bool,
}

/// The contents of an optional string list.
pub open spec fn opt_list(o: Option<Vec<String>>) -> Option<Seq<String>> {
    match o {
        Some(v) => Some(v@),
        None => None,
    }
}

/// `a`, or `b` where `a` is absent.
pub open spec fn or_else<T>(a: Option<T>, b: Option<T>) -> Option<T> {
    match a {
        Some(x) => Some(x),
        None => b,
    }
}

/// `a`, or `b` where `a` is absent.
pub fn or_opt<T>(a: Option<T>, b: Option<T>) -> (r: Option<T>)
    ensures
        r == or_else(a, b),
{
    match a {
        Some(x) => Some(x),
        None => b,
    }
}

/// Properties and a DTO that carry the same values.
pub open spec fn props_match(p: RouteProperties, d: RoutePropertiesDto) -> bool {
    &&& p.route_id == d.route_id
    &&& p.domain_id == d.domain_id
    &&& p.owner_id == d.owner_id
    &&& p.creator_id == d.creator_id
    &&& p.workspace_id == d.workspace_id
    &&& opt_list(p.scripts) == opt_list(d.scripts)
    &&& opt_list(p.tags) == opt_list(d.tags)
    &&& opt_json(p.custom) == opt_json(d.custom)
    &&& opt_json(p.native) == opt_json(d.native)
    &&& opt_json(p.bundling) == opt_json(d.bundling)
    &&& opt_qr_matches(p.qr_settings, d.qr_settings)
    &&& p.opengraph == d.opengraph
    &&& p.allow_debug == d.allow_debug
}

/// Copies an optional list of strings, keeping its contents.
fn copy_list(o: &Option<Vec<String>>) -> (r: Option<Vec<String>>)
    ensures
        opt_list(r) == opt_list(*o),
{
    copy_opt_strings(o)
}

/// Turns optional QR settings into their DTO.
fn qr_to_dto(q: &Option<QrSettings>) -> (r: Option<QrSettingsDto>)
    ensures
        opt_qr_matches(*q, r),
{
    match q {
        Some(s) => Some(QrSettingsDto::from_entity(s)),
        None => None,
    }
}

/// Turns an optional QR settings DTO into settings.
fn qr_from_dto(q: Option<QrSettingsDto>) -> (r: Option<QrSettings>)
    ensures
        opt_qr_matches(r, q),
{
    match q {
        Some(s) => Some(s.to_entity()),
        None => None,
    }
}

/// Existing properties `e` updated by a request `d` into `r`: each optional
/// field that the request sets wins, the domain, owner and creator never
/// change, and the two flags are taken from the request.
pub open spec fn merged_props(d: RoutePropertiesDto, e: RouteProperties, r: RouteProperties) -> bool {
    &&& r.route_id == or_else(d.route_id, e.route_id)
    &&& r.domain_id == e.domain_id
    &&& r.owner_id == e.owner_id
    &&& r.creator_id == e.creator_id
    &&& r.workspace_id == or_else(d.workspace_id, e.workspace_id)
    &&& opt_list(r.scripts) == opt_list(or_else(d.scripts, e.scripts))
    &&& opt_list(r.tags) == opt_list(or_else(d.tags, e.tags))
    &&& opt_json(r.custom) == opt_json(or_else(d.custom, e.custom))
    &&& opt_json(r.native) == opt_json(or_else(d.native, e.native))
    &&& opt_json(r.bundling) == opt_json(or_else(d.bundling, e.bundling))
    &&& d.qr_settings is Some ==> opt_qr_matches(r.qr_settings, d.qr_settings)
    &&& d.qr_settings is None ==> r.qr_settings == e.qr_settings
    &&& r.opengraph == d.opengraph
    &&& r.allow_debug == d.allow_debug
}

impl RoutePropertiesDto {
    pub fn from_entity(props: &RouteProperties) -> (r: Self)
        ensures
            props_match(*props, r),
    {
        RoutePropertiesDto {
            route_id: copy_opt_string(&props.route_id),
            domain_id: copy_opt_string(&props.domain_id),
            owner_id: copy_opt_string(&props.owner_id),
            creator_id: copy_opt_string(&props.creator_id),
            workspace_id: copy_opt_string(&props.workspace_id),
            scripts: copy_list(&props.scripts),
            tags: copy_list(&props.tags),
            custom: copy_opt_json(&props.custom),
            native: copy_opt_json(&props.native),
            bundling: copy_opt_json(&props.bundling),
            qr_settings: qr_to_dto(&props.qr_settings),
            opengraph: props.opengraph,
            allow_debug: props.allow_debug,
        }
    }

    pub fn to_entity(self) -> (r: RouteProperties)
        ensures
            props_match(r, self),
    {
        RouteProperties {
            route_id: self.route_id,
            domain_id: self.domain_id,
            owner_id: self.owner_id,
            creator_id: self.creator_id,
            workspace_id: self.workspace_id,
            scripts: self.scripts,
            tags: self.tags,
            custom: self.custom,
            native: self.native,
            bundling: self.bundling,
            qr_settings: qr_from_dto(self.qr_settings),
            opengraph: self.opengraph,
            allow_debug: self.allow_debug,
        }
    }

    /// The existing properties updated by this request (see [`merged_props`]).
    pub fn merge_with(self, existing: RouteProperties) -> (r: RouteProperties)
        ensures
            merged_props(self, existing, r),
    {
        let qr = match self.qr_settings {
            Some(q) => Some(q.to_entity()),
            None => existing.qr_settings,
        };
        RouteProperties {
            route_id: or_opt(self.route_id, existing.route_id),
            domain_id: existing.domain_id,
            owner_id: existing.owner_id,
            creator_id: existing.creator_id,
            workspace_id: or_opt(self.workspace_id, existing.workspace_id),
            scripts: or_opt(self.scripts, existing.scripts),
            tags: or_opt(self.tags, existing.tags),
            custom: or_opt(self.custom, existing.custom),
            native: or_opt(self.native, existing.native),
            bundling: or_opt(self.bundling, existing.bundling),
            qr_settings: qr,
            opengraph: self.opengraph,
            allow_debug: self.allow_debug,
        }
    }
}

// ---------------------------------------------------------------------------
// Routing policies
// ---------------------------------------------------------------------------

/// Challenge routing DTO.
#[derive(Debug)]
pub struct ChallengeRoutingDto {
    pub key: String,
    pub source: String,
    pub challenge_type: String,
}

/// File routing DTO.
#[derive(Debug)]
pub struct FileRoutingDto {
    pub content_type: String,
}

/// Conditional routing DTO: a branch with its condition in JSON form.
#[derive(Debug)]
pub struct ConditionalRoutingDto {
    pub key: Option<String>,
    pub condition: JsonValue,
    pub dest: Option<String>,
}

/// Shorthand condition-destination for API input.
#[derive(Debug)]
pub struct ConditionDestinationDto {
    pub key: Option<String>,
    pub condition: JsonValue,
    pub dest: String,
}

/// The key given to the `index`-th branch that comes without one: `cond-<index>`.
pub open spec fn cond_key(index: nat) -> Seq<char> {
    "cond-"@ + decimal(index)
}

/// The key a branch gets: its own, or [`cond_key`] of its position.
pub open spec fn branch_key(key: Option<String>, index: nat) -> Seq<char> {
    match key {
        Some(k) => k@,
        None => cond_key(index),
    }
}

/// `cond-<index>`.
fn make_cond_key(index: usize) -> (r: String)
    ensures
        r@ == cond_key(index as nat),
{
    let mut s = String::from_str("cond-");
    let n = u64_text(index as u64);
    s.append(n.as_str());
    s
}

impl ConditionalRoutingDto {
    pub fn from_entity(routing: &ConditionalRouting) -> (r: Self)
        ensures
            r.key == Some(routing.key),
            r.condition@ == routing.condition@,
            r.dest == routing.dest,
    {
        ConditionalRoutingDto {
            key: Some(routing.key.clone()),
            condition: routing.condition.deep_copy(),
            dest: copy_opt_string(&routing.dest),
        }
    }

    /// The branch at position `index`, keyed by its own key or `cond-<index>`.
    pub fn to_entity(self, index: usize) -> (r: ConditionalRouting)
        ensures
            r.key@ == branch_key(self.key, index as nat),
            r.condition@ == self.condition@,
            r.dest == self.dest,
    {
        let key = match self.key {
            Some(k) => k,
            None => make_cond_key(index),
        };
        ConditionalRouting { key, condition: self.condition, dest: self.dest }
    }
}

impl ConditionDestinationDto {
    /// The branch at position `index`, keyed by its own key or `cond-<index>`,
    /// leading to its destination.
    pub fn to_entity(self, index: usize) -> (r: ConditionalRouting)
        ensures
            r.key@ == branch_key(self.key, index as nat),
            r.condition@ == self.condition@,
            r.dest == Some(self.dest),
    {
        let key = match self.key {
            Some(k) => k,
            None => make_cond_key(index),
        };
        ConditionalRouting { key, condition: self.condition, dest: Some(self.dest) }
    }
}

/// The branches that a list of shorthand conditions makes, position by position.
pub open spec fn shorthand_branches(ds: Seq<ConditionDestinationDto>, cs: Seq<ConditionalRouting>) -> bool {
    &&& cs.len() == ds.len()
    &&& forall|i: int| 0 <= i < ds.len() ==> {
        &&& (#[trigger] cs[i]).key@ == branch_key(ds[i].key, i as nat)
        &&& cs[i].condition@ == ds[i].condition@
        &&& cs[i].dest == Some(ds[i].dest)
    }
}

/// The branches that a list of conditional routing DTOs makes, position by position.
pub open spec fn dto_branches(ds: Seq<ConditionalRoutingDto>, cs: Seq<ConditionalRouting>) -> bool {
    &&& cs.len() == ds.len()
    &&& forall|i: int| 0 <= i < ds.len() ==> {
        &&& (#[trigger] cs[i]).key@ == branch_key(ds[i].key, i as nat)
        &&& cs[i].condition@ == ds[i].condition@
        &&& cs[i].dest == ds[i].dest
    }
}

/// The branches of shorthand conditions, keyed by position where they carry no key.
pub fn branches_from_shorthand(conditions: Vec<ConditionDestinationDto>) -> (r: Vec<ConditionalRouting>)
    ensures
        shorthand_branches(conditions@, r@),
{
    let ghost all = conditions@;
    let mut rest = conditions;
    let mut out: Vec<ConditionalRouting> = Vec::new();
    let mut i: usize = 0;
    let n = rest.len();
    assert(all.len() == n);
    while rest.len() > 0
        invariant
            i + rest.len() == all.len(),
            all.len() <= usize::MAX,
            out.len() == i,
            rest@ == all.subrange(i as int, all.len() as int),
            forall|j: int| 0 <= j < i ==> {
                &&& (#[trigger] out@[j]).key@ == branch_key(all[j].key, j as nat)
                &&& out@[j].condition@ == all[j].condition@
                &&& out@[j].dest == Some(all[j].dest)
            },
        decreases rest.len(),
    {
        let c = rest.remove(0);
        assert(c == all[i as int]);
        out.push(c.to_entity(i));
        i = i + 1;
        assert(rest@ =~= all.subrange(i as int, all.len() as int));
    }
    out
}

/// The branches of conditional routing DTOs, keyed by position where they carry no key.
pub fn branches_from_dtos(conditions: Vec<ConditionalRoutingDto>) -> (r: Vec<ConditionalRouting>)
    ensures
        dto_branches(conditions@, r@),
{
    let ghost all = conditions@;
    let mut rest = conditions;
    let mut out: Vec<ConditionalRouting> = Vec::new();
    let mut i: usize = 0;
    let n = rest.len();
    assert(all.len() == n);
    while rest.len() > 0
        invariant
            i + rest.len() == all.len(),
            all.len() <= usize::MAX,
            out.len() == i,
            rest@ == all.subrange(i as int, all.len() as int),
            forall|j: int| 0 <= j < i ==> {
                &&& (#[trigger] out@[j]).key@ == branch_key(all[j].key, j as nat)
                &&& out@[j].condition@ == all[j].condition@
                &&& out@[j].dest == all[j].dest
            },
        decreases rest.len(),
    {
        let c = rest.remove(0);
        assert(c == all[i as int]);
        out.push(c.to_entity(i));
        i = i + 1;
        assert(rest@ =~= all.subrange(i as int, all.len() as int));
    }
    out
}

/// Routing policy DTO.
#[derive(Debug)]
pub enum RoutingPolicyDto {
    Basic,
    Conditional { conditions: Vec<ConditionalRoutingDto> },
    Challenge { challenge: Option<ChallengeRoutingDto> },
    File { file: Option<FileRoutingDto> },
    Mirroring,
}

/// A policy and the DTO that shows it: the same kind, the same branches
/// (each with its key) and the same challenge or file; an unknown policy
/// shows as basic.
pub open spec fn policy_shown_as(p: RoutingPolicy, d: RoutingPolicyDto) -> bool {
    match p {
        RoutingPolicy::Basic => d is Basic,
        RoutingPolicy::Unknown => d is Basic,
        RoutingPolicy::Mirroring => d is Mirroring,
        RoutingPolicy::Conditional { conditions } => d matches RoutingPolicyDto::Conditional { conditions: ds } && {
            &&& ds.len() == conditions.len()
            &&& forall|i: int| 0 <= i < ds.len() ==> {
                &&& (#[trigger] ds@[i]).key == Some(conditions@[i].key)
                &&& ds@[i].condition@ == conditions@[i].condition@
                &&& ds@[i].dest == conditions@[i].dest
            }
        },
        RoutingPolicy::Challenge { challenge } => d matches RoutingPolicyDto::Challenge { challenge: c } && match (challenge, c) {
            (Some(x), Some(y)) => x.key == y.key && x.source == y.source && x.challenge_type == y.challenge_type,
            (None, None) => true,
            _ => false,
        },
        RoutingPolicy::File { file } => d matches RoutingPolicyDto::File { file: f } && match (file, f) {
            (Some(x), Some(y)) => x.content_type == y.content_type,
            (None, None) => true,
            _ => false,
        },
    }
}

/// The policy a DTO requests: the same kind, branches keyed by position
/// where they carry no key, the same challenge or file.
pub open spec fn policy_requested(d: RoutingPolicyDto, p: RoutingPolicy) -> bool {
    match d {
        RoutingPolicyDto::Basic => p is Basic,
        RoutingPolicyDto::Mirroring => p is Mirroring,
        RoutingPolicyDto::Conditional { conditions } => p matches RoutingPolicy::Conditional { conditions: cs } && dto_branches(conditions@, cs@),
        RoutingPolicyDto::Challenge { challenge } => p matches RoutingPolicy::Challenge { challenge: c } && match (challenge, c) {
            (Some(x), Some(y)) => x.key == y.key && x.source == y.source && x.challenge_type == y.challenge_type,
            (None, None) => true,
            _ => false,
        },
        RoutingPolicyDto::File { file } => p matches RoutingPolicy::File { file: f } && match (file, f) {
            (Some(x), Some(y)) => x.content_type == y.content_type,
            (None, None) => true,
            _ => false,
        },
    }
}

impl RoutingPolicyDto {
    pub fn from_entity(policy: &RoutingPolicy) -> (r: Self)
        ensures
            policy_shown_as(*policy, r),
    {
        match policy {
            RoutingPolicy::Basic => RoutingPolicyDto::Basic,
            RoutingPolicy::Conditional { conditions } => {
                let mut out: Vec<ConditionalRoutingDto> = Vec::new();
                let mut i: usize = 0;
                while i < conditions.len()
                    invariant
                        i <= conditions.len(),
                        out.len() == i,
                        forall|j: int| 0 <= j < i ==> {
                            &&& (#[trigger] out@[j]).key == Some(conditions@[j].key)
                            &&& out@[j].condition@ == conditions@[j].condition@
                            &&& out@[j].dest == conditions@[j].dest
                        },
                    decreases conditions.len() - i,
                {
                    out.push(ConditionalRoutingDto::from_entity(&conditions[i]));
                    i = i + 1;
                }
                RoutingPolicyDto::Conditional { conditions: out }
            },
            RoutingPolicy::Challenge { challenge } => RoutingPolicyDto::Challenge {
                challenge: match challenge {
                    Some(c) => Some(
                        ChallengeRoutingDto {
                            key: c.key.clone(),
                            source: c.source.clone(),
                            challenge_type: c.challenge_type.clone(),
                        },
                    ),
                    None => None,
                },
            },
            RoutingPolicy::File { file } => RoutingPolicyDto::File {
                file: match file {
                    Some(f) => Some(FileRoutingDto { content_type: f.content_type.clone() }),
                    None => None,
                },
            },
            RoutingPolicy::Mirroring => RoutingPolicyDto::Mirroring,
            RoutingPolicy::Unknown => RoutingPolicyDto::Basic,
        }
    }

    pub fn to_entity(self) -> (r: RoutingPolicy)
        ensures
            policy_requested(self, r),
    {
        match self {
            RoutingPolicyDto::Basic => RoutingPolicy::Basic,
            RoutingPolicyDto::Conditional { conditions } => RoutingPolicy::Conditional {
                conditions: branches_from_dtos(conditions),
            },
            RoutingPolicyDto::Challenge { challenge } => RoutingPolicy::Challenge {
                challenge: match challenge {
                    Some(c) => Some(ChallengeRouting { key: c.key, source: c.source, challenge_type: c.challenge_type }),
                    None => None,
                },
            },
            RoutingPolicyDto::File { file } => RoutingPolicy::File {
                file: match file {
                    Some(f) => Some(FileRouting { content_type: f.content_type }),
                    None => None,
                },
            },
            RoutingPolicyDto::Mirroring => RoutingPolicy::Mirroring,
        }
    }
}

// ---------------------------------------------------------------------------
// Routes
// ---------------------------------------------------------------------------

/// Route response DTO.
#[derive(Debug)]
pub struct RouteDto {
    pub id: String,
    pub switch: String,
    pub link: String,
    pub dest: Option<String>,
    pub dest_format: String,
    pub code: Option<u16>,
    pub ttl: Option<u64>,
    pub status: String,
    pub terminal: String,
    pub policy: Option<RoutingPolicyDto>,
    pub properties: Option<RoutePropertiesDto>,
    pub domain_id: Option<String>,
    pub domain: Option<DomainDto>,
}

/// The hyphenated text of an optional id.
pub open spec fn opt_uuid_text(o: Option<u128>) -> Option<Seq<char>> {
    match o {
        Some(u) => Some(uuid_text(u)),
        None => None,
    }
}

/// The text of an optional string.
pub open spec fn opt_str(o: Option<String>) -> Option<Seq<char>> {
    match o {
        Some(s) => Some(s@),
        None => None,
    }
}

impl RouteDto {
    /// The response form of a route (with its domain where one is given):
    /// the enumerations by their names, the policy and properties copied.
    pub fn from_entity(route: Route, domain: Option<RouteDomain>) -> (r: Self)
        ensures
            r.id@ == uuid_text(route.id),
            r.switch == route.switch,
            r.link == route.link,
            r.dest == route.dest,
            r.dest_format@ == dest_format_name(route.dest_format),
            r.code == route.code,
            r.ttl == route.ttl,
            r.status@ == route_status_name(route.status),
            r.terminal@ == terminal_name(route.terminal),
            r.policy matches Some(p) && policy_shown_as(route.policy, p),
            r.properties matches Some(p) && props_match(route.properties, p),
            opt_str(r.domain_id) == opt_uuid_text(route.domain_id),
            match domain {
                Some(d) => r.domain matches Some(x) && domain_shown_as(d, x),
                None => r.domain is None,
            },
    {
        let policy = RoutingPolicyDto::from_entity(&route.policy);
        let properties = RoutePropertiesDto::from_entity(&route.properties);
        let domain_id = match route.domain_id {
            Some(id) => Some(uuid_to_string(id)),
            None => None,
        };
        RouteDto {
            id: uuid_to_string(route.id),
            switch: route.switch,
            link: route.link,
            dest: route.dest,
            dest_format: String::from_str(route.dest_format.name()),
            code: route.code,
            ttl: route.ttl,
            status: String::from_str(route.status.as_str()),
            terminal: String::from_str(route.terminal.name()),
            policy: Some(policy),
            properties: Some(properties),
            domain_id,
            domain: match domain {
                Some(d) => Some(DomainDto::from_entity(d)),
                None => None,
            },
        }
    }
}

/// Route creation request DTO.
#[derive(Debug)]
pub struct CreateRouteDto {
    pub switch: String,
    pub link: Option<String>,
    pub dest: Option<String>,
    pub dest_format: String,
    pub code: Option<u16>,
    pub ttl: Option<u64>,
    pub status: String,
    pub terminal: String,
    pub policy: Option<RoutingPolicyDto>,
    pub properties: Option<RoutePropertiesDto>,
    pub domain_id: Option<String>,
    pub conditions: Option<Vec<ConditionDestinationDto>>,
}

/// The switch a request gets when it names none: `main`.
pub fn default_switch() -> (r: String)
    ensures
        r@ == "main"@,
{
    String::from_str("main")
}

/// The destination format a request gets when it names none: `Http`.
pub fn default_dest_format() -> (r: String)
    ensures
        r@ == "Http"@,
{
    String::from_str("Http")
}

/// The status a request gets when it names none: `Active`.
pub fn default_status() -> (r: String)
    ensures
        r@ == "Active"@,
{
    String::from_str("Active")
}

/// The terminal a request gets when it names none: `External`.
pub fn default_terminal() -> (r: String)
    ensures
        r@ == "External"@,
{
    String::from_str("External")
}

/// Why a creation request is refused.
pub open spec fn create_route_error(domain_id: Option<String>) -> Option<Seq<char>> {
    match domain_id {
        None => Some("domain_id is required"@),
        Some(d) => if uuid_parse(d@) is None { Some("Invalid domain_id"@) } else { None },
    }
}

/// The status a status name gives a route.
pub open spec fn status_matches_name(s: RouteStatus, name: Seq<char>) -> bool {
    if status_name_blocks(name) {
        s matches RouteStatus::Blocked(BlockedReason::Unknown)
    } else {
        s is Active
    }
}

/// The route that a creation request describes for `user_id` (what
/// [`CreateRouteDto::to_entity`] makes of it, its fresh id aside).
pub open spec fn route_described(c: CreateRouteDto, user_id: Seq<char>, route: Route) -> bool {
    let d = uuid_parse(c.domain_id->0@)->0;
    &&& route.domain_id == Some(d)
    &&& route.switch == c.switch
    &&& route.link@ == match c.link { Some(l) => l@, None => Seq::<char>::empty() }
    &&& route.dest == c.dest
    &&& route.dest_format == dest_format_from_name(c.dest_format@)
    &&& route.code == c.code
    &&& route.ttl == c.ttl
    &&& status_matches_name(route.status, c.status@)
    &&& route.terminal == terminal_from_name(c.terminal@)
    &&& match c.conditions {
        Some(cs) => route.policy matches RoutingPolicy::Conditional { conditions: rs } && shorthand_branches(cs@, rs@),
        None => match c.policy {
            Some(p) => policy_requested(p, route.policy),
            None => route.policy is Basic,
        },
    }
    &&& route.properties.owner_id matches Some(o) && o@ == user_id
    &&& route.properties.creator_id matches Some(cr) && cr@ == user_id
    &&& route.properties.domain_id matches Some(ds) && ds@ == uuid_text(d)
    &&& match c.properties {
        Some(p) => {
            &&& route.properties.route_id == p.route_id
            &&& route.properties.workspace_id == p.workspace_id
            &&& opt_list(route.properties.scripts) == opt_list(p.scripts)
            &&& opt_list(route.properties.tags) == opt_list(p.tags)
            &&& opt_json(route.properties.custom) == opt_json(p.custom)
            &&& opt_json(route.properties.native) == opt_json(p.native)
            &&& opt_json(route.properties.bundling) == opt_json(p.bundling)
            &&& opt_qr_matches(route.properties.qr_settings, p.qr_settings)
            &&& route.properties.opengraph == p.opengraph
            &&& route.properties.allow_debug == p.allow_debug
        },
        None => {
            &&& route.properties.route_id is None
            &&& route.properties.workspace_id is None
            &&& route.properties.scripts is None
            &&& route.properties.tags is None
            &&& route.properties.custom is None
            &&& route.properties.native is None
            &&& route.properties.bundling is None
            &&& route.properties.qr_settings is None
            &&& !route.properties.opengraph
            &&& !route.properties.allow_debug
        },
    }
}

impl CreateRouteDto {
    /// The route that the request describes, for the user `user_id`: refused
    /// without a domain or with one that is not a UUID. Shorthand conditions
    /// win over a policy, which wins over the basic policy; the properties
    /// name the user as owner and creator and carry the domain.
    pub fn to_entity(self, user_id: &str) -> (r: Result<Route, String>)
        ensures
            r is Err <==> create_route_error(self.domain_id) is Some,
            r matches Err(m) ==> create_route_error(self.domain_id) == Some(m@),
            r matches Ok(route) ==> route_described(self, user_id@, route),
    {
        let domain_id_str = match self.domain_id {
            Some(d) => d,
            None => {
                return Err(String::from_str("domain_id is required"));
            },
        };
        let domain_id = match parse_uuid(domain_id_str.as_str()) {
            Ok(id) => id,
            Err(_) => {
                return Err(String::from_str("Invalid domain_id"));
            },
        };
        let dest_format = DestinationFormat::from_name(self.dest_format.as_str());
        let terminal = RoutingTerminal::from_name(self.terminal.as_str());
        let status = route_status_from_name(self.status.as_str());
        let policy = match self.conditions {
            Some(conditions) => RoutingPolicy::Conditional { conditions: branches_from_shorthand(conditions) },
            None => match self.policy {
                Some(p) => p.to_entity(),
                None => RoutingPolicy::Basic,
            },
        };
        let mut properties = match self.properties {
            Some(p) => p.to_entity(),
            None => RouteProperties::empty(),
        };
        properties.owner_id = Some(String::from_str(user_id));
        properties.creator_id = Some(String::from_str(user_id));
        properties.domain_id = Some(uuid_to_string(domain_id));
        let link = match self.link {
            Some(l) => l,
            None => String::new(),
        };
        Ok(Route {
            id: new_uuid(),
            switch: self.switch,
            link,
            dest: self.dest,
            dest_format,
            code: self.code,
            ttl: self.ttl,
            status,
            terminal,
            policy,
            properties,
            domain_id: Some(domain_id),
        })
    }
}

/// Route update request DTO.
#[derive(Debug)]
pub struct UpdateRouteDto {
    pub dest: Option<String>,
    pub dest_format: Option<String>,
    pub code: Option<u16>,
    pub ttl: Option<u64>,
    pub status: Option<String>,
    pub terminal: Option<String>,
    pub policy: Option<RoutingPolicyDto>,
    pub properties: Option<RoutePropertiesDto>,
    pub conditions: Option<Vec<ConditionDestinationDto>>,
}

impl UpdateRouteDto {
    /// The route with what the request sets: each field it names replaced,
    /// shorthand conditions winning over a policy, properties merged (see
    /// [`RoutePropertiesDto::merge_with`]); the id, switch, link and domain kept.
    pub fn apply_to(self, route: Route) -> (r: Route)
        ensures
            r.id == route.id,
            r.switch == route.switch,
            r.link == route.link,
            r.domain_id == route.domain_id,
            r.dest == match self.dest { Some(d) => Some(d), None => route.dest },
            r.dest_format == match self.dest_format { Some(f) => dest_format_from_name(f@), None => route.dest_format },
            r.code == match self.code { Some(c) => Some(c), None => route.code },
            r.ttl == match self.ttl { Some(t) => Some(t), None => route.ttl },
            match self.status {
                Some(s) => status_matches_name(r.status, s@),
                None => r.status == route.status,
            },
            r.terminal == match self.terminal { Some(t) => terminal_from_name(t@), None => route.terminal },
            match self.conditions {
                Some(cs) => r.policy matches RoutingPolicy::Conditional { conditions: rs } && shorthand_branches(cs@, rs@),
                None => match self.policy {
                    Some(p) => policy_requested(p, r.policy),
                    None => r.policy == route.policy,
                },
            },
            self.properties is None ==> r.properties == route.properties,
            self.properties matches Some(p) ==> merged_props(p, route.properties, r.properties),
    {
        let mut route = route;
        if let Some(dest) = self.dest {
            route.dest = Some(dest);
        }
        if let Some(dest_format) = self.dest_format {
            route.dest_format = DestinationFormat::from_name(dest_format.as_str());
        }
        if let Some(code) = self.code {
            route.code = Some(code);
        }
        if let Some(ttl) = self.ttl {
            route.ttl = Some(ttl);
        }
        if let Some(status) = self.status {
            route.status = route_status_from_name(status.as_str());
        }
        if let Some(terminal) = self.terminal {
            route.terminal = RoutingTerminal::from_name(terminal.as_str());
        }
        match self.conditions {
            Some(conditions) => {
                route.policy = RoutingPolicy::Conditional { conditions: branches_from_shorthand(conditions) };
            },
            None => {
                if let Some(policy) = self.policy {
                    route.policy = policy.to_entity();
                }
            },
        }
        if let Some(props) = self.properties {
            let existing = route.properties;
            route.properties = props.merge_with(existing);
        }
        route
    }
}

/// Bulk operation request.
#[derive(Debug)]
pub struct BulkRoutesDto {
    pub routes: Vec<CreateRouteDto>,
}

/// Bulk delete request.
#[derive(Debug)]
pub struct BulkDeleteDto {
    pub ids: Vec<String>,
}

/// Link suggestion response.
#[derive(Debug)]
pub struct LinkSuggestionDto {
    pub link: String,
}

/// Presigned URL response.
#[derive(Debug)]
pub struct PresignedUrlDto {
    pub url: String,
    pub expires_at: String,
}

/// Paginated routes response.
#[derive(Debug)]
pub struct PaginatedRoutesDto {
    pub data: Vec<RouteDto>,
    pub pagination: PaginationDto,
}

impl PaginatedRoutesDto {
    /// A page of routes with its metadata; the page count is the ceiling of
    /// `total_count / page_size` (see [`pages_for`]).
    pub fn new(routes: Vec<RouteDto>, page: i32, page_size: i32, total_count: i64) -> (r: Self)
        ensures
            r.data == routes,
            r.pagination.page == page,
            r.pagination.page_size == page_size,
            r.pagination.total_count == total_count,
            r.pagination.total_pages == pages_for(total_count as int, page_size as int),
    {
        PaginatedRoutesDto { data: routes, pagination: PaginationDto::new(page, page_size, total_count) }
    }
}

/// Two property sets that carry the same values.
pub open spec fn same_props(p: RouteProperties, q: RouteProperties) -> bool {
    &&& p.route_id == q.route_id
    &&& p.domain_id == q.domain_id
    &&& p.owner_id == q.owner_id
    &&& p.creator_id == q.creator_id
    &&& p.workspace_id == q.workspace_id
    &&& opt_list(p.scripts) == opt_list(q.scripts)
    &&& opt_list(p.tags) == opt_list(q.tags)
    &&& opt_json(p.custom) == opt_json(q.custom)
    &&& opt_json(p.native) == opt_json(q.native)
    &&& opt_json(p.bundling) == opt_json(q.bundling)
    &&& match (p.qr_settings, q.qr_settings) {
        (Some(a), Some(b)) => a.foreground_color == b.foreground_color && a.background_color == b.background_color
            && a.logo_url == b.logo_url && a.logo_size == b.logo_size && a.size == b.size
            && a.margin == b.margin && a.error_correction == b.error_correction,
        (None, None) => true,
        _ => false,
    }
    &&& p.opengraph == q.opengraph
    &&& p.allow_debug == q.allow_debug
}

/// Properties sent out as a DTO and read back are the same properties.
pub proof fn lemma_props_round_trip(p: RouteProperties, d: RoutePropertiesDto, q: RouteProperties)
    requires
        props_match(p, d),
        props_match(q, d),
    ensures
        same_props(p, q),
{
}

/// Two policies of the same kind with the same content (branch by branch).
pub open spec fn same_policy(p: RoutingPolicy, q: RoutingPolicy) -> bool {
    match (p, q) {
        (RoutingPolicy::Basic, RoutingPolicy::Basic) => true,
        (RoutingPolicy::Mirroring, RoutingPolicy::Mirroring) => true,
        (RoutingPolicy::Unknown, RoutingPolicy::Unknown) => true,
        (RoutingPolicy::Conditional { conditions: a }, RoutingPolicy::Conditional { conditions: b }) => {
            &&& a.len() == b.len()
            &&& forall|i: int| 0 <= i < a.len() ==> {
                &&& (#[trigger] a@[i]).key@ == b@[i].key@
                &&& a@[i].condition@ == b@[i].condition@
                &&& a@[i].dest == b@[i].dest
            }
        },
        (RoutingPolicy::Challenge { challenge: a }, RoutingPolicy::Challenge { challenge: b }) => match (a, b) {
            (Some(x), Some(y)) => x.key == y.key && x.source == y.source && x.challenge_type == y.challenge_type,
            (None, None) => true,
            _ => false,
        },
        (RoutingPolicy::File { file: a }, RoutingPolicy::File { file: b }) => match (a, b) {
            (Some(x), Some(y)) => x.content_type == y.content_type,
            (None, None) => true,
            _ => false,
        },
        _ => false,
    }
}

/// A policy shown as a DTO and read back is the same policy (each branch
/// keeps its key), except that an unknown policy comes back as basic.
pub proof fn lemma_policy_round_trip(p: RoutingPolicy, d: RoutingPolicyDto, q: RoutingPolicy)
    requires
        policy_shown_as(p, d),
        policy_requested(d, q),
    ensures
        p is Unknown ==> q is Basic,
        !(p is Unknown) ==> same_policy(p, q),
{
    match p {
        RoutingPolicy::Conditional { conditions: a } => {
            let ds = d->Conditional_conditions;
            let b = q->Conditional_conditions;
            assert forall|i: int| 0 <= i < a.len() implies {
                &&& (#[trigger] a@[i]).key@ == b@[i].key@
                &&& a@[i].condition@ == b@[i].condition@
                &&& a@[i].dest == b@[i].dest
            } by {
                assert(ds@[i].key == Some(a@[i].key));
                assert(b@[i].key@ == branch_key(ds@[i].key, i as nat));
            }
        },
        _ => {},
    }
}

} // verus!
