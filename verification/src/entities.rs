//! Domain entities: routes and their policies, domains, certificates and
//! workspaces.

use vstd::prelude::*;
use vstd::string::*;

use crate::ext::{new_uuid, now, rfc3339, rfc3339_of, str_eq, Timestamp};
use crate::json::{JsonValue, JsonView};

verus! {

// ---------------------------------------------------------------------------
// Copies of optional and listed strings
// ---------------------------------------------------------------------------

/// A copy of an optional string.
pub fn copy_opt_string(o: &Option<String>) -> (r: Option<String>)
    ensures
        r == *o,
{
    match o {
        Some(s) => Some(s.clone()),
        None => None,
    }
}

/// A copy of a list of strings.
pub fn copy_strings(v: &Vec<String>) -> (r: Vec<String>)
    ensures
        r@ == v@,
{
    let mut out: Vec<String> = Vec::new();
    let mut i: usize = 0;
    while i < v.len()
        invariant
            i <= v.len(),
            out@ == v@.subrange(0, i as int),
        decreases v.len() - i,
    {
        out.push(v[i].clone());
        assert(out@ =~= v@.subrange(0, i + 1));
        i = i + 1;
    }
    assert(out@ =~= v@);
    out
}

/// A copy of an optional list of strings.
pub fn copy_opt_strings(o: &Option<Vec<String>>) -> (r: Option<Vec<String>>)
    ensures
        r is Some <==> o is Some,
        r matches Some(v) ==> v@ == o->0@,
{
    match o {
        Some(v) => Some(copy_strings(v)),
        None => None,
    }
}

/// The view of an optional JSON value.
pub open spec fn opt_json(o: Option<JsonValue>) -> Option<JsonView> {
    match o {
        Some(v) => Some(v@),
        None => None,
    }
}

/// A copy of an optional JSON value.
pub fn copy_opt_json(o: &Option<JsonValue>) -> (r: Option<JsonValue>)
    ensures
        opt_json(r) == opt_json(*o),
{
    match o {
        Some(v) => Some(v.deep_copy()),
        None => None,
    }
}

/// The RFC 3339 text of an optional timestamp, as chrono writes it.
pub open spec fn opt_rfc3339(o: Option<Timestamp>) -> Option<Seq<char>> {
    match o {
        Some(t) => rfc3339_of(t.secs, t.nanos),
        None => None,
    }
}

/// The RFC 3339 text of an optional timestamp.
pub fn format_opt_time(o: Option<Timestamp>) -> (r: Option<String>)
    ensures
        r is Some <==> opt_rfc3339(o) is Some,
        r matches Some(s) ==> opt_rfc3339(o) == Some(s@),
{
    match o {
        Some(t) => rfc3339(t),
        None => None,
    }
}

// ---------------------------------------------------------------------------
// Routes
// ---------------------------------------------------------------------------

/// How the destination is handed to the client.
#[derive(PartialEq, Eq, Structural, Clone, Copy, Debug)]
pub enum DestinationFormat {
    Http,
    Native,
}

/// Where a route's resolution ends.
#[derive(PartialEq, Eq, Structural, Clone, Copy, Debug)]
pub enum RoutingTerminal {
    External,
    Internal,
    Middleware,
}

/// Why a route is blocked.
#[derive(Debug)]
pub enum BlockedReason {
    Unknown,
    Reasoned(String),
}

/// Whether a route serves traffic.
#[derive(Debug)]
pub enum RouteStatus {
    Active,
    Blocked(BlockedReason),
}

/// The stored name of a route status.
pub open spec fn route_status_name(s: RouteStatus) -> Seq<char> {
    match s {
        RouteStatus::Active => "Active"@,
        RouteStatus::Blocked(_) => "Blocked"@,
    }
}

impl RouteStatus {
    pub fn as_str(&self) -> (r: &'static str)
        ensures
            r@ == route_status_name(*self),
    {
        match self {
            RouteStatus::Active => "Active",
            RouteStatus::Blocked(_) => "Blocked",
        }
    }
}

/// The name of a destination format (its variant name).
pub open spec fn dest_format_name(f: DestinationFormat) -> Seq<char> {
    match f {
        DestinationFormat::Http => "Http"@,
        DestinationFormat::Native => "Native"@,
    }
}

/// The name of a routing terminal (its variant name).
pub open spec fn terminal_name(t: RoutingTerminal) -> Seq<char> {
    match t {
        RoutingTerminal::External => "External"@,
        RoutingTerminal::Internal => "Internal"@,
        RoutingTerminal::Middleware => "Middleware"@,
    }
}

/// The destination format a name reads as: `Native`, or HTTP for anything else.
pub open spec fn dest_format_from_name(s: Seq<char>) -> DestinationFormat {
    if s == "Native"@ {
        DestinationFormat::Native
    } else {
        DestinationFormat::Http
    }
}

/// The terminal a name reads as: `Internal`, `Middleware`, or external for anything else.
pub open spec fn terminal_from_name(s: Seq<char>) -> RoutingTerminal {
    if s == "Internal"@ {
        RoutingTerminal::Internal
    } else if s == "Middleware"@ {
        RoutingTerminal::Middleware
    } else {
        RoutingTerminal::External
    }
}

/// Whether a status name reads as blocked (any other name reads as active).
pub open spec fn status_name_blocks(s: Seq<char>) -> bool {
    s == "Blocked"@
}

impl DestinationFormat {
    /// The variant's name.
    pub fn name(&self) -> (r: &'static str)
        ensures
            r@ == dest_format_name(*self),
    {
        match self {
            DestinationFormat::Http => "Http",
            DestinationFormat::Native => "Native",
        }
    }

    /// Reads a format name.
    pub fn from_name(s: &str) -> (r: Self)
        ensures
            r == dest_format_from_name(s@),
    {
        if str_eq(s, "Native") {
            DestinationFormat::Native
        } else {
            DestinationFormat::Http
        }
    }
}

impl RoutingTerminal {
    /// The variant's name.
    pub fn name(&self) -> (r: &'static str)
        ensures
            r@ == terminal_name(*self),
    {
        match self {
            RoutingTerminal::External => "External",
            RoutingTerminal::Internal => "Internal",
            RoutingTerminal::Middleware => "Middleware",
        }
    }

    /// Reads a terminal name.
    pub fn from_name(s: &str) -> (r: Self)
        ensures
            r == terminal_from_name(s@),
    {
        if str_eq(s, "Internal") {
            RoutingTerminal::Internal
        } else if str_eq(s, "Middleware") {
            RoutingTerminal::Middleware
        } else {
            RoutingTerminal::External
        }
    }
}

/// Reads a status name: `Blocked` (for an unknown reason), or active.
pub fn route_status_from_name(s: &str) -> (r: RouteStatus)
    ensures
        status_name_blocks(s@) ==> r matches RouteStatus::Blocked(BlockedReason::Unknown),
        !status_name_blocks(s@) ==> r is Active,
{
    if str_eq(s, "Blocked") {
        RouteStatus::Blocked(BlockedReason::Unknown)
    } else {
        RouteStatus::Active
    }
}

/// Reading back a format's or a terminal's name gives the same value.
pub proof fn lemma_route_names_round_trip(f: DestinationFormat, t: RoutingTerminal)
    ensures
        dest_format_from_name(dest_format_name(f)) == f,
        terminal_from_name(terminal_name(t)) == t,
{
    reveal_strlit("Http");
    reveal_strlit("Native");
    reveal_strlit("External");
    reveal_strlit("Internal");
    reveal_strlit("Middleware");
    assert("Http"@.len() != "Native"@.len());
    assert("External"@[0] != "Internal"@[0]);
    assert("External"@.len() != "Middleware"@.len());
    assert("Internal"@.len() != "Middleware"@.len());
}

/// The challenge a route poses.
#[derive(Debug)]
pub struct ChallengeRouting {
    pub key: String,
    pub source: String,
    pub challenge_type: String,
}

/// The file a route serves.
#[derive(Debug)]
pub struct FileRouting {
    pub content_type: String,
}

/// One branch of conditional routing: its key, its condition (in its JSON
/// form) and its destination.
#[derive(Debug)]
pub struct ConditionalRouting {
    pub key: String,
    pub condition: JsonValue,
    pub dest: Option<String>,
}

/// How a route chooses its destination.
#[derive(Debug)]
pub enum RoutingPolicy {
    Basic,
    Conditional { conditions: Vec<ConditionalRouting> },
    Challenge { challenge: Option<ChallengeRouting> },
    File { file: Option<FileRouting> },
    Mirroring,
    Unknown,
}

/// QR code rendering settings. The logo size is a 32-bit float carried as its
/// IEEE-754 bit pattern.
#[derive(Debug)]
pub struct QrSettings {
    pub foreground_color: Option<String>,
    pub background_color: Option<String>,
    pub logo_url: Option<String>,
    pub logo_size: Option<u32>,
    pub size: Option<u32>,
    pub margin: Option<u32>,
    pub error_correction: Option<String>,
}

/// The properties attached to a route.
#[derive(Debug)]
pub struct RouteProperties {
    pub route_id: Option<String>,
    pub domain_id: Option<String>,
    pub owner_id: Option<String>,
    pub creator_id: Option<String>,
    pub workspace_id: Option<String>,
    pub scripts: Option<Vec<String>>,
    pub tags: Option<Vec<String>>,
    pub custom: Option<JsonValue>,
    pub native: Option<JsonValue>,
    pub bundling: Option<JsonValue>,
    pub qr_settings: Option<QrSettings>,
    pub opengraph: bool,
    pub allow_debug: bool,
}

impl RouteProperties {
    /// Properties with nothing set.
    pub fn empty() -> (r: Self)
        ensures
            r.route_id is None && r.domain_id is None && r.owner_id is None,
            r.creator_id is None && r.workspace_id is None,
            r.scripts is None && r.tags is None,
            r.custom is None && r.native is None && r.bundling is None,
            r.qr_settings is None,
            !r.opengraph && !r.allow_debug,
    {
        RouteProperties {
            route_id: None,
            domain_id: None,
            owner_id: None,
            creator_id: None,
            workspace_id: None,
            scripts: None,
            tags: None,
            custom: None,
            native: None,
            bundling: None,
            qr_settings: None,
            opengraph: false,
            allow_debug: false,
        }
    }
}

impl Default for RouteProperties {
    fn default() -> (r: Self)
        ensures
            r.route_id is None && r.domain_id is None && r.owner_id is None,
            r.creator_id is None && r.workspace_id is None,
            r.scripts is None && r.tags is None,
            r.custom is None && r.native is None && r.bundling is None,
            r.qr_settings is None,
            !r.opengraph && !r.allow_debug,
    {
        RouteProperties::empty()
    }
}

/// A short link: where `link` on its domain leads, and how.
#[derive(Debug)]
pub struct Route {
    pub id: u128,
    pub switch: String,
    pub link: String,
    pub dest: Option<String>,
    pub dest_format: DestinationFormat,
    pub code: Option<u16>,
    pub ttl: Option<u64>,
    pub status: RouteStatus,
    pub terminal: RoutingTerminal,
    pub policy: RoutingPolicy,
    pub properties: RouteProperties,
    pub domain_id: Option<u128>,
}

// ---------------------------------------------------------------------------
// Domains and certificates
// ---------------------------------------------------------------------------

/// Where a domain's ownership check stands.
#[derive(PartialEq, Eq, Structural, Clone, Copy, Debug)]
pub enum DomainVerificationStatus {
    Pending,
    Verified,
    Failed,
}

/// The stored name of a verification status.
pub open spec fn verification_name(s: DomainVerificationStatus) -> Seq<char> {
    match s {
        DomainVerificationStatus::Pending => "Pending"@,
        DomainVerificationStatus::Verified => "Verified"@,
        DomainVerificationStatus::Failed => "Failed"@,
    }
}

/// The verification status a stored name reads as; anything unknown is pending.
pub open spec fn verification_from_name(s: Seq<char>) -> DomainVerificationStatus {
    if s == "Verified"@ {
        DomainVerificationStatus::Verified
    } else if s == "Failed"@ {
        DomainVerificationStatus::Failed
    } else {
        DomainVerificationStatus::Pending
    }
}

impl DomainVerificationStatus {
    pub fn as_str(&self) -> (r: &'static str)
        ensures
            r@ == verification_name(*self),
    {
        match self {
            DomainVerificationStatus::Pending => "Pending",
            DomainVerificationStatus::Verified => "Verified",
            DomainVerificationStatus::Failed => "Failed",
        }
    }

    pub fn from_str(s: &str) -> (r: Self)
        ensures
            r == verification_from_name(s@),
    {
        if str_eq(s, "Verified") {
            DomainVerificationStatus::Verified
        } else if str_eq(s, "Failed") {
            DomainVerificationStatus::Failed
        } else {
            DomainVerificationStatus::Pending
        }
    }
}

/// Reading back the stored name of a verification status gives the same status.
pub proof fn lemma_verification_round_trip(s: DomainVerificationStatus)
    ensures
        verification_from_name(verification_name(s)) == s,
{
    reveal_strlit("Pending");
    reveal_strlit("Verified");
    reveal_strlit("Failed");
    assert("Pending"@.len() != "Verified"@.len());
    assert("Pending"@.len() != "Failed"@.len());
    assert("Verified"@.len() != "Failed"@.len());
}

/// DNS records a domain owner sets up.
#[derive(Debug)]
pub struct DnsConfig {
    pub txt_record: String,
    pub cname_target: String,
    pub a_records: Vec<String>,
}

/// The reason recorded for a domain that was never checked.
pub open spec fn not_checked_reason() -> Seq<char> {
    "not_checked"@
}

/// A domain on which routes live.
#[derive(Debug)]
pub struct RouteDomain {
    pub id: u128,
    pub name: String,
    pub owner_id: String,
    pub is_shared: bool,
    pub verification_status: DomainVerificationStatus,
    pub verification_reason: String,
    pub last_verification_check: Option<Timestamp>,
    pub next_verification_check: Option<Timestamp>,
    pub custom_index_url: Option<String>,
    pub custom_not_found_url: Option<String>,
    pub dns_config: Option<DnsConfig>,
    pub created_at: Option<Timestamp>,
    pub updated_at: Option<Timestamp>,
}

impl RouteDomain {
    /// A new private domain, pending verification and not yet checked.
    pub fn new(name: String, owner_id: String) -> (r: Self)
        ensures
            r.name == name,
            r.owner_id == owner_id,
            !r.is_shared,
            r.verification_status == DomainVerificationStatus::Pending,
            r.verification_reason@ == not_checked_reason(),
            r.last_verification_check is None,
            r.next_verification_check is None,
            r.custom_index_url is None,
            r.custom_not_found_url is None,
            r.dns_config is None,
            r.created_at is Some,
            r.updated_at == r.created_at,
    {
        let t = now();
        RouteDomain {
            id: new_uuid(),
            name,
            owner_id,
            is_shared: false,
            verification_status: DomainVerificationStatus::Pending,
            verification_reason: String::from_str("not_checked"),
            last_verification_check: None,
            next_verification_check: None,
            custom_index_url: None,
            custom_not_found_url: None,
            dns_config: None,
            created_at: Some(t),
            updated_at: Some(t),
        }
    }
}

/// A TLS certificate for a domain.
#[derive(Debug)]
pub struct Certificate {
    pub id: u128,
    pub key: String,
    pub cert: String,
    pub ocsp_resp: Option<String>,
    pub owner_id: String,
    pub domain_id: u128,
    pub expires_at: Option<Timestamp>,
    pub created_at: Option<Timestamp>,
}

impl Certificate {
    /// A new certificate without OCSP response or known expiry, created now.
    pub fn new(key: String, cert: String, owner_id: String, domain_id: u128) -> (r: Self)
        ensures
            r.key == key,
            r.cert == cert,
            r.owner_id == owner_id,
            r.domain_id == domain_id,
            r.ocsp_resp is None,
            r.expires_at is None,
            r.created_at is Some,
    {
        Certificate {
            id: new_uuid(),
            key,
            cert,
            ocsp_resp: None,
            owner_id,
            domain_id,
            expires_at: None,
            created_at: Some(now()),
        }
    }
}

// ---------------------------------------------------------------------------
// Workspaces
// ---------------------------------------------------------------------------

/// A workspace that groups routes and members.
#[derive(Debug)]
pub struct Workspace {
    pub id: u128,
    pub name: String,
    pub description: String,
    pub workspace_type: String,
    pub created_at: Option<Timestamp>,
    pub updated_at: Option<Timestamp>,
}

/// The type of the workspaces the system creates.
pub open spec fn system_type() -> Seq<char> {
    "System"@
}

impl Workspace {
    /// A new workspace of the given type, without description, created now.
    pub fn new(name: String, workspace_type: String) -> (r: Self)
        ensures
            r.name == name,
            r.workspace_type == workspace_type,
            r.description@ == Seq::<char>::empty(),
            r.created_at is Some,
            r.updated_at == r.created_at,
    {
        let t = now();
        Workspace {
            id: new_uuid(),
            name,
            description: String::new(),
            workspace_type,
            created_at: Some(t),
            updated_at: Some(t),
        }
    }

    /// Whether the system created this workspace.
    pub fn is_system(&self) -> (r: bool)
        ensures
            r == (self.workspace_type@ == system_type()),
    {
        str_eq(self.workspace_type.as_str(), "System")
    }
}

/// A user's membership in a workspace.
#[derive(Debug)]
pub struct UserWorkspace {
    pub id: u128,
    pub user_id: String,
    pub workspace_id: u128,
    pub role: String,
    pub joined_at: Option<Timestamp>,
}

/// The owner role.
pub open spec fn owner_role() -> Seq<char> {
    "Owner"@
}

/// The administrator role.
pub open spec fn admin_role() -> Seq<char> {
    "Admin"@
}

impl UserWorkspace {
    /// A new membership, joined now.
    pub fn new(user_id: String, workspace_id: u128, role: String) -> (r: Self)
        ensures
            r.user_id == user_id,
            r.workspace_id == workspace_id,
            r.role == role,
            r.joined_at is Some,
    {
        UserWorkspace { id: new_uuid(), user_id, workspace_id, role, joined_at: Some(now()) }
    }

    /// Whether the member owns the workspace.
    pub fn is_owner(&self) -> (r: bool)
        ensures
            r == (self.role@ == owner_role()),
    {
        str_eq(self.role.as_str(), "Owner")
    }

    /// Whether the member may administer the workspace: owners and admins.
    pub fn is_admin(&self) -> (r: bool)
        ensures
            r == (self.role@ == owner_role() || self.role@ == admin_role()),
    {
        str_eq(self.role.as_str(), "Owner") || str_eq(self.role.as_str(), "Admin")
    }
}

} // verus!
