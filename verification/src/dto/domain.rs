//! Domain transfer objects.

use vstd::prelude::*;

use crate::entities::{verification_name, DomainVerificationStatus, RouteDomain, format_opt_time, opt_rfc3339, not_checked_reason};
use crate::ext::{parse_uuid, uuid_parse, uuid_text, uuid_to_string};

verus! {

/// Domain response DTO.
#[derive(Debug)]
pub struct DomainDto {
    pub id: String,
    pub name: String,
    pub owner_id: String,
    pub is_shared: bool,
    pub verification_status: String,
    pub verification_reason: String,
    pub last_verification_check: Option<String>,
    pub custom_index_url: Option<String>,
    pub custom_not_found_url: Option<String>,
    pub created_at: Option<String>,
}

/// The text of an optional string.
pub open spec fn opt_text(o: Option<String>) -> Option<Seq<char>> {
    match o {
        Some(s) => Some(s@),
        None => None,
    }
}

/// A domain and its response form: the id in hyphenated form, the status by
/// its stored name, the times in RFC 3339, the rest as it is.
pub open spec fn domain_shown_as(domain: RouteDomain, r: DomainDto) -> bool {
    &&& r.id@ == uuid_text(domain.id)
    &&& r.name == domain.name
    &&& r.owner_id == domain.owner_id
    &&& r.is_shared == domain.is_shared
    &&& r.verification_status@ == verification_name(domain.verification_status)
    &&& r.verification_reason == domain.verification_reason
    &&& opt_text(r.last_verification_check) == opt_rfc3339(domain.last_verification_check)
    &&& r.custom_index_url == domain.custom_index_url
    &&& r.custom_not_found_url == domain.custom_not_found_url
    &&& opt_text(r.created_at) == opt_rfc3339(domain.created_at)
}

impl DomainDto {
    /// The response form of a domain (see [`domain_shown_as`]).
    pub fn from_entity(domain: RouteDomain) -> (r: Self)
        ensures
            domain_shown_as(domain, r),
    {
        DomainDto {
            id: uuid_to_string(domain.id),
            name: domain.name,
            owner_id: domain.owner_id,
            is_shared: domain.is_shared,
            verification_status: String::from_str(domain.verification_status.as_str()),
            verification_reason: domain.verification_reason,
            last_verification_check: format_opt_time(domain.last_verification_check),
            custom_index_url: domain.custom_index_url,
            custom_not_found_url: domain.custom_not_found_url,
            created_at: format_opt_time(domain.created_at),
        }
    }
}

/// Domain creation request DTO.
#[derive(Debug)]
pub struct CreateDomainDto {
    pub name: String,
    pub is_shared: bool,
    pub custom_index_url: Option<String>,
    pub custom_not_found_url: Option<String>,
}

impl CreateDomainDto {
    /// A new domain of `owner_id` with the requested name, sharing and pages.
    pub fn to_entity(self, owner_id: &str) -> (r: RouteDomain)
        ensures
            r.name == self.name,
            r.owner_id@ == owner_id@,
            r.is_shared == self.is_shared,
            r.custom_index_url == self.custom_index_url,
            r.custom_not_found_url == self.custom_not_found_url,
            r.verification_status == DomainVerificationStatus::Pending,
            r.verification_reason@ == not_checked_reason(),
            r.last_verification_check is None,
            r.next_verification_check is None,
            r.dns_config is None,
            r.created_at is Some,
            r.updated_at == r.created_at,
    {
        let mut domain = RouteDomain::new(self.name, String::from_str(owner_id));
        domain.is_shared = self.is_shared;
        domain.custom_index_url = self.custom_index_url;
        domain.custom_not_found_url = self.custom_not_found_url;
        domain
    }
}

/// Domain update request DTO.
#[derive(Debug)]
pub struct UpdateDomainDto {
    pub is_shared: Option<bool>,
    pub custom_index_url: Option<String>,
    pub custom_not_found_url: Option<String>,
}

impl UpdateDomainDto {
    /// The domain with each field that the request sets replaced; the rest kept.
    pub fn apply_to(self, domain: RouteDomain) -> (r: RouteDomain)
        ensures
            r.is_shared == match self.is_shared { Some(b) => b, None => domain.is_shared },
            r.custom_index_url == match self.custom_index_url { Some(u) => Some(u), None => domain.custom_index_url },
            r.custom_not_found_url == match self.custom_not_found_url { Some(u) => Some(u), None => domain.custom_not_found_url },
            r.id == domain.id,
            r.name == domain.name,
            r.owner_id == domain.owner_id,
            r.verification_status == domain.verification_status,
            r.verification_reason == domain.verification_reason,
            r.last_verification_check == domain.last_verification_check,
            r.next_verification_check == domain.next_verification_check,
            r.dns_config == domain.dns_config,
            r.created_at == domain.created_at,
            r.updated_at == domain.updated_at,
    {
        let mut domain = domain;
        if let Some(is_shared) = self.is_shared {
            domain.is_shared = is_shared;
        }
        if let Some(url) = self.custom_index_url {
            domain.custom_index_url = Some(url);
        }
        if let Some(url) = self.custom_not_found_url {
            domain.custom_not_found_url = Some(url);
        }
        domain
    }
}

/// DNS configuration response DTO.
#[derive(Debug)]
pub struct DnsConfigDto {
    pub txt_record: String,
    pub cname_target: String,
    pub a_records: Vec<String>,
}

/// Domain verification request.
#[derive(Debug)]
pub struct VerifyDomainDto {
    pub domain_id: String,
}

/// The message for a domain id that is not a UUID.
pub open spec fn invalid_domain_id_message() -> Seq<char> {
    "Invalid domain_id"@
}

impl VerifyDomainDto {
    /// The requested domain id, parsed.
    pub fn parse_id(&self) -> (r: Result<u128, String>)
        ensures
            r is Ok <==> uuid_parse(self.domain_id@) is Some,
            r matches Ok(id) ==> uuid_parse(self.domain_id@) == Some(id),
            r matches Err(m) ==> m@ == invalid_domain_id_message(),
    {
        match parse_uuid(self.domain_id.as_str()) {
            Ok(id) => Ok(id),
            Err(_) => Err(String::from_str("Invalid domain_id")),
        }
    }
}

} // verus!
