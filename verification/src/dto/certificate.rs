//! Certificate transfer objects.

use vstd::prelude::*;

use crate::dto::domain::{invalid_domain_id_message, opt_text};
use crate::entities::{format_opt_time, opt_rfc3339, Certificate};
use crate::ext::{parse_uuid, uuid_parse, uuid_text, uuid_to_string};

verus! {

/// Certificate response DTO: says which parts are present, never the key itself.
#[derive(Debug)]
pub struct CertificateDto {
    pub id: String,
    pub domain_id: String,
    pub owner_id: String,
    pub has_key: bool,
    pub has_cert: bool,
    pub has_ocsp: bool,
    pub expires_at: Option<String>,
    pub created_at: Option<String>,
}

impl CertificateDto {
    /// The masked response form of a certificate.
    pub fn from_entity(cert: Certificate) -> (r: Self)
        ensures
            r.id@ == uuid_text(cert.id),
            r.domain_id@ == uuid_text(cert.domain_id),
            r.owner_id == cert.owner_id,
            r.has_key == (cert.key@.len() > 0),
            r.has_cert == (cert.cert@.len() > 0),
            r.has_ocsp == (cert.ocsp_resp is Some),
            opt_text(r.expires_at) == opt_rfc3339(cert.expires_at),
            opt_text(r.created_at) == opt_rfc3339(cert.created_at),
    {
        let has_key = !cert.key.as_str().is_empty();
        let has_cert = !cert.cert.as_str().is_empty();
        CertificateDto {
            id: uuid_to_string(cert.id),
            domain_id: uuid_to_string(cert.domain_id),
            owner_id: cert.owner_id,
            has_key,
            has_cert,
            has_ocsp: cert.ocsp_resp.is_some(),
            expires_at: format_opt_time(cert.expires_at),
            created_at: format_opt_time(cert.created_at),
        }
    }
}

/// Certificate creation request DTO.
#[derive(Debug)]
pub struct CreateCertificateDto {
    pub domain_id: String,
    pub key: String,
    pub cert: String,
    pub ocsp_resp: Option<String>,
}

impl CreateCertificateDto {
    /// A new certificate of `owner_id` for the requested domain; refused with
    /// `Invalid domain_id` where the domain id is not a UUID.
    pub fn to_entity(self, owner_id: &str) -> (r: Result<Certificate, String>)
        ensures
            r is Ok <==> uuid_parse(self.domain_id@) is Some,
            r matches Err(m) ==> m@ == invalid_domain_id_message(),
            r matches Ok(c) ==> {
                &&& uuid_parse(self.domain_id@) == Some(c.domain_id)
                &&& c.key == self.key
                &&& c.cert == self.cert
                &&& c.ocsp_resp == self.ocsp_resp
                &&& c.owner_id@ == owner_id@
                &&& c.expires_at is None
                &&& c.created_at is Some
            },
    {
        let domain_id = match parse_uuid(self.domain_id.as_str()) {
            Ok(id) => id,
            Err(_) => {
                return Err(String::from_str("Invalid domain_id"));
            },
        };
        let mut cert = Certificate::new(self.key, self.cert, String::from_str(owner_id), domain_id);
        cert.ocsp_resp = self.ocsp_resp;
        Ok(cert)
    }
}

/// Certificate update request DTO.
#[derive(Debug)]
pub struct UpdateCertificateDto {
    pub key: Option<String>,
    pub cert: Option<String>,
    pub ocsp_resp: Option<String>,
}

impl UpdateCertificateDto {
    /// The certificate with each part that the request sets replaced.
    pub fn apply_to(self, certificate: Certificate) -> (r: Certificate)
        ensures
            r.key == match self.key { Some(k) => k, None => certificate.key },
            r.cert == match self.cert { Some(c) => c, None => certificate.cert },
            r.ocsp_resp == match self.ocsp_resp { Some(o) => Some(o), None => certificate.ocsp_resp },
            r.id == certificate.id,
            r.owner_id == certificate.owner_id,
            r.domain_id == certificate.domain_id,
            r.expires_at == certificate.expires_at,
            r.created_at == certificate.created_at,
    {
        let mut certificate = certificate;
        if let Some(key) = self.key {
            certificate.key = key;
        }
        if let Some(cert) = self.cert {
            certificate.cert = cert;
        }
        if let Some(ocsp) = self.ocsp_resp {
            certificate.ocsp_resp = Some(ocsp);
        }
        certificate
    }
}

} // verus!
