//! Who may do what in a workspace, and the answers when they may not.

use vstd::prelude::*;
use vstd::string::*;

use crate::entities::{admin_role, owner_role, system_type, Certificate, RouteDomain, UserWorkspace, Workspace};
use crate::dto::certificate::CreateCertificateDto;
use crate::dto::domain::invalid_domain_id_message;
use crate::dto::workspace::UpdateWorkspaceDto;
use crate::entities::copy_opt_string;
use crate::error::{forbidden_message, not_found_message, ApiError, ErrorCode};
use crate::ext::{parse_uuid, str_eq, uuid_parse};

verus! {

/// The message for a workspace id that is not a UUID.
pub open spec fn invalid_workspace_id_message() -> Seq<char> {
    "Invalid workspace ID"@
}

/// Reads a workspace id from a path parameter.
pub fn parse_workspace_id(s: &str) -> (r: Result<u128, ApiError>)
    ensures
        r is Ok <==> uuid_parse(s@) is Some,
        r matches Ok(id) ==> uuid_parse(s@) == Some(id),
        r matches Err(e) ==> e.code == ErrorCode::ValidationError && e.message@ == invalid_workspace_id_message(),
{
    match parse_uuid(s) {
        Ok(id) => Ok(id),
        Err(_) => Err(ApiError::validation(String::from_str("Invalid workspace ID"))),
    }
}

/// Refuses a caller who does not own the certificate.
pub fn check_certificate_owner(cert: &Certificate, user_id: &str) -> (r: Result<(), ApiError>)
    ensures
        r is Ok <==> cert.owner_id@ == user_id@,
        r matches Err(e) ==> e.code == ErrorCode::Forbidden && e.message@ == forbidden_message(),
{
    if str_eq(cert.owner_id.as_str(), user_id) {
        Ok(())
    } else {
        Err(ApiError::forbidden())
    }
}

/// Whether a membership may administer its workspace.
pub open spec fn administers(m: UserWorkspace) -> bool {
    m.role@ == owner_role() || m.role@ == admin_role()
}

/// Whether a membership owns its workspace.
pub open spec fn owns(m: UserWorkspace) -> bool {
    m.role@ == owner_role()
}

/// Admits a caller with an administering membership; anyone else is forbidden.
pub fn require_admin(membership: Option<UserWorkspace>) -> (r: Result<UserWorkspace, ApiError>)
    ensures
        r is Ok <==> (membership matches Some(m) && administers(m)),
        r matches Ok(m) ==> membership == Some(m),
        r matches Err(e) ==> e.code == ErrorCode::Forbidden && e.message@ == forbidden_message(),
{
    match membership {
        Some(m) => {
            if m.is_admin() {
                Ok(m)
            } else {
                Err(ApiError::forbidden())
            }
        },
        None => Err(ApiError::forbidden()),
    }
}

/// Admits a caller who owns the workspace; anyone else is forbidden.
pub fn require_owner(membership: Option<UserWorkspace>) -> (r: Result<UserWorkspace, ApiError>)
    ensures
        r is Ok <==> (membership matches Some(m) && owns(m)),
        r matches Ok(m) ==> membership == Some(m),
        r matches Err(e) ==> e.code == ErrorCode::Forbidden && e.message@ == forbidden_message(),
{
    match membership {
        Some(m) => {
            if m.is_owner() {
                Ok(m)
            } else {
                Err(ApiError::forbidden())
            }
        },
        None => Err(ApiError::forbidden()),
    }
}

/// Every owner may also do what administrators may.
pub proof fn lemma_owner_administers(m: UserWorkspace)
    ensures
        owns(m) ==> administers(m),
{
}

/// What is being done to a workspace.
#[derive(PartialEq, Eq, Structural, Clone, Copy, Debug)]
pub enum WorkspaceChange {
    Update,
    Delete,
}

/// The refusal for changing a system workspace.
pub open spec fn system_change_message(c: WorkspaceChange) -> Seq<char> {
    match c {
        WorkspaceChange::Update => "Cannot update system workspace"@,
        WorkspaceChange::Delete => "Cannot delete system workspace"@,
    }
}

/// Refuses to update or delete a workspace that the system created.
pub fn check_not_system(workspace: &Workspace, change: WorkspaceChange) -> (r: Result<(), ApiError>)
    ensures
        r is Ok <==> workspace.workspace_type@ != system_type(),
        r matches Err(e) ==> e.code == ErrorCode::ValidationError && e.message@ == system_change_message(change),
{
    if workspace.is_system() {
        let m = match change {
            WorkspaceChange::Update => String::from_str("Cannot update system workspace"),
            WorkspaceChange::Delete => String::from_str("Cannot delete system workspace"),
        };
        Err(ApiError::validation(m))
    } else {
        Ok(())
    }
}

/// The refusal for removing a workspace's owner.
pub open spec fn owner_removal_message() -> Seq<char> {
    "Cannot remove workspace owner"@
}

/// Refuses to remove a member who owns the workspace (a member that cannot
/// be found is not refused here).
pub fn check_removable(target: &Option<UserWorkspace>) -> (r: Result<(), ApiError>)
    ensures
        r is Err <==> (*target matches Some(t) && owns(t)),
        r matches Err(e) ==> e.code == ErrorCode::ValidationError && e.message@ == owner_removal_message(),
{
    match target {
        Some(t) => {
            if t.is_owner() {
                Err(ApiError::validation(String::from_str("Cannot remove workspace owner")))
            } else {
                Ok(())
            }
        },
        None => Ok(()),
    }
}

/// The next step of a guarded workspace change.
#[derive(Debug)]
pub enum ChangeStep<T> {
    /// Refuse with this error; nothing is written.
    Refuse(ApiError),
    /// Fetch what the next check needs, then take the step again.
    Fetch,
    /// Every check passed: make the change with this.
    Proceed(T),
}

/// The store's answer for the caller's membership admits the change: it is
/// a membership that administers the workspace, or owns it where `owner` is asked.
pub open spec fn admits(answer: Result<Option<UserWorkspace>, ApiError>, owner: bool) -> bool {
    answer matches Ok(Some(m)) && (if owner { owns(m) } else { administers(m) })
}

fn admitted(answer: &Result<Option<UserWorkspace>, ApiError>, owner: bool) -> (r: bool)
    ensures
        r == admits(*answer, owner),
{
    match answer {
        Ok(Some(m)) => if owner { m.is_owner() } else { m.is_admin() },
        _ => false,
    }
}

/// The workspace that an update makes: each field the request sets replaced.
pub open spec fn updated_workspace(dto: UpdateWorkspaceDto, w: Workspace, u: Workspace) -> bool {
    &&& u.name == match dto.name { Some(n) => n, None => w.name }
    &&& u.description == match dto.description { Some(d) => d, None => w.description }
    &&& u.id == w.id
    &&& u.workspace_type == w.workspace_type
    &&& u.created_at == w.created_at
    &&& u.updated_at == w.updated_at
}

/// The refusal of a lookup of workspace `id_str`: the store's error, or not found.
fn lookup_refusal(error: Option<ApiError>, id_str: &str) -> (r: ApiError)
    ensures
        error matches Some(e) ==> r == e,
        error is None ==> r.code == ErrorCode::NotFound && r.message@ == not_found_message("Workspace"@, id_str@)
            && r.details is None,
{
    match error {
        Some(e) => e,
        None => ApiError::not_found("Workspace", id_str),
    }
}

/// The next step of updating workspace `id_str`, from the store's answers so
/// far: the caller's membership, then (once admitted) the workspace. A caller
/// who does not administer it is forbidden before the workspace is fetched;
/// then a failed lookup gives the store's error, a missing workspace is not
/// found, and a system workspace is refused; only then is the update written.
pub fn update_workspace_step(
    membership: &Result<Option<UserWorkspace>, ApiError>,
    found: Option<Result<Option<Workspace>, ApiError>>,
    id_str: &str,
    dto: &UpdateWorkspaceDto,
) -> (r: ChangeStep<Workspace>)
    ensures
        !admits(*membership, false) ==> (r matches ChangeStep::Refuse(e) && e.code == ErrorCode::Forbidden
            && e.message@ == forbidden_message()),
        admits(*membership, false) ==> match found {
            None => r is Fetch,
            Some(Err(e)) => r == ChangeStep::<Workspace>::Refuse(e),
            Some(Ok(None)) => r matches ChangeStep::Refuse(e) && e.code == ErrorCode::NotFound
                && e.message@ == not_found_message("Workspace"@, id_str@),
            Some(Ok(Some(w))) => if w.workspace_type@ == system_type() {
                r matches ChangeStep::Refuse(e) && e.code == ErrorCode::ValidationError
                    && e.message@ == system_change_message(WorkspaceChange::Update)
            } else {
                r matches ChangeStep::Proceed(u) && updated_workspace(*dto, w, u)
            },
        },
{
    if !admitted(membership, false) {
        return ChangeStep::Refuse(ApiError::forbidden());
    }
    match found {
        None => ChangeStep::Fetch,
        Some(Err(e)) => ChangeStep::Refuse(lookup_refusal(Some(e), id_str)),
        Some(Ok(None)) => ChangeStep::Refuse(lookup_refusal(None, id_str)),
        Some(Ok(Some(w))) => match check_not_system(&w, WorkspaceChange::Update) {
            Err(e) => ChangeStep::Refuse(e),
            Ok(()) => {
                let request = UpdateWorkspaceDto {
                    name: copy_opt_string(&dto.name),
                    description: copy_opt_string(&dto.description),
                };
                ChangeStep::Proceed(request.apply_to(w))
            },
        },
    }
}

/// The next step of deleting workspace `id_str`, as for an update but asking
/// for the owner: the id to delete once every check passed.
pub fn delete_workspace_step(
    membership: &Result<Option<UserWorkspace>, ApiError>,
    found: Option<Result<Option<Workspace>, ApiError>>,
    id_str: &str,
) -> (r: ChangeStep<u128>)
    ensures
        !admits(*membership, true) ==> (r matches ChangeStep::Refuse(e) && e.code == ErrorCode::Forbidden
            && e.message@ == forbidden_message()),
        admits(*membership, true) ==> match found {
            None => r is Fetch,
            Some(Err(e)) => r == ChangeStep::<u128>::Refuse(e),
            Some(Ok(None)) => r matches ChangeStep::Refuse(e) && e.code == ErrorCode::NotFound
                && e.message@ == not_found_message("Workspace"@, id_str@),
            Some(Ok(Some(w))) => if w.workspace_type@ == system_type() {
                r matches ChangeStep::Refuse(e) && e.code == ErrorCode::ValidationError
                    && e.message@ == system_change_message(WorkspaceChange::Delete)
            } else {
                r == ChangeStep::<u128>::Proceed(w.id)
            },
        },
{
    if !admitted(membership, true) {
        return ChangeStep::Refuse(ApiError::forbidden());
    }
    match found {
        None => ChangeStep::Fetch,
        Some(Err(e)) => ChangeStep::Refuse(lookup_refusal(Some(e), id_str)),
        Some(Ok(None)) => ChangeStep::Refuse(lookup_refusal(None, id_str)),
        Some(Ok(Some(w))) => match check_not_system(&w, WorkspaceChange::Delete) {
            Err(e) => ChangeStep::Refuse(e),
            Ok(()) => ChangeStep::Proceed(w.id),
        },
    }
}

/// The next step of removing a member: a caller who does not administer the
/// workspace is forbidden before the member is looked up; the workspace's
/// owner cannot be removed; anyone else (a failed or empty lookup included)
/// is removed.
pub fn remove_member_step(
    membership: &Result<Option<UserWorkspace>, ApiError>,
    target: Option<Result<Option<UserWorkspace>, ApiError>>,
) -> (r: ChangeStep<()>)
    ensures
        !admits(*membership, false) ==> (r matches ChangeStep::Refuse(e) && e.code == ErrorCode::Forbidden
            && e.message@ == forbidden_message()),
        admits(*membership, false) ==> match target {
            None => r is Fetch,
            Some(Ok(Some(t))) => if owns(t) {
                r matches ChangeStep::Refuse(e) && e.code == ErrorCode::ValidationError
                    && e.message@ == owner_removal_message()
            } else {
                r is Proceed
            },
            Some(_) => r is Proceed,
        },
{
    if !admitted(membership, false) {
        return ChangeStep::Refuse(ApiError::forbidden());
    }
    match target {
        None => ChangeStep::Fetch,
        Some(Ok(t)) => match check_removable(&t) {
            Err(e) => ChangeStep::Refuse(e),
            Ok(()) => ChangeStep::Proceed(()),
        },
        Some(Err(_)) => ChangeStep::Proceed(()),
    }
}

/// The next step of creating a certificate.
#[derive(Debug)]
pub enum CertificateStep {
    /// Refuse with this error; nothing is stored.
    Refuse(ApiError),
    /// Fetch the domain with this id, then take the step again with the answer.
    FetchDomain(u128),
    /// Every check passed: store this certificate.
    Store(Certificate),
}

/// The next step of creating a certificate for `user_id` from a request, given
/// the store's answer for its domain once fetched. The refusals come in this
/// order: a domain id that is not a UUID (400 `Invalid domain_id`), before
/// any lookup; the lookup's error; a missing domain (404); a domain of
/// someone else (403). Only then is the certificate stored.
pub fn create_certificate_step(
    dto: &CreateCertificateDto,
    user_id: &str,
    found: Option<Result<Option<RouteDomain>, ApiError>>,
) -> (r: CertificateStep)
    ensures
        uuid_parse(dto.domain_id@) is None ==> (r matches CertificateStep::Refuse(e)
            && e.code == ErrorCode::ValidationError && e.message@ == invalid_domain_id_message()),
        uuid_parse(dto.domain_id@) matches Some(d) ==> match found {
            None => r == CertificateStep::FetchDomain(d),
            Some(Err(e)) => r == CertificateStep::Refuse(e),
            Some(Ok(None)) => r matches CertificateStep::Refuse(e) && e.code == ErrorCode::NotFound
                && e.message@ == not_found_message("Domain"@, dto.domain_id@),
            Some(Ok(Some(domain))) => if domain.owner_id@ != user_id@ {
                r matches CertificateStep::Refuse(e) && e.code == ErrorCode::Forbidden
                    && e.message@ == forbidden_message()
            } else {
                r matches CertificateStep::Store(c) && {
                    &&& c.domain_id == d
                    &&& c.key == dto.key
                    &&& c.cert == dto.cert
                    &&& c.ocsp_resp == dto.ocsp_resp
                    &&& c.owner_id@ == user_id@
                    &&& c.expires_at is None
                    &&& c.created_at is Some
                }
            },
        },
{
    let d = match parse_uuid(dto.domain_id.as_str()) {
        Ok(d) => d,
        Err(_) => {
            return CertificateStep::Refuse(ApiError::validation(String::from_str("Invalid domain_id")));
        },
    };
    match found {
        None => CertificateStep::FetchDomain(d),
        Some(Err(e)) => CertificateStep::Refuse(e),
        Some(Ok(None)) => CertificateStep::Refuse(ApiError::not_found("Domain", dto.domain_id.as_str())),
        Some(Ok(Some(domain))) => {
            if !str_eq(domain.owner_id.as_str(), user_id) {
                return CertificateStep::Refuse(ApiError::forbidden());
            }
            let mut cert = Certificate::new(dto.key.clone(), dto.cert.clone(), String::from_str(user_id), d);
            cert.ocsp_resp = crate::entities::copy_opt_string(&dto.ocsp_resp);
            CertificateStep::Store(cert)
        },
    }
}

/// The role of a workspace's creator.
pub fn creator_membership(user_id: String, workspace_id: u128) -> (r: UserWorkspace)
    ensures
        r.user_id == user_id,
        r.workspace_id == workspace_id,
        owns(r),
        r.joined_at is Some,
{
    UserWorkspace::new(user_id, workspace_id, String::from_str("Owner"))
}

} // verus!
