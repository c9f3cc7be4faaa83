//! User transfer objects.

use vstd::prelude::*;

use crate::dto::domain::opt_text;
use crate::entities::{format_opt_time, opt_rfc3339, UserWorkspace, Workspace};
use crate::error::{ApiError, ErrorCode};
use crate::ext::{uuid_text, uuid_to_string};
use crate::user::{is_admin_role, UserOnboarding, UserProfile};

verus! {

/// User profile response DTO.
#[derive(Debug)]
pub struct UserProfileDto {
    pub id: String,
    pub email: Option<String>,
    pub name: Option<String>,
    pub preferred_username: Option<String>,
    pub email_verified: bool,
    pub is_admin: bool,
}

impl UserProfileDto {
    /// The response form of a profile, with whether it holds an admin role.
    pub fn from_entity(profile: UserProfile) -> (r: Self)
        ensures
            r.id == profile.id,
            r.email == profile.email,
            r.name == profile.name,
            r.preferred_username == profile.preferred_username,
            r.email_verified == profile.email_verified,
            r.is_admin == exists|i: int| 0 <= i < profile.roles.len() && is_admin_role(#[trigger] profile.roles@[i]@),
    {
        let is_admin = profile.is_admin();
        UserProfileDto {
            id: profile.id,
            email: profile.email,
            name: profile.name,
            preferred_username: profile.preferred_username,
            email_verified: profile.email_verified,
            is_admin,
        }
    }
}

/// Workspace DTO for initialization response.
#[derive(Debug)]
pub struct InitWorkspaceDto {
    pub id: String,
    pub name: String,
    pub description: Option<String>,
    pub workspace_type: String,
    pub created_at: Option<String>,
    pub updated_at: Option<String>,
    pub user_role: Option<String>,
}

impl InitWorkspaceDto {
    /// The workspace as the initialization response shows it: an empty
    /// description is left out, the caller's role is attached.
    pub fn from_entity(workspace: &Workspace, role: Option<String>) -> (r: Self)
        ensures
            r.id@ == uuid_text(workspace.id),
            r.name == workspace.name,
            workspace.description@.len() == 0 ==> r.description is None,
            workspace.description@.len() > 0 ==> r.description == Some(workspace.description),
            r.workspace_type == workspace.workspace_type,
            opt_text(r.created_at) == opt_rfc3339(workspace.created_at),
            opt_text(r.updated_at) == opt_rfc3339(workspace.updated_at),
            r.user_role == role,
    {
        let description = if workspace.description.as_str().is_empty() {
            None
        } else {
            Some(workspace.description.clone())
        };
        InitWorkspaceDto {
            id: uuid_to_string(workspace.id),
            name: workspace.name.clone(),
            description,
            workspace_type: workspace.workspace_type.clone(),
            created_at: format_opt_time(workspace.created_at),
            updated_at: format_opt_time(workspace.updated_at),
            user_role: role,
        }
    }
}

/// User settings DTO for initialization response.
#[derive(Debug)]
pub struct UserSettingsDto {
    pub email: Option<String>,
    pub status: String,
    pub debug: bool,
    pub overflow: bool,
    pub skip_tracking: Vec<String>,
    pub allowed_request_params: Vec<String>,
    pub allowed_destination_params: Vec<String>,
}

impl Default for UserSettingsDto {
    /// Active settings without email, flags or parameter lists.
    fn default() -> (r: Self)
        ensures
            r.email is None,
            r.status@ == "Active"@,
            !r.debug,
            !r.overflow,
            r.skip_tracking@.len() == 0,
            r.allowed_request_params@.len() == 0,
            r.allowed_destination_params@.len() == 0,
    {
        UserSettingsDto {
            email: None,
            status: String::from_str("Active"),
            debug: false,
            overflow: false,
            skip_tracking: Vec::new(),
            allowed_request_params: Vec::new(),
            allowed_destination_params: Vec::new(),
        }
    }
}

/// Initialization response DTO.
#[derive(Debug)]
pub struct InitializationResponse {
    pub workspace: Option<InitWorkspaceDto>,
    pub user_settings: Option<UserSettingsDto>,
    pub message: String,
}

/// Initialization status response DTO.
#[derive(Debug)]
pub struct InitializationStatusResponse {
    pub needs_initialization: bool,
    pub has_workspaces: bool,
    pub has_domains: bool,
    pub has_user_settings: bool,
}

/// User initialization response DTO.
#[derive(Debug)]
pub struct UserInitDto {
    pub initialized: bool,
    pub workspace_id: String,
    pub onboarding: OnboardingDto,
}

/// Onboarding state DTO.
#[derive(Debug)]
pub struct OnboardingDto {
    pub completed: bool,
    pub current_step: i32,
    pub steps_completed: Vec<String>,
}

impl OnboardingDto {
    /// The onboarding state as the API shows it.
    pub fn from_entity(onboarding: UserOnboarding) -> (r: Self)
        ensures
            r.completed == onboarding.completed,
            r.current_step == onboarding.current_step,
            r.steps_completed == onboarding.steps_completed,
    {
        OnboardingDto {
            completed: onboarding.completed,
            current_step: onboarding.current_step,
            steps_completed: onboarding.steps_completed,
        }
    }
}

/// Complete onboarding step request DTO.
#[derive(Debug)]
pub struct CompleteStepDto {
    pub step: String,
}

impl InitializationStatusResponse {
    /// The status of a user with or without workspaces and domains: user
    /// settings are always there, and initialization is needed where either
    /// of the other two is missing.
    pub fn from_checks(has_workspaces: bool, has_domains: bool) -> (r: Self)
        ensures
            r.has_workspaces == has_workspaces,
            r.has_domains == has_domains,
            r.has_user_settings,
            r.needs_initialization == (!has_workspaces || !has_domains),
    {
        let has_user_settings = true;
        InitializationStatusResponse {
            needs_initialization: !has_workspaces || !has_domains || !has_user_settings,
            has_workspaces,
            has_domains,
            has_user_settings,
        }
    }
}

/// How the initialization response shows a workspace (see
/// [`InitWorkspaceDto::from_entity`]).
pub open spec fn init_workspace_shown(workspace: Workspace, role: Option<String>, w: InitWorkspaceDto) -> bool {
    &&& w.id@ == uuid_text(workspace.id)
    &&& w.name == workspace.name
    &&& (if workspace.description@.len() == 0 { w.description is None } else { w.description == Some(workspace.description) })
    &&& w.workspace_type == workspace.workspace_type
    &&& opt_text(w.created_at) == opt_rfc3339(workspace.created_at)
    &&& opt_text(w.updated_at) == opt_rfc3339(workspace.updated_at)
    &&& w.user_role == role
}

/// The default user settings, carrying `email`.
pub open spec fn default_settings_with(email: Option<String>, u: UserSettingsDto) -> bool {
    &&& u.email == email
    &&& u.status@ == "Active"@
    &&& !u.debug
    &&& !u.overflow
    &&& u.skip_tracking@.len() == 0
    &&& u.allowed_request_params@.len() == 0
    &&& u.allowed_destination_params@.len() == 0
}

/// The message of a completed initialization.
pub open spec fn initialized_message() -> Seq<char> {
    "User initialization completed successfully"@
}

impl InitializationResponse {
    /// The answer to an initialization: the user's workspace with their role,
    /// default settings carrying their email.
    pub fn completed(workspace: &Workspace, role: Option<String>, email: Option<String>) -> (r: Self)
        ensures
            r.workspace matches Some(w) && init_workspace_shown(*workspace, role, w),
            r.user_settings matches Some(u) && default_settings_with(email, u),
            r.message@ == initialized_message(),
    {
        let mut settings = UserSettingsDto::default();
        settings.email = email;
        InitializationResponse {
            workspace: Some(InitWorkspaceDto::from_entity(workspace, role)),
            user_settings: Some(settings),
            message: String::from_str("User initialization completed successfully"),
        }
    }
}

/// The onboarding state after a fresh user completes `step`.
pub fn onboarding_after_step(user_id: String, step: &str) -> (r: OnboardingDto)
    ensures
        !r.completed,
        r.current_step == 1,
        r.steps_completed@.len() == 1,
        r.steps_completed@[0]@ == step@,
{
    let mut onboarding = UserOnboarding::new(user_id);
    let ghost before = crate::user::strings_view(onboarding.steps_completed@);
    assert(before.len() == 0);
    assert(!before.contains(step@));
    onboarding.complete_step(step);
    proof {
        let after = crate::user::strings_view(onboarding.steps_completed@);
        assert(after == before.push(step@));
        assert(after.len() == 1);
        assert(after[0] == onboarding.steps_completed@[0]@);
    }
    OnboardingDto::from_entity(onboarding)
}

/// Where a user's initialization stands.
#[derive(Debug)]
pub enum InitStage {
    /// No workspace chosen yet.
    Start,
    /// This workspace is the user's; their membership is being fetched.
    Chosen(Workspace),
}

/// The answers of the store during initialization.
pub enum InitEvent {
    /// The user's workspaces.
    Listed(Result<Vec<Workspace>, ApiError>),
    /// The system workspace created for the user.
    Created(Result<Workspace, ApiError>),
    /// The user's membership of the chosen workspace.
    Membership(Result<Option<UserWorkspace>, ApiError>),
}

/// What initialization does next.
#[derive(Debug)]
pub enum InitAction {
    /// The user has no workspace: create their system workspace.
    CreateSystemWorkspace,
    /// Fetch the user's membership of this workspace (it becomes the chosen one).
    FetchMembership(Workspace),
    /// Answer with this response.
    Respond(InitializationResponse),
    /// Answer with this error.
    Fail(ApiError),
}

/// The message for a membership answer that comes before a workspace was chosen.
pub open spec fn no_workspace_message() -> Seq<char> {
    "No workspace chosen"@
}

/// One step of initializing a user whose email is `email`: a failed listing
/// or creation fails; the first listed workspace is taken, and where there is
/// none the system workspace is created and taken; then the answer shows that
/// workspace with the user's role in it (none where the membership lookup
/// finds none or fails) and default settings with the email.
pub fn init_step(stage: InitStage, event: InitEvent, email: Option<String>) -> (r: InitAction)
    ensures
        match event {
            InitEvent::Listed(Err(e)) => r == InitAction::Fail(e),
            InitEvent::Listed(Ok(ws)) => if ws.len() > 0 {
                r == InitAction::FetchMembership(ws@[0])
            } else {
                r is CreateSystemWorkspace
            },
            InitEvent::Created(Err(e)) => r == InitAction::Fail(e),
            InitEvent::Created(Ok(w)) => r == InitAction::FetchMembership(w),
            InitEvent::Membership(answer) => match stage {
                InitStage::Chosen(w) => r matches InitAction::Respond(resp) && {
                    let role = match answer {
                        Ok(Some(m)) => Some(m.role),
                        _ => None,
                    };
                    &&& resp.workspace matches Some(x) && init_workspace_shown(w, role, x)
                    &&& resp.user_settings matches Some(u) && default_settings_with(email, u)
                    &&& resp.message@ == initialized_message()
                },
                InitStage::Start => r matches InitAction::Fail(e) && e.code == ErrorCode::InternalError
                    && e.message@ == no_workspace_message(),
            },
        },
{
    match event {
        InitEvent::Listed(Err(e)) => InitAction::Fail(e),
        InitEvent::Listed(Ok(ws)) => {
            let mut ws = ws;
            if ws.len() > 0 {
                InitAction::FetchMembership(ws.swap_remove(0))
            } else {
                InitAction::CreateSystemWorkspace
            }
        },
        InitEvent::Created(Err(e)) => InitAction::Fail(e),
        InitEvent::Created(Ok(w)) => InitAction::FetchMembership(w),
        InitEvent::Membership(answer) => match stage {
            InitStage::Chosen(w) => {
                let role = match answer {
                    Ok(Some(m)) => Some(m.role),
                    _ => None,
                };
                InitAction::Respond(InitializationResponse::completed(&w, role, email))
            },
            InitStage::Start => InitAction::Fail(ApiError::internal(String::from_str("No workspace chosen"))),
        },
    }
}

} // verus!
