//! Workspace transfer objects.

use vstd::prelude::*;

use crate::dto::domain::opt_text;
use crate::entities::{admin_role, format_opt_time, opt_rfc3339, owner_role, system_type, UserWorkspace, Workspace};
use crate::ext::{uuid_text, uuid_to_string};

verus! {

/// Workspace response DTO.
#[derive(Debug)]
pub struct WorkspaceDto {
    pub id: String,
    pub name: String,
    pub description: String,
    pub workspace_type: String,
    pub is_system: bool,
    pub created_at: Option<String>,
    pub updated_at: Option<String>,
    pub member_count: Option<i32>,
    pub route_count: Option<i64>,
}

impl WorkspaceDto {
    /// The response form of a workspace, without counts.
    pub fn from_entity(workspace: Workspace) -> (r: Self)
        ensures
            r.id@ == uuid_text(workspace.id),
            r.name == workspace.name,
            r.description == workspace.description,
            r.workspace_type == workspace.workspace_type,
            r.is_system == (workspace.workspace_type@ == system_type()),
            opt_text(r.created_at) == opt_rfc3339(workspace.created_at),
            opt_text(r.updated_at) == opt_rfc3339(workspace.updated_at),
            r.member_count is None,
            r.route_count is None,
    {
        let is_system = workspace.is_system();
        WorkspaceDto {
            id: uuid_to_string(workspace.id),
            name: workspace.name,
            description: workspace.description,
            workspace_type: workspace.workspace_type,
            is_system,
            created_at: format_opt_time(workspace.created_at),
            updated_at: format_opt_time(workspace.updated_at),
            member_count: None,
            route_count: None,
        }
    }

    /// The same response with its member and route counts set.
    pub fn with_counts(self, member_count: i32, route_count: i64) -> (r: Self)
        ensures
            r.member_count == Some(member_count),
            r.route_count == Some(route_count),
            r.id == self.id,
            r.name == self.name,
            r.description == self.description,
            r.workspace_type == self.workspace_type,
            r.is_system == self.is_system,
            r.created_at == self.created_at,
            r.updated_at == self.updated_at,
    {
        let mut s = self;
        s.member_count = Some(member_count);
        s.route_count = Some(route_count);
        s
    }
}

/// Workspace creation request DTO.
#[derive(Debug)]
pub struct CreateWorkspaceDto {
    pub name: String,
    pub description: String,
}

/// The type of workspaces that users create.
pub open spec fn user_type() -> Seq<char> {
    "User"@
}

impl CreateWorkspaceDto {
    /// A new user workspace with the requested name and description.
    pub fn to_entity(self) -> (r: Workspace)
        ensures
            r.name == self.name,
            r.description == self.description,
            r.workspace_type@ == user_type(),
            r.created_at is Some,
            r.updated_at is Some,
    {
        let mut workspace = Workspace::new(self.name, String::from_str("User"));
        workspace.description = self.description;
        workspace
    }
}

/// Workspace update request DTO.
#[derive(Debug)]
pub struct UpdateWorkspaceDto {
    pub name: Option<String>,
    pub description: Option<String>,
}

impl UpdateWorkspaceDto {
    /// The workspace with the name and description that the request sets.
    pub fn apply_to(self, workspace: Workspace) -> (r: Workspace)
        ensures
            r.name == match self.name { Some(n) => n, None => workspace.name },
            r.description == match self.description { Some(d) => d, None => workspace.description },
            r.id == workspace.id,
            r.workspace_type == workspace.workspace_type,
            r.created_at == workspace.created_at,
            r.updated_at == workspace.updated_at,
    {
        let mut workspace = workspace;
        if let Some(name) = self.name {
            workspace.name = name;
        }
        if let Some(description) = self.description {
            workspace.description = description;
        }
        workspace
    }
}

/// Workspace member DTO.
#[derive(Debug)]
pub struct WorkspaceMemberDto {
    pub id: String,
    pub user_id: String,
    pub workspace_id: String,
    pub role: String,
    pub is_owner: bool,
    pub is_admin: bool,
    pub joined_at: Option<String>,
}

impl WorkspaceMemberDto {
    /// The response form of a membership, with its role's powers spelled out.
    pub fn from_entity(membership: UserWorkspace) -> (r: Self)
        ensures
            r.id@ == uuid_text(membership.id),
            r.user_id == membership.user_id,
            r.workspace_id@ == uuid_text(membership.workspace_id),
            r.role == membership.role,
            r.is_owner == (membership.role@ == owner_role()),
            r.is_admin == (membership.role@ == owner_role() || membership.role@ == admin_role()),
            opt_text(r.joined_at) == opt_rfc3339(membership.joined_at),
    {
        let is_owner = membership.is_owner();
        let is_admin = membership.is_admin();
        WorkspaceMemberDto {
            id: uuid_to_string(membership.id),
            user_id: membership.user_id,
            workspace_id: uuid_to_string(membership.workspace_id),
            role: membership.role,
            is_owner,
            is_admin,
            joined_at: format_opt_time(membership.joined_at),
        }
    }
}

/// Add member request DTO.
#[derive(Debug)]
pub struct AddMemberDto {
    pub user_id: String,
    pub role: String,
}

/// The role a member gets where the request names none.
pub open spec fn default_member_role() -> Seq<char> {
    "Member"@
}

/// The role a member gets where the request names none: `Member`.
pub fn default_role() -> (r: String)
    ensures
        r@ == default_member_role(),
{
    String::from_str("Member")
}

impl AddMemberDto {
    /// A new membership of the requested user, with the requested role, in `workspace_id`.
    pub fn to_entity(self, workspace_id: u128) -> (r: UserWorkspace)
        ensures
            r.user_id == self.user_id,
            r.role == self.role,
            r.workspace_id == workspace_id,
            r.joined_at is Some,
    {
        UserWorkspace::new(self.user_id, workspace_id, self.role)
    }
}

/// Update member role request DTO.
#[derive(Debug)]
pub struct UpdateMemberRoleDto {
    pub role: String,
}

} // verus!
