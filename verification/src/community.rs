//! Community-facing vocabulary: roles, permissions, project lifecycle and
//! content states. Persistence and identity live in the surrounding
//! system; the verified part is the permission tables.

use vstd::prelude::*;

use crate::types::Graph;

verus! {

/// User role in the community
#[derive(Debug, Clone, Copy, PartialEq, Eq, Structural)]
pub enum UserRole {
    Guest,
    User,
    Contributor,
    Moderator,
    Admin,
}

/// User permissions
#[derive(Debug, Clone, Copy, PartialEq, Eq, Structural)]
pub struct UserPermissions {
    pub can_publish: bool,
    pub can_comment: bool,
    pub can_rate: bool,
    pub can_moderate: bool,
    pub can_admin: bool,
}

impl UserPermissions {
    /// The permission table for a role: each step up keeps everything the
    /// step below could do.
    pub fn for_role(role: UserRole) -> (r: UserPermissions)
        ensures
            role == UserRole::Guest ==> r == (UserPermissions {
                can_publish: false,
                can_comment: false,
                can_rate: false,
                can_moderate: false,
                can_admin: false,
            }),
            role == UserRole::User ==> r == (UserPermissions {
                can_publish: false,
                can_comment: true,
                can_rate: true,
                can_moderate: false,
                can_admin: false,
            }),
            role == UserRole::Contributor ==> r == (UserPermissions {
                can_publish: true,
                can_comment: true,
                can_rate: true,
                can_moderate: false,
                can_admin: false,
            }),
            role == UserRole::Moderator ==> r == (UserPermissions {
                can_publish: true,
                can_comment: true,
                can_rate: true,
                can_moderate: true,
                can_admin: false,
            }),
            role == UserRole::Admin ==> r == (UserPermissions {
                can_publish: true,
                can_comment: true,
                can_rate: true,
                can_moderate: true,
                can_admin: true,
            }),
    {
        match role {
            UserRole::Guest => UserPermissions {
                can_publish: false,
                can_comment: false,
                can_rate: false,
                can_moderate: false,
                can_admin: false,
            },
            UserRole::User => UserPermissions {
                can_publish: false,
                can_comment: true,
                can_rate: true,
                can_moderate: false,
                can_admin: false,
            },
            UserRole::Contributor => UserPermissions {
                can_publish: true,
                can_comment: true,
                can_rate: true,
                can_moderate: false,
                can_admin: false,
            },
            UserRole::Moderator => UserPermissions {
                can_publish: true,
                can_comment: true,
                can_rate: true,
                can_moderate: true,
                can_admin: false,
            },
            UserRole::Admin => UserPermissions {
                can_publish: true,
                can_comment: true,
                can_rate: true,
                can_moderate: true,
                can_admin: true,
            },
        }
    }
}

/// Badge rarity
#[derive(Debug, Clone, Copy, PartialEq, Eq, Structural)]
pub enum BadgeRarity {
    Common,
    Uncommon,
    Rare,
    Epic,
    Legendary,
}

/// Collaborator role
#[derive(Debug, Clone, Copy, PartialEq, Eq, Structural)]
pub enum CollaboratorRole {
    Viewer,
    Editor,
    Admin,
}

/// Collaborator permissions
#[derive(Debug, Clone, Copy, PartialEq, Eq, Structural)]
pub struct CollaboratorPermissions {
    pub can_view: bool,
    pub can_edit: bool,
    pub can_comment: bool,
    pub can_invite: bool,
    pub can_delete: bool,
}

impl CollaboratorPermissions {
    /// The permission table for a collaborator role.
    pub fn for_role(role: CollaboratorRole) -> (r: CollaboratorPermissions)
        ensures
            r.can_view,
            r.can_edit == (role != CollaboratorRole::Viewer),
            r.can_invite == (role == CollaboratorRole::Admin),
            r.can_delete == (role == CollaboratorRole::Admin),
            r.can_comment,
    {
        match role {
            CollaboratorRole::Viewer => CollaboratorPermissions {
                can_view: true,
                can_edit: false,
                can_comment: true,
                can_invite: false,
                can_delete: false,
            },
            CollaboratorRole::Editor => CollaboratorPermissions {
                can_view: true,
                can_edit: true,
                can_comment: true,
                can_invite: false,
                can_delete: false,
            },
            CollaboratorRole::Admin => CollaboratorPermissions {
                can_view: true,
                can_edit: true,
                can_comment: true,
                can_invite: true,
                can_delete: true,
            },
        }
    }
}

/// Project visibility
#[derive(Debug, Clone, Copy, PartialEq, Eq, Structural)]
pub enum ProjectVisibility {
    Private,
    Public,
    Unlisted,
}

/// Project status
#[derive(Debug, Clone, Copy, PartialEq, Eq, Structural)]
pub enum ProjectStatus {
    Draft,
    InProgress,
    Review,
    Published,
    Archived,
}

/// Post status
#[derive(Debug, Clone, Copy, PartialEq, Eq, Structural)]
pub enum PostStatus {
    Active,
    Closed,
    Archived,
    Deleted,
}

/// Tutorial difficulty
#[derive(Debug, Clone, Copy, PartialEq, Eq, Structural)]
pub enum TutorialDifficulty {
    Beginner,
    Intermediate,
    Advanced,
}

/// Tutorial status
#[derive(Debug, Clone, Copy, PartialEq, Eq, Structural)]
pub enum TutorialStatus {
    Draft,
    Published,
    Archived,
}

/// A partial update to a project: absent fields stay as they are.
pub struct ProjectUpdate {
    pub name: Option<String>,
    pub description: Option<String>,
    pub visibility: Option<ProjectVisibility>,
    pub status: Option<ProjectStatus>,
    pub graph: Option<Graph>,
}

} // verus!
