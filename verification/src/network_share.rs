//! Network share entity: a mounted storage location.

use vstd::prelude::*;

verus! {

/// Network share entity.
pub struct NetworkShare {
    pub id: String,
    pub name: String,
    pub path: String,
    pub share_type: String,
    pub server: Option<String>,
    pub purpose: Option<String>,
    pub status: String,
    pub notes: Option<String>,
    pub created_at: String,
    pub updated_at: String,
    pub created_by: Option<String>,
}

/// Input record for creating a network share.
pub struct CreateNetworkShare {
    pub name: String,
    pub path: String,
    pub share_type: String,
    pub server: Option<String>,
    pub purpose: Option<String>,
    pub status: String,
    pub notes: Option<String>,
}

/// Input record for updating a network share.
pub struct UpdateNetworkShare {
    pub name: Option<String>,
    pub path: Option<String>,
    pub share_type: Option<String>,
    pub server: Option<String>,
    pub purpose: Option<String>,
    pub status: Option<String>,
    pub notes: Option<String>,
}

/// Network share relation for an application detail view.
pub struct NetworkShareRelation {
    pub id: String,
    pub name: String,
    pub path: String,
    pub share_type: String,
    pub server: Option<String>,
    pub status: String,
    pub usage: Option<String>,
    pub mount_point: Option<String>,
    pub permissions: Option<String>,
    pub relation_notes: Option<String>,
}

/// Input record for linking a network share to an application.
pub struct LinkNetworkShare {
    pub usage: Option<String>,
    pub mount_point: Option<String>,
    pub permissions: Option<String>,
    pub notes: Option<String>,
}

/// A network share with its related applications resolved.
pub struct NetworkShareWithRelations {
    pub network_share: NetworkShare,
    pub applications: Vec<ApplicationNetworkShareRelation>,
}

/// Application relation for a network share detail view.
pub struct ApplicationNetworkShareRelation {
    pub id: String,
    pub name: String,
    pub status: String,
    pub usage: Option<String>,
    pub mount_point: Option<String>,
}

} // verus!
