//! Host entity: a machine applications run on.

use vstd::prelude::*;

verus! {

/// Host entity.
pub struct Host {
    pub id: String,
    pub name: String,
    pub host_type: String,
    pub hostname: Option<String>,
    pub ip_address: Option<String>,
    pub location: Option<String>,
    pub os: Option<String>,
    pub specs: Option<String>,
    pub status: String,
    pub notes: Option<String>,
    pub created_at: String,
    pub updated_at: String,
    pub created_by: Option<String>,
}

/// Input record for creating a host.
pub struct CreateHost {
    pub name: String,
    pub host_type: String,
    pub hostname: Option<String>,
    pub ip_address: Option<String>,
    pub location: Option<String>,
    pub os: Option<String>,
    pub specs: Option<String>,
    pub status: String,
    pub notes: Option<String>,
}

/// Input record for updating a host.
pub struct UpdateHost {
    pub name: Option<String>,
    pub host_type: Option<String>,
    pub hostname: Option<String>,
    pub ip_address: Option<String>,
    pub location: Option<String>,
    pub os: Option<String>,
    pub specs: Option<String>,
    pub status: Option<String>,
    pub notes: Option<String>,
}

/// Host relation for an application detail view.
pub struct HostRelation {
    pub id: String,
    pub name: String,
    pub host_type: String,
    pub hostname: Option<String>,
    pub ip_address: Option<String>,
    pub status: String,
    pub role: String,
    pub relation_notes: Option<String>,
}

/// Input record for linking a host to an application.
pub struct LinkHost {
    pub role: String,
    pub notes: Option<String>,
}

/// A host with its related applications resolved.
pub struct HostWithRelations {
    pub host: Host,
    pub applications: Vec<ApplicationHostRelation>,
}

/// Application relation for a host detail view.
pub struct ApplicationHostRelation {
    pub id: String,
    pub name: String,
    pub status: String,
    pub role: String,
}

} // verus!
