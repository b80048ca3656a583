//! Service entity: a deployable component of an application.

use vstd::prelude::*;

use crate::infra::InfraRelation;
use crate::monitor::HealthcheckRelation;

verus! {

/// Service entity.
pub struct Service {
    pub id: String,
    pub name: String,
    pub description: Option<String>,
    pub repository_url: Option<String>,
    pub environment: String,
    pub status: String,
    pub image_refs: Option<String>,
    pub created_at: String,
    pub updated_at: String,
    pub created_by: Option<String>,
}

/// Input record for creating a service.
pub struct CreateService {
    pub name: String,
    pub description: Option<String>,
    pub repository_url: Option<String>,
    pub environment: String,
    pub status: String,
    pub image_refs: Option<String>,
}

/// Input record for updating a service.
pub struct UpdateService {
    pub name: Option<String>,
    pub description: Option<String>,
    pub repository_url: Option<String>,
    pub environment: Option<String>,
    pub status: Option<String>,
    pub image_refs: Option<String>,
}

/// Service relation for detail views.
pub struct ServiceRelation {
    pub id: String,
    pub name: String,
    pub environment: String,
    pub status: String,
    pub relation_notes: Option<String>,
}

/// Input record for linking a service.
pub struct LinkService {
    pub notes: Option<String>,
}

/// A service with its relations resolved.
pub struct ServiceWithRelations {
    pub service: Service,
    pub applications: Vec<ApplicationServiceRelation>,
    pub infra: Vec<InfraRelation>,
    pub healthchecks: Vec<HealthcheckRelation>,
}

/// Application relation for a service detail view.
pub struct ApplicationServiceRelation {
    pub id: String,
    pub name: String,
    pub environment: String,
    pub status: String,
}

} // verus!
