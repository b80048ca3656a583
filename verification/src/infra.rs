//! Infrastructure entity: a shared platform component.

use vstd::prelude::*;

verus! {

/// Infrastructure entity.
pub struct Infra {
    pub id: String,
    pub name: String,
    pub description: Option<String>,
    pub infra_type: String,
    pub created_at: String,
    pub updated_at: String,
    pub created_by: Option<String>,
}

/// Input record for creating an infrastructure component.
pub struct CreateInfra {
    pub name: String,
    pub description: Option<String>,
    pub infra_type: String,
}

/// Input record for updating an infrastructure component.
pub struct UpdateInfra {
    pub name: Option<String>,
    pub description: Option<String>,
    pub infra_type: Option<String>,
}

/// Infrastructure relation for a detail view.
pub struct InfraRelation {
    pub id: String,
    pub name: String,
    pub infra_type: String,
    pub relation_notes: Option<String>,
}

/// Input record for linking an infrastructure component.
pub struct LinkInfra {
    pub notes: Option<String>,
}

/// An infrastructure component with its relations resolved.
pub struct InfraWithRelations {
    pub infra: Infra,
    pub applications: Vec<ApplicationInfraRelation>,
    pub services: Vec<ServiceInfraRelation>,
}

/// Application relation for an infrastructure detail view.
pub struct ApplicationInfraRelation {
    pub id: String,
    pub name: String,
    pub environment: String,
    pub status: String,
}

/// Service relation for an infrastructure detail view.
pub struct ServiceInfraRelation {
    pub id: String,
    pub name: String,
    pub environment: String,
    pub status: String,
}

} // verus!
