//! Domain entity: a DNS name and what it points at.

use vstd::prelude::*;

verus! {

/// Domain entity.
pub struct Domain {
    pub id: String,
    pub fqdn: String,
    pub registrar: Option<String>,
    pub dns_provider: Option<String>,
    pub expires_at: Option<String>,
    pub notes: Option<String>,
    pub target_application_id: Option<String>,
    pub target_service_id: Option<String>,
    pub created_at: String,
    pub updated_at: String,
    pub created_by: Option<String>,
}

/// Input record for creating a domain.
pub struct CreateDomain {
    pub fqdn: String,
    pub registrar: Option<String>,
    pub dns_provider: Option<String>,
    pub expires_at: Option<String>,
    pub notes: Option<String>,
    pub target_application_id: Option<String>,
    pub target_service_id: Option<String>,
}

/// Input record for updating a domain.
pub struct UpdateDomain {
    pub fqdn: Option<String>,
    pub registrar: Option<String>,
    pub dns_provider: Option<String>,
    pub expires_at: Option<String>,
    pub notes: Option<String>,
    pub target_application_id: Option<String>,
    pub target_service_id: Option<String>,
}

/// Domain relation for an application detail view.
pub struct DomainRelation {
    pub id: String,
    pub fqdn: String,
    pub target_application_id: Option<String>,
    pub target_application_name: Option<String>,
    pub target_service_id: Option<String>,
    pub target_service_name: Option<String>,
    pub relation_notes: Option<String>,
}

/// Input record for linking a domain to an application.
pub struct LinkDomain {
    pub notes: Option<String>,
}

/// What a domain resolves to.
pub enum DomainTarget {
    Application { id: String, name: String },
    Service { id: String, name: String },
}

/// A resolved display name for a domain target.
pub struct TargetName {
    pub name: String,
}

/// A domain with its related applications resolved.
pub struct DomainWithRelations {
    pub domain: Domain,
    pub target_application_name: Option<String>,
    pub target_service_name: Option<String>,
    pub applications: Vec<ApplicationDomainRelation>,
}

/// Application relation for a domain detail view.
pub struct ApplicationDomainRelation {
    pub id: String,
    pub name: String,
}

} // verus!
