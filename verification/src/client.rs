//! Client entity: an internal or external party an application serves.

use vstd::prelude::*;

verus! {

/// Client entity.
pub struct Client {
    pub id: String,
    pub name: String,
    pub contact_name: Option<String>,
    pub contact_email: Option<String>,
    pub department: Option<String>,
    pub phone: Option<String>,
    pub address: Option<String>,
    pub status: String,
    pub notes: Option<String>,
    pub created_at: String,
    pub updated_at: String,
    pub created_by: Option<String>,
}

/// Input record for creating a client.
pub struct CreateClient {
    pub name: String,
    pub contact_name: Option<String>,
    pub contact_email: Option<String>,
    pub department: Option<String>,
    pub phone: Option<String>,
    pub address: Option<String>,
    pub status: String,
    pub notes: Option<String>,
}

/// Input record for updating a client.
pub struct UpdateClient {
    pub name: Option<String>,
    pub contact_name: Option<String>,
    pub contact_email: Option<String>,
    pub department: Option<String>,
    pub phone: Option<String>,
    pub address: Option<String>,
    pub status: Option<String>,
    pub notes: Option<String>,
}

/// Client relation for an application detail view.
pub struct ClientRelation {
    pub id: String,
    pub name: String,
    pub contact_name: Option<String>,
    pub contact_email: Option<String>,
    pub status: String,
    pub relationship_type: String,
    pub contract_ref: Option<String>,
    pub relation_notes: Option<String>,
}

/// Input record for linking a client to an application.
pub struct LinkClient {
    pub relationship_type: String,
    pub contract_ref: Option<String>,
    pub start_date: Option<String>,
    pub end_date: Option<String>,
    pub notes: Option<String>,
}

/// A client with its related applications resolved.
pub struct ClientWithRelations {
    pub client: Client,
    pub applications: Vec<ApplicationClientRelation>,
}

/// Application relation for a client detail view.
pub struct ApplicationClientRelation {
    pub id: String,
    pub name: String,
    pub status: String,
    pub relationship_type: String,
}

} // verus!
