//! Application entity: the central entity of the inventory.

use vstd::prelude::*;

use crate::client::ClientRelation;
use crate::domain::DomainRelation;
use crate::host::HostRelation;
use crate::network_share::NetworkShareRelation;
use crate::note::Note;
use crate::person::PersonRelation;

verus! {

/// Application entity.
pub struct Application {
    pub id: String,
    pub name: String,
    pub description: Option<String>,
    pub repository_url: Option<String>,
    pub status: String,
    pub created_at: String,
    pub updated_at: String,
    pub created_by: Option<String>,
}

/// Input record for creating an application.
pub struct CreateApplication {
    pub name: String,
    pub description: Option<String>,
    pub repository_url: Option<String>,
    pub status: String,
}

/// Input record for updating an application.
pub struct UpdateApplication {
    pub name: Option<String>,
    pub description: Option<String>,
    pub repository_url: Option<String>,
    pub status: Option<String>,
}

/// An application with all related entities resolved.
pub struct ApplicationWithRelations {
    pub application: Application,
    pub hosts: Vec<HostRelation>,
    pub domains: Vec<DomainRelation>,
    pub people: Vec<PersonRelation>,
    pub clients: Vec<ClientRelation>,
    pub network_shares: Vec<NetworkShareRelation>,
    pub notes: Vec<Note>,
}

} // verus!
