//! Person entity: someone who owns or contributes to an application.

use vstd::prelude::*;

verus! {

/// Person entity.
pub struct Person {
    pub id: String,
    pub name: String,
    pub email: Option<String>,
    pub role: Option<String>,
    pub department: Option<String>,
    pub phone: Option<String>,
    pub is_active: bool,
    pub notes: Option<String>,
    pub created_at: String,
    pub updated_at: String,
    pub created_by: Option<String>,
}

/// Input record for creating a person.
pub struct CreatePerson {
    pub name: String,
    pub email: Option<String>,
    pub role: Option<String>,
    pub department: Option<String>,
    pub phone: Option<String>,
    pub is_active: bool,
    pub notes: Option<String>,
}

/// Input record for updating a person.
pub struct UpdatePerson {
    pub name: Option<String>,
    pub email: Option<String>,
    pub role: Option<String>,
    pub department: Option<String>,
    pub phone: Option<String>,
    pub is_active: Option<bool>,
    pub notes: Option<String>,
}

/// Person relation for an application detail view.
pub struct PersonRelation {
    pub id: String,
    pub name: String,
    pub email: Option<String>,
    pub role: Option<String>,
    pub is_active: bool,
    pub contribution_type: String,
    pub start_date: Option<String>,
    pub end_date: Option<String>,
    pub relation_notes: Option<String>,
}

/// Input record for linking a person to an application.
pub struct LinkPerson {
    pub contribution_type: String,
    pub start_date: Option<String>,
    pub end_date: Option<String>,
    pub notes: Option<String>,
}

/// A person with their related applications resolved.
pub struct PersonWithRelations {
    pub person: Person,
    pub applications: Vec<ApplicationPersonRelation>,
}

/// Application relation for a person detail view.
pub struct ApplicationPersonRelation {
    pub id: String,
    pub name: String,
    pub status: String,
    pub contribution_type: String,
}

} // verus!
