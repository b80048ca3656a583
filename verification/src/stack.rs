//! Stack entity: a technology grouping applications belong to.

use vstd::prelude::*;

verus! {

/// Stack entity.
pub struct Stack {
    pub id: String,
    pub name: String,
    pub notes: Option<String>,
    pub created_at: String,
    pub updated_at: String,
}

/// Input record for creating a stack.
pub struct CreateStack {
    pub name: String,
    pub notes: Option<String>,
}

/// Input record for updating a stack.
pub struct UpdateStack {
    pub name: Option<String>,
    pub notes: Option<String>,
}

/// Stack relation for an application detail view.
pub struct StackRelation {
    pub id: String,
    pub name: String,
}

/// A stack with its related applications resolved.
pub struct StackWithRelations {
    pub stack: Stack,
    pub applications: Vec<ApplicationStackRelation>,
}

/// Application relation for a stack detail view.
pub struct ApplicationStackRelation {
    pub id: String,
    pub name: String,
    pub status: String,
}

} // verus!
