//! Note entity: free-form documentation attached to another entity.

use vstd::prelude::*;

verus! {

/// Note entity.
pub struct Note {
    pub id: String,
    pub entity_type: String,
    pub entity_id: String,
    pub title: String,
    pub content: Option<String>,
    pub note_type: String,
    pub url: Option<String>,
    pub is_pinned: bool,
    pub created_at: String,
    pub updated_at: String,
    pub created_by: Option<String>,
}

/// Input record for creating a note.
pub struct CreateNote {
    pub entity_type: String,
    pub entity_id: String,
    pub title: String,
    pub content: Option<String>,
    pub note_type: String,
    pub url: Option<String>,
    pub is_pinned: bool,
}

/// Input record for updating a note.
pub struct UpdateNote {
    pub title: Option<String>,
    pub content: Option<String>,
    pub note_type: Option<String>,
    pub url: Option<String>,
    pub is_pinned: Option<bool>,
}

} // verus!
