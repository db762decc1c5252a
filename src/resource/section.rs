//! Sections, which group the items of a project.
use vstd::prelude::*;
use super::ID;

verus! {

/// A section of a project.
#[derive(Debug, Clone, Default)]
pub struct Section {
    pub id: ID,
    pub name: String,
    pub project_id: ID,
    /// The place of this section among its siblings.
    pub section_order: i32,
    /// The user who created the section.
    pub user_id: ID,
    /// Whether the section's items are hidden.
    pub collapsed: bool,
    /// Names the section across the users of a shared project.
    pub sync_id: Option<ID>,
    pub is_deleted: bool,
    pub is_archived: bool,
    /// When the section was archived, as the server wrote it.
    pub archived_at: Option<String>,
    /// When the section was added, as the server wrote it.
    pub added_at: String,
}

} // verus!
