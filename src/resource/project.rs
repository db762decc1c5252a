//! Projects.
use vstd::prelude::*;
use crate::command;
use crate::command::Ids;
use crate::color::Color;
use crate::intbool::IntBool;
use super::ID;

verus! {

/// How a project's items are laid out.
#[derive(Debug, Clone, Copy, PartialEq, Eq, PartialOrd, Ord)]
pub enum ViewStyle {
    List,
    Board,
}

impl Default for ViewStyle {
    fn default() -> (r: ViewStyle)
        ensures
            r == ViewStyle::List,
    {
        ViewStyle::List
    }
}

/// A project: a named list of items, placed in a tree by its indent and order.
#[derive(Debug, Clone, Default)]
pub struct Project {
    /// The project's unique ID.
    pub id: ID,
    /// The project's name.
    pub name: String,
    /// The project's color.
    pub color: Color,
    /// The level in the project tree, from 1 to 4.
    pub indent: u8,
    /// The position in the project list; the smallest comes first.
    pub item_order: isize,
    /// Whether the project's sub-projects are hidden.
    pub collapsed: IntBool,
    /// Whether the project is shared with other users.
    pub shared: bool,
    /// Set when the project has been deleted.
    pub is_deleted: IntBool,
    /// Set when the project has been archived.
    pub is_archived: IntBool,
    /// Set when the project is a favorite.
    pub is_favorite: IntBool,
    /// Names the project across the users of a shared project.
    pub sync_id: Option<ID>,
    /// Whether this is the user's inbox.
    pub inbox: bool,
    /// Whether this is the team's inbox.
    pub inbox_team: bool,
    /// How the project's items are laid out.
    pub view_style: ViewStyle,
}

impl Project {
    /// A command that creates a project, with every field at its default.
    pub fn add() -> (r: command::project::Create)
        ensures
            r.name@ == Seq::<char>::empty(),
            r.color == crate::color::Color::LightGreen,
            r.indent == 0,
            r.item_order == 0,
            r.is_favorite.0 == 0,
    {
        command::project::Create::default()
    }

    /// A command that sets the record's fields to what this copy holds.
    pub fn update(&self) -> (r: command::project::Update)
        ensures
            r.id == self.id,
            r.name@ == self.name@,
            r.color == self.color,
            r.indent == self.indent,
            r.item_order == self.item_order,
            r.collapsed == self.collapsed,
            r.is_favorite == self.is_favorite,

    {
        command::project::Update {
            id: self.id,
            name: self.name.clone(),
            color: self.color,
            indent: self.indent,
            item_order: self.item_order,
            collapsed: self.collapsed,
            is_favorite: self.is_favorite,

        }
    }

    /// A command that deletes the project.
    pub fn delete(&self) -> (r: command::project::Delete)
        ensures
            r.ids@ == seq![self.id],
    {
        Ids { ids: vec![self.id] }
    }

    /// A command that archives the project.
    pub fn archive(&self) -> (r: command::project::Archive)
        ensures
            r.ids@ == seq![self.id],
    {
        Ids { ids: vec![self.id] }
    }

    /// A command that brings the project back from the archive.
    pub fn unarchive(&self) -> (r: command::project::Unarchive)
        ensures
            r.ids@ == seq![self.id],
    {
        Ids { ids: vec![self.id] }
    }
}

} // verus!
