//! Labels.
use vstd::prelude::*;
use crate::command;
use crate::command::Ids;
use crate::color::Color;
use crate::intbool::IntBool;
use super::ID;

verus! {

/// A label that items can carry.
#[derive(Debug, Clone, Default)]
pub struct Label {
    /// The label's unique ID.
    pub id: ID,
    /// The label's name.
    pub name: String,
    /// The label's color.
    pub color: Color,
    /// The position in the label list; the smallest comes first.
    pub item_order: isize,
    /// Set when the label has been deleted.
    pub is_deleted: IntBool,
    /// Set when the label is a favorite.
    pub is_favorite: IntBool,
}

impl Label {
    /// A command that creates a label, with every field at its default.
    pub fn add() -> (r: command::label::Create)
        ensures
            r.name@ == Seq::<char>::empty(),
            r.color == crate::color::Color::LightGreen,
            r.item_order == 0,
            r.is_favorite.0 == 0,
    {
        command::label::Create::default()
    }

    /// A command that sets the record's fields to what this copy holds.
    pub fn update(&self) -> (r: command::label::Update)
        ensures
            r.id == self.id,
            r.name@ == self.name@,
            r.color == self.color,
            r.item_order == self.item_order,
            r.is_favorite == self.is_favorite,

    {
        command::label::Update {
            id: self.id,
            name: self.name.clone(),
            color: self.color,
            item_order: self.item_order,
            is_favorite: self.is_favorite,

        }
    }

    /// A command that deletes the label.
    pub fn delete(&self) -> (r: command::label::Delete)
        ensures
            r.ids@ == seq![self.id],
    {
        Ids { ids: vec![self.id] }
    }
}

} // verus!
