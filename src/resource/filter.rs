//! Saved filters.
use vstd::prelude::*;
use crate::command;
use crate::command::Ids;
use crate::color::Color;
use crate::intbool::IntBool;
use super::ID;

verus! {

/// A saved query over items.
#[derive(Debug, Clone, Default)]
pub struct Filter {
    /// The filter's unique ID.
    pub id: ID,
    /// The filter's name.
    pub name: String,
    /// The query text.
    pub query: String,
    /// The filter's color.
    pub color: Color,
    /// The position in the filter list; the smallest comes first.
    pub item_order: isize,
    /// Set when the filter has been deleted.
    pub is_deleted: IntBool,
    /// Set when the filter is a favorite.
    pub is_favorite: IntBool,
}

impl Filter {
    /// A command that creates a filter, with every field at its default.
    pub fn add() -> (r: command::filter::Create)
        ensures
            r.name@ == Seq::<char>::empty(),
            r.query@ == Seq::<char>::empty(),
            r.color == crate::color::Color::LightGreen,
            r.item_order == 0,
            r.is_favorite.0 == 0,
    {
        command::filter::Create::default()
    }

    /// A command that sets the record's fields to what this copy holds.
    pub fn update(&self) -> (r: command::filter::Update)
        ensures
            r.id == self.id,
            r.name@ == self.name@,
            r.query@ == self.query@,
            r.color == self.color,
            r.item_order == self.item_order,
            r.is_favorite == self.is_favorite,

    {
        command::filter::Update {
            id: self.id,
            name: self.name.clone(),
            query: self.query.clone(),
            color: self.color,
            item_order: self.item_order,
            is_favorite: self.is_favorite,

        }
    }

    /// A command that deletes the filter.
    pub fn delete(&self) -> (r: command::filter::Delete)
        ensures
            r.ids@ == seq![self.id],
    {
        Ids { ids: vec![self.id] }
    }
}

} // verus!
