//! Items, the tasks themselves.
use vstd::prelude::*;
use crate::command;
use crate::command::Ids;
use crate::text::{copy_ids, copy_opt_string};
use crate::intbool::IntBool;
use super::{Language, Priority, ID};

verus! {

/// A task.
#[derive(Debug, Clone, Default)]
pub struct Item {
    /// The item's unique ID.
    pub id: ID,
    /// The ID of the item's owner.
    pub user_id: ID,
    /// The project the item belongs to.
    pub project_id: ID,
    /// The parent item, when this item is a sub-task.
    pub parent_id: Option<ID>,
    /// A short description of the task.
    pub content: String,
    /// When the task is due, in free text.
    pub date_string: Option<String>,
    /// The language of `date_string`.
    pub date_lang: Option<Language>,
    /// When the task is due, as a date with an optional time.
    pub due: Option<String>,
    /// How important the task is, from 1 to 4.
    pub priority: Priority,
    /// The level in the item tree, from 1 to 4.
    pub indent: u8,
    /// The position in the project's list; the smallest comes first.
    pub item_order: isize,
    /// The position in the day's list; the smallest comes first.
    pub day_order: isize,
    /// Whether the item's sub-tasks are hidden.
    pub collapsed: IntBool,
    /// The labels on the item.
    pub labels: Vec<ID>,
    /// The user who assigned the task.
    pub assigned_by_uid: Option<ID>,
    /// The user the task is assigned to.
    pub responsible_uid: Option<ID>,
    /// Set when the task is done.
    pub checked: IntBool,
    /// Set when the item has been archived.
    pub is_archived: IntBool,
    /// Set when the item has been deleted.
    pub is_deleted: IntBool,
    /// Set when the item is a favorite.
    pub is_favorite: IntBool,
}

impl Item {
    /// A command that creates an item, with every field at its default.
    pub fn add() -> (r: command::item::Create)
        ensures
            r.project_id == 0,
            r.content is None,
            r.date_string is None,
            r.date_lang is None,
            r.priority == 0,
            r.indent == 0,
            r.item_order == 0,
            r.day_order == 0,
            r.collapsed.0 == 0,
            r.labels@.len() == 0,
            r.assigned_by_uid is None,
            r.auto_reminders is None,
            r.auto_parse_labels is None,
    {
        command::item::Create::default()
    }

    /// A command that sets the record's fields to what this copy holds.
    pub fn update(&self) -> (r: command::item::Update)
        ensures
            r.id == self.id,
            (r.content matches Some(c) && c@ == self.content@),
            r.date_string == self.date_string,
            r.date_lang == self.date_lang,
            r.due_date_utc is None,
            r.priority == self.priority,
            r.indent == self.indent,
            r.item_order == self.item_order,
            r.day_order == self.day_order,
            r.collapsed == self.collapsed,
            r.labels@ == self.labels@,
            r.assigned_by_uid == self.assigned_by_uid,
            r.responsible_uid == self.responsible_uid,

    {
        command::item::Update {
            id: self.id,
            content: Some(self.content.clone()),
            date_string: copy_opt_string(&self.date_string),
            date_lang: copy_opt_string(&self.date_lang),
            due_date_utc: None,
            priority: self.priority,
            indent: self.indent,
            item_order: self.item_order,
            day_order: self.day_order,
            collapsed: self.collapsed,
            labels: copy_ids(&self.labels),
            assigned_by_uid: self.assigned_by_uid,
            responsible_uid: self.responsible_uid,

        }
    }

    /// A command that deletes the item.
    pub fn delete(&self) -> (r: command::item::Delete)
        ensures
            r.ids@ == seq![self.id],
    {
        Ids { ids: vec![self.id] }
    }

    /// A command that archives the item.
    pub fn archive(&self) -> (r: command::item::Archive)
        ensures
            r.ids@ == seq![self.id],
    {
        Ids { ids: vec![self.id] }
    }

    /// A command that brings the item back from the archive.
    pub fn unarchive(&self) -> (r: command::item::Unarchive)
        ensures
            r.ids@ == seq![self.id],
    {
        Ids { ids: vec![self.id] }
    }

    /// A command that closes the item.
    pub fn close(&self) -> (r: command::item::Close)
        ensures
            r.ids@ == seq![self.id],
    {
        Ids { ids: vec![self.id] }
    }

    /// A command that marks the item done.
    pub fn complete(&self) -> (r: command::item::Complete)
        ensures
            r.ids@ == seq![self.id],
    {
        Ids { ids: vec![self.id] }
    }

    /// A command that marks the item not done.
    pub fn uncomplete(&self) -> (r: command::item::Uncomplete)
        ensures
            r.ids@ == seq![self.id],
    {
        Ids { ids: vec![self.id] }
    }
}

} // verus!
