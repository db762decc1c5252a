//! Notes and their file attachments.
use vstd::prelude::*;
use crate::command;
use crate::command::Ids;
use crate::intbool::IntBool;
use super::ID;
use crate::date::Date;

verus! {

/// Whether an attachment's upload has finished.
#[derive(Debug, Clone, Copy, PartialEq, Eq)]
pub enum UploadState {
    Pending,
    Completed,
}

impl Default for UploadState {
    fn default() -> (r: UploadState)
        ensures
            r == UploadState::Completed,
    {
        UploadState::Completed
    }
}

/// A thumbnail of an attachment, sent as `[url, width, height]`.
#[derive(Debug, Default)]
pub struct Thumbnail {
    pub link: String,
    pub width: usize,
    pub height: usize,
}

impl Thumbnail {
    /// Builds a thumbnail from the parts of its wire array; a missing part
    /// takes its default (the empty link, or zero).
    pub fn from_parts(link: Option<String>, width: Option<usize>, height: Option<usize>) -> (r:
        Thumbnail)
        ensures
            r.link@ == (match link {
                Some(l) => l@,
                None => Seq::<char>::empty(),
            }),
            r.width == (match width {
                Some(w) => w,
                None => 0usize,
            }),
            r.height == (match height {
                Some(h) => h,
                None => 0usize,
            }),
    {
        let link = match link {
            Some(l) => l,
            None => String::new(),
        };
        let width = match width {
            Some(w) => w,
            None => 0,
        };
        let height = match height {
            Some(h) => h,
            None => 0,
        };
        Thumbnail { link, width, height }
    }
}

/// A file attached to a note.
#[derive(Debug, Default)]
pub struct Attachment {
    /// The file's name.
    pub file_name: String,
    /// The file's size in bytes.
    pub file_size: usize,
    /// The file's MIME type.
    pub file_type: String,
    /// Where the file can be fetched.
    pub file_url: String,
    /// Whether the upload has finished.
    pub upload_state: UploadState,
    /// Small thumbnail.
    pub tn_s: Option<Thumbnail>,
    /// Medium thumbnail.
    pub tn_m: Option<Thumbnail>,
    /// Large thumbnail.
    pub tn_l: Option<Thumbnail>,
}

impl Clone for Thumbnail {
    fn clone(&self) -> (r: Thumbnail)
        ensures
            r == *self,
    {
        Thumbnail { link: self.link.clone(), width: self.width, height: self.height }
    }
}

fn copy_thumbnail(t: &Option<Thumbnail>) -> (r: Option<Thumbnail>)
    ensures
        r == *t,
{
    match t {
        Some(x) => Some(x.clone()),
        None => None,
    }
}

impl Clone for Attachment {
    fn clone(&self) -> (r: Attachment)
        ensures
            r == *self,
    {
        Attachment {
            file_name: self.file_name.clone(),
            file_size: self.file_size,
            file_type: self.file_type.clone(),
            file_url: self.file_url.clone(),
            upload_state: self.upload_state,
            tn_s: copy_thumbnail(&self.tn_s),
            tn_m: copy_thumbnail(&self.tn_m),
            tn_l: copy_thumbnail(&self.tn_l),
        }
    }
}

/// A note on an item.
#[derive(Debug, Clone, Default)]
pub struct Note {
    /// The note's unique ID.
    pub id: ID,
    /// The user who posted the note.
    pub user_id: ID,
    /// The item the note is attached to.
    pub item_id: ID,
    /// The project of that item.
    pub project_id: ID,
    /// The note's text.
    pub content: String,
    /// The file attached to the note.
    pub file_attachment: Attachment,
    /// The users to notify.
    pub uids_to_notify: Vec<ID>,
    /// Set when the note has been deleted.
    pub is_deleted: IntBool,
    /// Set when the note has been archived.
    pub is_archived: IntBool,
    /// When the note was posted.
    pub posting: Date,
}

/// A note on a project rather than on an item.
#[derive(Debug, Clone, Default)]
pub struct ProjectNote {
    /// The note's unique ID.
    pub id: ID,
    /// The user who posted the note.
    pub user_id: ID,
    /// The project the note is attached to.
    pub project_id: ID,
    /// The note's text.
    pub content: String,
    /// The file attached to the note.
    pub file_attachment: Attachment,
    /// The users to notify.
    pub uids_to_notify: Vec<ID>,
    /// Set when the note has been deleted.
    pub is_deleted: IntBool,
    /// Set when the note has been archived.
    pub is_archived: IntBool,
    /// When the note was posted.
    pub posting: Date,
}

impl Note {
    /// A command that creates a note, with every field at its default.
    pub fn add() -> (r: command::note::Create)
        ensures
            r.item_id is None,
            r.project_id is None,
            r.content@ == Seq::<char>::empty(),
            r.file_attachment is None,
            r.uids_to_notify is None,
    {
        command::note::Create::default()
    }

    /// A command that sets the record's fields to what this copy holds.
    pub fn update(&self) -> (r: command::note::Update)
        ensures
            r.id == self.id,
            r.content@ == self.content@,
            r.file_attachment == Some(self.file_attachment),

    {
        command::note::Update {
            id: self.id,
            content: self.content.clone(),
            file_attachment: Some(self.file_attachment.clone()),

        }
    }

    /// A command that deletes the note.
    pub fn delete(&self) -> (r: command::note::Delete)
        ensures
            r.ids@ == seq![self.id],
    {
        Ids { ids: vec![self.id] }
    }
}

} // verus!
