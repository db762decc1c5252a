//! Commands on notes.
use vstd::prelude::*;
use crate::json::{
    json_quoted, null_text, opt_ids_text, opt_int_text, push_int, push_opt_ids, push_opt_int, push_str,
};
use crate::resource::ID;
use crate::text::decimal_of;
use crate::resource::{Attachment, Thumbnail, UploadState};

verus! {

/// Creates a note on an item or on a project.
#[derive(Debug)]
pub struct Create {
    pub item_id: Option<ID>,
    pub project_id: Option<ID>,
    pub content: String,
    pub file_attachment: Option<Attachment>,
    pub uids_to_notify: Option<Vec<ID>>,
}

impl Default for Create {
    fn default() -> (r: Create)
        ensures
            r.item_id is None,
            r.project_id is None,
            r.content@ == Seq::<char>::empty(),
            r.file_attachment is None,
            r.uids_to_notify is None,
    {
        Create {
            item_id: None,
            project_id: None,
            content: String::new(),
            file_attachment: None,
            uids_to_notify: None,
        }
    }
}

impl Create {
    /// The JSON object that this is sent as.
    pub open spec fn json(self) -> Seq<char> {
        "{\"item_id\":"@ + opt_int_text(self.item_id)
            + ",\"project_id\":"@ + opt_int_text(self.project_id)
            + ",\"content\":"@ + json_quoted(self.content@)
            + ",\"file_attachment\":"@ + opt_attachment_text(self.file_attachment)
            + ",\"uids_to_notify\":"@ + opt_ids_text(self.uids_to_notify)
            + "}"@
    }

    /// Appends the JSON object that this is sent as.
    pub fn write_json(&self, out: &mut String)
        ensures
            final(out)@ == old(out)@ + self.json(),
    {
        let ghost start = out@;
        out.append("{\"item_id\":");
        push_opt_int(out, self.item_id);
        out.append(",\"project_id\":");
        push_opt_int(out, self.project_id);
        out.append(",\"content\":");
        push_str(out, self.content.as_str());
        out.append(",\"file_attachment\":");
        push_opt_attachment(out, &self.file_attachment);
        out.append(",\"uids_to_notify\":");
        push_opt_ids(out, &self.uids_to_notify);
        out.append("}");
        assert(out@ =~= start + self.json());
    }
}

/// Changes a note.
#[derive(Debug)]
pub struct Update {
    pub id: ID,
    pub content: String,
    pub file_attachment: Option<Attachment>,
}

impl Default for Update {
    fn default() -> (r: Update)
        ensures
            r.id == 0,
            r.content@ == Seq::<char>::empty(),
            r.file_attachment is None,
    {
        Update {
            id: 0,
            content: String::new(),
            file_attachment: None,
        }
    }
}

impl Update {
    /// The JSON object that this is sent as.
    pub open spec fn json(self) -> Seq<char> {
        "{\"id\":"@ + decimal_of(self.id as int)
            + ",\"content\":"@ + json_quoted(self.content@)
            + ",\"file_attachment\":"@ + opt_attachment_text(self.file_attachment)
            + "}"@
    }

    /// Appends the JSON object that this is sent as.
    pub fn write_json(&self, out: &mut String)
        ensures
            final(out)@ == old(out)@ + self.json(),
    {
        let ghost start = out@;
        out.append("{\"id\":");
        push_int(out, self.id as i128);
        out.append(",\"content\":");
        push_str(out, self.content.as_str());
        out.append(",\"file_attachment\":");
        push_opt_attachment(out, &self.file_attachment);
        out.append("}");
        assert(out@ =~= start + self.json());
    }
}

/// The records that a `delete` command acts on.
pub type Delete = super::Ids;

/// An upload state as a JSON string.
pub open spec fn upload_state_text(u: UploadState) -> Seq<char> {
    match u {
        UploadState::Pending => "\"pending\""@,
        UploadState::Completed => "\"completed\""@,
    }
}

/// Appends an upload state as a JSON string.
pub fn push_upload_state(out: &mut String, u: UploadState)
    ensures
        final(out)@ == old(out)@ + upload_state_text(u),
{
    match u {
        UploadState::Pending => out.append("\"pending\""),
        UploadState::Completed => out.append("\"completed\""),
    }
}

/// A thumbnail as the JSON array `[link, width, height]`.
pub open spec fn thumbnail_text(t: Thumbnail) -> Seq<char> {
    "["@ + json_quoted(t.link@)
        + ","@ + decimal_of(t.width as int)
        + ","@ + decimal_of(t.height as int)
        + "]"@
}

/// An optional thumbnail, or `null`.
pub open spec fn opt_thumbnail_text(o: Option<Thumbnail>) -> Seq<char> {
    match o {
        Some(t) => thumbnail_text(t),
        None => null_text(),
    }
}

/// Appends an optional thumbnail.
pub fn push_opt_thumbnail(out: &mut String, o: &Option<Thumbnail>)
    ensures
        final(out)@ == old(out)@ + opt_thumbnail_text(*o),
{
    match o {
        Some(t) => {
            let ghost start = out@;
            out.append("[");
            push_str(out, t.link.as_str());
            out.append(",");
            push_int(out, t.width as i128);
            out.append(",");
            push_int(out, t.height as i128);
            out.append("]");
            assert(out@ =~= start + thumbnail_text(*t));
        },
        None => out.append("null"),
    }
}

/// An optional attachment, or `null`.
pub open spec fn opt_attachment_text(o: Option<Attachment>) -> Seq<char> {
    match o {
        Some(a) => a.json(),
        None => null_text(),
    }
}

/// Appends an optional attachment.
pub fn push_opt_attachment(out: &mut String, o: &Option<Attachment>)
    ensures
        final(out)@ == old(out)@ + opt_attachment_text(*o),
{
    match o {
        Some(a) => a.write_json(out),
        None => out.append("null"),
    }
}

impl Attachment {
    /// The JSON object that this is sent as.
    pub open spec fn json(self) -> Seq<char> {
        "{\"file_name\":"@ + json_quoted(self.file_name@)
            + ",\"file_size\":"@ + decimal_of(self.file_size as int)
            + ",\"file_type\":"@ + json_quoted(self.file_type@)
            + ",\"file_url\":"@ + json_quoted(self.file_url@)
            + ",\"upload_state\":"@ + upload_state_text(self.upload_state)
            + ",\"tn_s\":"@ + opt_thumbnail_text(self.tn_s)
            + ",\"tn_m\":"@ + opt_thumbnail_text(self.tn_m)
            + ",\"tn_l\":"@ + opt_thumbnail_text(self.tn_l)
            + "}"@
    }

    /// Appends the JSON object that this is sent as.
    pub fn write_json(&self, out: &mut String)
        ensures
            final(out)@ == old(out)@ + self.json(),
    {
        let ghost start = out@;
        out.append("{\"file_name\":");
        push_str(out, self.file_name.as_str());
        out.append(",\"file_size\":");
        push_int(out, self.file_size as i128);
        out.append(",\"file_type\":");
        push_str(out, self.file_type.as_str());
        out.append(",\"file_url\":");
        push_str(out, self.file_url.as_str());
        out.append(",\"upload_state\":");
        push_upload_state(out, self.upload_state);
        out.append(",\"tn_s\":");
        push_opt_thumbnail(out, &self.tn_s);
        out.append(",\"tn_m\":");
        push_opt_thumbnail(out, &self.tn_m);
        out.append(",\"tn_l\":");
        push_opt_thumbnail(out, &self.tn_l);
        out.append("}");
        assert(out@ =~= start + self.json());
    }
}

impl Create {
    /// Sets `item_id`.
    pub fn item_id(self, a: ID) -> (r: Create)
        ensures
            r == (Create { item_id: Some(a), ..self }),
    {
        Create { item_id: Some(a), ..self }
    }

    /// Sets `project_id`.
    pub fn project_id(self, a: ID) -> (r: Create)
        ensures
            r == (Create { project_id: Some(a), ..self }),
    {
        Create { project_id: Some(a), ..self }
    }

    /// Sets `content`.
    pub fn content(self, a: &str) -> (r: Create)
        ensures
            r.content@ == a@,
            r == (Create { content: r.content, ..self }),
    {
        Create { content: a.to_string(), ..self }
    }

    /// Sets `file_attachment`.
    pub fn file_attachment(self, a: Attachment) -> (r: Create)
        ensures
            r == (Create { file_attachment: Some(a), ..self }),
    {
        Create { file_attachment: Some(a), ..self }
    }

    /// Sets `uids_to_notify`.
    pub fn uids_to_notify(self, a: Vec<ID>) -> (r: Create)
        ensures
            r == (Create { uids_to_notify: Some(a), ..self }),
    {
        Create { uids_to_notify: Some(a), ..self }
    }
}

impl Update {
    /// Sets `id`.
    pub fn id(self, a: ID) -> (r: Update)
        ensures
            r == (Update { id: a, ..self }),
    {
        Update { id: a, ..self }
    }

    /// Sets `content`.
    pub fn content(self, a: &str) -> (r: Update)
        ensures
            r.content@ == a@,
            r == (Update { content: r.content, ..self }),
    {
        Update { content: a.to_string(), ..self }
    }

    /// Sets `file_attachment`.
    pub fn file_attachment(self, a: Attachment) -> (r: Update)
        ensures
            r == (Update { file_attachment: Some(a), ..self }),
    {
        Update { file_attachment: Some(a), ..self }
    }
}

} // verus!
