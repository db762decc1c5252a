//! Commands: requests to change records, each sent as a JSON object that
//! names the operation, carries its arguments and an ID of its own, and, for
//! a command that creates a record, a temporary ID for that record.
use vstd::prelude::*;
use crate::json::{ids_text, push_ids, push_uuid, uuid_json};
use crate::protocol::CommandId;
use crate::resource::ID;

pub mod filter;
pub mod item;
pub mod label;
pub mod note;
pub mod project;

verus! {

/// The records that a command acts on, by ID.
#[derive(Debug)]
pub struct Ids {
    pub ids: Vec<ID>,
}

impl Ids {
    /// The JSON object that this is sent as.
    pub open spec fn json(self) -> Seq<char> {
        "{\"ids\":"@ + ids_text(self.ids@) + "}"@
    }

    /// Appends the JSON object that this is sent as.
    pub fn write_json(&self, out: &mut String)
        ensures
            final(out)@ == old(out)@ + self.json(),
    {
        let ghost start = out@;
        out.append("{\"ids\":");
        push_ids(out, &self.ids);
        out.append("}");
        assert(out@ =~= start + self.json());
    }
}

/// One requested change: the operation and its arguments.
#[derive(Debug)]
pub enum CommandArgs {
    FilterAdd(filter::Create),
    FilterUpdate(filter::Update),
    FilterDelete(filter::Delete),
    ItemAdd(item::Create),
    ItemUpdate(item::Update),
    ItemDelete(item::Delete),
    ItemMove(item::Move),
    ItemArchive(item::Archive),
    ItemUnarchive(item::Unarchive),
    ItemClose(item::Close),
    ItemComplete(item::Complete),
    ItemUncomplete(item::Uncomplete),
    LabelAdd(label::Create),
    LabelUpdate(label::Update),
    LabelDelete(label::Delete),
    NoteAdd(note::Create),
    NoteUpdate(note::Update),
    NoteDelete(note::Delete),
    ProjectAdd(project::Create),
    ProjectUpdate(project::Update),
    ProjectDelete(project::Delete),
    ProjectArchive(project::Archive),
    ProjectUnarchive(project::Unarchive),
}

impl CommandArgs {
    /// The operation's name on the wire.
    pub open spec fn op_name(self) -> Seq<char> {
        match self {
            CommandArgs::FilterAdd(_) => "filter_add"@,
            CommandArgs::FilterUpdate(_) => "filter_update"@,
            CommandArgs::FilterDelete(_) => "filter_delete"@,
            CommandArgs::ItemAdd(_) => "item_add"@,
            CommandArgs::ItemUpdate(_) => "item_update"@,
            CommandArgs::ItemDelete(_) => "item_delete"@,
            CommandArgs::ItemMove(_) => "item_move"@,
            CommandArgs::ItemArchive(_) => "item_archive"@,
            CommandArgs::ItemUnarchive(_) => "item_unarchive"@,
            CommandArgs::ItemClose(_) => "item_close"@,
            CommandArgs::ItemComplete(_) => "item_complete"@,
            CommandArgs::ItemUncomplete(_) => "item_uncomplete"@,
            CommandArgs::LabelAdd(_) => "label_add"@,
            CommandArgs::LabelUpdate(_) => "label_update"@,
            CommandArgs::LabelDelete(_) => "label_delete"@,
            CommandArgs::NoteAdd(_) => "note_add"@,
            CommandArgs::NoteUpdate(_) => "note_update"@,
            CommandArgs::NoteDelete(_) => "note_delete"@,
            CommandArgs::ProjectAdd(_) => "project_add"@,
            CommandArgs::ProjectUpdate(_) => "project_update"@,
            CommandArgs::ProjectDelete(_) => "project_delete"@,
            CommandArgs::ProjectArchive(_) => "project_archive"@,
            CommandArgs::ProjectUnarchive(_) => "project_unarchive"@,
        }
    }

    /// Whether the command creates a record, and so carries a temporary ID.
    pub open spec fn creates(self) -> bool {
        match self {
            CommandArgs::FilterAdd(_) | CommandArgs::ItemAdd(_) | CommandArgs::LabelAdd(_)
            | CommandArgs::NoteAdd(_) | CommandArgs::ProjectAdd(_) => true,
            _ => false,
        }
    }

    /// The arguments as a JSON object.
    pub open spec fn args_json(self) -> Seq<char> {
        match self {
            CommandArgs::FilterAdd(a) => a.json(),
            CommandArgs::FilterUpdate(a) => a.json(),
            CommandArgs::FilterDelete(a) => a.json(),
            CommandArgs::ItemAdd(a) => a.json(),
            CommandArgs::ItemUpdate(a) => a.json(),
            CommandArgs::ItemDelete(a) => a.json(),
            CommandArgs::ItemMove(a) => a.json(),
            CommandArgs::ItemArchive(a) => a.json(),
            CommandArgs::ItemUnarchive(a) => a.json(),
            CommandArgs::ItemClose(a) => a.json(),
            CommandArgs::ItemComplete(a) => a.json(),
            CommandArgs::ItemUncomplete(a) => a.json(),
            CommandArgs::LabelAdd(a) => a.json(),
            CommandArgs::LabelUpdate(a) => a.json(),
            CommandArgs::LabelDelete(a) => a.json(),
            CommandArgs::NoteAdd(a) => a.json(),
            CommandArgs::NoteUpdate(a) => a.json(),
            CommandArgs::NoteDelete(a) => a.json(),
            CommandArgs::ProjectAdd(a) => a.json(),
            CommandArgs::ProjectUpdate(a) => a.json(),
            CommandArgs::ProjectDelete(a) => a.json(),
            CommandArgs::ProjectArchive(a) => a.json(),
            CommandArgs::ProjectUnarchive(a) => a.json(),
        }
    }

    /// The operation's name on the wire.
    pub fn type_tag(&self) -> (r: &'static str)
        ensures
            r@ == self.op_name(),
    {
        match self {
            CommandArgs::FilterAdd(_) => "filter_add",
            CommandArgs::FilterUpdate(_) => "filter_update",
            CommandArgs::FilterDelete(_) => "filter_delete",
            CommandArgs::ItemAdd(_) => "item_add",
            CommandArgs::ItemUpdate(_) => "item_update",
            CommandArgs::ItemDelete(_) => "item_delete",
            CommandArgs::ItemMove(_) => "item_move",
            CommandArgs::ItemArchive(_) => "item_archive",
            CommandArgs::ItemUnarchive(_) => "item_unarchive",
            CommandArgs::ItemClose(_) => "item_close",
            CommandArgs::ItemComplete(_) => "item_complete",
            CommandArgs::ItemUncomplete(_) => "item_uncomplete",
            CommandArgs::LabelAdd(_) => "label_add",
            CommandArgs::LabelUpdate(_) => "label_update",
            CommandArgs::LabelDelete(_) => "label_delete",
            CommandArgs::NoteAdd(_) => "note_add",
            CommandArgs::NoteUpdate(_) => "note_update",
            CommandArgs::NoteDelete(_) => "note_delete",
            CommandArgs::ProjectAdd(_) => "project_add",
            CommandArgs::ProjectUpdate(_) => "project_update",
            CommandArgs::ProjectDelete(_) => "project_delete",
            CommandArgs::ProjectArchive(_) => "project_archive",
            CommandArgs::ProjectUnarchive(_) => "project_unarchive",
        }
    }

    /// Whether the command creates a record, and so carries a temporary ID.
    pub fn is_creation(&self) -> (r: bool)
        ensures
            r == self.creates(),
    {
        match self {
            CommandArgs::FilterAdd(_) | CommandArgs::ItemAdd(_) | CommandArgs::LabelAdd(_)
            | CommandArgs::NoteAdd(_) | CommandArgs::ProjectAdd(_) => true,
            _ => false,
        }
    }

    /// Appends the arguments as a JSON object.
    pub fn write_json(&self, out: &mut String)
        ensures
            final(out)@ == old(out)@ + self.args_json(),
    {
        match self {
            CommandArgs::FilterAdd(a) => a.write_json(out),
            CommandArgs::FilterUpdate(a) => a.write_json(out),
            CommandArgs::FilterDelete(a) => a.write_json(out),
            CommandArgs::ItemAdd(a) => a.write_json(out),
            CommandArgs::ItemUpdate(a) => a.write_json(out),
            CommandArgs::ItemDelete(a) => a.write_json(out),
            CommandArgs::ItemMove(a) => a.write_json(out),
            CommandArgs::ItemArchive(a) => a.write_json(out),
            CommandArgs::ItemUnarchive(a) => a.write_json(out),
            CommandArgs::ItemClose(a) => a.write_json(out),
            CommandArgs::ItemComplete(a) => a.write_json(out),
            CommandArgs::ItemUncomplete(a) => a.write_json(out),
            CommandArgs::LabelAdd(a) => a.write_json(out),
            CommandArgs::LabelUpdate(a) => a.write_json(out),
            CommandArgs::LabelDelete(a) => a.write_json(out),
            CommandArgs::NoteAdd(a) => a.write_json(out),
            CommandArgs::NoteUpdate(a) => a.write_json(out),
            CommandArgs::NoteDelete(a) => a.write_json(out),
            CommandArgs::ProjectAdd(a) => a.write_json(out),
            CommandArgs::ProjectUpdate(a) => a.write_json(out),
            CommandArgs::ProjectDelete(a) => a.write_json(out),
            CommandArgs::ProjectArchive(a) => a.write_json(out),
            CommandArgs::ProjectUnarchive(a) => a.write_json(out),
        }
    }
}

/// A command as it is sent: its arguments, its own ID, and the temporary ID
/// of the record that it creates.
#[derive(Debug)]
pub struct Command {
    pub args: CommandArgs,
    pub uuid: CommandId,
    pub temp_id: Option<CommandId>,
}

impl Command {
    /// The JSON object that the command is sent as.
    pub open spec fn json(self) -> Seq<char> {
        "{\"type\":\""@ + self.args.op_name() + "\",\"args\":"@ + self.args.args_json()
            + ",\"uuid\":"@ + uuid_json(self.uuid) + ",\"temp_id\":"@ + match self.temp_id {
            Some(t) => uuid_json(t),
            None => "null"@,
        } + "}"@
    }

    /// Appends the JSON object that the command is sent as.
    pub fn write_json(&self, out: &mut String)
        ensures
            final(out)@ == old(out)@ + self.json(),
    {
        let ghost start = out@;
        out.append("{\"type\":\"");
        out.append(self.args.type_tag());
        out.append("\",\"args\":");
        self.args.write_json(out);
        out.append(",\"uuid\":");
        push_uuid(out, self.uuid);
        out.append(",\"temp_id\":");
        match self.temp_id {
            Some(t) => push_uuid(out, t),
            None => out.append("null"),
        }
        out.append("}");
        assert(out@ =~= start + self.json());
    }

    /// The JSON object that the command is sent as.
    pub fn to_json(&self) -> (r: String)
        ensures
            r@ == self.json(),
    {
        let mut out = String::new();
        self.write_json(&mut out);
        assert(out@ =~= self.json());
        out
    }
}

/// The commands of a batch as the elements of a JSON array.
pub open spec fn batch_body(cmds: Seq<Command>) -> Seq<char>
    decreases cmds.len(),
{
    if cmds.len() == 0 {
        Seq::empty()
    } else if cmds.len() == 1 {
        cmds[0].json()
    } else {
        batch_body(cmds.drop_last()) + ","@ + cmds.last().json()
    }
}

/// A batch of commands as the JSON array that it is sent as.
pub open spec fn batch_json(cmds: Seq<Command>) -> Seq<char> {
    "["@ + batch_body(cmds) + "]"@
}

/// The JSON array that a batch of commands is sent as, in order.
pub fn encode_batch(cmds: &Vec<Command>) -> (r: String)
    ensures
        r@ == batch_json(cmds@),
{
    let mut out = String::new();
    out.append("[");
    let mut i: usize = 0;
    while i < cmds.len()
        invariant
            i <= cmds.len(),
            out@ == "["@ + batch_body(cmds@.take(i as int)),
        decreases cmds.len() - i,
    {
        if i > 0 {
            out.append(",");
        }
        cmds[i].write_json(&mut out);
        proof {
            let t = cmds@.take(i as int + 1);
            assert(t.drop_last() =~= cmds@.take(i as int));
            assert(t.last() == cmds@[i as int]);
            if i == 0 {
                assert(batch_body(cmds@.take(0)) =~= Seq::<char>::empty());
            }
            assert(out@ =~= "["@ + batch_body(t));
        }
        i = i + 1;
    }
    assert(cmds@.take(cmds@.len() as int) =~= cmds@);
    out.append("]");
    assert(out@ =~= batch_json(cmds@));
    out
}

} // verus!
