//! What the two endpoints of the sync protocol answer, and how a command
//! batch's answer is reconciled.
use vstd::prelude::*;
use std::collections::HashMap;
use vstd::std_specs::iter::IteratorSpec;
use crate::json::{format_uuid, uuid_text};
use crate::text::{decimal_of, push_decimal};
use crate::resource::{
    Collaborator, Filter, Item, Label, LiveNotification, Note, Project, Reminder, User, ID,
};

verus! {

broadcast use vstd::std_specs::hash::group_hash_axioms;

/// The identifier of one command in a batch, and of a temporary ID: a UUID
/// held as its 128-bit value.
pub type CommandId = u128;

/// A record of any synchronized kind.
#[derive(Debug)]
pub enum Resource {
    Label(Label),
    Project(Project),
    Item(Item),
    Note(Note),
    Filter(Filter),
    User(User),
    Collaborator(Collaborator),
    LiveNotification(LiveNotification),
}

/// A kind of record that a sync request can ask for.
#[derive(Debug, Clone, Copy, PartialEq, Eq, Structural)]
pub enum ResourceType {
    All,
    Labels,
    Projects,
    Items,
    Notes,
    Filters,
    Reminders,
    Locations,
    User,
    LiveNotifications,
    Collaborators,
    NotificationSettings,
}

impl ResourceType {
    /// The kind's name on the wire.
    pub open spec fn name_of(self) -> Seq<char> {
        match self {
            ResourceType::All => "all"@,
            ResourceType::Labels => "labels"@,
            ResourceType::Projects => "projects"@,
            ResourceType::Items => "items"@,
            ResourceType::Notes => "notes"@,
            ResourceType::Filters => "filters"@,
            ResourceType::Reminders => "reminders"@,
            ResourceType::Locations => "location"@,
            ResourceType::User => "user"@,
            ResourceType::LiveNotifications => "live_notifications"@,
            ResourceType::Collaborators => "collaborators"@,
            ResourceType::NotificationSettings => "notification_settings"@,
        }
    }

    /// The kind's name on the wire.
    pub fn wire_name(&self) -> (r: &'static str)
        ensures
            r@ == self.name_of(),
    {
        match self {
            ResourceType::All => "all",
            ResourceType::Labels => "labels",
            ResourceType::Projects => "projects",
            ResourceType::Items => "items",
            ResourceType::Notes => "notes",
            ResourceType::Filters => "filters",
            ResourceType::Reminders => "reminders",
            ResourceType::Locations => "location",
            ResourceType::User => "user",
            ResourceType::LiveNotifications => "live_notifications",
            ResourceType::Collaborators => "collaborators",
            ResourceType::NotificationSettings => "notification_settings",
        }
    }
}

/// Why the server refused one command.
#[derive(Debug, Default)]
pub struct CommandError {
    pub error_code: isize,
    pub error: String,
}

impl Clone for CommandError {
    fn clone(&self) -> (r: CommandError)
        ensures
            r == *self,
    {
        CommandError { error_code: self.error_code, error: self.error.clone() }
    }
}

impl CommandError {
    /// The message shown for this error.
    pub open spec fn message(self) -> Seq<char> {
        "command failed (error "@ + crate::text::decimal_of(self.error_code as int) + "): "@ + self.error@
    }

    /// The message shown for this error.
    pub fn describe(&self) -> (r: String)
        ensures
            r@ == self.message(),
    {
        let mut r = String::from_str("command failed (error ");
        crate::text::push_decimal(&mut r, self.error_code as i128);
        r.append("): ");
        r.append(self.error.as_str());
        r
    }
}

/// What the server answered for one command: success, or why it failed.
#[derive(Debug)]
pub enum CommandStatus {
    Success(String),
    Error(CommandError),
}

/// The answer to a command batch.
#[derive(Debug, Default)]
pub struct CommandResponse {
    /// The status of each command, by the command's ID.
    pub sync_status: HashMap<CommandId, CommandStatus>,
    /// The real ID given to each created record, by its temporary ID.
    pub temp_id_mappings: HashMap<CommandId, ID>,
}

/// The commands of a batch that failed.
#[derive(Debug)]
pub struct CommandErrors {
    errors: HashMap<CommandId, CommandError>,
    command_count: usize,
    temp_id_mappings: HashMap<CommandId, ID>,
}

/// The failed commands among the statuses of a batch, each with its error.
pub open spec fn failures(status: Map<CommandId, CommandStatus>) -> Map<CommandId, CommandError> {
    Map::new(|k: CommandId| status.contains_key(k) && status[k] is Error, |k: CommandId| status[k]->Error_0)
}

/// Whether some command of a batch failed.
pub open spec fn any_failed(status: Map<CommandId, CommandStatus>) -> bool {
    exists|k: CommandId| #[trigger] status.contains_key(k) && status[k] is Error
}

/// When exactly one command of a batch fails, the batch counts as failed and
/// its error names that command alone, with its error.
pub proof fn lemma_single_failure(status: Map<CommandId, CommandStatus>, k: CommandId)
    requires
        status.contains_key(k),
        status[k] is Error,
        forall|j: CommandId| #[trigger] status.contains_key(j) && j != k ==> status[j] is Success,
    ensures
        any_failed(status),
        failures(status) == map![k => status[k]->Error_0],
{
    assert(failures(status) =~= map![k => status[k]->Error_0]);
}

/// The lines of a batch error's message for the failed commands, in the given order.
pub open spec fn failure_lines(ks: Seq<CommandId>, m: Map<CommandId, CommandError>) -> Seq<char>
    decreases ks.len(),
{
    if ks.len() == 0 {
        Seq::empty()
    } else {
        failure_lines(ks.drop_last(), m) + " - "@ + uuid_text(ks.last()) + ": "@ + m[ks.last()].message()
    }
}

/// The keys of a list of map entries.
pub open spec fn entry_keys(pairs: Seq<(&CommandId, &CommandError)>) -> Seq<CommandId> {
    pairs.map_values(|p: (&CommandId, &CommandError)| *p.0)
}

impl CommandErrors {
    /// The first line of the message: how many of the batch's commands failed.
    pub open spec fn heading(failed: nat, count: nat) -> Seq<char> {
        decimal_of(failed as int) + "/"@ + decimal_of(count as int) + " commands failed: \n"@
    }

    /// The message shown for this error: how many commands failed, then a
    /// line for each failed command, in no particular order.
    pub fn describe(&self) -> (r: String)
        ensures
            exists|ks: Seq<CommandId>|
                ks.no_duplicates() && ks.to_set() == self.errors_view().dom() && r@ == CommandErrors::heading(
                    self.errors_view().len(),
                    self.count_view(),
                ) + #[trigger] failure_lines(ks, self.errors_view()),
    {
        let mut out = String::new();
        push_decimal(&mut out, self.errors.len() as i128);
        out.append("/");
        push_decimal(&mut out, self.command_count as i128);
        out.append(" commands failed: \n");
        let ghost head = out@;
        let ghost m = self.errors@;
        let ghost pairs = self.errors.iter().remaining();
        for entry in it: self.errors.iter()
            invariant
                it.seq() == pairs,
                m == self.errors@,
                pairs.len() == m.dom().len(),
                forall|i: int| 0 <= i < pairs.len() ==> #[trigger] m.contains_key(*pairs[i].0) && m[*pairs[i].0] == *pairs[i].1,
                out@ == head + failure_lines(entry_keys(pairs.take(it.index() as int)), m),
        {
            let (k, e) = entry;
            let ghost i = it.index() as int;
            let ghost before = out@;
            out.append(" - ");
            let t = format_uuid(*k);
            out.append(t.as_str());
            out.append(": ");
            let d = e.describe();
            out.append(d.as_str());
            proof {
                let ks = entry_keys(pairs.take(i + 1));
                assert(ks.drop_last() =~= entry_keys(pairs.take(i)));
                assert(ks.last() == *k);
                assert(m[*k] == *e);
                assert(out@ =~= head + failure_lines(ks, m));
            }
        }
        proof {
            let ks = entry_keys(pairs);
            assert(pairs.take(pairs.len() as int) =~= pairs);
            assert(ks.to_set() =~= m.dom()) by {
                assert forall|k: CommandId| #[trigger] m.contains_key(k) implies ks.to_set().contains(k) by {
                    let pair = (&k, &m[k]);
                    assert(pairs.contains(pair));
                    let i = choose|i: int| 0 <= i < pairs.len() && pairs[i] == pair;
                    assert(ks[i] == k);
                }
                assert forall|k: CommandId| #[trigger] ks.to_set().contains(k) implies m.contains_key(k) by {
                    let i = choose|i: int| 0 <= i < ks.len() && ks[i] == k;
                    assert(m.contains_key(*pairs[i].0));
                }
            }
            ks.lemma_no_dup_set_cardinality();
            assert(self.errors.len() == m.len());
            assert(out@ == CommandErrors::heading(m.len(), self.count_view()) + failure_lines(ks, m));
            assert(ks.no_duplicates() && ks.to_set() == self.errors_view().dom() && out@
                == CommandErrors::heading(self.errors_view().len(), self.count_view()) + failure_lines(
                ks,
                self.errors_view(),
            ));
        }
        out
    }

    pub closed spec fn errors_view(&self) -> Map<CommandId, CommandError> {
        self.errors@
    }

    pub closed spec fn count_view(&self) -> nat {
        self.command_count as nat
    }

    pub closed spec fn mappings_view(&self) -> Map<CommandId, ID> {
        self.temp_id_mappings@
    }

    /// The failed commands, each with its error.
    pub fn errors(&self) -> (r: &HashMap<CommandId, CommandError>)
        ensures
            r@ == self.errors_view(),
    {
        &self.errors
    }

    /// The number of commands in the batch.
    pub fn command_count(&self) -> (r: usize)
        ensures
            r == self.count_view(),
    {
        self.command_count
    }

    /// The real IDs given to the records that the batch did create.
    pub fn temp_id_mappings(&self) -> (r: &HashMap<CommandId, ID>)
        ensures
            r@ == self.mappings_view(),
    {
        &self.temp_id_mappings
    }

    /// Checks a batch's answer: `Ok` when every command succeeded, else the
    /// failed commands with their errors, the batch's size, and the real IDs
    /// of what the batch did create.
    pub fn check_response(resp: &CommandResponse) -> (r: Result<(), CommandErrors>)
        ensures
            r is Ok <==> !any_failed(resp.sync_status@),
            r matches Err(e) ==> e.errors_view() == failures(resp.sync_status@) && e.count_view()
                == resp.sync_status@.len() && e.mappings_view() == resp.temp_id_mappings@,
    {
        let mut errors: HashMap<CommandId, CommandError> = HashMap::new();
        let mut failed = false;
        let ghost pairs = resp.sync_status.iter().remaining();
        for entry in it: resp.sync_status.iter()
            invariant
                it.seq() == pairs,
                forall|k: CommandId| #[trigger]
                    errors@.contains_key(k) ==> resp.sync_status@.contains_key(k)
                        && resp.sync_status@[k] == CommandStatus::Error(errors@[k]),
                forall|i: int|
                    0 <= i < it.index() ==> (#[trigger] pairs[i]).1 is Error ==> errors@.contains_key(
                        *pairs[i].0,
                    ),
                failed <==> exists|k: CommandId| #[trigger] errors@.contains_key(k),
        {
            let (k, v) = entry;
            match v {
                CommandStatus::Success(_) => {},
                CommandStatus::Error(e) => {
                    errors.insert(*k, e.clone());
                    assert(errors@.contains_key(*k));
                    failed = true;
                },
            }
        }
        proof {
            assert forall|k: CommandId| #[trigger]
                resp.sync_status@.contains_key(k) && resp.sync_status@[k] is Error implies errors@.contains_key(k) by {
                let pair = (&k, &resp.sync_status@[k]);
                assert(pairs.contains(pair));
                let i = choose|i: int| 0 <= i < pairs.len() && pairs[i] == pair;
                assert(pairs[i].1 is Error);
            }
            assert(errors@ =~= failures(resp.sync_status@));
        }
        if failed {
            Err(
                CommandErrors {
                    errors,
                    command_count: resp.sync_status.len(),
                    temp_id_mappings: resp.temp_id_mappings.clone(),
                },
            )
        } else {
            Ok(())
        }
    }
}

/// The answer to a sync request: the new sync token and, for each kind that
/// was asked for and changed, its records.
#[derive(Debug, Default)]
pub struct SyncResponse {
    pub sync_token: String,
    pub full_sync: bool,
    pub items: Option<Vec<Item>>,
    pub labels: Option<Vec<Label>>,
    pub projects: Option<Vec<Project>>,
    pub collaborators: Option<Vec<Collaborator>>,
    pub notes: Option<Vec<Note>>,
    pub filters: Option<Vec<Filter>>,
    pub live_notifications: Option<Vec<LiveNotification>>,
    pub reminders: Option<Vec<Reminder>>,
    pub user: Option<User>,
}

} // verus!
