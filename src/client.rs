//! The client's side of the two requests, and transactions: batches of
//! commands that are sent together and reconciled against the answer.
use vstd::prelude::*;
use crate::command::{batch_json, encode_batch, Command, CommandArgs};
use crate::error::Error;
use crate::protocol::{any_failed, failures, CommandErrors, CommandId, CommandResponse, ResourceType};

verus! {

/// Relies on `uuid::Uuid::new_v4`: a fresh random UUID, as its 128-bit value.
/// Nothing is promised of the value. It panics if the operating system's
/// random source fails, which no precondition can rule out.
#[verifier::external_body]
fn fresh_uuid() -> (r: CommandId) {
    uuid::Uuid::new_v4().as_u128()
}

/// The command IDs and temporary IDs that a list of commands holds, in order.
pub open spec fn staged_ids(cs: Seq<Command>) -> Seq<CommandId>
    decreases cs.len(),
{
    if cs.len() == 0 {
        Seq::empty()
    } else {
        let c = cs.last();
        let before = staged_ids(cs.drop_last()).push(c.uuid);
        match c.temp_id {
            Some(t) => before.push(t),
            None => before,
        }
    }
}

fn contains_id(v: &Vec<CommandId>, x: CommandId) -> (r: bool)
    ensures
        r == v@.contains(x),
{
    let mut i: usize = 0;
    while i < v.len()
        invariant
            i <= v.len(),
            forall|j: int| 0 <= j < i ==> v@[j] != x,
        decreases v.len() - i,
    {
        if v[i] == x {
            return true;
        }
        i = i + 1;
    }
    false
}

/// An ID that is not among `used`: a fresh random one, or, should the draw
/// hit one of them, the smallest value that none of them is.
fn fresh_id(used: &Vec<CommandId>) -> (r: CommandId)
    ensures
        !used@.contains(r),
{
    let c = fresh_uuid();
    if !contains_id(used, c) {
        return c;
    }
    let n = used.len() as u128;
    let mut k: u128 = 0;
    while k <= n
        invariant
            n == used@.len(),
            n <= usize::MAX,
            k <= n + 1,
            forall|j: u128| j < k ==> used@.contains(j),
        decreases n + 1 - k,
    {
        if !contains_id(used, k) {
            return k;
        }
        k = k + 1;
    }
    proof {
        // Every value up to `n` is used, but `used` holds only `n` values.
        let s = used@.map_values(|x: CommandId| x as int);
        let range = vstd::set_lib::set_int_range(0, n + 1);
        assert(range.subset_of(s.to_set())) by {
            assert forall|i: int| #[trigger] range.contains(i) implies s.to_set().contains(i) by {
                assert(used@.contains(i as u128));
                let j = choose|j: int| 0 <= j < used@.len() && used@[j] == i as u128;
                assert(s[j] == i);
            }
        }
        vstd::set_lib::lemma_int_range(0, n + 1);
        s.lemma_cardinality_of_set();
        vstd::seq_lib::seq_to_set_is_finite(s);
        vstd::set_lib::lemma_len_subset(range, s.to_set());
        assert(false);
    }
    0
}

/// The elements of a JSON array of kind names, separated by commas.
pub open spec fn kinds_body(kinds: Seq<ResourceType>) -> Seq<char>
    decreases kinds.len(),
{
    if kinds.len() == 0 {
        Seq::empty()
    } else if kinds.len() == 1 {
        "\""@ + kinds[0].name_of() + "\""@
    } else {
        kinds_body(kinds.drop_last()) + ",\""@ + kinds.last().name_of() + "\""@
    }
}

/// The JSON array of kind names that a sync request asks for.
pub open spec fn kinds_json(kinds: Seq<ResourceType>) -> Seq<char> {
    "["@ + kinds_body(kinds) + "]"@
}

/// The JSON array of kind names that a sync request asks for.
pub fn encode_kinds(kinds: &Vec<ResourceType>) -> (r: String)
    ensures
        r@ == kinds_json(kinds@),
{
    let mut out = String::new();
    out.append("[");
    let mut i: usize = 0;
    while i < kinds.len()
        invariant
            i <= kinds.len(),
            out@ == "["@ + kinds_body(kinds@.take(i as int)),
        decreases kinds.len() - i,
    {
        if i > 0 {
            out.append(",\"");
        } else {
            out.append("\"");
        }
        out.append(kinds[i].wire_name());
        out.append("\"");
        proof {
            let t = kinds@.take(i as int + 1);
            assert(t.drop_last() =~= kinds@.take(i as int));
            assert(t.last() == kinds@[i as int]);
            if i == 0 {
                assert(kinds_body(kinds@.take(0)) =~= Seq::<char>::empty());
            }
            assert(out@ =~= "["@ + kinds_body(t));
        }
        i = i + 1;
    }
    assert(kinds@.take(kinds@.len() as int) =~= kinds@);
    out.append("]");
    assert(out@ =~= kinds_json(kinds@));
    out
}

/// The form fields of a request, as names and values.
pub open spec fn form_view(f: Seq<(String, String)>) -> Seq<(Seq<char>, Seq<char>)> {
    f.map_values(|p: (String, String)| (p.0@, p.1@))
}

/// Holds the API token that requests are made with.
#[derive(Debug)]
pub struct Client {
    token: String,
}

impl Client {
    /// The API token.
    pub closed spec fn token_view(&self) -> Seq<char> {
        self.token@
    }

    /// A client that makes requests with an API token.
    pub fn new(tok: &str) -> (r: Client)
        ensures
            r.token_view() == tok@,
    {
        Client { token: tok.to_string() }
    }

    /// The API token.
    pub fn token(&self) -> (r: &str)
        ensures
            r@ == self.token_view(),
    {
        self.token.as_str()
    }

    /// The form of a sync request: the API token, the sync token (`*` for
    /// everything), and the kinds of record asked for.
    pub fn sync_form(&self, sync_token: &str, what: &Vec<ResourceType>) -> (r: Vec<(String, String)>)
        ensures
            form_view(r@) == seq![
                ("token"@, self.token_view()),
                ("sync_token"@, sync_token@),
                ("resource_types"@, kinds_json(what@)),
            ],
    {
        let r = vec![
            (String::from_str("token"), self.token.clone()),
            (String::from_str("sync_token"), sync_token.to_string()),
            (String::from_str("resource_types"), encode_kinds(what)),
        ];
        assert(form_view(r@) =~= seq![
            ("token"@, self.token_view()),
            ("sync_token"@, sync_token@),
            ("resource_types"@, kinds_json(what@)),
        ]);
        r
    }

    /// The form of a command batch: the API token and the commands, in order.
    pub fn send_form(&self, cmds: &Vec<Command>) -> (r: Vec<(String, String)>)
        ensures
            form_view(r@) == seq![("token"@, self.token_view()), ("commands"@, batch_json(cmds@))],
    {
        let r = vec![
            (String::from_str("token"), self.token.clone()),
            (String::from_str("commands"), encode_batch(cmds)),
        ];
        assert(form_view(r@) =~= seq![("token"@, self.token_view()), ("commands"@, batch_json(cmds@))]);
        r
    }

    /// Opens a transaction on this client. The transaction holds the client
    /// until it is committed, so no other transaction can use it meanwhile.
    pub fn begin(&mut self) -> (r: Transaction<'_>)
        ensures
            r.commands_view().len() == 0,
            staged_ids(r.commands_view()).len() == 0,
            r.token_view() == old(self).token_view(),
    {
        Transaction { commands: Vec::new(), client: self }
    }
}

/// A batch of commands bound to one client, sent in a single request.
pub struct Transaction<'a> {
    commands: Vec<Command>,
    client: &'a mut Client,
}

impl<'a> Transaction<'a> {
    /// The API token of the client that the transaction holds.
    pub closed spec fn token_view(&self) -> Seq<char> {
        self.client.token_view()
    }

    /// The commands staged so far, in the order they will be sent.
    pub closed spec fn commands_view(&self) -> Seq<Command> {
        self.commands@
    }

    /// The commands staged so far, in the order they will be sent.
    pub fn commands(&self) -> (r: &Vec<Command>)
        ensures
            r@ == self.commands_view(),
    {
        &self.commands
    }

    /// The command IDs and temporary IDs of the staged commands, in order.
    pub fn staged(&self) -> (r: Vec<CommandId>)
        ensures
            r@ == staged_ids(self.commands_view()),
    {
        let mut r: Vec<CommandId> = Vec::new();
        let mut i: usize = 0;
        while i < self.commands.len()
            invariant
                i <= self.commands@.len(),
                r@ == staged_ids(self.commands@.take(i as int)),
            decreases self.commands@.len() - i,
        {
            let c = &self.commands[i];
            assert(self.commands@.take(i as int + 1).drop_last() =~= self.commands@.take(i as int));
            r.push(c.uuid);
            match c.temp_id {
                Some(t) => r.push(t),
                None => {},
            }
            i = i + 1;
        }
        assert(self.commands@.take(self.commands@.len() as int) =~= self.commands@);
        r
    }

    /// Stages a command at the end of the batch, with a fresh command ID and,
    /// for a command that creates a record, a fresh temporary ID. Neither is
    /// an ID that the batch already holds, and the two differ.
    pub fn exec(&mut self, args: CommandArgs) -> (r: &mut Self)
        ensures
            r.commands_view().len() == old(self).commands_view().len() + 1,
            r.commands_view().take(old(self).commands_view().len() as int) == old(self).commands_view(),
            r.commands_view().last().args == args,
            r.commands_view().last().temp_id is Some <==> args.creates(),
            !staged_ids(old(self).commands_view()).contains(r.commands_view().last().uuid),
            r.commands_view().last().temp_id matches Some(t) ==> t != r.commands_view().last().uuid
                && !staged_ids(old(self).commands_view()).contains(t),
            staged_ids(old(self).commands_view()).no_duplicates() ==> staged_ids(
                r.commands_view(),
            ).no_duplicates(),
            *final(self) == *final(r),
    {
        let creates = args.is_creation();
        let mut used = self.staged();
        let uuid = fresh_id(&used);
        let ghost ids0 = used@;
        let temp_id = if creates {
            used.push(uuid);
            let t = fresh_id(&used);
            proof {
                assert(used@[ids0.len() as int] == uuid);
                assert forall|x: CommandId| ids0.contains(x) implies used@.contains(x) by {
                    let i = choose|i: int| 0 <= i < ids0.len() && ids0[i] == x;
                    assert(used@[i] == x);
                }
            }
            Some(t)
        } else {
            None
        };
        let ghost before = self.commands@;
        let ghost old_ids = staged_ids(before);
        self.commands.push(Command { args, uuid, temp_id });
        proof {
            assert(self.commands@.take(before.len() as int) =~= before);
            assert(self.commands@.drop_last() =~= before);
            if old_ids.no_duplicates() {
                if creates {
                    assert(old_ids.push(uuid).contains(temp_id.unwrap()) == false);
                }
            }
        }
        self
    }

    /// The form that sends the batch.
    pub fn send_form(&self) -> (r: Vec<(String, String)>)
        ensures
            form_view(r@) == seq![("token"@, self.token_view()), ("commands"@, batch_json(self.commands_view()))],
    {
        self.client.send_form(&self.commands)
    }

    /// Ends the transaction with the server's answer to its batch: the answer
    /// when every command succeeded, else `Error::ApiError` with the failed
    /// commands, the batch's size and the real IDs of what it did create.
    pub fn commit(self, resp: CommandResponse) -> (r: Result<CommandResponse, Error>)
        ensures
            r is Ok <==> !any_failed(resp.sync_status@),
            r matches Ok(x) ==> x == resp,
            r matches Err(e) ==> (e matches Error::ApiError(errs) && errs.errors_view() == failures(
                resp.sync_status@,
            ) && errs.count_view() == resp.sync_status@.len() && errs.mappings_view()
                == resp.temp_id_mappings@),
    {
        match CommandErrors::check_response(&resp) {
            Ok(()) => Ok(resp),
            Err(errs) => Err(Error::ApiError(errs)),
        }
    }
}

} // verus!
