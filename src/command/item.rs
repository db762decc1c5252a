//! Commands on items.
use vstd::prelude::*;
use crate::date::{opt_date_text, push_opt_date, Date};
use crate::intbool::IntBool;
use crate::json::{
    ids_text, opt_bool_text, opt_int_text, opt_str_text, pairs_text, push_ids, push_int, push_opt_bool, push_opt_int, push_opt_str, push_pairs,
};
use crate::resource::ID;
use crate::text::decimal_of;

verus! {

/// Creates an item.
#[derive(Debug)]
pub struct Create {
    pub project_id: ID,
    pub content: Option<String>,
    pub date_string: Option<String>,
    pub date_lang: Option<String>,
    pub due_date_utc: Option<Date>,
    pub priority: u8,
    pub indent: u8,
    pub item_order: isize,
    pub day_order: isize,
    pub collapsed: IntBool,
    pub labels: Vec<ID>,
    pub assigned_by_uid: Option<ID>,
    pub auto_reminders: Option<bool>,
    pub auto_parse_labels: Option<bool>,
}

impl Default for Create {
    fn default() -> (r: Create)
        ensures
            r.project_id == 0,
            r.content is None,
            r.date_string is None,
            r.date_lang is None,
            r.due_date_utc is None,
            r.priority == 0,
            r.indent == 0,
            r.item_order == 0,
            r.day_order == 0,
            r.collapsed.0 == 0,
            r.labels@.len() == 0,
            r.assigned_by_uid is None,
            r.auto_reminders is None,
            r.auto_parse_labels is None,
    {
        Create {
            project_id: 0,
            content: None,
            date_string: None,
            date_lang: None,
            due_date_utc: None,
            priority: 0,
            indent: 0,
            item_order: 0,
            day_order: 0,
            collapsed: IntBool(0),
            labels: Vec::new(),
            assigned_by_uid: None,
            auto_reminders: None,
            auto_parse_labels: None,
        }
    }
}

impl Create {
    /// The first members of the JSON object that this is sent as.
    pub open spec fn json_head(self) -> Seq<char> {
        "{\"project_id\":"@ + decimal_of(self.project_id as int)
            + ",\"content\":"@ + opt_str_text(self.content)
            + ",\"date_string\":"@ + opt_str_text(self.date_string)
            + ",\"date_lang\":"@ + opt_str_text(self.date_lang)
            + ",\"due_date_utc\":"@ + opt_date_text(self.due_date_utc)
            + ",\"priority\":"@ + decimal_of(self.priority as int)
            + ",\"indent\":"@ + decimal_of(self.indent as int)
    }

    /// The remaining members of the JSON object, and its end.
    pub open spec fn json_tail(self) -> Seq<char> {
        ",\"item_order\":"@ + decimal_of(self.item_order as int)
            + ",\"day_order\":"@ + decimal_of(self.day_order as int)
            + ",\"collapsed\":"@ + decimal_of(self.collapsed.0 as int)
            + ",\"labels\":"@ + ids_text(self.labels@)
            + ",\"assigned_by_uid\":"@ + opt_int_text(self.assigned_by_uid)
            + ",\"auto_reminders\":"@ + opt_bool_text(self.auto_reminders)
            + ",\"auto_parse_labels\":"@ + opt_bool_text(self.auto_parse_labels)
            + "}"@
    }

    /// The JSON object that this is sent as.
    pub open spec fn json(self) -> Seq<char> {
        self.json_head() + self.json_tail()
    }

    fn write_head(&self, out: &mut String)
        ensures
            final(out)@ == old(out)@ + self.json_head(),
    {
        let ghost start = out@;
        out.append("{\"project_id\":");
        push_int(out, self.project_id as i128);
        out.append(",\"content\":");
        push_opt_str(out, &self.content);
        out.append(",\"date_string\":");
        push_opt_str(out, &self.date_string);
        out.append(",\"date_lang\":");
        push_opt_str(out, &self.date_lang);
        out.append(",\"due_date_utc\":");
        push_opt_date(out, &self.due_date_utc);
        out.append(",\"priority\":");
        push_int(out, self.priority as i128);
        out.append(",\"indent\":");
        push_int(out, self.indent as i128);
        assert(out@ =~= start + self.json_head());
    }

    fn write_tail(&self, out: &mut String)
        ensures
            final(out)@ == old(out)@ + self.json_tail(),
    {
        let ghost start = out@;
        out.append(",\"item_order\":");
        push_int(out, self.item_order as i128);
        out.append(",\"day_order\":");
        push_int(out, self.day_order as i128);
        out.append(",\"collapsed\":");
        push_int(out, self.collapsed.0 as i128);
        out.append(",\"labels\":");
        push_ids(out, &self.labels);
        out.append(",\"assigned_by_uid\":");
        push_opt_int(out, self.assigned_by_uid);
        out.append(",\"auto_reminders\":");
        push_opt_bool(out, self.auto_reminders);
        out.append(",\"auto_parse_labels\":");
        push_opt_bool(out, self.auto_parse_labels);
        out.append("}");
        assert(out@ =~= start + self.json_tail());
    }

    /// Appends the JSON object that this is sent as.
    pub fn write_json(&self, out: &mut String)
        ensures
            final(out)@ == old(out)@ + self.json(),
    {
        let ghost start = out@;
        self.write_head(out);
        self.write_tail(out);
        assert(out@ =~= start + self.json());
    }
}

/// Changes an item.
#[derive(Debug)]
pub struct Update {
    pub id: ID,
    pub content: Option<String>,
    pub date_string: Option<String>,
    pub date_lang: Option<String>,
    pub due_date_utc: Option<Date>,
    pub priority: u8,
    pub indent: u8,
    pub item_order: isize,
    pub day_order: isize,
    pub collapsed: IntBool,
    pub labels: Vec<ID>,
    pub assigned_by_uid: Option<ID>,
    pub responsible_uid: Option<ID>,
}

impl Default for Update {
    fn default() -> (r: Update)
        ensures
            r.id == 0,
            r.content is None,
            r.date_string is None,
            r.date_lang is None,
            r.due_date_utc is None,
            r.priority == 0,
            r.indent == 0,
            r.item_order == 0,
            r.day_order == 0,
            r.collapsed.0 == 0,
            r.labels@.len() == 0,
            r.assigned_by_uid is None,
            r.responsible_uid is None,
    {
        Update {
            id: 0,
            content: None,
            date_string: None,
            date_lang: None,
            due_date_utc: None,
            priority: 0,
            indent: 0,
            item_order: 0,
            day_order: 0,
            collapsed: IntBool(0),
            labels: Vec::new(),
            assigned_by_uid: None,
            responsible_uid: None,
        }
    }
}

impl Update {
    /// The first members of the JSON object that this is sent as.
    pub open spec fn json_head(self) -> Seq<char> {
        "{\"id\":"@ + decimal_of(self.id as int)
            + ",\"content\":"@ + opt_str_text(self.content)
            + ",\"date_string\":"@ + opt_str_text(self.date_string)
            + ",\"date_lang\":"@ + opt_str_text(self.date_lang)
            + ",\"due_date_utc\":"@ + opt_date_text(self.due_date_utc)
            + ",\"priority\":"@ + decimal_of(self.priority as int)
            + ",\"indent\":"@ + decimal_of(self.indent as int)
    }

    /// The remaining members of the JSON object, and its end.
    pub open spec fn json_tail(self) -> Seq<char> {
        ",\"item_order\":"@ + decimal_of(self.item_order as int)
            + ",\"day_order\":"@ + decimal_of(self.day_order as int)
            + ",\"collapsed\":"@ + decimal_of(self.collapsed.0 as int)
            + ",\"labels\":"@ + ids_text(self.labels@)
            + ",\"assigned_by_uid\":"@ + opt_int_text(self.assigned_by_uid)
            + ",\"responsible_uid\":"@ + opt_int_text(self.responsible_uid)
            + "}"@
    }

    /// The JSON object that this is sent as.
    pub open spec fn json(self) -> Seq<char> {
        self.json_head() + self.json_tail()
    }

    fn write_head(&self, out: &mut String)
        ensures
            final(out)@ == old(out)@ + self.json_head(),
    {
        let ghost start = out@;
        out.append("{\"id\":");
        push_int(out, self.id as i128);
        out.append(",\"content\":");
        push_opt_str(out, &self.content);
        out.append(",\"date_string\":");
        push_opt_str(out, &self.date_string);
        out.append(",\"date_lang\":");
        push_opt_str(out, &self.date_lang);
        out.append(",\"due_date_utc\":");
        push_opt_date(out, &self.due_date_utc);
        out.append(",\"priority\":");
        push_int(out, self.priority as i128);
        out.append(",\"indent\":");
        push_int(out, self.indent as i128);
        assert(out@ =~= start + self.json_head());
    }

    fn write_tail(&self, out: &mut String)
        ensures
            final(out)@ == old(out)@ + self.json_tail(),
    {
        let ghost start = out@;
        out.append(",\"item_order\":");
        push_int(out, self.item_order as i128);
        out.append(",\"day_order\":");
        push_int(out, self.day_order as i128);
        out.append(",\"collapsed\":");
        push_int(out, self.collapsed.0 as i128);
        out.append(",\"labels\":");
        push_ids(out, &self.labels);
        out.append(",\"assigned_by_uid\":");
        push_opt_int(out, self.assigned_by_uid);
        out.append(",\"responsible_uid\":");
        push_opt_int(out, self.responsible_uid);
        out.append("}");
        assert(out@ =~= start + self.json_tail());
    }

    /// Appends the JSON object that this is sent as.
    pub fn write_json(&self, out: &mut String)
        ensures
            final(out)@ == old(out)@ + self.json(),
    {
        let ghost start = out@;
        self.write_head(out);
        self.write_tail(out);
        assert(out@ =~= start + self.json());
    }
}

/// Whether no item appears twice among the pairs of a move.
pub open spec fn distinct_items(e: Seq<(ID, ID)>) -> bool {
    forall|i: int, j: int| 0 <= i < j < e.len() ==> e[i].0 != e[j].0
}

/// Moves items to another project: each pair is an item and its new parent,
/// and no item appears twice.
#[derive(Debug)]
pub struct Move {
    project_items: Vec<(ID, ID)>,
    to_project: ID,
}

impl Move {
    #[verifier::type_invariant]
    spec fn inv(self) -> bool {
        distinct_items(self.project_items@)
    }

    /// The pairs of item and new parent, in the order they were added.
    pub closed spec fn entries(self) -> Seq<(ID, ID)> {
        self.project_items@
    }

    /// The project that the items move to.
    pub closed spec fn target_view(self) -> ID {
        self.to_project
    }

    /// The project that the items move to.
    pub fn target(&self) -> (r: ID)
        ensures
            r == self.target_view(),
    {
        self.to_project
    }

    /// The JSON object that this is sent as.
    pub open spec fn json(self) -> Seq<char> {
        "{\"project_items\":"@ + pairs_text(self.entries())
            + ",\"to_project\":"@ + decimal_of(self.target_view() as int)
            + "}"@
    }

    /// A move to a project, of no items yet.
    pub fn new(to_project: ID) -> (r: Move)
        ensures
            r.entries().len() == 0,
            r.target_view() == to_project,
    {
        Move { project_items: Vec::new(), to_project }
    }

    /// Sets the new parent of an item: replaces the item's pair if it has
    /// one, else adds a pair at the end.
    pub fn item(self, item: ID, parent: ID) -> (r: Move)
        ensures
            r.target_view() == self.target_view(),
            distinct_items(r.entries()),
            (exists|i: int| 0 <= i < self.entries().len() && self.entries()[i].0 == item) ==> (exists|i: int|
                0 <= i < self.entries().len() && self.entries()[i].0 == item && r.entries()
                    == self.entries().update(i, (item, parent))),
            !(exists|i: int| 0 <= i < self.entries().len() && self.entries()[i].0 == item) ==> r.entries()
                == self.entries().push((item, parent)),
    {
        proof {
            use_type_invariant(&self);
        }
        let Move { project_items, to_project } = self;
        let mut v = project_items;
        let mut i: usize = 0;
        while i < v.len()
            invariant
                i <= v.len(),
                v@ == self.entries(),
                to_project == self.target_view(),
                distinct_items(v@),
                forall|j: int| 0 <= j < i ==> v@[j].0 != item,
            decreases v.len() - i,
        {
            if v[i].0 == item {
                let ghost before = v@;
                v.set(i, (item, parent));
                assert(v@ == before.update(i as int, (item, parent)));
                return Move { project_items: v, to_project };
            }
            i = i + 1;
        }
        let ghost before = v@;
        v.push((item, parent));
        assert(distinct_items(v@)) by {
            assert forall|a: int, b: int| 0 <= a < b < v@.len() implies v@[a].0 != v@[b].0 by {
                if b < before.len() {
                    assert(before[a].0 != before[b].0);
                }
            }
        }
        Move { project_items: v, to_project }
    }

    /// The pairs of item and new parent, in the order they were added.
    pub fn project_items(&self) -> (r: &Vec<(ID, ID)>)
        ensures
            r@ == self.entries(),
            distinct_items(r@),
    {
        proof {
            use_type_invariant(self);
        }
        &self.project_items
    }

    /// Appends the JSON object that this is sent as.
    pub fn write_json(&self, out: &mut String)
        ensures
            final(out)@ == old(out)@ + self.json(),
    {
        let ghost start = out@;
        out.append("{\"project_items\":");
        push_pairs(out, &self.project_items);
        out.append(",\"to_project\":");
        push_int(out, self.to_project as i128);
        out.append("}");
        assert(out@ =~= start + self.json());
    }
}

/// The records that a `delete` command acts on.
pub type Delete = super::Ids;

/// The records that a `archive` command acts on.
pub type Archive = super::Ids;

/// The records that a `unarchive` command acts on.
pub type Unarchive = super::Ids;

/// The records that a `close` command acts on.
pub type Close = super::Ids;

/// The records that a `complete` command acts on.
pub type Complete = super::Ids;

/// The records that a `uncomplete` command acts on.
pub type Uncomplete = super::Ids;

impl Create {
    /// Sets `project_id`.
    pub fn project_id(self, a: ID) -> (r: Create)
        ensures
            r == (Create { project_id: a, ..self }),
    {
        Create { project_id: a, ..self }
    }

    /// Sets `content`.
    pub fn content(self, a: String) -> (r: Create)
        ensures
            r == (Create { content: Some(a), ..self }),
    {
        Create { content: Some(a), ..self }
    }

    /// Sets `date_string`.
    pub fn date_string(self, a: String) -> (r: Create)
        ensures
            r == (Create { date_string: Some(a), ..self }),
    {
        Create { date_string: Some(a), ..self }
    }

    /// Sets `date_lang`.
    pub fn date_lang(self, a: String) -> (r: Create)
        ensures
            r == (Create { date_lang: Some(a), ..self }),
    {
        Create { date_lang: Some(a), ..self }
    }

    /// Sets `due_date_utc`.
    pub fn due_date_utc(self, a: Date) -> (r: Create)
        ensures
            r == (Create { due_date_utc: Some(a), ..self }),
    {
        Create { due_date_utc: Some(a), ..self }
    }

    /// Sets `priority`.
    pub fn priority(self, a: u8) -> (r: Create)
        ensures
            r == (Create { priority: a, ..self }),
    {
        Create { priority: a, ..self }
    }

    /// Sets `indent`.
    pub fn indent(self, a: u8) -> (r: Create)
        ensures
            r == (Create { indent: a, ..self }),
    {
        Create { indent: a, ..self }
    }

    /// Sets `item_order`.
    pub fn item_order(self, a: isize) -> (r: Create)
        ensures
            r == (Create { item_order: a, ..self }),
    {
        Create { item_order: a, ..self }
    }

    /// Sets `day_order`.
    pub fn day_order(self, a: isize) -> (r: Create)
        ensures
            r == (Create { day_order: a, ..self }),
    {
        Create { day_order: a, ..self }
    }

    /// Sets `collapsed`.
    pub fn collapsed(self, a: IntBool) -> (r: Create)
        ensures
            r == (Create { collapsed: a, ..self }),
    {
        Create { collapsed: a, ..self }
    }

    /// Adds an ID to `labels`.
    pub fn labels(self, a: ID) -> (r: Create)
        ensures
            r.labels@ == self.labels@.push(a),
            r == (Create { labels: r.labels, ..self }),
    {
        let mut v = self.labels;
        v.push(a);
        Create { labels: v, ..self }
    }

    /// Sets `assigned_by_uid`.
    pub fn assigned_by_uid(self, a: ID) -> (r: Create)
        ensures
            r == (Create { assigned_by_uid: Some(a), ..self }),
    {
        Create { assigned_by_uid: Some(a), ..self }
    }

    /// Sets `auto_reminders`.
    pub fn auto_reminders(self, a: bool) -> (r: Create)
        ensures
            r == (Create { auto_reminders: Some(a), ..self }),
    {
        Create { auto_reminders: Some(a), ..self }
    }

    /// Sets `auto_parse_labels`.
    pub fn auto_parse_labels(self, a: bool) -> (r: Create)
        ensures
            r == (Create { auto_parse_labels: Some(a), ..self }),
    {
        Create { auto_parse_labels: Some(a), ..self }
    }
}

impl Update {
    /// Sets `id`.
    pub fn id(self, a: ID) -> (r: Update)
        ensures
            r == (Update { id: a, ..self }),
    {
        Update { id: a, ..self }
    }

    /// Sets `content`.
    pub fn content(self, a: String) -> (r: Update)
        ensures
            r == (Update { content: Some(a), ..self }),
    {
        Update { content: Some(a), ..self }
    }

    /// Sets `date_string`.
    pub fn date_string(self, a: String) -> (r: Update)
        ensures
            r == (Update { date_string: Some(a), ..self }),
    {
        Update { date_string: Some(a), ..self }
    }

    /// Sets `date_lang`.
    pub fn date_lang(self, a: String) -> (r: Update)
        ensures
            r == (Update { date_lang: Some(a), ..self }),
    {
        Update { date_lang: Some(a), ..self }
    }

    /// Sets `due_date_utc`.
    pub fn due_date_utc(self, a: Date) -> (r: Update)
        ensures
            r == (Update { due_date_utc: Some(a), ..self }),
    {
        Update { due_date_utc: Some(a), ..self }
    }

    /// Sets `priority`.
    pub fn priority(self, a: u8) -> (r: Update)
        ensures
            r == (Update { priority: a, ..self }),
    {
        Update { priority: a, ..self }
    }

    /// Sets `indent`.
    pub fn indent(self, a: u8) -> (r: Update)
        ensures
            r == (Update { indent: a, ..self }),
    {
        Update { indent: a, ..self }
    }

    /// Sets `item_order`.
    pub fn item_order(self, a: isize) -> (r: Update)
        ensures
            r == (Update { item_order: a, ..self }),
    {
        Update { item_order: a, ..self }
    }

    /// Sets `day_order`.
    pub fn day_order(self, a: isize) -> (r: Update)
        ensures
            r == (Update { day_order: a, ..self }),
    {
        Update { day_order: a, ..self }
    }

    /// Sets `collapsed`.
    pub fn collapsed(self, a: IntBool) -> (r: Update)
        ensures
            r == (Update { collapsed: a, ..self }),
    {
        Update { collapsed: a, ..self }
    }

    /// Adds an ID to `labels`.
    pub fn labels(self, a: ID) -> (r: Update)
        ensures
            r.labels@ == self.labels@.push(a),
            r == (Update { labels: r.labels, ..self }),
    {
        let mut v = self.labels;
        v.push(a);
        Update { labels: v, ..self }
    }

    /// Sets `assigned_by_uid`.
    pub fn assigned_by_uid(self, a: ID) -> (r: Update)
        ensures
            r == (Update { assigned_by_uid: Some(a), ..self }),
    {
        Update { assigned_by_uid: Some(a), ..self }
    }

    /// Sets `responsible_uid`.
    pub fn responsible_uid(self, a: ID) -> (r: Update)
        ensures
            r == (Update { responsible_uid: Some(a), ..self }),
    {
        Update { responsible_uid: Some(a), ..self }
    }
}

impl Move {
    /// Sets `to_project`.
    pub fn to_project(self, a: ID) -> (r: Move)
        ensures
            r.entries() == self.entries(),
            r.target_view() == a,
    {
        proof {
            use_type_invariant(&self);
        }
        let Move { project_items, to_project: _ } = self;
        Move { project_items, to_project: a }
    }
}

} // verus!
