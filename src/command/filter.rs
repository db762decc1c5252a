//! Commands on filters.
use vstd::prelude::*;
use crate::color::Color;
use crate::intbool::IntBool;
use crate::json::{json_quoted, push_int, push_str};
use crate::resource::ID;
use crate::text::decimal_of;

verus! {

/// Creates a filter.
#[derive(Debug)]
pub struct Create {
    pub name: String,
    pub query: String,
    pub color: Color,
    pub item_order: isize,
    pub is_favorite: IntBool,
}

impl Default for Create {
    fn default() -> (r: Create)
        ensures
            r.name@ == Seq::<char>::empty(),
            r.query@ == Seq::<char>::empty(),
            r.color == Color::LightGreen,
            r.item_order == 0,
            r.is_favorite.0 == 0,
    {
        Create {
            name: String::new(),
            query: String::new(),
            color: Color::LightGreen,
            item_order: 0,
            is_favorite: IntBool(0),
        }
    }
}

impl Create {
    /// The JSON object that this is sent as.
    pub open spec fn json(self) -> Seq<char> {
        "{\"name\":"@ + json_quoted(self.name@)
            + ",\"query\":"@ + json_quoted(self.query@)
            + ",\"color\":"@ + decimal_of(self.color.id_of())
            + ",\"item_order\":"@ + decimal_of(self.item_order as int)
            + ",\"is_favorite\":"@ + decimal_of(self.is_favorite.0 as int)
            + "}"@
    }

    /// Appends the JSON object that this is sent as.
    pub fn write_json(&self, out: &mut String)
        ensures
            final(out)@ == old(out)@ + self.json(),
    {
        let ghost start = out@;
        out.append("{\"name\":");
        push_str(out, self.name.as_str());
        out.append(",\"query\":");
        push_str(out, self.query.as_str());
        out.append(",\"color\":");
        push_int(out, self.color.to_id() as i128);
        out.append(",\"item_order\":");
        push_int(out, self.item_order as i128);
        out.append(",\"is_favorite\":");
        push_int(out, self.is_favorite.0 as i128);
        out.append("}");
        assert(out@ =~= start + self.json());
    }
}

/// Changes a filter.
#[derive(Debug)]
pub struct Update {
    pub id: ID,
    pub name: String,
    pub query: String,
    pub color: Color,
    pub item_order: isize,
    pub is_favorite: IntBool,
}

impl Default for Update {
    fn default() -> (r: Update)
        ensures
            r.id == 0,
            r.name@ == Seq::<char>::empty(),
            r.query@ == Seq::<char>::empty(),
            r.color == Color::LightGreen,
            r.item_order == 0,
            r.is_favorite.0 == 0,
    {
        Update {
            id: 0,
            name: String::new(),
            query: String::new(),
            color: Color::LightGreen,
            item_order: 0,
            is_favorite: IntBool(0),
        }
    }
}

impl Update {
    /// The JSON object that this is sent as.
    pub open spec fn json(self) -> Seq<char> {
        "{\"id\":"@ + decimal_of(self.id as int)
            + ",\"name\":"@ + json_quoted(self.name@)
            + ",\"query\":"@ + json_quoted(self.query@)
            + ",\"color\":"@ + decimal_of(self.color.id_of())
            + ",\"item_order\":"@ + decimal_of(self.item_order as int)
            + ",\"is_favorite\":"@ + decimal_of(self.is_favorite.0 as int)
            + "}"@
    }

    /// Appends the JSON object that this is sent as.
    pub fn write_json(&self, out: &mut String)
        ensures
            final(out)@ == old(out)@ + self.json(),
    {
        let ghost start = out@;
        out.append("{\"id\":");
        push_int(out, self.id as i128);
        out.append(",\"name\":");
        push_str(out, self.name.as_str());
        out.append(",\"query\":");
        push_str(out, self.query.as_str());
        out.append(",\"color\":");
        push_int(out, self.color.to_id() as i128);
        out.append(",\"item_order\":");
        push_int(out, self.item_order as i128);
        out.append(",\"is_favorite\":");
        push_int(out, self.is_favorite.0 as i128);
        out.append("}");
        assert(out@ =~= start + self.json());
    }
}

/// The records that a `delete` command acts on.
pub type Delete = super::Ids;

impl Create {
    /// Sets `name`.
    pub fn name(self, a: &str) -> (r: Create)
        ensures
            r.name@ == a@,
            r == (Create { name: r.name, ..self }),
    {
        Create { name: a.to_string(), ..self }
    }

    /// Sets `query`.
    pub fn query(self, a: &str) -> (r: Create)
        ensures
            r.query@ == a@,
            r == (Create { query: r.query, ..self }),
    {
        Create { query: a.to_string(), ..self }
    }

    /// Sets `color`.
    pub fn color(self, a: Color) -> (r: Create)
        ensures
            r == (Create { color: a, ..self }),
    {
        Create { color: a, ..self }
    }

    /// Sets `item_order`.
    pub fn item_order(self, a: isize) -> (r: Create)
        ensures
            r == (Create { item_order: a, ..self }),
    {
        Create { item_order: a, ..self }
    }

    /// Sets `is_favorite`.
    pub fn is_favorite(self, a: IntBool) -> (r: Create)
        ensures
            r == (Create { is_favorite: a, ..self }),
    {
        Create { is_favorite: a, ..self }
    }
}

impl Update {
    /// Sets `id`.
    pub fn id(self, a: ID) -> (r: Update)
        ensures
            r == (Update { id: a, ..self }),
    {
        Update { id: a, ..self }
    }

    /// Sets `name`.
    pub fn name(self, a: &str) -> (r: Update)
        ensures
            r.name@ == a@,
            r == (Update { name: r.name, ..self }),
    {
        Update { name: a.to_string(), ..self }
    }

    /// Sets `query`.
    pub fn query(self, a: &str) -> (r: Update)
        ensures
            r.query@ == a@,
            r == (Update { query: r.query, ..self }),
    {
        Update { query: a.to_string(), ..self }
    }

    /// Sets `color`.
    pub fn color(self, a: Color) -> (r: Update)
        ensures
            r == (Update { color: a, ..self }),
    {
        Update { color: a, ..self }
    }

    /// Sets `item_order`.
    pub fn item_order(self, a: isize) -> (r: Update)
        ensures
            r == (Update { item_order: a, ..self }),
    {
        Update { item_order: a, ..self }
    }

    /// Sets `is_favorite`.
    pub fn is_favorite(self, a: IntBool) -> (r: Update)
        ensures
            r == (Update { is_favorite: a, ..self }),
    {
        Update { is_favorite: a, ..self }
    }
}

} // verus!
