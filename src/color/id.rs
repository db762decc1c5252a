//! Colors written on the wire as their integer ID.
use vstd::prelude::*;
use super::{Color, UnknownColorErr};

verus! {

/// The wire form of a color: its ID.
pub fn serialize(c: &Color) -> (r: i32)
    ensures
        r == c.id_of(),
{
    c.to_id()
}

/// Reads a color from its wire ID; an ID out of range is an `UnknownColorErr::Id`.
pub fn deserialize(id: i32) -> (r: Result<Color, UnknownColorErr>)
    ensures
        match r {
            Ok(c) => Color::parse_id(id as int) == Ok::<Color, int>(c),
            Err(e) => Color::parse_id(id as int) == Err::<Color, int>(id as int) && e
                == UnknownColorErr::Id(id),
        },
{
    Color::from_id(id)
}

} // verus!
