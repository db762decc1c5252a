//! Colors written on the wire as their snake_case name.
use vstd::prelude::*;
use super::{Color, UnknownColorErr};

verus! {

/// The wire form of a color: its name.
pub fn serialize(c: &Color) -> (r: &'static str)
    ensures
        r@ == c.name_of(),
{
    c.to_name()
}

/// Reads a color from its wire name; an unknown name is an `UnknownColorErr::Name`.
pub fn deserialize(s: &str) -> (r: Result<Color, UnknownColorErr>)
    ensures
        Color::parse_name(s@) is Ok ==> r == Ok::<Color, UnknownColorErr>(
            Color::parse_name(s@)->Ok_0,
        ),
        Color::parse_name(s@) is Err ==> (r matches Err(UnknownColorErr::Name(n)) && n@ == s@),
{
    Color::from_name(s)
}

} // verus!
