//! The closed set of colors that projects, labels and filters can carry.
//!
//! A color has three forms: a small integer ID (the form sent on the wire), a
//! snake_case name and a hex string. The ID and the name can be read back.
use vstd::prelude::*;
use crate::text::{decimal_of, push_decimal, same_text};

pub mod id;
pub mod name;

verus! {

/// The number of defined colors; their IDs run from zero up to one less.
pub const COLOR_COUNT: i32 = 22;

/// Colors organize projects, labels and filters.
#[derive(Debug, Clone, Copy, PartialEq, Eq, Structural)]
pub enum Color {
    LightGreen,
    LightRed,
    LightOrange,
    LightYellow,
    BlueGrey,
    LightBrown,
    Pink,
    LightGrey,
    Brown,
    Yellow,
    Teal,
    LightBlue,
    Purple,
    Red,
    Orange,
    Green,
    Turquoise,
    DarkTurquoise,
    Blue,
    DarkBlue,
    Black,
    Grey,
}

/// A color name or ID that names no color.
#[derive(Debug, Clone)]
pub enum UnknownColorErr {
    Id(i32),
    Name(String),
}

impl Color {
    /// The color's integer ID.
    pub open spec fn id_of(self) -> int {
        match self {
            Color::LightGreen => 0,
            Color::LightRed => 1,
            Color::LightOrange => 2,
            Color::LightYellow => 3,
            Color::BlueGrey => 4,
            Color::LightBrown => 5,
            Color::Pink => 6,
            Color::LightGrey => 7,
            Color::Brown => 8,
            Color::Yellow => 9,
            Color::Teal => 10,
            Color::LightBlue => 11,
            Color::Purple => 12,
            Color::Red => 13,
            Color::Orange => 14,
            Color::Green => 15,
            Color::Turquoise => 16,
            Color::DarkTurquoise => 17,
            Color::Blue => 18,
            Color::DarkBlue => 19,
            Color::Black => 20,
            Color::Grey => 21,
        }
    }

    /// The color with a given ID, for IDs in range.
    pub open spec fn with_id(id: int) -> Color
        recommends
            0 <= id < COLOR_COUNT,
    {
        if id == 0 {
            Color::LightGreen
        }         else if id == 1 {
            Color::LightRed
        }         else if id == 2 {
            Color::LightOrange
        }         else if id == 3 {
            Color::LightYellow
        }         else if id == 4 {
            Color::BlueGrey
        }         else if id == 5 {
            Color::LightBrown
        }         else if id == 6 {
            Color::Pink
        }         else if id == 7 {
            Color::LightGrey
        }         else if id == 8 {
            Color::Brown
        }         else if id == 9 {
            Color::Yellow
        }         else if id == 10 {
            Color::Teal
        }         else if id == 11 {
            Color::LightBlue
        }         else if id == 12 {
            Color::Purple
        }         else if id == 13 {
            Color::Red
        }         else if id == 14 {
            Color::Orange
        }         else if id == 15 {
            Color::Green
        }         else if id == 16 {
            Color::Turquoise
        }         else if id == 17 {
            Color::DarkTurquoise
        }         else if id == 18 {
            Color::Blue
        }         else if id == 19 {
            Color::DarkBlue
        }         else if id == 20 {
            Color::Black
        } else {
            Color::Grey
        }
    }

    /// The color's snake_case name.
    pub open spec fn name_of(self) -> Seq<char> {
        match self {
            Color::LightGreen => "light_green"@,
            Color::LightRed => "light_red"@,
            Color::LightOrange => "light_orange"@,
            Color::LightYellow => "light_yellow"@,
            Color::BlueGrey => "blue_grey"@,
            Color::LightBrown => "light_brown"@,
            Color::Pink => "pink"@,
            Color::LightGrey => "light_grey"@,
            Color::Brown => "brown"@,
            Color::Yellow => "yellow"@,
            Color::Teal => "teal"@,
            Color::LightBlue => "light_blue"@,
            Color::Purple => "purple"@,
            Color::Red => "red"@,
            Color::Orange => "orange"@,
            Color::Green => "green"@,
            Color::Turquoise => "turquoise"@,
            Color::DarkTurquoise => "dark_turquoise"@,
            Color::Blue => "blue"@,
            Color::DarkBlue => "dark_blue"@,
            Color::Black => "black"@,
            Color::Grey => "grey"@,
        }
    }

    /// The color's hex form, `#rrggbb`.
    pub open spec fn hex_of(self) -> Seq<char> {
        match self {
            Color::LightGreen => "#95ef63"@,
            Color::LightRed => "#ff8581"@,
            Color::LightOrange => "#ffc471"@,
            Color::LightYellow => "#f9ec75"@,
            Color::BlueGrey => "#a8c8e4"@,
            Color::LightBrown => "#d2b8a3"@,
            Color::Pink => "#e2a8e4"@,
            Color::LightGrey => "#cccccc"@,
            Color::Brown => "#fb886e"@,
            Color::Yellow => "#ffcc00"@,
            Color::Teal => "#74e8d3"@,
            Color::LightBlue => "#3bd5fb"@,
            Color::Purple => "#dc4fad"@,
            Color::Red => "#ac193d"@,
            Color::Orange => "#d24726"@,
            Color::Green => "#82ba00"@,
            Color::Turquoise => "#03b3b2"@,
            Color::DarkTurquoise => "#008299"@,
            Color::Blue => "#0072c6"@,
            Color::DarkBlue => "#5db2ff"@,
            Color::Black => "#000000"@,
            Color::Grey => "#777777"@,
        }
    }

    /// What reading a name gives: the color of that name, or an error naming it.
    pub open spec fn parse_name(s: Seq<char>) -> Result<Color, Seq<char>> {
        if exists|c: Color| #[trigger] c.name_of() == s {
            Ok(choose|c: Color| #[trigger] c.name_of() == s)
        } else {
            Err(s)
        }
    }

    /// What reading a hex form gives: the color of that form, or an error naming it.
    pub open spec fn parse_hex(s: Seq<char>) -> Result<Color, Seq<char>> {
        if exists|c: Color| #[trigger] c.hex_of() == s {
            Ok(choose|c: Color| #[trigger] c.hex_of() == s)
        } else {
            Err(s)
        }
    }

    /// What reading an ID gives: the color of that ID, or an error naming it.
    pub open spec fn parse_id(id: int) -> Result<Color, int> {
        if 0 <= id < COLOR_COUNT {
            Ok(Color::with_id(id))
        } else {
            Err(id)
        }
    }

    /// The color's integer ID.
    pub fn to_id(&self) -> (r: i32)
        ensures
            r == self.id_of(),
            0 <= r < COLOR_COUNT,
    {
        match self {
            Color::LightGreen => 0,
            Color::LightRed => 1,
            Color::LightOrange => 2,
            Color::LightYellow => 3,
            Color::BlueGrey => 4,
            Color::LightBrown => 5,
            Color::Pink => 6,
            Color::LightGrey => 7,
            Color::Brown => 8,
            Color::Yellow => 9,
            Color::Teal => 10,
            Color::LightBlue => 11,
            Color::Purple => 12,
            Color::Red => 13,
            Color::Orange => 14,
            Color::Green => 15,
            Color::Turquoise => 16,
            Color::DarkTurquoise => 17,
            Color::Blue => 18,
            Color::DarkBlue => 19,
            Color::Black => 20,
            Color::Grey => 21,
        }
    }

    /// The color with the given ID, or `UnknownColorErr::Id` when the ID is out of range.
    pub fn from_id(id: i32) -> (r: Result<Color, UnknownColorErr>)
        ensures
            match r {
                Ok(c) => Color::parse_id(id as int) == Ok::<Color, int>(c),
                Err(e) => Color::parse_id(id as int) == Err::<Color, int>(id as int) && e == UnknownColorErr::Id(id),
            },
    {
        match id {
            0 => Ok(Color::LightGreen),
            1 => Ok(Color::LightRed),
            2 => Ok(Color::LightOrange),
            3 => Ok(Color::LightYellow),
            4 => Ok(Color::BlueGrey),
            5 => Ok(Color::LightBrown),
            6 => Ok(Color::Pink),
            7 => Ok(Color::LightGrey),
            8 => Ok(Color::Brown),
            9 => Ok(Color::Yellow),
            10 => Ok(Color::Teal),
            11 => Ok(Color::LightBlue),
            12 => Ok(Color::Purple),
            13 => Ok(Color::Red),
            14 => Ok(Color::Orange),
            15 => Ok(Color::Green),
            16 => Ok(Color::Turquoise),
            17 => Ok(Color::DarkTurquoise),
            18 => Ok(Color::Blue),
            19 => Ok(Color::DarkBlue),
            20 => Ok(Color::Black),
            21 => Ok(Color::Grey),
            _ => Err(UnknownColorErr::Id(id)),
        }
    }

    /// The color's snake_case name.
    pub fn to_name(&self) -> (r: &'static str)
        ensures
            r@ == self.name_of(),
    {
        match self {
            Color::LightGreen => "light_green",
            Color::LightRed => "light_red",
            Color::LightOrange => "light_orange",
            Color::LightYellow => "light_yellow",
            Color::BlueGrey => "blue_grey",
            Color::LightBrown => "light_brown",
            Color::Pink => "pink",
            Color::LightGrey => "light_grey",
            Color::Brown => "brown",
            Color::Yellow => "yellow",
            Color::Teal => "teal",
            Color::LightBlue => "light_blue",
            Color::Purple => "purple",
            Color::Red => "red",
            Color::Orange => "orange",
            Color::Green => "green",
            Color::Turquoise => "turquoise",
            Color::DarkTurquoise => "dark_turquoise",
            Color::Blue => "blue",
            Color::DarkBlue => "dark_blue",
            Color::Black => "black",
            Color::Grey => "grey",
        }
    }

    /// The color's hex form, `#rrggbb`.
    pub fn to_hex(&self) -> (r: &'static str)
        ensures
            r@ == self.hex_of(),
    {
        match self {
            Color::LightGreen => "#95ef63",
            Color::LightRed => "#ff8581",
            Color::LightOrange => "#ffc471",
            Color::LightYellow => "#f9ec75",
            Color::BlueGrey => "#a8c8e4",
            Color::LightBrown => "#d2b8a3",
            Color::Pink => "#e2a8e4",
            Color::LightGrey => "#cccccc",
            Color::Brown => "#fb886e",
            Color::Yellow => "#ffcc00",
            Color::Teal => "#74e8d3",
            Color::LightBlue => "#3bd5fb",
            Color::Purple => "#dc4fad",
            Color::Red => "#ac193d",
            Color::Orange => "#d24726",
            Color::Green => "#82ba00",
            Color::Turquoise => "#03b3b2",
            Color::DarkTurquoise => "#008299",
            Color::Blue => "#0072c6",
            Color::DarkBlue => "#5db2ff",
            Color::Black => "#000000",
            Color::Grey => "#777777",
        }
    }
    /// The color with the given snake_case name, or `UnknownColorErr::Name`
    /// holding the text when no color has that name.
    pub fn from_name(s: &str) -> (r: Result<Color, UnknownColorErr>)
        ensures
            Color::parse_name(s@) is Ok ==> r == Ok::<Color, UnknownColorErr>(
                Color::parse_name(s@)->Ok_0,
            ),
            Color::parse_name(s@) is Err ==> (r matches Err(UnknownColorErr::Name(n)) && n@ == s@),
    {
        let mut i: i32 = 0;
        while i < COLOR_COUNT
            invariant
                0 <= i <= COLOR_COUNT,
                forall|j: int| 0 <= j < i ==> Color::with_id(j).name_of() != s@,
            decreases COLOR_COUNT - i,
        {
            let c = match Color::from_id(i) {
                Ok(c) => c,
                Err(_) => {
                    return Err(UnknownColorErr::Name(s.to_string()));
                },
            };
            if same_text(c.to_name(), s) {
                proof {
                    lemma_name_round_trip(c);
                }
                return Ok(c);
            }
            i = i + 1;
        }
        proof {
            assert forall|c: Color| #[trigger] c.name_of() != s@ by {
                assert(Color::with_id(c.id_of()) == c);
            }
        }
        Err(UnknownColorErr::Name(s.to_string()))
    }
}

impl Color {
    /// The color with the given hex form (`#rrggbb`, lower case), or
    /// `UnknownColorErr::Name` holding the text when no color has that form.
    pub fn from_hex(s: &str) -> (r: Result<Color, UnknownColorErr>)
        ensures
            Color::parse_hex(s@) is Ok ==> r == Ok::<Color, UnknownColorErr>(
                Color::parse_hex(s@)->Ok_0,
            ),
            Color::parse_hex(s@) is Err ==> (r matches Err(UnknownColorErr::Name(n)) && n@ == s@),
    {
        let mut i: i32 = 0;
        while i < COLOR_COUNT
            invariant
                0 <= i <= COLOR_COUNT,
                forall|j: int| 0 <= j < i ==> Color::with_id(j).hex_of() != s@,
            decreases COLOR_COUNT - i,
        {
            let c = match Color::from_id(i) {
                Ok(c) => c,
                Err(_) => {
                    return Err(UnknownColorErr::Name(s.to_string()));
                },
            };
            if same_text(c.to_hex(), s) {
                proof {
                    lemma_hex_round_trip(c);
                }
                return Ok(c);
            }
            i = i + 1;
        }
        proof {
            assert forall|c: Color| #[trigger] c.hex_of() != s@ by {
                assert(Color::with_id(c.id_of()) == c);
            }
        }
        Err(UnknownColorErr::Name(s.to_string()))
    }
}

impl UnknownColorErr {
    /// The message shown for this error.
    pub open spec fn message(self) -> Seq<char> {
        match self {
            UnknownColorErr::Name(n) => "unknown color name \""@ + n@ + "\""@,
            UnknownColorErr::Id(id) => "unknown color ID \""@ + decimal_of(id as int) + "\" "@,
        }
    }

    /// The message shown for this error.
    pub fn describe(&self) -> (r: String)
        ensures
            r@ == self.message(),
    {
        match self {
            UnknownColorErr::Name(n) => {
                let mut r = String::from_str("unknown color name \"");
                r.append(n.as_str());
                r.append("\"");
                r
            },
            UnknownColorErr::Id(id) => {
                let mut r = String::from_str("unknown color ID \"");
                push_decimal(&mut r, *id as i128);
                r.append("\" ");
                r
            },
        }
    }
}

impl Default for Color {
    fn default() -> (r: Color)
        ensures
            r == Color::LightGreen,
    {
        Color::LightGreen
    }
}

/// What upper-casing a text gives, by Unicode's rules.
pub uninterp spec fn upper_of(s: Seq<char>) -> Seq<char>;

/// Relies on `str::to_uppercase`: the text in upper case. The result depends
/// on the characters alone.
#[verifier::external_body]
fn uppercase(s: &str) -> (r: String)
    ensures
        r@ == upper_of(s@),
{
    s.to_uppercase()
}

/// A text with its spaces and underscores taken out.
pub open spec fn squeezed(s: Seq<char>) -> Seq<char>
    decreases s.len(),
{
    if s.len() == 0 {
        s
    } else if s.last() == ' ' || s.last() == '_' {
        squeezed(s.drop_last())
    } else {
        squeezed(s.drop_last()).push(s.last())
    }
}

/// Takes the spaces and underscores out of a text.
pub fn squeeze(s: &str) -> (r: String)
    ensures
        r@ == squeezed(s@),
{
    let n = s.unicode_len();
    let mut out = String::new();
    let mut i: usize = 0;
    while i < n
        invariant
            n == s@.len(),
            i <= n,
            out@ == squeezed(s@.take(i as int)),
        decreases n - i,
    {
        let c = s.get_char(i);
        proof {
            assert(s@.take(i as int + 1).drop_last() =~= s@.take(i as int));
            assert(s@.take(i as int + 1).last() == c);
        }
        if c != ' ' && c != '_' {
            let one = s.substring_char(i, i + 1);
            assert(one@ =~= seq![c]);
            out.append(one);
        }
        i = i + 1;
    }
    assert(s@.take(n as int) =~= s@);
    out
}

impl Color {
    /// The color's name in upper case, without separators, as read by `from_str`.
    pub open spec fn folded_name_of(self) -> Seq<char> {
        match self {
            Color::LightGreen => "LIGHTGREEN"@,
            Color::LightRed => "LIGHTRED"@,
            Color::LightOrange => "LIGHTORANGE"@,
            Color::LightYellow => "LIGHTYELLOW"@,
            Color::BlueGrey => "BLUEGREY"@,
            Color::LightBrown => "LIGHTBROWN"@,
            Color::Pink => "PINK"@,
            Color::LightGrey => "LIGHTGREY"@,
            Color::Brown => "BROWN"@,
            Color::Yellow => "YELLOW"@,
            Color::Teal => "TEAL"@,
            Color::LightBlue => "LIGHTBLUE"@,
            Color::Purple => "PURPLE"@,
            Color::Red => "RED"@,
            Color::Orange => "ORANGE"@,
            Color::Green => "GREEN"@,
            Color::Turquoise => "TURQUOISE"@,
            Color::DarkTurquoise => "DARKTURQUOISE"@,
            Color::Blue => "BLUE"@,
            Color::DarkBlue => "DARKBLUE"@,
            Color::Black => "BLACK"@,
            Color::Grey => "GREY"@,
        }
    }

    /// The color whose folded name a text is, if any.
    pub open spec fn folded_color(t: Seq<char>) -> Option<Color> {
        if exists|c: Color| #[trigger] c.folded_name_of() == t {
            Some(choose|c: Color| #[trigger] c.folded_name_of() == t)
        } else {
            None
        }
    }

    /// The color's name in upper case, without separators.
    pub fn to_folded_name(&self) -> (r: &'static str)
        ensures
            r@ == self.folded_name_of(),
    {
        match self {
            Color::LightGreen => "LIGHTGREEN",
            Color::LightRed => "LIGHTRED",
            Color::LightOrange => "LIGHTORANGE",
            Color::LightYellow => "LIGHTYELLOW",
            Color::BlueGrey => "BLUEGREY",
            Color::LightBrown => "LIGHTBROWN",
            Color::Pink => "PINK",
            Color::LightGrey => "LIGHTGREY",
            Color::Brown => "BROWN",
            Color::Yellow => "YELLOW",
            Color::Teal => "TEAL",
            Color::LightBlue => "LIGHTBLUE",
            Color::Purple => "PURPLE",
            Color::Red => "RED",
            Color::Orange => "ORANGE",
            Color::Green => "GREEN",
            Color::Turquoise => "TURQUOISE",
            Color::DarkTurquoise => "DARKTURQUOISE",
            Color::Blue => "BLUE",
            Color::DarkBlue => "DARKBLUE",
            Color::Black => "BLACK",
            Color::Grey => "GREY",
        }
    }

    /// The color named by an upper-cased text once its spaces and
    /// underscores are taken out, if any.
    pub fn from_folded(u: &str) -> (r: Option<Color>)
        ensures
            r == Color::folded_color(squeezed(u@)),
    {
        let t = squeeze(u);
        let mut i: i32 = 0;
        while i < COLOR_COUNT
            invariant
                0 <= i <= COLOR_COUNT,
                t@ == squeezed(u@),
                forall|j: int| 0 <= j < i ==> Color::with_id(j).folded_name_of() != t@,
            decreases COLOR_COUNT - i,
        {
            let c = match Color::from_id(i) {
                Ok(c) => c,
                Err(_) => {
                    return None;
                },
            };
            if same_text(c.to_folded_name(), t.as_str()) {
                proof {
                    let d = choose|d: Color| #[trigger] d.folded_name_of() == t@;
                    lemma_folded_name_injective(c, d);
                }
                return Some(c);
            }
            i = i + 1;
        }
        proof {
            assert forall|c: Color| #[trigger] c.folded_name_of() != t@ by {
                assert(Color::with_id(c.id_of()) == c);
            }
        }
        None
    }
}

impl core::str::FromStr for Color {
    type Err = UnknownColorErr;

    /// Reads a color from its name, ignoring case, spaces and underscores:
    /// `"Light Grey"`, `"LIGHTGREY"`, `"light_grey"` and `"LightGrey"` all
    /// name `LightGrey`. Other text gives `UnknownColorErr::Name` holding it.
    fn from_str(s: &str) -> (r: Result<Color, UnknownColorErr>)
        ensures
            Color::folded_color(squeezed(upper_of(s@))) matches Some(c) ==> r == Ok::<
                Color,
                UnknownColorErr,
            >(c),
            Color::folded_color(squeezed(upper_of(s@))) is None ==> (r matches Err(
                UnknownColorErr::Name(n),
            ) && n@ == s@),
    {
        let u = uppercase(s);
        match Color::from_folded(u.as_str()) {
            Some(c) => Ok(c),
            None => Err(UnknownColorErr::Name(s.to_string())),
        }
    }
}

/// Different colors have different folded names.
pub proof fn lemma_folded_name_injective(a: Color, b: Color)
    requires
        a.folded_name_of() == b.folded_name_of(),
    ensures
        a == b,
{
    reveal_strlit("LIGHTGREEN");
    reveal_strlit("LIGHTRED");
    reveal_strlit("LIGHTORANGE");
    reveal_strlit("LIGHTYELLOW");
    reveal_strlit("BLUEGREY");
    reveal_strlit("LIGHTBROWN");
    reveal_strlit("PINK");
    reveal_strlit("LIGHTGREY");
    reveal_strlit("BROWN");
    reveal_strlit("YELLOW");
    reveal_strlit("TEAL");
    reveal_strlit("LIGHTBLUE");
    reveal_strlit("PURPLE");
    reveal_strlit("RED");
    reveal_strlit("ORANGE");
    reveal_strlit("GREEN");
    reveal_strlit("TURQUOISE");
    reveal_strlit("DARKTURQUOISE");
    reveal_strlit("BLUE");
    reveal_strlit("DARKBLUE");
    reveal_strlit("BLACK");
    reveal_strlit("GREY");
    let (x, y) = (a.folded_name_of(), b.folded_name_of());
    assert(x.len() == y.len());
    assert(x[0] == y[0]);
    assert(x[1] == y[1]);
    if x.len() > 5 {
        assert(x[5] == y[5]);
    }
}

/// Reading a color's folded name gives that color back.
pub proof fn lemma_folded_round_trip(c: Color)
    ensures
        Color::folded_color(c.folded_name_of()) == Some(c),
{
    let d = choose|d: Color| #[trigger] d.folded_name_of() == c.folded_name_of();
    lemma_folded_name_injective(c, d);
}

/// Different colors have different names.
pub proof fn lemma_name_injective(a: Color, b: Color)
    requires
        a.name_of() == b.name_of(),
    ensures
        a == b,
{
        reveal_strlit("light_green");
        reveal_strlit("light_red");
        reveal_strlit("light_orange");
        reveal_strlit("light_yellow");
        reveal_strlit("blue_grey");
        reveal_strlit("light_brown");
        reveal_strlit("pink");
        reveal_strlit("light_grey");
        reveal_strlit("brown");
        reveal_strlit("yellow");
        reveal_strlit("teal");
        reveal_strlit("light_blue");
        reveal_strlit("purple");
        reveal_strlit("red");
        reveal_strlit("orange");
        reveal_strlit("green");
        reveal_strlit("turquoise");
        reveal_strlit("dark_turquoise");
        reveal_strlit("blue");
        reveal_strlit("dark_blue");
        reveal_strlit("black");
        reveal_strlit("grey");
    let (x, y) = (a.name_of(), b.name_of());
    assert(x.len() == y.len());
    assert(x[0] == y[0]);
    assert(x[1] == y[1]);
    if x.len() > 6 {
        assert(x[6] == y[6]);
    }
}

/// Reading a color's name gives that color back.
pub proof fn lemma_name_round_trip(c: Color)
    ensures
        Color::parse_name(c.name_of()) == Ok::<Color, Seq<char>>(c),
{
    let d = choose|d: Color| #[trigger] d.name_of() == c.name_of();
    lemma_name_injective(c, d);
}

/// Different colors have different hex forms.
pub proof fn lemma_hex_injective(a: Color, b: Color)
    requires
        a.hex_of() == b.hex_of(),
    ensures
        a == b,
{
    reveal_strlit("#95ef63");
    reveal_strlit("#ff8581");
    reveal_strlit("#ffc471");
    reveal_strlit("#f9ec75");
    reveal_strlit("#a8c8e4");
    reveal_strlit("#d2b8a3");
    reveal_strlit("#e2a8e4");
    reveal_strlit("#cccccc");
    reveal_strlit("#fb886e");
    reveal_strlit("#ffcc00");
    reveal_strlit("#74e8d3");
    reveal_strlit("#3bd5fb");
    reveal_strlit("#dc4fad");
    reveal_strlit("#ac193d");
    reveal_strlit("#d24726");
    reveal_strlit("#82ba00");
    reveal_strlit("#03b3b2");
    reveal_strlit("#008299");
    reveal_strlit("#0072c6");
    reveal_strlit("#5db2ff");
    reveal_strlit("#000000");
    reveal_strlit("#777777");
    let (x, y) = (a.hex_of(), b.hex_of());
    assert(x[1] == y[1]);
    assert(x[2] == y[2]);
    assert(x[3] == y[3]);
    assert(x[4] == y[4]);
}

/// Reading a color's hex form gives that color back.
pub proof fn lemma_hex_round_trip(c: Color)
    ensures
        Color::parse_hex(c.hex_of()) == Ok::<Color, Seq<char>>(c),
{
    let d = choose|d: Color| #[trigger] d.hex_of() == c.hex_of();
    lemma_hex_injective(c, d);
}

/// Reading a color's ID gives that color back.
pub proof fn lemma_id_round_trip(c: Color)
    ensures
        Color::parse_id(c.id_of()) == Ok::<Color, int>(c),
{
}

} // verus!
