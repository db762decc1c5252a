use todoist::color;
use todoist::{Color, UnknownColorErr};

const ALL: [Color; 22] = [
    Color::LightGreen,
    Color::LightRed,
    Color::LightOrange,
    Color::LightYellow,
    Color::BlueGrey,
    Color::LightBrown,
    Color::Pink,
    Color::LightGrey,
    Color::Brown,
    Color::Yellow,
    Color::Teal,
    Color::LightBlue,
    Color::Purple,
    Color::Red,
    Color::Orange,
    Color::Green,
    Color::Turquoise,
    Color::DarkTurquoise,
    Color::Blue,
    Color::DarkBlue,
    Color::Black,
    Color::Grey,
];

#[test]
fn color_name_round_trip() {
    for c in ALL.iter() {
        assert_eq!(Color::from_name(c.to_name()).unwrap(), *c);
        assert_eq!(c.to_name().parse::<Color>().unwrap(), *c);
    }
}

#[test]
fn color_hex_round_trip() {
    for c in ALL.iter() {
        assert_eq!(Color::from_hex(c.to_hex()).unwrap(), *c);
    }
    assert!(matches!(Color::from_hex("#FFFFFF"), Err(UnknownColorErr::Name(_))));
}

#[test]
fn color_id_round_trip() {
    for c in ALL.iter() {
        assert_eq!(Color::from_id(c.to_id()).unwrap(), *c);
    }
}

#[test]
fn color_ids_run_from_zero() {
    for (i, c) in ALL.iter().enumerate() {
        assert_eq!(c.to_id(), i as i32);
    }
}

#[test]
fn color_known_values() {
    assert_eq!(Color::LightGreen.to_name(), "light_green");
    assert_eq!(Color::DarkTurquoise.to_name(), "dark_turquoise");
    assert_eq!(Color::Grey.to_id(), 21);
    assert_eq!(Color::Red.to_hex(), "#ac193d");
    assert_eq!(Color::Blue.to_hex(), "#0072c6");
    assert_eq!(Color::from_id(13).unwrap(), Color::Red);
    assert_eq!(Color::default(), Color::LightGreen);
}

#[test]
fn color_unknown_name() {
    match Color::from_name("Light Grey") {
        Err(UnknownColorErr::Name(n)) => assert_eq!(n, "Light Grey"),
        other => panic!("unexpected {:?}", other),
    }
    assert!(matches!(Color::from_name(""), Err(UnknownColorErr::Name(_))));
    assert!("mauve".parse::<Color>().is_err());
}

#[test]
fn color_unknown_id() {
    assert!(matches!(Color::from_id(22), Err(UnknownColorErr::Id(22))));
    assert!(matches!(Color::from_id(-1), Err(UnknownColorErr::Id(-1))));
    assert!(matches!(Color::from_id(i32::MAX), Err(UnknownColorErr::Id(i32::MAX))));
}

#[test]
fn color_wire_forms() {
    assert_eq!(color::id::serialize(&Color::Teal), 10);
    assert_eq!(color::id::deserialize(10).unwrap(), Color::Teal);
    assert!(matches!(color::id::deserialize(99), Err(UnknownColorErr::Id(99))));
    assert_eq!(color::name::serialize(&Color::Teal), "teal");
    assert_eq!(color::name::deserialize("blue_grey").unwrap(), Color::BlueGrey);
    assert!(matches!(color::name::deserialize("BLUE"), Err(UnknownColorErr::Name(_))));
}

#[test]
fn color_error_text() {
    assert_eq!(UnknownColorErr::Name("mauve".to_string()).describe(), "unknown color name \"mauve\"");
    assert_eq!(UnknownColorErr::Id(-4).describe(), "unknown color ID \"-4\" ");
}

#[test]
fn color_from_str_ignores_case_and_spaces() {
    assert_eq!("Light Grey".parse::<Color>().unwrap(), Color::LightGrey);
    assert_eq!("lightgrey".parse::<Color>().unwrap(), Color::LightGrey);
    assert_eq!("LIGHT GREY".parse::<Color>().unwrap(), Color::LightGrey);
    assert_eq!("light_grey".parse::<Color>().unwrap(), Color::LightGrey);
    assert_eq!("DarkTurquoise".parse::<Color>().unwrap(), Color::DarkTurquoise);
    for c in ALL.iter() {
        assert_eq!(format!("{:?}", c).parse::<Color>().unwrap(), *c);
    }
}

#[test]
fn color_from_str_unknown_keeps_text() {
    match "magenta".parse::<Color>() {
        Err(UnknownColorErr::Name(n)) => assert_eq!(n, "magenta"),
        other => panic!("unexpected {:?}", other),
    }
    match "Light  Mauve".parse::<Color>() {
        Err(UnknownColorErr::Name(n)) => assert_eq!(n, "Light  Mauve"),
        other => panic!("unexpected {:?}", other),
    }
}

#[test]
fn color_from_folded_and_squeeze() {
    assert_eq!(Color::from_folded("BLUE GREY"), Some(Color::BlueGrey));
    assert_eq!(Color::from_folded("blue grey"), None);
    assert_eq!(todoist::color::squeeze(" a_b c "), "abc");
    assert_eq!(Color::Grey.to_folded_name(), "GREY");
}
