use felix_config::{Colorname, ConfigColor};

const NAMED: [(&str, Colorname); 16] = [
    ("Black", Colorname::Black),
    ("Red", Colorname::Red),
    ("Green", Colorname::Green),
    ("Yellow", Colorname::Yellow),
    ("Blue", Colorname::Blue),
    ("Magenta", Colorname::Magenta),
    ("Cyan", Colorname::Cyan),
    ("White", Colorname::White),
    ("LightBlack", Colorname::LightBlack),
    ("LightRed", Colorname::LightRed),
    ("LightGreen", Colorname::LightGreen),
    ("LightYellow", Colorname::LightYellow),
    ("LightBlue", Colorname::LightBlue),
    ("LightMagenta", Colorname::LightMagenta),
    ("LightCyan", Colorname::LightCyan),
    ("LightWhite", Colorname::LightWhite),
];

#[test]
fn named_colors_are_found_by_name() {
    for (name, color) in NAMED {
        assert_eq!(Colorname::from_name(name), Some(color));
    }
}

#[test]
fn named_colors_have_codes_in_order() {
    for (code, (_, color)) in NAMED.iter().enumerate() {
        assert_eq!(color.ansi_code(), Some(code as u8));
    }
}

#[test]
fn colors_with_a_payload_have_no_code() {
    assert_eq!(Colorname::Rgb(1, 2, 3).ansi_code(), None);
    assert_eq!(Colorname::AnsiValue(7).ansi_code(), None);
}

#[test]
fn other_texts_are_no_color() {
    for text in ["", "red", "RED", "Purple", "Rgb", "AnsiValue", "Light", "LightRed ", " Red"] {
        assert_eq!(Colorname::from_name(text), None);
    }
}

#[test]
fn default_scheme() {
    let scheme = ConfigColor::default();
    assert_eq!(scheme.dir_fg, Colorname::LightCyan);
    assert_eq!(scheme.file_fg, Colorname::LightWhite);
    assert_eq!(scheme.symlink_fg, Colorname::LightYellow);
    assert_eq!(scheme.dirty_fg, Colorname::Red);
}

#[test]
fn variants_do_not_stand_for_each_other() {
    assert_ne!(Colorname::Red, Colorname::AnsiValue(1));
    assert_ne!(Colorname::Black, Colorname::Rgb(0, 0, 0));
    assert_ne!(Colorname::AnsiValue(0), Colorname::Rgb(0, 0, 0));
}
