//! The colors a configuration can name, and the scheme that assigns them.

use crate::text::same_text;
use vstd::prelude::*;

verus! {

/// A color: one of the sixteen named terminal colors, a 24-bit color, or a raw
/// terminal color code. No variant stands for another; how each is drawn is left to
/// the renderer.
#[derive(Debug, Clone, Copy, PartialEq, Eq, Structural)]
pub enum Colorname {
    Black,
    Red,
    Green,
    Yellow,
    Blue,
    Magenta,
    Cyan,
    White,
    LightBlack,
    LightRed,
    LightGreen,
    LightYellow,
    LightBlue,
    LightMagenta,
    LightCyan,
    LightWhite,
    /// Red, green and blue channels.
    Rgb(u8, u8, u8),
    /// A terminal color code, passed through as it is.
    AnsiValue(u8),
}

impl Colorname {
    /// Whether this is one of the sixteen named colors.
    pub open spec fn is_named(self) -> bool {
        !(self is Rgb) && !(self is AnsiValue)
    }

    /// The terminal code of a named color: 0 to 15, in the order in which the names
    /// are declared. The two variants with a payload have none.
    pub open spec fn spec_ansi_code(self) -> Option<u8> {
        match self {
            Colorname::Black => Some(0u8),
            Colorname::Red => Some(1u8),
            Colorname::Green => Some(2u8),
            Colorname::Yellow => Some(3u8),
            Colorname::Blue => Some(4u8),
            Colorname::Magenta => Some(5u8),
            Colorname::Cyan => Some(6u8),
            Colorname::White => Some(7u8),
            Colorname::LightBlack => Some(8u8),
            Colorname::LightRed => Some(9u8),
            Colorname::LightGreen => Some(10u8),
            Colorname::LightYellow => Some(11u8),
            Colorname::LightBlue => Some(12u8),
            Colorname::LightMagenta => Some(13u8),
            Colorname::LightCyan => Some(14u8),
            Colorname::LightWhite => Some(15u8),
            Colorname::Rgb(_, _, _) => None,
            Colorname::AnsiValue(_) => None,
        }
    }

    /// The name of a named color, spelled as its variant; empty for the two variants
    /// with a payload.
    pub open spec fn spec_name(self) -> Seq<char> {
        match self {
            Colorname::Black => "Black"@,
            Colorname::Red => "Red"@,
            Colorname::Green => "Green"@,
            Colorname::Yellow => "Yellow"@,
            Colorname::Blue => "Blue"@,
            Colorname::Magenta => "Magenta"@,
            Colorname::Cyan => "Cyan"@,
            Colorname::White => "White"@,
            Colorname::LightBlack => "LightBlack"@,
            Colorname::LightRed => "LightRed"@,
            Colorname::LightGreen => "LightGreen"@,
            Colorname::LightYellow => "LightYellow"@,
            Colorname::LightBlue => "LightBlue"@,
            Colorname::LightMagenta => "LightMagenta"@,
            Colorname::LightCyan => "LightCyan"@,
            Colorname::LightWhite => "LightWhite"@,
            Colorname::Rgb(_, _, _) => Seq::<char>::empty(),
            Colorname::AnsiValue(_) => Seq::<char>::empty(),
        }
    }

    /// The named color that `name` spells, letters and their case exactly; `None` for
    /// any other text.
    pub open spec fn spec_from_name(name: Seq<char>) -> Option<Colorname> {
        if name == "Black"@ {
            Some(Colorname::Black)
        } else if name == "Red"@ {
            Some(Colorname::Red)
        } else if name == "Green"@ {
            Some(Colorname::Green)
        } else if name == "Yellow"@ {
            Some(Colorname::Yellow)
        } else if name == "Blue"@ {
            Some(Colorname::Blue)
        } else if name == "Magenta"@ {
            Some(Colorname::Magenta)
        } else if name == "Cyan"@ {
            Some(Colorname::Cyan)
        } else if name == "White"@ {
            Some(Colorname::White)
        } else if name == "LightBlack"@ {
            Some(Colorname::LightBlack)
        } else if name == "LightRed"@ {
            Some(Colorname::LightRed)
        } else if name == "LightGreen"@ {
            Some(Colorname::LightGreen)
        } else if name == "LightYellow"@ {
            Some(Colorname::LightYellow)
        } else if name == "LightBlue"@ {
            Some(Colorname::LightBlue)
        } else if name == "LightMagenta"@ {
            Some(Colorname::LightMagenta)
        } else if name == "LightCyan"@ {
            Some(Colorname::LightCyan)
        } else if name == "LightWhite"@ {
            Some(Colorname::LightWhite)
        } else {
            None
        }
    }

    /// The terminal code of a named color.
    pub fn ansi_code(&self) -> (code: Option<u8>)
        ensures
            code == self.spec_ansi_code(),
    {
        match self {
            Colorname::Black => Some(0),
            Colorname::Red => Some(1),
            Colorname::Green => Some(2),
            Colorname::Yellow => Some(3),
            Colorname::Blue => Some(4),
            Colorname::Magenta => Some(5),
            Colorname::Cyan => Some(6),
            Colorname::White => Some(7),
            Colorname::LightBlack => Some(8),
            Colorname::LightRed => Some(9),
            Colorname::LightGreen => Some(10),
            Colorname::LightYellow => Some(11),
            Colorname::LightBlue => Some(12),
            Colorname::LightMagenta => Some(13),
            Colorname::LightCyan => Some(14),
            Colorname::LightWhite => Some(15),
            Colorname::Rgb(_, _, _) => None,
            Colorname::AnsiValue(_) => None,
        }
    }

    /// Looks a color up by its name. The match is exact: `"Red"` is a color, `"red"`
    /// and `"RED"` are not.
    pub fn from_name(name: &str) -> (color: Option<Colorname>)
        ensures
            color == Self::spec_from_name(name@),
    {
        if same_text(name, "Black") {
            Some(Colorname::Black)
        } else if same_text(name, "Red") {
            Some(Colorname::Red)
        } else if same_text(name, "Green") {
            Some(Colorname::Green)
        } else if same_text(name, "Yellow") {
            Some(Colorname::Yellow)
        } else if same_text(name, "Blue") {
            Some(Colorname::Blue)
        } else if same_text(name, "Magenta") {
            Some(Colorname::Magenta)
        } else if same_text(name, "Cyan") {
            Some(Colorname::Cyan)
        } else if same_text(name, "White") {
            Some(Colorname::White)
        } else if same_text(name, "LightBlack") {
            Some(Colorname::LightBlack)
        } else if same_text(name, "LightRed") {
            Some(Colorname::LightRed)
        } else if same_text(name, "LightGreen") {
            Some(Colorname::LightGreen)
        } else if same_text(name, "LightYellow") {
            Some(Colorname::LightYellow)
        } else if same_text(name, "LightBlue") {
            Some(Colorname::LightBlue)
        } else if same_text(name, "LightMagenta") {
            Some(Colorname::LightMagenta)
        } else if same_text(name, "LightCyan") {
            Some(Colorname::LightCyan)
        } else if same_text(name, "LightWhite") {
            Some(Colorname::LightWhite)
        } else {
            None
        }
    }
}

/// Every named color is found again under its own name, and under no other text.
pub proof fn lemma_names_are_exact(color: Colorname, name: Seq<char>)
    ensures
        color.is_named() ==> Colorname::spec_from_name(color.spec_name()) == Some(color),
        Colorname::spec_from_name(name) == Some(color) ==> color.is_named() && name
            == color.spec_name(),
{
    reveal_strlit("Black");
    reveal_strlit("Red");
    reveal_strlit("Green");
    reveal_strlit("Yellow");
    reveal_strlit("Blue");
    reveal_strlit("Magenta");
    reveal_strlit("Cyan");
    reveal_strlit("White");
    reveal_strlit("LightBlack");
    reveal_strlit("LightRed");
    reveal_strlit("LightGreen");
    reveal_strlit("LightYellow");
    reveal_strlit("LightBlue");
    reveal_strlit("LightMagenta");
    reveal_strlit("LightCyan");
    reveal_strlit("LightWhite");
    assert("Black"@.len() == 5 && "Red"@.len() == 3 && "Green"@.len() == 5 && "Yellow"@.len() == 6);
    assert("Blue"@.len() == 4 && "Magenta"@.len() == 7 && "Cyan"@.len() == 4 && "White"@.len() == 5);
    assert("LightBlack"@.len() == 10 && "LightRed"@.len() == 8 && "LightGreen"@.len() == 10);
    assert("LightYellow"@.len() == 11 && "LightBlue"@.len() == 9 && "LightMagenta"@.len() == 12);
    assert("LightCyan"@.len() == 9 && "LightWhite"@.len() == 10);
    // Names of one length differ in their first letter, or in the first after "Light".
    assert("Black"@[0] == 'B' && "Green"@[0] == 'G' && "White"@[0] == 'W');
    assert("Blue"@[0] == 'B' && "Cyan"@[0] == 'C');
    assert("LightBlack"@[5] == 'B' && "LightGreen"@[5] == 'G' && "LightWhite"@[5] == 'W');
    assert("LightBlue"@[5] == 'B' && "LightCyan"@[5] == 'C');
}

/// The codes of the named colors are the numbers 0 to 15, each used once.
pub proof fn lemma_codes_are_exact(a: Colorname, b: Colorname)
    ensures
        a.is_named() <==> a.spec_ansi_code() is Some,
        a.spec_ansi_code() matches Some(code) ==> code <= 15,
        a.is_named() && a.spec_ansi_code() == b.spec_ansi_code() ==> a == b,
{
}

/// The four colors of a scheme, one for each kind of entry.
#[derive(Debug, Clone, Copy, PartialEq, Eq, Structural)]
pub struct ConfigColor {
    /// Directories.
    pub dir_fg: Colorname,
    /// Regular files.
    pub file_fg: Colorname,
    /// Symbolic links.
    pub symlink_fg: Colorname,
    /// The mark on entries that were modified.
    pub dirty_fg: Colorname,
}

impl ConfigColor {
    /// The built-in scheme: light cyan directories, light white files, light yellow
    /// links, a red modification mark.
    pub open spec fn spec_default() -> ConfigColor {
        ConfigColor {
            dir_fg: Colorname::LightCyan,
            file_fg: Colorname::LightWhite,
            symlink_fg: Colorname::LightYellow,
            dirty_fg: Colorname::Red,
        }
    }
}

impl Default for ConfigColor {
    fn default() -> (scheme: Self)
        ensures
            scheme == ConfigColor::spec_default(),
    {
        ConfigColor {
            dir_fg: Colorname::LightCyan,
            file_fg: Colorname::LightWhite,
            symlink_fg: Colorname::LightYellow,
            dirty_fg: Colorname::Red,
        }
    }
}

} // verus!
