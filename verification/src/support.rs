//! Support kinds, film kinds, and the derived label and color of a result row.

use vstd::prelude::*;

verus! {

/// Kinds of film record in the catalog.  Only episodic television is
/// distinguished from the rest; the raw column stores it as the integer 1.
#[derive(Debug, PartialEq, Eq, Clone, Copy, Structural)]
pub enum FilmType {
    Television,
}

/// Kinds of support a title is stored on.  The raw column is a bitfield by
/// convention, but only single-bit values occur in the data.
#[derive(Debug, PartialEq, Eq, Clone, Copy, Structural)]
pub enum SupportType {
    Tape,
    Dvd,
    ComputerFile,
    Bluray,
}

/// A raw column value that decodes to no known variant.
#[derive(Debug, PartialEq, Eq, Clone, Copy, Structural)]
pub enum DecodeError {
    UnknownSupportCode(i64),
}

/// The raw column value that marks a film as television.
pub open spec fn television_code() -> i32 {
    1
}

impl FilmType {
    /// The raw column value of this film kind.
    pub open spec fn code_spec(self) -> i32 {
        match self {
            FilmType::Television => television_code(),
        }
    }

    /// Decodes the raw film-kind column; values with no variant map to `None`.
    pub fn from_code(code: i32) -> (r: Option<FilmType>)
        ensures
            r == decoded_film_type(code),
    {
        if code == 1 {
            Some(FilmType::Television)
        } else {
            None
        }
    }
}

/// The film kind a raw column value stands for, if any.
pub open spec fn decoded_film_type(code: i32) -> Option<FilmType> {
    if code == television_code() {
        Some(FilmType::Television)
    } else {
        None
    }
}

/// The support kind a raw column value stands for, if any.
pub open spec fn decoded_support_type(code: i64) -> Option<SupportType> {
    if code == 1 {
        Some(SupportType::Tape)
    } else if code == 2 {
        Some(SupportType::Dvd)
    } else if code == 4 {
        Some(SupportType::ComputerFile)
    } else if code == 8 {
        Some(SupportType::Bluray)
    } else {
        None
    }
}

impl SupportType {
    /// The raw column value of this support kind.
    pub open spec fn code_spec(self) -> i64 {
        match self {
            SupportType::Tape => 1,
            SupportType::Dvd => 2,
            SupportType::ComputerFile => 4,
            SupportType::Bluray => 8,
        }
    }

    /// Decodes the raw support-kind column into the closed variant type,
    /// with an explicit error for unrecognized integer values.
    pub fn from_code(code: i64) -> (r: Result<SupportType, DecodeError>)
        ensures
            match r {
                Ok(s) => decoded_support_type(code) == Some(s),
                Err(e) => {
                    &&& decoded_support_type(code) is None
                    &&& e == DecodeError::UnknownSupportCode(code)
                },
            },
    {
        if code == 1 {
            Ok(SupportType::Tape)
        } else if code == 2 {
            Ok(SupportType::Dvd)
        } else if code == 4 {
            Ok(SupportType::ComputerFile)
        } else if code == 8 {
            Ok(SupportType::Bluray)
        } else {
            Err(DecodeError::UnknownSupportCode(code))
        }
    }
}

/// The one-character label shown beside a result, per support kind.
pub open spec fn support_letter(support_type: SupportType) -> Seq<char> {
    match support_type {
        SupportType::Tape => seq!['C'],
        SupportType::Dvd => seq!['D'],
        SupportType::Bluray => seq!['B'],
        SupportType::ComputerFile => seq!['O'],
    }
}

/// Maps each support kind to its fixed one-character label.
pub fn letter_for_support_type(support_type: SupportType) -> (r: &'static str)
    ensures
        r@ == support_letter(support_type),
{
    match support_type {
        SupportType::Tape => {
            proof {
                reveal_strlit("C");
                assert("C"@ =~= seq!['C']);
            }
            "C"
        },
        SupportType::Dvd => {
            proof {
                reveal_strlit("D");
                assert("D"@ =~= seq!['D']);
            }
            "D"
        },
        SupportType::Bluray => {
            proof {
                reveal_strlit("B");
                assert("B"@ =~= seq!['B']);
            }
            "B"
        },
        SupportType::ComputerFile => {
            proof {
                reveal_strlit("O");
                assert("O"@ =~= seq!['O']);
            }
            "O"
        },
    }
}

/// An RGBA color, one byte per channel.
#[derive(Debug, PartialEq, Eq, Clone, Copy, Structural)]
pub struct Color {
    pub alpha: u8,
    pub red: u8,
    pub green: u8,
    pub blue: u8,
}

/// Light blue: a tape recorded off the air.
pub open spec fn tape_recorded_color() -> Color {
    Color { alpha: 0xFF, red: 0x1A, green: 0xE0, blue: 0xFF }
}

/// Pink: a bought, pre-recorded tape.
pub open spec fn tape_bought_color() -> Color {
    Color { alpha: 0xFF, red: 0xFF, green: 0x1D, blue: 0xFF }
}

/// Light green: a DVD.
pub open spec fn dvd_color() -> Color {
    Color { alpha: 0xFF, red: 0x6D, green: 0xFF, blue: 0x6B }
}

/// Dark blue: a Blu-ray disc.
pub open spec fn bluray_color() -> Color {
    Color { alpha: 0xFF, red: 0x00, green: 0x00, blue: 0x84 }
}

/// Very light orange: a standalone computer file.
pub open spec fn computer_file_color() -> Color {
    Color { alpha: 0xFF, red: 0xFF, green: 0xDC, blue: 0xA8 }
}

/// An origin text marks a tape as recorded when it starts with 'E'
/// ("enregistré") or 'T' ("taped").
pub open spec fn is_taped_origin(origin: Seq<char>) -> bool {
    origin.len() > 0 && (origin[0] == 'E' || origin[0] == 'T')
}

/// The base color of a row, before the on-loan brightening.
pub open spec fn base_support_color(support_type: SupportType, origin: Seq<char>) -> Color {
    match support_type {
        SupportType::Tape => if is_taped_origin(origin) {
            tape_recorded_color()
        } else {
            tape_bought_color()
        },
        SupportType::Dvd => dvd_color(),
        SupportType::Bluray => bluray_color(),
        SupportType::ComputerFile => computer_file_color(),
    }
}

/// One channel scaled up by half, saturating at the channel maximum.
pub open spec fn brightened_channel(c: u8) -> u8 {
    if c >= 171 {
        255u8
    } else {
        (c + c / 2) as u8
    }
}

/// The color scaled up by the fixed brightening factor of one half,
/// channel by channel; the alpha channel is kept.
pub open spec fn brightened(c: Color) -> Color {
    Color {
        alpha: c.alpha,
        red: brightened_channel(c.red),
        green: brightened_channel(c.green),
        blue: brightened_channel(c.blue),
    }
}

/// The color of a row: the base color of its support kind and origin,
/// brightened when the item is on loan.
pub open spec fn support_color(support_type: SupportType, origin: Seq<char>, on_loan: bool) -> Color {
    let base = base_support_color(support_type, origin);
    if on_loan {
        brightened(base)
    } else {
        base
    }
}

fn brighten_channel(c: u8) -> (r: u8)
    ensures
        r == brightened_channel(c),
{
    if c >= 171 {
        255
    } else {
        c + c / 2
    }
}

/// Derives the display color of one result row.
pub fn color_for_support(support_type: SupportType, origin: String, on_loan: bool) -> (c: Color)
    ensures
        c == support_color(support_type, origin@, on_loan),
{
    let base = match support_type {
        SupportType::Tape => {
            let s = origin.as_str();
            let taped = s.unicode_len() > 0 && {
                let first = s.get_char(0);
                first == 'E' || first == 'T'
            };
            if taped {
                Color { alpha: 0xFF, red: 0x1A, green: 0xE0, blue: 0xFF }
            } else {
                Color { alpha: 0xFF, red: 0xFF, green: 0x1D, blue: 0xFF }
            }
        },
        SupportType::Dvd => Color { alpha: 0xFF, red: 0x6D, green: 0xFF, blue: 0x6B },
        SupportType::Bluray => Color { alpha: 0xFF, red: 0x00, green: 0x00, blue: 0x84 },
        SupportType::ComputerFile => Color { alpha: 0xFF, red: 0xFF, green: 0xDC, blue: 0xA8 },
    };
    if on_loan {
        Color {
            alpha: base.alpha,
            red: brighten_channel(base.red),
            green: brighten_channel(base.green),
            blue: brighten_channel(base.blue),
        }
    } else {
        base
    }
}

/// The on-loan color of a row is strictly brighter than the color of the
/// same row off loan, and stays in the same hue family: no channel gets
/// darker, the channel sum strictly grows, and the alpha channel is kept.
pub proof fn lemma_on_loan_strictly_brighter(support_type: SupportType, origin: Seq<char>)
    ensures
        ({
            let plain = support_color(support_type, origin, false);
            let loaned = support_color(support_type, origin, true);
            &&& loaned.alpha == plain.alpha
            &&& loaned.red >= plain.red
            &&& loaned.green >= plain.green
            &&& loaned.blue >= plain.blue
            &&& loaned.red as int + loaned.green as int + loaned.blue as int > plain.red as int
                + plain.green as int + plain.blue as int
        }),
{
}

} // verus!
