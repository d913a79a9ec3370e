//! The printer's page and type settings, and the command that applies each.

use vstd::prelude::*;
use vstd::string::StringSliceAdditionalSpecFns;
use vstd::utf8::encode_utf8_decode_utf8;

verus! {

/// The typeface of the printed text.
#[derive(Copy, Clone, Debug, PartialEq, Eq, Structural)]
pub enum TypeFace {
    Draft,
    Roman,
    Serif,
}

/// The pitch of the printed text, in characters per inch.
#[derive(Copy, Clone, Debug, PartialEq, Eq, Structural)]
pub enum FontSize {
    CPI10,
    CPI12,
    CPI15,
}

/// The widest line, in columns, that the printer can be set to.
pub const MAX_COLUMNS: usize = 80;

/// "Set right margin" at column `columns`: `ESC Q n`.
pub open spec fn columns_command(columns: usize) -> Seq<u8> {
    seq![0x1Bu8, 0x51u8, columns as u8]
}

/// "Select letter quality" and, for a letter-quality face, "select typeface";
/// "select draft" alone for the draft face.
pub open spec fn font_command(f: TypeFace) -> Seq<u8> {
    match f {
        TypeFace::Roman => seq![0x1Bu8, 0x78u8, 0x01u8, 0x1Bu8, 0x6Bu8, 0x00u8],
        TypeFace::Serif => seq![0x1Bu8, 0x78u8, 0x01u8, 0x1Bu8, 0x6Bu8, 0x01u8],
        TypeFace::Draft => seq![0x1Bu8, 0x78u8, 0x00u8],
    }
}

/// "Select 10 cpi" (`ESC P`), "select 12 cpi" (`ESC M`) or "select 15 cpi"
/// (`ESC g`).
pub open spec fn font_size_command(f: FontSize) -> Seq<u8> {
    match f {
        FontSize::CPI10 => seq![0x1Bu8, 0x50u8],
        FontSize::CPI12 => seq![0x1Bu8, 0x4Du8],
        FontSize::CPI15 => seq![0x1Bu8, 0x67u8],
    }
}

/// "Select condensed" (`ESC SI`) or "cancel condensed" (`DC2`).
pub open spec fn condensed_command(c: bool) -> Seq<u8> {
    if c {
        seq![0x1Bu8, 0x0Fu8]
    } else {
        seq![0x12u8]
    }
}

/// "Select bold" (`ESC E`) or "cancel bold" (`ESC F`).
pub open spec fn bold_command(b: bool) -> Seq<u8> {
    if b {
        seq![0x1Bu8, 0x45u8]
    } else {
        seq![0x1Bu8, 0x46u8]
    }
}

/// "Turn underline on or off": `ESC - n`.
pub open spec fn underline_command(u: bool) -> Seq<u8> {
    if u {
        seq![0x1Bu8, 0x2Du8, 0x01u8]
    } else {
        seq![0x1Bu8, 0x2Du8, 0x00u8]
    }
}

/// The typeface that the option value `name` asks for, if it names one.
pub open spec fn typeface_named(name: Seq<char>) -> Option<TypeFace> {
    if name == "draft"@ {
        Some(TypeFace::Draft)
    } else if name == "serif"@ {
        Some(TypeFace::Serif)
    } else if name == "roman"@ {
        Some(TypeFace::Roman)
    } else {
        None
    }
}

/// The pitch that the option value `name` asks for, if it names one.
pub open spec fn font_size_named(name: Seq<char>) -> Option<FontSize> {
    if name == "10"@ {
        Some(FontSize::CPI10)
    } else if name == "12"@ {
        Some(FontSize::CPI12)
    } else if name == "15"@ {
        Some(FontSize::CPI15)
    } else {
        None
    }
}

/// Builds the command that sets the line width to `columns` columns.
pub fn set_number_of_columns(columns: usize) -> (epson_command: Vec<u8>)
    requires
        columns <= MAX_COLUMNS,
    ensures
        epson_command@ == columns_command(columns),
{
    let mut epson_command: Vec<u8> = vec![0x1B, 0x51];
    epson_command.push(columns as u8);
    epson_command
}

/// Builds the command that selects the typeface `f`.
pub fn set_font(f: TypeFace) -> (epson_command: Vec<u8>)
    ensures
        epson_command@ == font_command(f),
{
    match f {
        TypeFace::Roman => vec![0x1B, 0x78, 0x01, 0x1B, 0x6B, 0x00],
        TypeFace::Serif => vec![0x1B, 0x78, 0x01, 0x1B, 0x6B, 0x01],
        TypeFace::Draft => vec![0x1B, 0x78, 0x00],
    }
}

/// Builds the command that selects the pitch `f`.
pub fn set_font_size(f: FontSize) -> (epson_command: Vec<u8>)
    ensures
        epson_command@ == font_size_command(f),
{
    match f {
        FontSize::CPI10 => vec![0x1B, 0x50],
        FontSize::CPI12 => vec![0x1B, 0x4D],
        FontSize::CPI15 => vec![0x1B, 0x67],
    }
}

/// Builds the command that turns condensed printing on or off.
pub fn set_condensed(c: bool) -> (epson_command: Vec<u8>)
    ensures
        epson_command@ == condensed_command(c),
{
    if c {
        vec![0x1B, 0x0F]
    } else {
        vec![0x12]
    }
}

/// Builds the command that turns bold printing on or off.
pub fn set_bold(b: bool) -> (epson_command: Vec<u8>)
    ensures
        epson_command@ == bold_command(b),
{
    if b {
        vec![0x1B, 0x45]
    } else {
        vec![0x1B, 0x46]
    }
}

/// Builds the command that turns underlining on or off.
pub fn set_underline(u: bool) -> (epson_command: Vec<u8>)
    ensures
        epson_command@ == underline_command(u),
{
    if u {
        vec![0x1B, 0x2D, 0x01]
    } else {
        vec![0x1B, 0x2D, 0x00]
    }
}

/// Whether two texts consist of the same characters.
fn same_text(a: &str, b: &str) -> (same: bool)
    ensures
        same == (a@ == b@),
{
    let x = a.as_bytes();
    let y = b.as_bytes();
    proof {
        encode_utf8_decode_utf8(a@);
        encode_utf8_decode_utf8(b@);
    }
    if x.len() != y.len() {
        return false;
    }
    let mut i: usize = 0;
    while i < x.len()
        invariant
            i <= x.len(),
            x.len() == y.len(),
            x@ == a.spec_bytes(),
            y@ == b.spec_bytes(),
            forall|j: int| 0 <= j < i ==> x@[j] == y@[j],
        decreases x.len() - i,
    {
        if x[i] != y[i] {
            return false;
        }
        i += 1;
    }
    assert(x@ =~= y@);
    true
}

impl TypeFace {
    /// Reads a typeface from the value of the font option: `draft`, `serif`
    /// or `roman`, and nothing else.
    pub fn from_name(name: &str) -> (face: Option<TypeFace>)
        ensures
            face == typeface_named(name@),
    {
        if same_text(name, "draft") {
            Some(TypeFace::Draft)
        } else if same_text(name, "serif") {
            Some(TypeFace::Serif)
        } else if same_text(name, "roman") {
            Some(TypeFace::Roman)
        } else {
            None
        }
    }
}

impl FontSize {
    /// Reads a pitch from the value of the size option: `10`, `12` or `15`,
    /// and nothing else.
    pub fn from_name(name: &str) -> (size: Option<FontSize>)
        ensures
            size == font_size_named(name@),
    {
        if same_text(name, "10") {
            Some(FontSize::CPI10)
        } else if same_text(name, "12") {
            Some(FontSize::CPI12)
        } else if same_text(name, "15") {
            Some(FontSize::CPI15)
        } else {
            None
        }
    }
}

} // verus!
