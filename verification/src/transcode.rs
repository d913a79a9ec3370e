//! From one Unicode character to its candidates: the byte that stands for it
//! in each character table that has it.
//!
//! Whether a table has a character is asked of the platform, once for each
//! table. The outcome of a lookup is an input like any other here: every rule
//! is a function of the two outcomes and is stated for all of them.

use vstd::prelude::*;
use crate::charset::{CharacterTable, Chmapped};
use crate::lookup::encode_char;

verus! {

/// The character that is printed in place of `ch`.
///
/// Four Ukrainian letters that neither table has are replaced by the letter
/// that looks the same; every other character stands for itself.
pub open spec fn substituted(ch: char) -> char {
    if ch == '\u{0406}' {
        'I'
    } else if ch == '\u{0456}' {
        'i'
    } else if ch == '\u{0490}' {
        '\u{0413}'
    } else if ch == '\u{0491}' {
        '\u{0433}'
    } else {
        ch
    }
}

/// The bytes of a lookup's outcome as a sequence.
pub open spec fn lookup_view(lookup: Option<Vec<u8>>) -> Option<Seq<u8>> {
    match lookup {
        Some(bytes) => Some(bytes@),
        None => None,
    }
}

/// The code of a character whose lookup came out as `lookup`: the single byte
/// of a successful conversion. A lookup that failed gives none, and neither
/// does a conversion of any other length, which is no single-byte
/// representation.
pub open spec fn exact_byte(lookup: Option<Seq<u8>>) -> Option<u8> {
    match lookup {
        Some(bytes) => if bytes.len() == 1 {
            Some(bytes[0])
        } else {
            None
        },
        None => None,
    }
}

/// The code in `table` of a character with the code `in_437` in code page 437
/// and `in_866` in code page 866.
pub open spec fn code_in(
    table: CharacterTable,
    in_437: Option<u8>,
    in_866: Option<u8>,
) -> Option<u8> {
    match table {
        CharacterTable::CP437 => in_437,
        CharacterTable::CP866 => in_866,
    }
}

/// The candidates of a character with the code `in_437` in code page 437 and
/// `in_866` in code page 866.
///
/// Code page 437 comes first where both tables have the character. Where
/// neither has it, the character becomes a space, which is the byte 0x20 in
/// both tables.
pub open spec fn candidates_from(in_437: Option<u8>, in_866: Option<u8>) -> Seq<Chmapped> {
    match (in_437, in_866) {
        (Some(a), Some(b)) => seq![
            Chmapped { code: a, chm: CharacterTable::CP437 },
            Chmapped { code: b, chm: CharacterTable::CP866 },
        ],
        (Some(a), None) => seq![Chmapped { code: a, chm: CharacterTable::CP437 }],
        (None, Some(b)) => seq![Chmapped { code: b, chm: CharacterTable::CP866 }],
        (None, None) => seq![
            Chmapped { code: 0x20u8, chm: CharacterTable::CP866 },
            Chmapped { code: 0x20u8, chm: CharacterTable::CP437 },
        ],
    }
}

/// Replaces a character by the one that is printed in its place.
pub fn substitute(ch: char) -> (mchar: char)
    ensures
        mchar == substituted(ch),
{
    match ch {
        '\u{0406}' => 'I',
        '\u{0456}' => 'i',
        '\u{0490}' => '\u{0413}',
        '\u{0491}' => '\u{0433}',
        _ => ch,
    }
}

/// Assembles a character's candidates from the outcome of its lookup in code
/// page 437 and in code page 866.
pub fn candidates_of(lookup_437: &Option<Vec<u8>>, lookup_866: &Option<Vec<u8>>) -> (rsp: Vec<
    Chmapped,
>)
    ensures
        rsp@ == candidates_from(
            exact_byte(lookup_view(*lookup_437)),
            exact_byte(lookup_view(*lookup_866)),
        ),
        rsp@.len() == 1 || rsp@.len() == 2,
{
    let mut rsp: Vec<Chmapped> = Vec::new();
    match lookup_437 {
        Some(bytes) => {
            if bytes.len() == 1 {
                rsp.push(Chmapped { code: bytes[0], chm: CharacterTable::CP437 });
            }
        },
        None => {},
    }
    match lookup_866 {
        Some(bytes) => {
            if bytes.len() == 1 {
                rsp.push(Chmapped { code: bytes[0], chm: CharacterTable::CP866 });
            }
        },
        None => {},
    }
    if rsp.len() == 0 {
        rsp.push(Chmapped { code: 0x20, chm: CharacterTable::CP866 });
        rsp.push(Chmapped { code: 0x20, chm: CharacterTable::CP437 });
    }
    rsp
}

/// Substitutes `ch` and looks the result up in code page 437 and in code
/// page 866. Nothing is known of the two outcomes.
pub(crate) fn look_up(ch: char) -> (lookups: (Option<Vec<u8>>, Option<Vec<u8>>)) {
    let mchar = substitute(ch);
    let lookup_437 = encode_char(mchar, CharacterTable::CP437.encoding());
    let lookup_866 = encode_char(mchar, CharacterTable::CP866.encoding());
    (lookup_437, lookup_866)
}

/// Transcodes one character: substitutes it, looks it up in both tables, and
/// returns one candidate for each table that has it, or the space in both
/// tables where none has it.
///
/// Whatever the lookups give, the result is the list of candidates that
/// [`candidates_from`] makes of some pair of codes: never empty, code page
/// 437 first where both tables have the character.
pub fn transcode_character(ch: char) -> (rsp: Vec<Chmapped>)
    ensures
        exists|in_437: Option<u8>, in_866: Option<u8>|
            rsp@ == #[trigger] candidates_from(in_437, in_866),
        rsp@.len() == 1 || rsp@.len() == 2,
{
    let (lookup_437, lookup_866) = look_up(ch);
    candidates_of(&lookup_437, &lookup_866)
}

} // verus!
