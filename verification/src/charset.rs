//! The character tables the printer can be switched between, and the command
//! that switches it.

use vstd::prelude::*;

verus! {

/// An 8-bit character table of the printer.
#[derive(Copy, Clone, Debug, PartialEq, Eq, Structural)]
pub enum CharacterTable {
    /// Code page 866: Cyrillic.
    CP866,
    /// Code page 437: the printer's power-on table.
    CP437,
}

/// One character as a byte of one table.
#[derive(Copy, Clone, Debug, PartialEq, Eq, Structural)]
pub struct Chmapped {
    /// The character's code in `chm`.
    pub code: u8,
    /// The table in which `code` is to be read.
    pub chm: CharacterTable,
}

impl CharacterTable {
    /// The name under which the conversion library knows this table.
    pub open spec fn encoding_name(self) -> Seq<char> {
        match self {
            CharacterTable::CP437 => "437"@,
            CharacterTable::CP866 => "866"@,
        }
    }

    /// The two parameter bytes that name this table in the selection command.
    pub open spec fn selector(self) -> (u8, u8) {
        match self {
            CharacterTable::CP437 => (1u8, 0u8),
            CharacterTable::CP866 => (14u8, 0u8),
        }
    }

    /// The table that is not this one.
    pub open spec fn other(self) -> CharacterTable {
        match self {
            CharacterTable::CP437 => CharacterTable::CP866,
            CharacterTable::CP866 => CharacterTable::CP437,
        }
    }

    /// The name under which the conversion library knows this table.
    pub fn encoding(self) -> (name: &'static str)
        ensures
            name@ == self.encoding_name(),
    {
        match self {
            CharacterTable::CP437 => "437",
            CharacterTable::CP866 => "866",
        }
    }
}

/// The eight bytes of "assign character table": `ESC ( t 3 0 1 d2 d3`.
pub open spec fn charmap_command(t: CharacterTable) -> Seq<u8> {
    seq![0x1Bu8, 0x28u8, 0x74u8, 0x03u8, 0x00u8, 0x01u8, t.selector().0, t.selector().1]
}

/// Builds the command that makes `t` the printer's active character table.
pub fn select_charmap(t: CharacterTable) -> (epson_command: Vec<u8>)
    ensures
        epson_command@ == charmap_command(t),
{
    let (d2, d3): (u8, u8) = match t {
        CharacterTable::CP437 => (1u8, 0u8),
        CharacterTable::CP866 => (14u8, 0u8),
    };
    let mut epson_command: Vec<u8> = vec![0x1B, 0x28, 0x74, 0x03, 0x00, 0x01];
    epson_command.push(d2);
    epson_command.push(d3);
    epson_command
}

} // verus!
