//! The printer's state and the decision made for every character: print it in
//! the active character table, or switch tables first.

use vstd::prelude::*;
use crate::charset::{charmap_command, select_charmap, CharacterTable, Chmapped};
use crate::style::{
    bold_command, columns_command, condensed_command, font_command, font_size_command, set_bold,
    set_condensed, set_font, set_font_size, set_number_of_columns, set_underline,
    underline_command, FontSize, TypeFace, MAX_COLUMNS,
};
use crate::laws::{
    lemma_output_determined, lemma_process_by_candidates, lemma_text_output_length,
};
use crate::transcode::{candidates_of, code_in, exact_byte, look_up, lookup_view};

verus! {

/// What is known of the printer: the character table that is active on it,
/// and the settings of the page and the type.
#[derive(Copy, Clone, Debug, PartialEq, Eq, Structural)]
pub struct PrinterState {
    /// The table that the last selection command named; the printer's
    /// power-on table before the first one.
    pub codepage: CharacterTable,
    /// The line width in columns, at most [`MAX_COLUMNS`].
    pub columns: usize,
    /// The typeface of the text.
    pub typeface: TypeFace,
    /// The pitch of the text.
    pub fontsize: FontSize,
    /// Whether the text is printed condensed.
    pub condensed: bool,
    /// Whether the text is printed bold.
    pub bold: bool,
    /// Whether the text is underlined.
    pub underline: bool,
}

/// A consumer of text that writes what it makes of each character to a sink
/// of bytes.
pub trait Process {
    /// Consumes the character `c`. Bytes are only ever added at the end of
    /// `out`.
    fn process(&mut self, c: char, out: &mut Vec<u8>)
        ensures
            old(out)@.is_prefix_of(final(out)@),
    ;
}

/// The last of `candidates` that belongs to the table `active`.
pub open spec fn last_match(active: CharacterTable, candidates: Seq<Chmapped>) -> Option<Chmapped>
    decreases candidates.len(),
{
    if candidates.len() == 0 {
        None
    } else if candidates.last().chm == active {
        Some(candidates.last())
    } else {
        last_match(active, candidates.drop_last())
    }
}

/// Whether the printer has to leave the table `active` to print a character
/// with these candidates: none of them belongs to `active`.
pub open spec fn switch_needed(active: CharacterTable, candidates: Seq<Chmapped>) -> bool {
    last_match(active, candidates) is None
}

/// The candidate that is printed: the one of the active table, or the first
/// candidate where a switch is needed.
pub open spec fn chosen(active: CharacterTable, candidates: Seq<Chmapped>) -> Chmapped {
    match last_match(active, candidates) {
        Some(m) => m,
        None => candidates[0],
    }
}

/// The table that is active once a character with these candidates is
/// printed.
pub open spec fn table_after(active: CharacterTable, candidates: Seq<Chmapped>) -> CharacterTable {
    chosen(active, candidates).chm
}

/// The bytes that print a character with these candidates: the selection
/// command of the new table where a switch is needed, then the one byte of
/// the chosen candidate.
pub open spec fn emitted(active: CharacterTable, candidates: Seq<Chmapped>) -> Seq<u8> {
    if switch_needed(active, candidates) {
        charmap_command(candidates[0].chm).push(candidates[0].code)
    } else {
        seq![chosen(active, candidates).code]
    }
}

/// The commands that put the printer's type settings back to their defaults:
/// not condensed, not bold, not underlined, draft, 10 characters per inch.
pub open spec fn reset_sequence() -> Seq<u8> {
    condensed_command(false) + bold_command(false) + underline_command(false) + font_command(
        TypeFace::Draft,
    ) + font_size_command(FontSize::CPI10)
}

impl PrinterState {
    /// Whether the settings are ones the printer can be given.
    pub open spec fn wf(self) -> bool {
        self.columns <= MAX_COLUMNS
    }

    /// This state with `table` as the active character table.
    pub open spec fn with_table(self, table: CharacterTable) -> PrinterState {
        PrinterState { codepage: table, ..self }
    }

    /// The bytes that are written in this state for a character with the code
    /// `in_437` in code page 437 and `in_866` in code page 866.
    ///
    /// A character that the active table has is its code in that table. One
    /// that only the other table has is the command that selects the other
    /// table, then its code there. One that neither has is a space.
    pub open spec fn output_for(self, in_437: Option<u8>, in_866: Option<u8>) -> Seq<u8> {
        match code_in(self.codepage, in_437, in_866) {
            Some(code) => seq![code],
            None => match code_in(self.codepage.other(), in_437, in_866) {
                Some(code) => charmap_command(self.codepage.other()).push(code),
                None => seq![0x20u8],
            },
        }
    }

    /// The state after a character with the code `in_437` in code page 437 and
    /// `in_866` in code page 866: the other table is active where the
    /// character has a code in the other table only, and nothing has changed
    /// where not.
    pub open spec fn after(self, in_437: Option<u8>, in_866: Option<u8>) -> PrinterState {
        if code_in(self.codepage, in_437, in_866) is None && code_in(
            self.codepage.other(),
            in_437,
            in_866,
        ) is Some {
            self.with_table(self.codepage.other())
        } else {
            self
        }
    }

    /// The bytes written for a text whose characters have the codes `codes`,
    /// each a pair of the code in code page 437 and the code in code page
    /// 866, processed one after the other from this state on.
    pub open spec fn output_for_all(self, codes: Seq<(Option<u8>, Option<u8>)>) -> Seq<u8>
        decreases codes.len(),
    {
        if codes.len() == 0 {
            Seq::empty()
        } else {
            self.output_for_all(codes.drop_last()) + self.after_all(codes.drop_last()).output_for(
                codes.last().0,
                codes.last().1,
            )
        }
    }

    /// The state after a text whose characters have the codes `codes`,
    /// processed one after the other from this state on.
    pub open spec fn after_all(self, codes: Seq<(Option<u8>, Option<u8>)>) -> PrinterState
        decreases codes.len(),
    {
        if codes.len() == 0 {
            self
        } else {
            self.after_all(codes.drop_last()).after(codes.last().0, codes.last().1)
        }
    }

    /// The commands that are sent before any text: the reset of the type
    /// settings, then the line width, the typeface, the pitch, and the
    /// condensed, bold and underline modes of this state.
    pub open spec fn setup_sequence(self) -> Seq<u8> {
        reset_sequence() + columns_command(self.columns) + font_command(self.typeface)
            + font_size_command(self.fontsize) + condensed_command(self.condensed) + bold_command(
            self.bold,
        ) + underline_command(self.underline)
    }

    /// The state at the start of a stream: `codepage` is the table that is
    /// active on the printer, the line is 75 columns wide, and the type is
    /// plain draft at 10 characters per inch.
    pub fn new(codepage: CharacterTable) -> (state: PrinterState)
        ensures
            state == (PrinterState {
                codepage,
                columns: 75,
                typeface: TypeFace::Draft,
                fontsize: FontSize::CPI10,
                condensed: false,
                bold: false,
                underline: false,
            }),
            state.wf(),
    {
        PrinterState {
            codepage,
            columns: 75,
            typeface: TypeFace::Draft,
            fontsize: FontSize::CPI10,
            condensed: false,
            bold: false,
            underline: false,
        }
    }

    /// Builds the commands that bring the printer to this state's settings,
    /// to be sent once before any text. The active character table is not
    /// selected: it is the table the printer is in already.
    pub fn setup_commands(&self) -> (commands: Vec<u8>)
        requires
            self.wf(),
        ensures
            commands@ == self.setup_sequence(),
    {
        let mut commands = set_condensed(false);
        let mut next = set_bold(false);
        commands.append(&mut next);
        next = set_underline(false);
        commands.append(&mut next);
        next = set_font(TypeFace::Draft);
        commands.append(&mut next);
        next = set_font_size(FontSize::CPI10);
        commands.append(&mut next);
        next = set_number_of_columns(self.columns);
        commands.append(&mut next);
        next = set_font(self.typeface);
        commands.append(&mut next);
        next = set_font_size(self.fontsize);
        commands.append(&mut next);
        next = set_condensed(self.condensed);
        commands.append(&mut next);
        next = set_bold(self.bold);
        commands.append(&mut next);
        next = set_underline(self.underline);
        commands.append(&mut next);
        commands
    }

    /// Prints one character, given its candidates `chm`.
    ///
    /// A candidate of the active table is printed as it is. Where there is
    /// none, the first candidate is printed: the command that selects its
    /// table is written, the table becomes the active one, and the
    /// candidate's byte follows.
    pub fn emit(&mut self, chm: &Vec<Chmapped>, out: &mut Vec<u8>)
        requires
            chm@.len() >= 1,
        ensures
            *final(self) == old(self).with_table(table_after(old(self).codepage, chm@)),
            final(out)@ == old(out)@ + emitted(old(self).codepage, chm@),
    {
        let mut need_switch_coding = true;
        let mut symbol: u8 = chm[0].code;
        let mut i: usize = 0;
        while i < chm.len()
            invariant
                i <= chm.len(),
                chm@.len() >= 1,
                *self == *old(self),
                *out == *old(out),
                need_switch_coding == switch_needed(self.codepage, chm@.take(i as int)),
                need_switch_coding ==> symbol == chm@[0].code,
                !need_switch_coding ==> chosen(self.codepage, chm@.take(i as int)) == (Chmapped {
                    code: symbol,
                    chm: self.codepage,
                }),
            decreases chm.len() - i,
        {
            let m = chm[i];
            assert(chm@.take(i + 1).drop_last() == chm@.take(i as int));
            if m.chm == self.codepage {
                need_switch_coding = false;
                symbol = m.code;
            }
            i += 1;
        }
        assert(chm@.take(i as int) == chm@);
        if need_switch_coding {
            let table = chm[0].chm;
            let mut epson_command = select_charmap(table);
            out.append(&mut epson_command);
            self.codepage = table;
        }
        out.push(symbol);
    }

    /// Prints one character, given the outcome of its lookup in code page 437
    /// and in code page 866: all that is done for a character once the two
    /// lookups have returned.
    pub fn process_lookups(
        &mut self,
        lookup_437: &Option<Vec<u8>>,
        lookup_866: &Option<Vec<u8>>,
        out: &mut Vec<u8>,
    )
        ensures
            *final(self) == old(self).after(
                exact_byte(lookup_view(*lookup_437)),
                exact_byte(lookup_view(*lookup_866)),
            ),
            final(out)@ == old(out)@ + old(self).output_for(
                exact_byte(lookup_view(*lookup_437)),
                exact_byte(lookup_view(*lookup_866)),
            ),
    {
        let chm = candidates_of(lookup_437, lookup_866);
        proof {
            lemma_process_by_candidates(
                *self,
                exact_byte(lookup_view(*lookup_437)),
                exact_byte(lookup_view(*lookup_866)),
            );
        }
        self.emit(&chm, out);
    }

    /// Processes the characters of `text` in their order.
    ///
    /// Whatever the lookups give, the bytes written and the state left are
    /// those of some sequence of codes, one pair for each character.
    pub fn process_text(&mut self, text: &str, out: &mut Vec<u8>)
        ensures
            exists|codes: Seq<(Option<u8>, Option<u8>)>|
                codes.len() == text@.len() && *final(self) == old(self).after_all(codes)
                    && final(out)@ == old(out)@ + #[trigger] old(self).output_for_all(codes),
            *final(self) == old(self).with_table(final(self).codepage),
            old(out)@.is_prefix_of(final(out)@),
            text@.len() <= final(out)@.len() - old(out)@.len() <= 9 * text@.len(),
    {
        let ghost mut codes: Seq<(Option<u8>, Option<u8>)> = Seq::empty();
        for c in it: text.chars()
            invariant
                it.seq() == text@,
                codes.len() == it.index(),
                *self == old(self).after_all(codes),
                out@ == old(out)@ + old(self).output_for_all(codes),
        {
            let ghost before = *self;
            let ghost written = out@;
            self.process(c, out);
            proof {
                let (in_437, in_866) = choose|in_437: Option<u8>, in_866: Option<u8>|
                    *self == before.after(in_437, in_866) && out@ == written
                        + #[trigger] before.output_for(in_437, in_866);
                let longer = codes.push((in_437, in_866));
                assert(longer.drop_last() == codes);
                codes = longer;
            }
        }
        proof {
            lemma_text_output_length(*old(self), codes);
            lemma_output_determined(*old(self), *old(self), codes);
        }
    }
}

impl Process for PrinterState {
    /// Prints the character `c`: at most one command that selects a
    /// character table, then exactly one byte for the character.
    ///
    /// Whatever the lookups give, the bytes written and the state left are
    /// those of some pair of codes. A command is written exactly when the
    /// active table changes, and it selects the table that is active
    /// afterwards.
    fn process(&mut self, c: char, out: &mut Vec<u8>)
        ensures
            exists|in_437: Option<u8>, in_866: Option<u8>|
                *final(self) == old(self).after(in_437, in_866) && final(out)@ == old(out)@
                    + #[trigger] old(self).output_for(in_437, in_866),
            *final(self) == old(self).with_table(final(self).codepage),
            final(out)@.len() == old(out)@.len() + if final(self).codepage != old(
                self,
            ).codepage {
                9nat
            } else {
                1nat
            },
            final(self).codepage != old(self).codepage ==> final(out)@.subrange(
                old(out)@.len() as int,
                old(out)@.len() as int + 8,
            ) == charmap_command(final(self).codepage),
    {
        let (lookup_437, lookup_866) = look_up(c);
        self.process_lookups(&lookup_437, &lookup_866, out);
    }
}

} // verus!
