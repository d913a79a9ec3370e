//! What holds of every state and of every outcome of the lookups.
//!
//! A character enters these laws as the pair of its codes: the code that the
//! lookup in code page 437 gave for it and the code that the lookup in code
//! page 866 gave, each possibly none.

use vstd::prelude::*;
use crate::charset::{charmap_command, CharacterTable, Chmapped};
use crate::printer::{chosen, emitted, last_match, switch_needed, table_after, PrinterState};
use crate::transcode::{candidates_from, code_in, substituted};

verus! {

/// A switch is needed exactly when no candidate belongs to the active table;
/// and a candidate that is found belongs to the active table and is one of
/// the candidates.
pub proof fn lemma_match_is_of_active_table(active: CharacterTable, candidates: Seq<Chmapped>)
    ensures
        switch_needed(active, candidates) <==> forall|i: int|
            0 <= i < candidates.len() ==> (#[trigger] candidates[i]).chm != active,
        last_match(active, candidates) matches Some(m) ==> m.chm == active && candidates.contains(
            m,
        ),
    decreases candidates.len(),
{
    if candidates.len() > 0 {
        let front = candidates.drop_last();
        lemma_match_is_of_active_table(active, front);
        assert forall|i: int| 0 <= i < front.len() implies front[i] == candidates[i] by {}
    }
}

/// Every pair of codes gives a candidate, and never more than one for each
/// table: a character that no table has is printed as a space.
pub proof fn lemma_candidates_total(in_437: Option<u8>, in_866: Option<u8>)
    ensures
        candidates_from(in_437, in_866).len() == 1 || candidates_from(in_437, in_866).len() == 2,
        in_437 is None && in_866 is None ==> candidates_from(in_437, in_866) == seq![
            Chmapped { code: 0x20u8, chm: CharacterTable::CP866 },
            Chmapped { code: 0x20u8, chm: CharacterTable::CP437 },
        ],
{
}

/// A candidate is listed for a table exactly when the character has a code
/// in that table or in neither, and then with that code, or 0x20.
pub proof fn lemma_candidate_of_table(
    in_437: Option<u8>,
    in_866: Option<u8>,
    table: CharacterTable,
)
    ensures
        last_match(table, candidates_from(in_437, in_866)) == match code_in(
            table,
            in_437,
            in_866,
        ) {
            Some(code) => Some(Chmapped { code, chm: table }),
            None => if code_in(table.other(), in_437, in_866) is None {
                Some(Chmapped { code: 0x20u8, chm: table })
            } else {
                None
            },
        },
{
    reveal_with_fuel(last_match, 3);
}

/// Code page 437 has precedence: it is the table of the first candidate of
/// every character that it has.
pub proof fn lemma_cp437_comes_first(in_437: Option<u8>, in_866: Option<u8>)
    requires
        in_437 is Some,
    ensures
        candidates_from(in_437, in_866)[0] == (Chmapped {
            code: in_437->0,
            chm: CharacterTable::CP437,
        }),
{
}

/// Substituting once is enough: the replacement of a character is replaced by
/// nothing else.
pub proof fn lemma_substitution_settles(ch: char)
    ensures
        substituted(substituted(ch)) == substituted(ch),
{
}

/// For one character at most one selection command is written, and exactly
/// one byte for the character follows it: the output is either that byte
/// alone, or the eight bytes of the command that selects the new table and
/// then that byte.
pub proof fn lemma_one_switch_at_most(active: CharacterTable, candidates: Seq<Chmapped>)
    requires
        candidates.len() >= 1,
    ensures
        emitted(active, candidates) == if switch_needed(active, candidates) {
            charmap_command(table_after(active, candidates)) + seq![
                chosen(active, candidates).code,
            ]
        } else {
            seq![chosen(active, candidates).code]
        },
        emitted(active, candidates).len() == if switch_needed(active, candidates) {
            9nat
        } else {
            1nat
        },
        candidates.contains(chosen(active, candidates)),
{
    lemma_match_is_of_active_table(active, candidates);
}

/// Where no candidate belongs to the active table, the printer is switched to
/// the table of the first candidate, whichever candidates follow it.
pub proof fn lemma_switch_goes_to_first(active: CharacterTable, candidates: Seq<Chmapped>)
    requires
        candidates.len() >= 1,
        forall|i: int| 0 <= i < candidates.len() ==> (#[trigger] candidates[i]).chm != active,
    ensures
        switch_needed(active, candidates),
        table_after(active, candidates) == candidates[0].chm,
        emitted(active, candidates) == charmap_command(candidates[0].chm) + seq![
            candidates[0].code,
        ],
{
    lemma_match_is_of_active_table(active, candidates);
}

/// The active table follows the selection commands: it changes exactly when a
/// selection command is written, and then to the table that the command
/// names. A selection command never names the table that is active already.
pub proof fn lemma_table_follows_commands(active: CharacterTable, candidates: Seq<Chmapped>)
    requires
        candidates.len() >= 1,
    ensures
        switch_needed(active, candidates) <==> table_after(active, candidates) != active,
        switch_needed(active, candidates) ==> emitted(active, candidates).subrange(0, 8)
            == charmap_command(table_after(active, candidates)),
{
    lemma_match_is_of_active_table(active, candidates);
}

/// What is decided from a character's candidates is what its codes in the two
/// tables call for: printing the candidates made of `in_437` and `in_866`
/// from the table of `state` writes `state.output_for(in_437, in_866)` and
/// leaves `state.after(in_437, in_866)`.
pub proof fn lemma_process_by_candidates(
    state: PrinterState,
    in_437: Option<u8>,
    in_866: Option<u8>,
)
    ensures
        emitted(state.codepage, candidates_from(in_437, in_866)) == state.output_for(
            in_437,
            in_866,
        ),
        state.with_table(table_after(state.codepage, candidates_from(in_437, in_866)))
            == state.after(in_437, in_866),
{
    lemma_candidate_of_table(in_437, in_866, state.codepage);
}

/// A character that the active table has is printed without a switch: the
/// output is its code in the active table and nothing else, and the state
/// stays as it is. This holds as well where the other table has the
/// character too, whichever of the two is active.
pub proof fn lemma_no_switch_in_active_table(
    state: PrinterState,
    in_437: Option<u8>,
    in_866: Option<u8>,
)
    requires
        code_in(state.codepage, in_437, in_866) is Some,
    ensures
        state.output_for(in_437, in_866) == seq![code_in(state.codepage, in_437, in_866)->0],
        state.after(in_437, in_866) == state,
{
}

/// A character that only the other table has makes the printer switch: the
/// output is the command that selects the other table, then the character's
/// code in it, and the other table is the active one afterwards.
pub proof fn lemma_switch_to_other_table(
    state: PrinterState,
    in_437: Option<u8>,
    in_866: Option<u8>,
)
    requires
        code_in(state.codepage, in_437, in_866) is None,
        code_in(state.codepage.other(), in_437, in_866) is Some,
    ensures
        state.output_for(in_437, in_866) == charmap_command(state.codepage.other()) + seq![
            code_in(state.codepage.other(), in_437, in_866)->0,
        ],
        state.after(in_437, in_866) == state.with_table(state.codepage.other()),
{
}

/// A character that no table has is printed as a space in the active table,
/// without a switch.
pub proof fn lemma_space_for_unknown(state: PrinterState)
    ensures
        state.output_for(None, None) == seq![0x20u8],
        state.after(None, None) == state,
{
}

/// Where the active table changes on a character that code page 437 has,
/// code page 437 is the table it changes to, and the command that selects it
/// is what is written before the character's code in it.
pub proof fn lemma_switch_prefers_cp437(
    state: PrinterState,
    in_437: Option<u8>,
    in_866: Option<u8>,
)
    requires
        in_437 is Some,
        state.after(in_437, in_866).codepage != state.codepage,
    ensures
        state.after(in_437, in_866).codepage == CharacterTable::CP437,
        state.output_for(in_437, in_866) == charmap_command(CharacterTable::CP437) + seq![
            in_437->0,
        ],
{
}

/// Every character is printed, with one selection command at most: its
/// output is one byte, or the eight bytes of the command that selects the
/// table that is active afterwards and then one byte. The command is there
/// exactly when the active table changes, and nothing else of the state does.
pub proof fn lemma_every_character_prints(
    state: PrinterState,
    in_437: Option<u8>,
    in_866: Option<u8>,
)
    ensures
        state.output_for(in_437, in_866).len() == if state.after(in_437, in_866).codepage
            != state.codepage {
            9nat
        } else {
            1nat
        },
        state.after(in_437, in_866).codepage != state.codepage ==> state.output_for(
            in_437,
            in_866,
        ).subrange(0, 8) == charmap_command(state.after(in_437, in_866).codepage),
        state.after(in_437, in_866) == state.with_table(state.after(in_437, in_866).codepage),
        state.wf() ==> state.after(in_437, in_866).wf(),
{
}

/// A text can be processed in pieces: the bytes written for the codes `a`
/// followed by `b` are those written for `a`, then those written for `b` from
/// the state that `a` leaves.
pub proof fn lemma_text_in_pieces(
    state: PrinterState,
    a: Seq<(Option<u8>, Option<u8>)>,
    b: Seq<(Option<u8>, Option<u8>)>,
)
    ensures
        state.output_for_all(a + b) == state.output_for_all(a) + state.after_all(
            a,
        ).output_for_all(b),
        state.after_all(a + b) == state.after_all(a).after_all(b),
    decreases b.len(),
{
    if b.len() == 0 {
        assert(a + b =~= a);
    } else {
        lemma_text_in_pieces(state, a, b.drop_last());
        assert((a + b).drop_last() =~= a + b.drop_last());
    }
}

/// The output is determined by the active table and the codes of the text's
/// characters: two states with the same active table write the same bytes
/// for the same codes and end with the same active table, whatever their
/// other settings.
pub proof fn lemma_output_determined(
    first: PrinterState,
    second: PrinterState,
    codes: Seq<(Option<u8>, Option<u8>)>,
)
    requires
        first.codepage == second.codepage,
    ensures
        first.output_for_all(codes) == second.output_for_all(codes),
        first.after_all(codes).codepage == second.after_all(codes).codepage,
        first.after_all(codes) == first.with_table(first.after_all(codes).codepage),
    decreases codes.len(),
{
    if codes.len() > 0 {
        lemma_output_determined(first, second, codes.drop_last());
    }
}

/// A text of `n` characters is written as at least `n` bytes and at most
/// `9 * n`: one byte for each character, and for each at most one selection
/// command of eight bytes.
pub proof fn lemma_text_output_length(state: PrinterState, codes: Seq<(Option<u8>, Option<u8>)>)
    ensures
        codes.len() <= state.output_for_all(codes).len() <= 9 * codes.len(),
    decreases codes.len(),
{
    if codes.len() > 0 {
        lemma_text_output_length(state, codes.drop_last());
    }
}

} // verus!
