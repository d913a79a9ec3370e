use escp_filter::charset::{select_charmap, CharacterTable, Chmapped};
use escp_filter::printer::{PrinterState, Process};
use escp_filter::style::{FontSize, TypeFace};
use escp_filter::transcode::transcode_character;

const TO_CP437: [u8; 8] = [0x1B, 0x28, 0x74, 0x03, 0x00, 0x01, 1, 0];
const TO_CP866: [u8; 8] = [0x1B, 0x28, 0x74, 0x03, 0x00, 0x01, 14, 0];

const ZHE: char = '\u{0416}';
const E_ACUTE: char = '\u{00E9}';
const HAN: char = '\u{4E2D}';

fn run(table: CharacterTable, text: &str) -> (Vec<u8>, PrinterState) {
    let mut state = PrinterState::new(table);
    let mut out = Vec::new();
    state.process_text(text, &mut out);
    (out, state)
}

fn one(table: CharacterTable, c: char) -> (Vec<u8>, PrinterState) {
    let mut state = PrinterState::new(table);
    let mut out = Vec::new();
    state.process(c, &mut out);
    (out, state)
}

fn joined(parts: &[&[u8]]) -> Vec<u8> {
    let mut all = Vec::new();
    for part in parts {
        all.extend_from_slice(part);
    }
    all
}

#[test]
fn new_state_has_the_default_settings() {
    let state = PrinterState::new(CharacterTable::CP437);
    assert_eq!(state.codepage, CharacterTable::CP437);
    assert_eq!(state.columns, 75);
    assert_eq!(state.typeface, TypeFace::Draft);
    assert_eq!(state.fontsize, FontSize::CPI10);
    assert!(!state.condensed);
    assert!(!state.bold);
    assert!(!state.underline);
    assert_eq!(PrinterState::new(CharacterTable::CP866).codepage, CharacterTable::CP866);
}

#[test]
fn character_of_other_table_switches_then_prints() {
    let (out, state) = one(CharacterTable::CP437, ZHE);
    assert_eq!(out, joined(&[&TO_CP866, &[0x86]]));
    assert_eq!(state.codepage, CharacterTable::CP866);
}

#[test]
fn switch_command_is_the_one_select_charmap_builds() {
    let (out, _) = one(CharacterTable::CP866, E_ACUTE);
    assert_eq!(out[..8], select_charmap(CharacterTable::CP437)[..]);
    assert_eq!(out[8..], [0x82]);
}

#[test]
fn two_characters_of_alternating_tables_switch_twice() {
    let mut text = String::new();
    text.push(ZHE);
    text.push(E_ACUTE);
    let (out, state) = run(CharacterTable::CP437, &text);
    assert_eq!(out, joined(&[&TO_CP866, &[0x86], &TO_CP437, &[0x82]]));
    assert_eq!(state.codepage, CharacterTable::CP437);
}

#[test]
fn character_of_active_table_prints_without_switch() {
    let (out, state) = one(CharacterTable::CP866, ZHE);
    assert_eq!(out, vec![0x86]);
    assert_eq!(state.codepage, CharacterTable::CP866);
    let (out, state) = one(CharacterTable::CP437, E_ACUTE);
    assert_eq!(out, vec![0x82]);
    assert_eq!(state.codepage, CharacterTable::CP437);
}

#[test]
fn character_of_both_tables_never_switches() {
    for table in [CharacterTable::CP437, CharacterTable::CP866] {
        let (out, state) = one(table, 'A');
        assert_eq!(out, vec![0x41]);
        assert_eq!(state.codepage, table);
    }
}

#[test]
fn unknown_character_prints_a_space_without_switch() {
    for table in [CharacterTable::CP437, CharacterTable::CP866] {
        let (out, state) = one(table, HAN);
        assert_eq!(out, vec![0x20]);
        assert_eq!(state.codepage, table);
    }
}

#[test]
fn substituted_letter_prints_as_its_replacement() {
    for table in [CharacterTable::CP437, CharacterTable::CP866] {
        let (out, state) = one(table, '\u{0406}');
        assert_eq!(out, vec![0x49]);
        assert_eq!(state.codepage, table);
    }
    let (out, state) = one(CharacterTable::CP437, '\u{0491}');
    assert_eq!(out, joined(&[&TO_CP866, &[0xA3]]));
    assert_eq!(state.codepage, CharacterTable::CP866);
}

#[test]
fn emit_prefers_the_candidate_of_the_active_table() {
    let chm = vec![
        Chmapped { code: 1, chm: CharacterTable::CP437 },
        Chmapped { code: 2, chm: CharacterTable::CP866 },
    ];
    let mut state = PrinterState::new(CharacterTable::CP866);
    let mut out = Vec::new();
    state.emit(&chm, &mut out);
    assert_eq!(out, vec![2]);
    assert_eq!(state.codepage, CharacterTable::CP866);

    let mut state = PrinterState::new(CharacterTable::CP437);
    let mut out = Vec::new();
    state.emit(&chm, &mut out);
    assert_eq!(out, vec![1]);
    assert_eq!(state.codepage, CharacterTable::CP437);
}

#[test]
fn emit_switches_to_the_first_candidate_when_none_matches() {
    let chm = vec![
        Chmapped { code: 7, chm: CharacterTable::CP437 },
        Chmapped { code: 9, chm: CharacterTable::CP437 },
    ];
    let mut state = PrinterState::new(CharacterTable::CP866);
    let mut out = Vec::new();
    state.emit(&chm, &mut out);
    assert_eq!(out, joined(&[&TO_CP437, &[7]]));
    assert_eq!(state.codepage, CharacterTable::CP437);
}

#[test]
fn emit_takes_the_last_candidate_of_the_active_table() {
    let chm = vec![
        Chmapped { code: 1, chm: CharacterTable::CP866 },
        Chmapped { code: 2, chm: CharacterTable::CP437 },
        Chmapped { code: 3, chm: CharacterTable::CP866 },
    ];
    let mut state = PrinterState::new(CharacterTable::CP866);
    let mut out = Vec::new();
    state.emit(&chm, &mut out);
    assert_eq!(out, vec![3]);
    assert_eq!(state.codepage, CharacterTable::CP866);
}

#[test]
fn emit_appends_to_what_the_sink_holds() {
    let chm = vec![Chmapped { code: 0x86, chm: CharacterTable::CP866 }];
    let mut state = PrinterState::new(CharacterTable::CP437);
    let mut out = vec![0xAA, 0xBB];
    state.emit(&chm, &mut out);
    assert_eq!(out, joined(&[&[0xAA, 0xBB], &TO_CP866, &[0x86]]));
}

#[test]
fn emit_is_what_process_does_with_the_candidates() {
    for table in [CharacterTable::CP437, CharacterTable::CP866] {
        for c in ['A', ZHE, E_ACUTE, HAN, '\u{0406}', '\u{0490}'] {
            let (expected, expected_state) = one(table, c);
            let mut state = PrinterState::new(table);
            let mut out = Vec::new();
            state.emit(&transcode_character(c), &mut out);
            assert_eq!(out, expected);
            assert_eq!(state, expected_state);
        }
    }
}

#[test]
fn process_changes_nothing_but_the_active_table() {
    let mut state = PrinterState::new(CharacterTable::CP437);
    state.columns = 40;
    state.typeface = TypeFace::Serif;
    state.fontsize = FontSize::CPI15;
    state.condensed = true;
    state.bold = true;
    state.underline = true;
    let before = state;
    let mut out = Vec::new();
    state.process(ZHE, &mut out);
    assert_eq!(state, PrinterState { codepage: CharacterTable::CP866, ..before });
}

#[test]
fn process_writes_one_byte_or_a_command_and_one_byte() {
    for table in [CharacterTable::CP437, CharacterTable::CP866] {
        for code in (0u32..0x0530).chain(0x2500..0x25A0) {
            if let Some(c) = char::from_u32(code) {
                let (out, state) = one(table, c);
                if state.codepage == table {
                    assert_eq!(out.len(), 1);
                } else {
                    assert_eq!(out.len(), 9);
                    assert_eq!(out[..8], select_charmap(state.codepage)[..]);
                }
            }
        }
    }
}

#[test]
fn process_text_of_nothing_writes_nothing() {
    let (out, state) = run(CharacterTable::CP866, "");
    assert!(out.is_empty());
    assert_eq!(state, PrinterState::new(CharacterTable::CP866));
}

#[test]
fn process_text_switches_only_when_the_table_changes() {
    // "Ab" in either table, two Cyrillic letters, a space, then "e acute".
    let text = "Ab\u{0416}\u{0430} \u{00E9}\n";
    let (out, state) = run(CharacterTable::CP437, text);
    assert_eq!(
        out,
        joined(&[&[0x41, 0x62], &TO_CP866, &[0x86, 0xA0, 0x20], &TO_CP437, &[0x82, 0x0A]])
    );
    assert_eq!(state.codepage, CharacterTable::CP437);
}

#[test]
fn process_text_is_process_character_by_character() {
    let text = "\u{0416}x\u{00E9}\u{4E2D}\u{0406}\u{0491}!";
    for table in [CharacterTable::CP437, CharacterTable::CP866] {
        let (whole, whole_state) = run(table, text);
        let mut state = PrinterState::new(table);
        let mut out = Vec::new();
        for c in text.chars() {
            state.process(c, &mut out);
        }
        assert_eq!(out, whole);
        assert_eq!(state, whole_state);
    }
}

#[test]
fn process_text_in_pieces_gives_the_same_stream() {
    let text: Vec<char> = "ab\u{0416}\u{00E9}\u{0416}\u{0416}c\u{00E9}".chars().collect();
    let whole: String = text.iter().collect();
    let (expected, expected_state) = run(CharacterTable::CP437, &whole);
    for cut in 0..=text.len() {
        let head: String = text[..cut].iter().collect();
        let tail: String = text[cut..].iter().collect();
        let mut state = PrinterState::new(CharacterTable::CP437);
        let mut out = Vec::new();
        state.process_text(&head, &mut out);
        state.process_text(&tail, &mut out);
        assert_eq!(out, expected);
        assert_eq!(state, expected_state);
    }
}

#[test]
fn same_text_and_table_give_the_same_stream() {
    let text = "Hello, \u{041C}\u{0438}\u{0440}! caf\u{00E9} \u{2500}\u{4E2D}";
    for table in [CharacterTable::CP437, CharacterTable::CP866] {
        let (first, first_state) = run(table, text);
        let (second, second_state) = run(table, text);
        assert_eq!(first, second);
        assert_eq!(first_state, second_state);
    }
}

#[test]
fn other_settings_do_not_change_the_stream() {
    let text = "\u{0416}\u{00E9}A";
    let (plain, _) = run(CharacterTable::CP437, text);
    let mut state = PrinterState::new(CharacterTable::CP437);
    state.columns = 10;
    state.bold = true;
    state.typeface = TypeFace::Roman;
    let mut out = Vec::new();
    state.process_text(text, &mut out);
    assert_eq!(out, plain);
}

#[test]
fn stream_has_one_character_byte_for_each_character() {
    let text = "\u{0416}\u{00E9}\u{0416}\u{00E9}";
    let (out, _) = run(CharacterTable::CP866, text);
    assert_eq!(out.len(), 4 + 3 * 8);
    let (out, _) = run(CharacterTable::CP437, text);
    assert_eq!(out.len(), 4 + 4 * 8);
    let (out, _) = run(CharacterTable::CP437, "plain ascii");
    assert_eq!(out, b"plain ascii".to_vec());
}

#[test]
fn lookups_with_a_code_in_the_active_table_print_it() {
    for (table, expected) in [(CharacterTable::CP437, 0x41), (CharacterTable::CP866, 0x42)] {
        let mut state = PrinterState::new(table);
        let mut out = Vec::new();
        state.process_lookups(&Some(vec![0x41]), &Some(vec![0x42]), &mut out);
        assert_eq!(out, vec![expected]);
        assert_eq!(state.codepage, table);
    }
}

#[test]
fn lookups_with_a_code_in_the_other_table_only_switch() {
    let mut state = PrinterState::new(CharacterTable::CP437);
    let mut out = Vec::new();
    state.process_lookups(&None, &Some(vec![0x86]), &mut out);
    assert_eq!(out, joined(&[&TO_CP866, &[0x86]]));
    assert_eq!(state.codepage, CharacterTable::CP866);

    state.process_lookups(&Some(vec![0x82]), &None, &mut out);
    assert_eq!(out, joined(&[&TO_CP866, &[0x86], &TO_CP437, &[0x82]]));
    assert_eq!(state.codepage, CharacterTable::CP437);
}

#[test]
fn lookups_that_both_fail_print_a_space() {
    for table in [CharacterTable::CP437, CharacterTable::CP866] {
        let mut state = PrinterState::new(table);
        let mut out = Vec::new();
        state.process_lookups(&None, &None, &mut out);
        assert_eq!(out, vec![0x20]);
        assert_eq!(state.codepage, table);
    }
}

#[test]
fn lookups_of_another_length_count_as_failed() {
    let mut state = PrinterState::new(CharacterTable::CP437);
    let mut out = Vec::new();
    state.process_lookups(&Some(vec![0x41, 0x42]), &Some(vec![0x43]), &mut out);
    assert_eq!(out, joined(&[&TO_CP866, &[0x43]]));
    assert_eq!(state.codepage, CharacterTable::CP866);

    let mut state = PrinterState::new(CharacterTable::CP866);
    let mut out = Vec::new();
    state.process_lookups(&Some(vec![]), &Some(vec![1, 2]), &mut out);
    assert_eq!(out, vec![0x20]);
    assert_eq!(state.codepage, CharacterTable::CP866);
}

#[test]
fn same_lookups_and_table_give_the_same_bytes() {
    let lookups: [(Option<Vec<u8>>, Option<Vec<u8>>); 4] = [
        (Some(vec![1]), Some(vec![2])),
        (Some(vec![3]), None),
        (None, Some(vec![4])),
        (None, None),
    ];
    for table in [CharacterTable::CP437, CharacterTable::CP866] {
        let mut first = PrinterState::new(table);
        let mut second = PrinterState::new(table);
        second.bold = true;
        second.columns = 12;
        let mut first_out = Vec::new();
        let mut second_out = Vec::new();
        for (in_437, in_866) in &lookups {
            first.process_lookups(in_437, in_866, &mut first_out);
            second.process_lookups(in_437, in_866, &mut second_out);
        }
        assert_eq!(first_out, second_out);
        assert_eq!(first.codepage, second.codepage);
    }
}
