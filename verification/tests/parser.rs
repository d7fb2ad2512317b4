use btor2tools::Btor2Line;
use btor2tools::Btor2LineIterator;
use btor2tools::Btor2Parser;
use btor2tools::Btor2ParserError;
use btor2tools::Btor2SortContent;
use btor2tools::Btor2SortTag;
use btor2tools::Btor2Tag;

fn parse_all(src: &[u8]) -> (Btor2Parser, Vec<Btor2Line>) {
    let mut p = Btor2Parser::new();
    p.read_lines(src).unwrap();
    let mut out = Vec::new();
    while let Some(l) = p.next_line() {
        out.push(l);
    }
    (p, out)
}

#[test]
fn round_trip_five_lines() {
    let (p, lines) = parse_all(b"1 sort bitvec 8\n2 input 1 x\n3 one 1\n4 add 1 2 3\n5 output 4\n");
    assert!(p.last_error().is_none());
    assert_eq!(lines.len(), 5);
    for (i, l) in lines.iter().enumerate() {
        assert_eq!(l.id(), i as i64 + 1);
        assert_eq!(l.lineno(), i as u64 + 1);
    }
    let s1 = lines[0].sort().unwrap();
    assert!(matches!(s1.tag(), Btor2SortTag::Bitvec));
    assert!(matches!(s1.content(), Btor2SortContent::Bitvec { width: 8 }));
    let s4 = lines[3].sort().unwrap();
    assert_eq!(s4.id(), 1);
    assert!(matches!(s4.content(), Btor2SortContent::Bitvec { width: 8 }));
    assert_eq!(lines[3].args(), &vec![2, 3]);
    assert!(matches!(lines[3].tag(), Btor2Tag::Add));
    assert!(matches!(lines[4].tag(), Btor2Tag::Output));
    assert_eq!(p.max_id(), 5);
}

#[test]
fn malformed_scenario_unknown_id() {
    let (p, lines) = parse_all(b"1 sort bitvec 8\n2 add 1 9 9\n");
    assert_eq!(lines.len(), 1);
    assert!(matches!(
        p.last_error(),
        Some(Btor2ParserError::UnknownId { line_number: 2, referenced_id: 9 })
    ));
}

#[test]
fn max_id_is_maximum_not_last() {
    let (p, lines) = parse_all(b"5 sort bitvec 8\n2 sort bitvec 4\n");
    assert!(p.last_error().is_none());
    assert_eq!(lines.len(), 2);
    assert_eq!(p.max_id(), 5);
}

#[test]
fn max_id_zero_on_empty_input() {
    let (p, lines) = parse_all(b"");
    assert!(p.last_error().is_none());
    assert_eq!(lines.len(), 0);
    assert_eq!(p.max_id(), 0);
}

#[test]
fn reference_before_declaration_fails() {
    let (p, lines) = parse_all(b"1 sort bitvec 8\n2 not 1 3\n3 input 1\n");
    assert_eq!(lines.len(), 1);
    assert!(matches!(
        p.last_error(),
        Some(Btor2ParserError::UnknownId { line_number: 2, referenced_id: 3 })
    ));
}

#[test]
fn duplicate_line_ids_fail() {
    let (p, lines) = parse_all(b"1 sort bitvec 8\n2 input 1\n2 input 1\n");
    assert_eq!(lines.len(), 2);
    assert!(matches!(
        p.last_error(),
        Some(Btor2ParserError::DuplicateId { line_number: 3, id: 2 })
    ));
}

#[test]
fn duplicate_sort_ids_fail() {
    let (p, _) = parse_all(b"1 sort bitvec 8\n1 sort bitvec 4\n");
    assert!(matches!(
        p.last_error(),
        Some(Btor2ParserError::DuplicateId { line_number: 2, id: 1 })
    ));
}

#[test]
fn duplicate_mixed_sort_and_line_fail() {
    let (p, _) = parse_all(b"1 sort bitvec 8\n1 input 1\n");
    assert!(matches!(
        p.last_error(),
        Some(Btor2ParserError::DuplicateId { line_number: 2, id: 1 })
    ));
}

#[test]
fn slice_upper_at_width_fails() {
    let (p, lines) = parse_all(b"1 sort bitvec 8\n2 input 1\n3 slice 1 2 8 0\n");
    assert_eq!(lines.len(), 2);
    assert!(matches!(
        p.last_error(),
        Some(Btor2ParserError::InvalidNumericField { line_number: 3, field_index: 4 })
    ));
}

#[test]
fn slice_upper_below_lower_fails() {
    let (p, lines) = parse_all(b"1 sort bitvec 8\n2 input 1\n3 slice 1 2 3 5\n");
    assert_eq!(lines.len(), 2);
    assert!(matches!(
        p.last_error(),
        Some(Btor2ParserError::InvalidNumericField { line_number: 3, field_index: 5 })
    ));
}

#[test]
fn slice_in_bounds_succeeds() {
    let (p, lines) = parse_all(b"1 sort bitvec 8\n2 input 1\n3 slice 1 2 7 0\n");
    assert!(p.last_error().is_none());
    assert_eq!(lines.len(), 3);
    assert_eq!(lines[2].args(), &vec![2, 7, 0]);
}

#[test]
fn blank_and_comment_lines_are_skipped() {
    let (p, lines) = parse_all(b"; comment\n\n1 sort bitvec 8\n   \n; more\n2 input 1\n\n");
    assert!(p.last_error().is_none());
    assert_eq!(lines.len(), 2);
    assert_eq!(p.max_id(), 2);
    assert_eq!(lines[0].lineno(), 3);
    assert_eq!(lines[1].lineno(), 6);
}

#[test]
fn trailing_comment_is_stripped() {
    let (p, lines) = parse_all(b"1 sort bitvec 8 ; eight wide\n");
    assert!(p.last_error().is_none());
    assert_eq!(lines.len(), 1);
    assert!(matches!(
        lines[0].sort().unwrap().content(),
        Btor2SortContent::Bitvec { width: 8 }
    ));
}

#[test]
fn early_stop_keeps_table_consistent() {
    let mut p = Btor2Parser::new();
    p.read_lines(b"1 sort bitvec 8\n2 input 1\n3 not 1 2\n").unwrap();
    let first = p.next_line().unwrap();
    assert_eq!(first.id(), 1);
    assert!(p.last_error().is_none());
    assert_eq!(p.max_id(), 1);
    assert!(p.lookup(1).is_some());
    assert!(p.lookup(2).is_none());
}

#[test]
fn exhausted_session_keeps_returning_none() {
    let mut p = Btor2Parser::new();
    p.read_lines(b"1 sort bitvec 8\n").unwrap();
    assert!(p.next_line().is_some());
    assert!(p.next_line().is_none());
    assert!(p.next_line().is_none());
    assert!(p.last_error().is_none());
}

#[test]
fn iteration_stops_after_error() {
    let mut p = Btor2Parser::new();
    p.read_lines(b"1 sort bitvec 8\nbogus\n2 input 1\n").unwrap();
    assert!(p.next_line().is_some());
    assert!(p.next_line().is_none());
    assert!(p.next_line().is_none());
    assert!(matches!(
        p.last_error(),
        Some(Btor2ParserError::MalformedLine { line_number: 2 })
    ));
    assert_eq!(p.max_id(), 1);
}

#[test]
fn unknown_mnemonic_fails() {
    let (p, _) = parse_all(b"1 sort bitvec 8\n2 frobnicate 1\n");
    match p.last_error() {
        Some(Btor2ParserError::UnknownTag { line_number, token }) => {
            assert_eq!(*line_number, 2);
            assert_eq!(token, &b"frobnicate".to_vec());
        }
        other => panic!("expected UnknownTag, got {:?}", other),
    }
}

#[test]
fn arity_mismatch_reports_counts() {
    let (p, _) = parse_all(b"1 sort bitvec 8\n2 add 1 3\n");
    assert!(matches!(
        p.last_error(),
        Some(Btor2ParserError::ArityMismatch {
            line_number: 2,
            tag: Btor2Tag::Add,
            expected: 5,
            actual: 4
        })
    ));
}

#[test]
fn zero_width_sort_fails() {
    let (p, _) = parse_all(b"1 sort bitvec 0\n");
    assert!(matches!(
        p.last_error(),
        Some(Btor2ParserError::InvalidNumericField { line_number: 1, field_index: 3 })
    ));
}

#[test]
fn zero_id_fails() {
    let (p, _) = parse_all(b"0 sort bitvec 8\n");
    assert!(matches!(
        p.last_error(),
        Some(Btor2ParserError::InvalidNumericField { line_number: 1, field_index: 0 })
    ));
}

#[test]
fn non_numeric_argument_fails() {
    let (p, _) = parse_all(b"1 sort bitvec 8\n2 not 1 abc\n");
    assert!(matches!(
        p.last_error(),
        Some(Btor2ParserError::InvalidNumericField { line_number: 2, field_index: 3 })
    ));
}

#[test]
fn array_sort_records_index_and_element() {
    let (p, lines) = parse_all(b"1 sort bitvec 8\n2 sort bitvec 4\n3 sort array 1 2\n");
    assert!(p.last_error().is_none());
    let s = lines[2].sort().unwrap();
    assert!(matches!(s.tag(), Btor2SortTag::Array));
    assert!(matches!(s.content(), Btor2SortContent::Array { index: 1, element: 2 }));
}

#[test]
fn array_sort_over_undeclared_sort_fails() {
    let (p, _) = parse_all(b"1 sort bitvec 8\n2 sort array 1 7\n");
    assert!(matches!(
        p.last_error(),
        Some(Btor2ParserError::UnknownId { line_number: 2, referenced_id: 7 })
    ));
}

#[test]
fn array_sort_over_non_sort_id_fails() {
    let (p, _) = parse_all(b"1 sort bitvec 8\n2 input 1\n3 sort array 1 2\n");
    assert!(matches!(
        p.last_error(),
        Some(Btor2ParserError::UnknownId { line_number: 3, referenced_id: 2 })
    ));
}

#[test]
fn constant_text_is_kept() {
    let (p, lines) = parse_all(b"1 sort bitvec 8\n2 constd 1 42\n3 consth 1 ff\n");
    assert!(p.last_error().is_none());
    assert_eq!(lines[1].constant().unwrap(), &b"42".to_vec());
    assert_eq!(lines[2].constant().unwrap(), &b"ff".to_vec());
    assert!(lines[0].constant().is_none());
}

#[test]
fn symbols_are_kept() {
    let (p, lines) = parse_all(b"1 sort bitvec 8\n2 input 1 reset\n3 state 1 counter\n");
    assert!(p.last_error().is_none());
    assert_eq!(lines[1].symbol().unwrap(), &b"reset".to_vec());
    assert_eq!(lines[2].symbol().unwrap(), &b"counter".to_vec());
    assert!(lines[0].symbol().is_none());
}

#[test]
fn mnemonic_name_is_kept() {
    let (_, lines) = parse_all(b"1 sort bitvec 8\n2 input 1\n");
    assert_eq!(lines[0].name(), &b"sort".to_vec());
    assert_eq!(lines[1].name(), &b"input".to_vec());
}

#[test]
fn init_and_next_attach_to_state() {
    let (p, lines) = parse_all(
        b"1 sort bitvec 8\n2 state 1\n3 one 1\n4 init 1 2 3\n5 next 1 2 2\n",
    );
    assert!(p.last_error().is_none());
    assert_eq!(lines.len(), 5);
    assert_eq!(lines[3].args(), &vec![2, 3]);
    let st = p.lookup(2).unwrap();
    assert_eq!(st.init(), 3);
    assert_eq!(st.next(), 2);
    // ids stay resolvable afterwards too
    assert!(p.lookup(5).is_some());
}

#[test]
fn justice_takes_declared_count() {
    let (p, lines) = parse_all(b"1 sort bitvec 1\n2 input 1\n3 input 1\n4 justice 2 2 3\n");
    assert!(p.last_error().is_none());
    assert_eq!(lines[3].args(), &vec![2, 3]);
    assert!(lines[3].sort().is_none());
}

#[test]
fn justice_count_mismatch_fails() {
    let (p, _) = parse_all(b"1 sort bitvec 1\n2 input 1\n3 justice 2 2\n");
    assert!(matches!(
        p.last_error(),
        Some(Btor2ParserError::ArityMismatch {
            line_number: 3,
            tag: Btor2Tag::Justice,
            expected: 5,
            actual: 4
        })
    ));
}

#[test]
fn tabs_and_extra_spaces_tokenize() {
    let (p, lines) = parse_all(b"1\tsort  bitvec\t 8\n2  input\t1\n");
    assert!(p.last_error().is_none());
    assert_eq!(lines.len(), 2);
    assert!(matches!(
        lines[0].sort().unwrap().content(),
        Btor2SortContent::Bitvec { width: 8 }
    ));
}

#[test]
fn missing_final_newline_still_parses() {
    let (p, lines) = parse_all(b"1 sort bitvec 8\n2 input 1");
    assert!(p.last_error().is_none());
    assert_eq!(lines.len(), 2);
    assert_eq!(p.max_id(), 2);
}

#[test]
fn sext_carries_immediate() {
    let (p, lines) = parse_all(b"1 sort bitvec 8\n2 input 1\n3 sext 1 2 4\n");
    assert!(p.last_error().is_none());
    assert_eq!(lines[2].args(), &vec![2, 4]);
}

#[test]
fn ternary_ite_takes_three_args() {
    let (p, lines) = parse_all(
        b"1 sort bitvec 1\n2 input 1\n3 input 1\n4 input 1\n5 ite 1 2 3 4\n",
    );
    assert!(p.last_error().is_none());
    assert_eq!(lines[4].args(), &vec![2, 3, 4]);
}

#[test]
fn fresh_session_replaces_finished_one() {
    let mut p = Btor2Parser::new();
    p.read_lines(b"7 sort bitvec 8\n").unwrap();
    while p.next_line().is_some() {}
    assert_eq!(p.max_id(), 7);
    p.read_lines(b"1 sort bitvec 4\n").unwrap();
    assert_eq!(p.max_id(), 0);
    let l = p.next_line().unwrap();
    assert_eq!(l.id(), 1);
    assert_eq!(p.max_id(), 1);
}

#[test]
fn comment_only_input_yields_nothing() {
    let (p, lines) = parse_all(b"; comment\n\n");
    assert!(p.last_error().is_none());
    assert_eq!(lines.len(), 0);
    assert_eq!(p.max_id(), 0);
}

#[test]
fn oversized_id_is_invalid_numeric() {
    let (p, _) = parse_all(b"99999999999999999999999 sort bitvec 8\n");
    assert!(matches!(
        p.last_error(),
        Some(Btor2ParserError::InvalidNumericField { line_number: 1, field_index: 0 })
    ));
}

#[test]
fn line_iterator_walks_a_session() {
    let mut p = Btor2Parser::new();
    p.read_lines(b"1 sort bitvec 8\n2 input 1\n").unwrap();
    let mut it = Btor2LineIterator::new(p);
    let mut ids = Vec::new();
    while let Some(l) = it.next() {
        ids.push(l.id());
    }
    assert_eq!(ids, vec![1, 2]);
    assert_eq!(it.max_id(), 2);
    assert!(it.last_error().is_none());
    let parser = it.into_parser();
    assert!(parser.lookup(2).is_some());
}

#[test]
fn unknown_sort_kind_fails() {
    let (p, _) = parse_all(b"1 sort matrix 2\n");
    match p.last_error() {
        Some(Btor2ParserError::UnknownTag { line_number, token }) => {
            assert_eq!(*line_number, 1);
            assert_eq!(token, &b"matrix".to_vec());
        }
        other => panic!("expected UnknownTag, got {:?}", other),
    }
}

#[test]
fn init_of_undeclared_state_fails() {
    let (p, _) = parse_all(b"1 sort bitvec 8\n2 one 1\n3 init 1 9 2\n");
    assert!(matches!(
        p.last_error(),
        Some(Btor2ParserError::UnknownId { line_number: 3, referenced_id: 9 })
    ));
}

#[test]
fn rotate_carries_amount_immediate() {
    let (p, lines) = parse_all(b"1 sort bitvec 8\n2 input 1\n3 rol 1 2 3\n4 redand 1 2\n");
    assert!(p.last_error().is_none());
    assert_eq!(lines[2].args(), &vec![2, 3]);
    assert_eq!(lines[3].args(), &vec![2]);
}
