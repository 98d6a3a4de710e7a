//! Document-level behaviour: determinism, header gating, case handling,
//! quote fidelity, composite nesting, loop-shape validation, unterminated
//! text blocks, nesting depth, and a full end-to-end document.

use cif_chomper::model::{
    validate_loop_shape, CifError, RawDataItem, RawDataItemContent, Span,
};
use cif_chomper::parser::{cif2_file, cif2_file_with_depth, nospace_value, Outcome};

fn bytes_of(src: &[u8], sp: &Span) -> Vec<u8> {
    src[sp.start..sp.end].to_vec()
}

#[test]
fn parsing_is_deterministic() {
    let input = b"#\\#CIF_2.0\ndata_a\n_x 'y'\nloop_\n_p\n_q\n1 2\n";
    let first = cif2_file(input);
    let second = cif2_file(input);
    assert_eq!(first, second);
    assert!(first.is_ok());
}

#[test]
fn header_gating() {
    assert_eq!(cif2_file(b""), Err(CifError::Header));
    assert_eq!(cif2_file(b"data_test\n_a 'b'\n"), Err(CifError::Header));
    assert_eq!(cif2_file(b"#\\#CIF_2.1\ndata_t\n"), Err(CifError::Header));
    assert_eq!(cif2_file(b"x#\\#CIF_2.0\ndata_t\n"), Err(CifError::Header));
    // A byte-order mark before the magic header is accepted.
    let bom = "\u{feff}#\\#CIF_2.0\ndata_a\n_x 'y'\n";
    assert!(cif2_file(bom.as_bytes()).is_ok());
}

#[test]
fn keyword_case_insensitive_code_verbatim() {
    let input = b"#\\#CIF_2.0\nDaTa_Foo\n_a 'b'\n";
    let model = cif2_file(input).unwrap();
    assert_eq!(model.content.len(), 1);
    assert_eq!(bytes_of(input, &model.content[0].heading), b"Foo");

    // The same document with the keyword in lower case parses identically.
    let lower = b"#\\#CIF_2.0\ndata_Foo\n_a 'b'\n";
    assert_eq!(cif2_file(input), cif2_file(lower));
}

#[test]
fn triple_quote_fidelity() {
    let input = b"#\\#CIF_2.0\ndata_t\n_v '''ab'c\nd'''\n";
    let model = cif2_file(input).unwrap();
    match &model.content[0].content[0] {
        RawDataItem::Data { name, value } => {
            assert_eq!(bytes_of(input, name), b"_v");
            match value {
                RawDataItemContent::Str(sp) => assert_eq!(bytes_of(input, sp), b"ab'c\nd"),
                other => panic!("expected a string value, got {:?}", other),
            }
        }
        other => panic!("expected a data item, got {:?}", other),
    }
}

#[test]
fn composite_nesting() {
    let input = b"[1 2 {'k':'v'}]";
    match nospace_value(input, 0, 16) {
        Outcome::Parsed(RawDataItemContent::List(elems), p) => {
            assert_eq!(p, input.len());
            assert_eq!(elems.len(), 3);
            match &elems[0] {
                RawDataItemContent::Str(sp) => assert_eq!(bytes_of(input, sp), b"1"),
                other => panic!("expected a string, got {:?}", other),
            }
            match &elems[1] {
                RawDataItemContent::Str(sp) => assert_eq!(bytes_of(input, sp), b"2"),
                other => panic!("expected a string, got {:?}", other),
            }
            match &elems[2] {
                RawDataItemContent::Table(entries) => {
                    assert_eq!(entries.len(), 1);
                    match (&entries[0].0, &entries[0].1) {
                        (RawDataItemContent::Str(k), RawDataItemContent::Str(v)) => {
                            assert_eq!(bytes_of(input, k), b"k");
                            assert_eq!(bytes_of(input, v), b"v");
                        }
                        other => panic!("expected string key and value, got {:?}", other),
                    }
                }
                other => panic!("expected a table, got {:?}", other),
            }
        }
        other => panic!("expected a list, got {:?}", other),
    }
}

#[test]
fn empty_composites() {
    let input = b"#\\#CIF_2.0\ndata_t\n_l []\n_t {}\n";
    let model = cif2_file(input).unwrap();
    match &model.content[0].content[0] {
        RawDataItem::Data { value: RawDataItemContent::List(elems), .. } => {
            assert_eq!(elems.len(), 0)
        }
        other => panic!("expected an empty list, got {:?}", other),
    }
    match &model.content[0].content[1] {
        RawDataItem::Data { value: RawDataItemContent::Table(entries), .. } => {
            assert_eq!(entries.len(), 0)
        }
        other => panic!("expected an empty table, got {:?}", other),
    }
}

#[test]
fn table_with_equal_keys_is_kept_verbatim() {
    let input = b"#\\#CIF_2.0\ndata_t\n_m {'k':'a' 'k':'b'}\n";
    let model = cif2_file(input).unwrap();
    match &model.content[0].content[0] {
        RawDataItem::Data { value: RawDataItemContent::Table(entries), .. } => {
            assert_eq!(entries.len(), 2);
        }
        other => panic!("expected a table, got {:?}", other),
    }
}

#[test]
fn loop_shape_is_validated_after_parsing() {
    let whole = cif2_file(b"#\\#CIF_2.0\ndata_t\nloop_\n_x\n_y\n1 2\n3 4\n").unwrap();
    assert!(validate_loop_shape(&whole));

    // The grammar accepts a ragged loop; only the validation step flags it.
    let ragged = cif2_file(b"#\\#CIF_2.0\ndata_t\nloop_\n_x\n_y\n1 2\n3\n").unwrap();
    assert!(!validate_loop_shape(&ragged));
}

#[test]
fn unterminated_text_block_fails() {
    let input = b"#\\#CIF_2.0\ndata_t\n_a\n;unterminated\ntext";
    assert!(cif2_file(input).is_err());
}

#[test]
fn nesting_depth_is_bounded() {
    let input = b"#\\#CIF_2.0\ndata_t\n_v [[1]]\n";
    assert_eq!(cif2_file_with_depth(input, 1), Err(CifError::NestingTooDeep));
    assert!(cif2_file_with_depth(input, 8).is_ok());
    assert!(cif2_file(input).is_ok());
}

#[test]
fn stage_errors() {
    // A header with nothing parseable after it fails at the content stage.
    assert_eq!(cif2_file(b"#\\#CIF_2.0\nnothing here\n"), Err(CifError::Content));
    // Trailing unconsumable input fails at the end-of-input stage.
    assert_eq!(
        cif2_file(b"#\\#CIF_2.0\ndata_t\n_a 'b'\n]"),
        Err(CifError::EndOfInput)
    );
    // A trailing comment needs no final line ending.
    assert!(cif2_file(b"#\\#CIF_2.0\ndata_t\n_a 'b'\n# done").is_ok());
}

#[test]
fn end_to_end_document() {
    let input = b"#\\#CIF_2.0\ndata_test\n_a_value 'hello world'\nloop_\n_x\n_y\n1 2\n3 4\n";
    let model = cif2_file(input).unwrap();
    assert_eq!(bytes_of(input, &model.heading), b"#\\#CIF_2.0");
    assert_eq!(model.content.len(), 1);
    let block = &model.content[0];
    assert_eq!(bytes_of(input, &block.heading), b"test");
    assert_eq!(block.content.len(), 2);
    match &block.content[0] {
        RawDataItem::Data { name, value } => {
            assert_eq!(bytes_of(input, name), b"_a_value");
            match value {
                RawDataItemContent::Str(sp) => {
                    assert_eq!(bytes_of(input, sp), b"hello world")
                }
                other => panic!("expected a string value, got {:?}", other),
            }
        }
        other => panic!("expected a data item, got {:?}", other),
    }
    match &block.content[1] {
        RawDataItem::Loop { names, values } => {
            assert_eq!(names.len(), 2);
            assert_eq!(bytes_of(input, &names[0]), b"_x");
            assert_eq!(bytes_of(input, &names[1]), b"_y");
            assert_eq!(values.len(), 4);
            let expected: [&[u8]; 4] = [b"1", b"2", b"3", b"4"];
            for (v, e) in values.iter().zip(expected.iter()) {
                match v {
                    RawDataItemContent::Str(sp) => assert_eq!(&bytes_of(input, sp)[..], *e),
                    other => panic!("expected a string value, got {:?}", other),
                }
            }
        }
        other => panic!("expected a loop item, got {:?}", other),
    }
}

#[test]
fn add_sums() {
    assert_eq!(cif_chomper::add(2, 2), 4);
    assert_eq!(cif_chomper::add(40, 2), 42);
}

#[test]
fn string_items_are_collected_in_order() {
    let input = b"#\\#CIF_2.0\ndata_t\n_a 'x'\nloop_\n_l\n1\nsave_f\n_b 'y'\nsave_\n_c 'z'\n";
    let model = cif2_file(input).unwrap();
    let pairs = cif_chomper::model::iterate_data_block(&model.content[0]);
    let texts: Vec<(Vec<u8>, Vec<u8>)> = pairs
        .iter()
        .map(|(n, v)| (bytes_of(input, n), bytes_of(input, v)))
        .collect();
    assert_eq!(
        texts,
        vec![
            (b"_a".to_vec(), b"x".to_vec()),
            (b"_b".to_vec(), b"y".to_vec()),
            (b"_c".to_vec(), b"z".to_vec()),
        ]
    );
}

#[test]
fn dangling_loop_keyword_is_rejected() {
    // A final bare `loop_` with no names and values belongs to no rule, so
    // the mandatory end-of-input stage rejects it.
    let input = b"#\\#CIF_2.0\ndata_test\n_a_value 'hello world'\nloop_\n_x\n_y\n1 2\n3 4\nloop_\n";
    assert_eq!(cif2_file(input), Err(CifError::EndOfInput));
}
