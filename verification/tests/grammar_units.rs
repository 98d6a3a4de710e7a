//! Unit tests of the individual grammar rules.

use cif_chomper::model::{RawDataItem, Span};
use cif_chomper::parser::{
    cif2_file, comment, data_loop, data_name, data_token, dv_inline_bare, dv_line_start,
    dv_quoted, dv_text_block, find_text_end, nospace_value, scan_non_blank,
    single_quoted_string, text_field, trailing_comment, triple_quoted_string,
    wsdelim_string_sol, wspace_data_value, wspace_lines, Outcome,
};

fn bytes_of(src: &[u8], sp: &Span) -> Vec<u8> {
    src[sp.start..sp.end].to_vec()
}

#[test]
fn comment_consumes_through_line_ending() {
    let input = b"#Asdiuybe9oniudbnfv   sieucvbn98\n";
    assert_eq!(comment(input, 0), Some(input.len()));
}

#[test]
fn comment_requires_line_ending() {
    let input = b"#Asdiuybe9oniudbnfv   sieucvbn98";
    assert_eq!(comment(input, 0), None);
    assert_eq!(trailing_comment(input, 0), Some(input.len()));
}

#[test]
fn data_token_is_case_insensitive() {
    assert!(data_token(b"DaTa_asdh8907hiuh", 0));
    assert!(data_token(b"data_x", 0));
    assert!(!data_token(b"datx_x", 0));
}

#[test]
fn non_blank_runs() {
    assert_eq!(scan_non_blank(b"asdhb87^TG*(&^Gsd78a6g   ", 0), 22);
    assert_eq!(scan_non_blank(b"asdhb87^TG*(&^Gsd78a6g", 0), 22);
    let input = "\u{f6}\u{b5}\tyy7893h4".as_bytes();
    assert_eq!(scan_non_blank(input, 0), 4);
    assert_eq!(scan_non_blank(b"  ashd87", 0), 0);
}

#[test]
fn text_end_is_line_anchored_semicolon() {
    assert_eq!(find_text_end(b"abc123\nxyz987\n;abc", 0), Some(13));
    assert_eq!(find_text_end(b"abc123\nxyz987", 0), None);
}

#[test]
fn text_field_strips_both_delimiters() {
    let input = b"\n;abc123\nxyz987\n;abc";
    let (sp, p) = text_field(input, 0).unwrap();
    assert_eq!(bytes_of(input, &sp), b"abc123\nxyz987");
    assert_eq!(p, 17);
    assert_eq!(&input[p..], b"abc");
}

#[test]
fn triple_quoted_keeps_inner_quotes() {
    let input = b"\"\"\"asdf  7' \n\t \"\"\"abc";
    let (sp, p) = triple_quoted_string(input, 0).unwrap();
    assert_eq!(bytes_of(input, &sp), b"asdf  7' \n\t ");
    assert_eq!(&input[p..], b"abc");

    let unterminated = b"\"\"\"asdf  7' \n\t \"\"a\"abc";
    assert_eq!(triple_quoted_string(unterminated, 0), None);

    let apo = b"'''asdf  7' \n\t '''abc";
    let (sp2, p2) = triple_quoted_string(apo, 0).unwrap();
    assert_eq!(bytes_of(apo, &sp2), b"asdf  7' \n\t ");
    assert_eq!(&apo[p2..], b"abc");
}

#[test]
fn data_name_needs_leading_underscore() {
    let input = b"_cif_field_item qwe rty";
    let (sp, p) = data_name(input, 0).unwrap();
    assert_eq!(bytes_of(input, &sp), b"_cif_field_item");
    assert_eq!(p, 15);
    assert_eq!(data_name(b"cif_field_item qwe rty", 0), None);
}

#[test]
fn single_quoted_value() {
    let input = b"'Lebedev, O. I.'\n";
    let (sp, p) = single_quoted_string(input, 0).unwrap();
    assert_eq!(bytes_of(input, &sp), b"Lebedev, O. I.");
    assert_eq!(p, 16);
    match nospace_value(input, 0, 16) {
        Outcome::Parsed(v, q) => {
            assert_eq!(q, 16);
            match v {
                cif_chomper::model::RawDataItemContent::Str(s) => {
                    assert_eq!(bytes_of(input, &s), b"Lebedev, O. I.")
                }
                other => panic!("expected a string value, got {:?}", other),
            }
        }
        other => panic!("expected a parse, got {:?}", other),
    }
}

#[test]
fn empty_single_quotes_are_no_value() {
    assert_eq!(single_quoted_string(b"''", 0), None);
    assert!(matches!(nospace_value(b"''", 0, 16), Outcome::NoMatch));
}

#[test]
fn loop_collects_names_and_values() {
    let input = b"loop_
_symmetry_equiv_pos_as_xyz
x,y,z
x,-y+1/4,-z+1/4
-x+1/4,y,-z+1/4
-x,-z+1/2,-y+1/2
-x,z+1/4,y+1/4
x+3/4,z+1/4,-y+1/2
x+3/4,-z+1/2,y+1/4
loop_
_atom_site_label,";
    let expected_values: [&[u8]; 7] = [
        b"x,y,z",
        b"x,-y+1/4,-z+1/4",
        b"-x+1/4,y,-z+1/4",
        b"-x,-z+1/2,-y+1/2",
        b"-x,z+1/4,y+1/4",
        b"x+3/4,z+1/4,-y+1/2",
        b"x+3/4,-z+1/2,y+1/4",
    ];
    match data_loop(input, 0, 16) {
        Outcome::Parsed(RawDataItem::Loop { names, values }, _) => {
            assert_eq!(names.len(), 1);
            assert_eq!(bytes_of(input, &names[0]), b"_symmetry_equiv_pos_as_xyz");
            assert_eq!(values.len(), expected_values.len());
            for (v, e) in values.iter().zip(expected_values.iter()) {
                match v {
                    cif_chomper::model::RawDataItemContent::Str(s) => {
                        assert_eq!(&bytes_of(input, s)[..], *e)
                    }
                    other => panic!("expected a string value, got {:?}", other),
                }
            }
        }
        other => panic!("expected a loop item, got {:?}", other),
    }
}

#[test]
fn dispatch_takes_quoted_value_across_lines() {
    let input = b"\n'Lebedev, O. I.'\n'Millange, F.'";
    match wspace_data_value(input, 0, 16) {
        Outcome::Parsed(cif_chomper::model::RawDataItemContent::Str(s), _) => {
            assert_eq!(bytes_of(input, &s), b"Lebedev, O. I.")
        }
        other => panic!("expected a string value, got {:?}", other),
    }
}

#[test]
fn dispatch_rejects_name_after_comment_line() {
    let input = b"\n#'F\\'erey, G.'\n_publ_section_title abcde";
    assert!(matches!(dv_quoted(input, 0, 16), Outcome::NoMatch));
    assert_eq!(dv_inline_bare(input, 0), None);
    assert_eq!(dv_line_start(input, 0), None);
    assert_eq!(dv_text_block(input, 0), None);
    assert!(matches!(wspace_data_value(input, 0, 16), Outcome::NoMatch));
}

#[test]
fn dispatch_takes_line_start_bare_token() {
    let input = b"\nx,y,z\nx,-y+1/4,-z+1/4";
    match wspace_data_value(input, 0, 16) {
        Outcome::Parsed(cif_chomper::model::RawDataItemContent::Str(s), _) => {
            assert_eq!(bytes_of(input, &s), b"x,y,z")
        }
        other => panic!("expected a string value, got {:?}", other),
    }
}

#[test]
fn line_start_token_after_blank_lines() {
    let input = b"\nx,y,z\nx,-y+1/4,-z+1/4";
    let p = wspace_lines(input, 0).unwrap();
    let (sp, q) = wsdelim_string_sol(input, p).unwrap();
    assert_eq!(bytes_of(input, &sp), b"x,y,z");
    assert_eq!(&input[q..], b"\nx,-y+1/4,-z+1/4");
}

#[test]
fn line_start_rejects_underscore_lead() {
    let input = b"\n#'F\\'erey, G.'\n_publ_section_title abcde";
    let p = wspace_lines(input, 0).unwrap();
    assert_eq!(wsdelim_string_sol(input, p), None);
}

#[test]
fn lone_semicolon_needs_following_space() {
    let input = b"; abc";
    let (sp, p) = wsdelim_string_sol(input, 0).unwrap();
    assert_eq!(bytes_of(input, &sp), b";");
    assert_eq!(p, 2);
    assert_eq!(wsdelim_string_sol(b";abc", 0), None);
}

#[test]
fn reserved_keywords_are_no_bare_tokens() {
    assert_eq!(cif_chomper::parser::wsdelim_string(b"loop_x y", 0), None);
    assert_eq!(cif_chomper::parser::wsdelim_string(b"GLOBAL_x y", 0), None);
    let (sp, _) = cif_chomper::parser::wsdelim_string(b"looped y", 0).unwrap();
    assert_eq!(bytes_of(b"looped y", &sp), b"looped");
}

#[test]
fn minimal_document_parses() {
    let ok = cif2_file(b"#\\#CIF_2.0\ndata_a\n_x 'y'\n");
    assert!(ok.is_ok());
}
