//! The executable recursive-descent parser.
//!
//! Each function mirrors one rule of the grammar in `grammar` and is proved
//! to return exactly what that rule denotes, so the whole parser is correct
//! by the top-level contract of `cif2_file`: its result equals the grammar's
//! denotation of the input bytes.

use crate::grammar;
use crate::grammar::SpecOutcome;
use crate::model::{
    lemma_deep_blocks_prepend, lemma_deep_blocks_singleton, lemma_deep_entries_prepend,
    lemma_deep_entries_singleton, lemma_deep_items_prepend, lemma_deep_items_singleton,
    lemma_deep_spans_prepend, lemma_deep_values_prepend, lemma_deep_values_singleton,
};
use crate::model::{
    lemma_blocks_wf_prepend, lemma_blocks_wf_singleton, lemma_entries_wf_prepend,
    lemma_entries_wf_singleton, lemma_items_wf_prepend, lemma_items_wf_singleton,
    lemma_spans_wf_prepend, lemma_values_wf_prepend, lemma_values_wf_singleton,
};
use crate::model::{
    spec_block_wf, spec_blocks_wf, spec_entries_wf, spec_item_wf, spec_items_wf,
    spec_model_wf, spec_spans_wf, spec_value_wf, spec_values_wf,
};
use crate::model::{
    deep_block, deep_blocks, deep_entries, deep_item, deep_items, deep_model, deep_spans,
    deep_value, deep_values,
};
use crate::model::{
    CifError, RawDataBlock, RawDataItem, RawDataItemContent, RawModel, Span, SpecBlock,
    SpecItem, SpecModel, SpecSpan, SpecValue,
};
use vstd::prelude::*;

verus! {

/// The nesting bound `cif2_file` parses with: ample for any real document,
/// small enough to keep recursion within the call stack.
pub const MAX_NESTING_DEPTH: usize = 128;

/// Result of one executable rule, mirroring `grammar::SpecOutcome`.
#[derive(Debug, PartialEq)]
pub enum Outcome<T> {
    Parsed(T, usize),
    NoMatch,
    TooDeep,
}

// ---------------------------------------------------------------------------
// Relating executable results to the grammar's outcomes
// ---------------------------------------------------------------------------
/// An executable cursor result denotes a mathematical one.
pub open spec fn pos_matches(r: Option<usize>, g: Option<int>) -> bool {
    match r {
        Some(p) => g == Some(p as int),
        None => g is None,
    }
}

/// An executable span result denotes a mathematical one.
pub open spec fn span_matches(r: Option<(Span, usize)>, g: Option<(SpecSpan, int)>) -> bool {
    match r {
        Some((sp, p)) => g == Some((sp@, p as int)),
        None => g is None,
    }
}

/// An executable value outcome denotes a mathematical one.
pub open spec fn value_matches(r: Outcome<RawDataItemContent>, g: SpecOutcome<SpecValue>) -> bool {
    match r {
        Outcome::Parsed(v, p) => g == SpecOutcome::Parsed(deep_value(v), p as int),
        Outcome::NoMatch => g is NoMatch,
        Outcome::TooDeep => g is TooDeep,
    }
}

/// An executable value-sequence outcome denotes a mathematical one.
pub open spec fn values_matches(
    r: Outcome<Vec<RawDataItemContent>>,
    g: SpecOutcome<Seq<SpecValue>>,
) -> bool {
    match r {
        Outcome::Parsed(vs, p) => g == SpecOutcome::Parsed(deep_values(vs@), p as int),
        Outcome::NoMatch => g is NoMatch,
        Outcome::TooDeep => g is TooDeep,
    }
}

/// An executable table-entry outcome denotes a mathematical one.
pub open spec fn entry_matches(
    r: Outcome<(RawDataItemContent, RawDataItemContent)>,
    g: SpecOutcome<(SpecValue, SpecValue)>,
) -> bool {
    match r {
        Outcome::Parsed(e, p) => g == SpecOutcome::Parsed(
            (deep_value(e.0), deep_value(e.1)),
            p as int,
        ),
        Outcome::NoMatch => g is NoMatch,
        Outcome::TooDeep => g is TooDeep,
    }
}

/// An executable item outcome denotes a mathematical one.
pub open spec fn item_matches(r: Outcome<RawDataItem>, g: SpecOutcome<SpecItem>) -> bool {
    match r {
        Outcome::Parsed(it, p) => g == SpecOutcome::Parsed(deep_item(it), p as int),
        Outcome::NoMatch => g is NoMatch,
        Outcome::TooDeep => g is TooDeep,
    }
}

/// An executable item-sequence outcome denotes a mathematical one.
pub open spec fn items_matches(r: Outcome<Vec<RawDataItem>>, g: SpecOutcome<Seq<SpecItem>>) -> bool {
    match r {
        Outcome::Parsed(its, p) => g == SpecOutcome::Parsed(deep_items(its@), p as int),
        Outcome::NoMatch => g is NoMatch,
        Outcome::TooDeep => g is TooDeep,
    }
}

/// An executable block outcome denotes a mathematical one.
pub open spec fn block_matches(r: Outcome<RawDataBlock>, g: SpecOutcome<SpecBlock>) -> bool {
    match r {
        Outcome::Parsed(b, p) => g == SpecOutcome::Parsed(deep_block(b), p as int),
        Outcome::NoMatch => g is NoMatch,
        Outcome::TooDeep => g is TooDeep,
    }
}

/// An executable block-sequence outcome denotes a mathematical one.
pub open spec fn blocks_matches(
    r: Outcome<Vec<RawDataBlock>>,
    g: SpecOutcome<Seq<SpecBlock>>,
) -> bool {
    match r {
        Outcome::Parsed(bs, p) => g == SpecOutcome::Parsed(deep_blocks(bs@), p as int),
        Outcome::NoMatch => g is NoMatch,
        Outcome::TooDeep => g is TooDeep,
    }
}

/// An executable parse result denotes the grammar's verdict on the file.
pub open spec fn model_result_matches(
    r: Result<RawModel, CifError>,
    g: Result<SpecModel, CifError>,
) -> bool {
    match r {
        Ok(m) => g == Ok::<SpecModel, CifError>(deep_model(m)),
        Err(e) => g == Err::<SpecModel, CifError>(e),
    }
}

// ---------------------------------------------------------------------------
// Character classes
// ---------------------------------------------------------------------------
/// Inline spacing: space or tab.
pub fn space_char(c: u8) -> (r: bool)
    ensures
        r == grammar::is_space(c),
{
    c == 0x20 || c == 0x09
}

/// A character that may appear in an unquoted run.
pub fn non_blank(c: u8) -> (r: bool)
    ensures
        r == grammar::is_non_blank(c),
{
    c != 0x20 && c != 0x09 && c != 0x0d && c != 0x0a
}

/// A non-blank character that is not a list/table bracket.
pub fn restrict_char(c: u8) -> (r: bool)
    ensures
        r == grammar::is_restrict(c),
{
    non_blank(c) && c != 0x5b && c != 0x5d && c != 0x7b && c != 0x7d
}

/// A character a bare token may begin with.
pub fn lead_char(c: u8) -> (r: bool)
    ensures
        r == grammar::is_lead(c),
{
    restrict_char(c) && c != 0x22 && c != 0x23 && c != 0x24 && c != 0x27 && c != 0x5f
}

/// ASCII lower-casing of one byte.
pub fn lower(c: u8) -> (r: u8)
    ensures
        r == grammar::to_lower(c),
{
    if 0x41 <= c && c <= 0x5a {
        c + 0x20
    } else {
        c
    }
}

// ---------------------------------------------------------------------------
// Scanners
// ---------------------------------------------------------------------------
/// Skips inline spaces.
pub fn scan_spaces(input: &[u8], pos: usize) -> (r: usize)
    requires
        pos <= input@.len(),
    ensures
        r as int == grammar::scan_spaces(input@, pos as int),
        pos <= r <= input@.len(),
    decreases input@.len() - pos,
{
    if pos < input.len() && space_char(input[pos]) {
        scan_spaces(input, pos + 1)
    } else {
        pos
    }
}

/// Skips non-blank characters.
pub fn scan_non_blank(input: &[u8], pos: usize) -> (r: usize)
    requires
        pos <= input@.len(),
    ensures
        r as int == grammar::scan_non_blank(input@, pos as int),
        pos <= r <= input@.len(),
    decreases input@.len() - pos,
{
    if pos < input.len() && non_blank(input[pos]) {
        scan_non_blank(input, pos + 1)
    } else {
        pos
    }
}

/// Skips restricted characters.
pub fn scan_restrict(input: &[u8], pos: usize) -> (r: usize)
    requires
        pos <= input@.len(),
    ensures
        r as int == grammar::scan_restrict(input@, pos as int),
        pos <= r <= input@.len(),
    decreases input@.len() - pos,
{
    if pos < input.len() && restrict_char(input[pos]) {
        scan_restrict(input, pos + 1)
    } else {
        pos
    }
}

/// Skips bytes other than `q`.
pub fn scan_not_byte(input: &[u8], pos: usize, q: u8) -> (r: usize)
    requires
        pos <= input@.len(),
    ensures
        r as int == grammar::scan_not_byte(input@, pos as int, q),
        pos <= r <= input@.len(),
    decreases input@.len() - pos,
{
    if pos < input.len() && input[pos] != q {
        scan_not_byte(input, pos + 1, q)
    } else {
        pos
    }
}

/// Skips bytes up to the next line-ending byte.
pub fn scan_not_crlf(input: &[u8], pos: usize) -> (r: usize)
    requires
        pos <= input@.len(),
    ensures
        r as int == grammar::scan_not_crlf(input@, pos as int),
        pos <= r <= input@.len(),
    decreases input@.len() - pos,
{
    if pos < input.len() && input[pos] != 0x0d && input[pos] != 0x0a {
        scan_not_crlf(input, pos + 1)
    } else {
        pos
    }
}

// ---------------------------------------------------------------------------
// Line endings, keywords and fixed tokens
// ---------------------------------------------------------------------------
/// Consumes one line ending.
pub fn line_ending(input: &[u8], pos: usize) -> (r: Option<usize>)
    requires
        pos <= input@.len(),
    ensures
        pos_matches(r, grammar::spec_line_ending(input@, pos as int)),
        r matches Some(p) ==> pos < p && p <= input@.len(),
{
    if pos < input.len() && input[pos] == 0x0a {
        Some(pos + 1)
    } else if input.len() - pos >= 2 && input[pos] == 0x0d && input[pos + 1] == 0x0a {
        Some(pos + 2)
    } else {
        None
    }
}

/// The `data_` keyword, case-insensitively.
pub fn data_token(input: &[u8], pos: usize) -> (r: bool)
    requires
        pos <= input@.len(),
    ensures
        r == grammar::spec_kw_data(input@, pos as int),
{
    input.len() - pos >= 5 && lower(input[pos]) == 0x64 && lower(input[pos + 1]) == 0x61
        && lower(input[pos + 2]) == 0x74 && lower(input[pos + 3]) == 0x61 && input[pos + 4]
        == 0x5f
}

/// The `save_` keyword, case-insensitively.
pub fn save_token(input: &[u8], pos: usize) -> (r: bool)
    requires
        pos <= input@.len(),
    ensures
        r == grammar::spec_kw_save(input@, pos as int),
{
    input.len() - pos >= 5 && lower(input[pos]) == 0x73 && lower(input[pos + 1]) == 0x61
        && lower(input[pos + 2]) == 0x76 && lower(input[pos + 3]) == 0x65 && input[pos + 4]
        == 0x5f
}

/// The `loop_` keyword, case-insensitively.
pub fn loop_token(input: &[u8], pos: usize) -> (r: bool)
    requires
        pos <= input@.len(),
    ensures
        r == grammar::spec_kw_loop(input@, pos as int),
{
    input.len() - pos >= 5 && lower(input[pos]) == 0x6c && lower(input[pos + 1]) == 0x6f
        && lower(input[pos + 2]) == 0x6f && lower(input[pos + 3]) == 0x70 && input[pos + 4]
        == 0x5f
}

/// The `global_` keyword, case-insensitively.
pub fn global_token(input: &[u8], pos: usize) -> (r: bool)
    requires
        pos <= input@.len(),
    ensures
        r == grammar::spec_kw_global(input@, pos as int),
{
    input.len() - pos >= 7 && lower(input[pos]) == 0x67 && lower(input[pos + 1]) == 0x6c
        && lower(input[pos + 2]) == 0x6f && lower(input[pos + 3]) == 0x62 && lower(
        input[pos + 4],
    ) == 0x61 && lower(input[pos + 5]) == 0x6c && input[pos + 6] == 0x5f
}

/// The `stop_` keyword, case-insensitively.
pub fn stop_token(input: &[u8], pos: usize) -> (r: bool)
    requires
        pos <= input@.len(),
    ensures
        r == grammar::spec_kw_stop(input@, pos as int),
{
    input.len() - pos >= 5 && lower(input[pos]) == 0x73 && lower(input[pos + 1]) == 0x74
        && lower(input[pos + 2]) == 0x6f && lower(input[pos + 3]) == 0x70 && input[pos + 4]
        == 0x5f
}

/// No reserved keyword begins here.
pub fn not_token(input: &[u8], pos: usize) -> (r: bool)
    requires
        pos <= input@.len(),
    ensures
        r == grammar::spec_not_reserved(input@, pos as int),
{
    !data_token(input, pos) && !save_token(input, pos) && !loop_token(input, pos)
        && !global_token(input, pos) && !stop_token(input, pos)
}

/// The exact magic header literal.
pub fn magic_code(input: &[u8], pos: usize) -> (r: bool)
    requires
        pos <= input@.len(),
    ensures
        r == grammar::spec_magic(input@, pos as int),
{
    input.len() - pos >= 10 && input[pos] == 0x23 && input[pos + 1] == 0x5c && input[pos + 2]
        == 0x23 && input[pos + 3] == 0x43 && input[pos + 4] == 0x49 && input[pos + 5] == 0x46
        && input[pos + 6] == 0x5f && input[pos + 7] == 0x32 && input[pos + 8] == 0x2e
        && input[pos + 9] == 0x30
}

/// A UTF-8 byte-order mark.
pub fn bom_mark(input: &[u8], pos: usize) -> (r: bool)
    requires
        pos <= input@.len(),
    ensures
        r == grammar::spec_bom(input@, pos as int),
{
    input.len() - pos >= 3 && input[pos] == 0xef && input[pos + 1] == 0xbb && input[pos + 2]
        == 0xbf
}

// ---------------------------------------------------------------------------
// Comments and whitespace
// ---------------------------------------------------------------------------
/// `#` through a mandatory line ending.
pub fn comment(input: &[u8], pos: usize) -> (r: Option<usize>)
    requires
        pos <= input@.len(),
    ensures
        pos_matches(r, grammar::spec_comment(input@, pos as int)),
        r matches Some(p) ==> pos < p && p <= input@.len(),
{
    if pos < input.len() && input[pos] == 0x23 {
        let e = scan_not_crlf(input, pos + 1);
        line_ending(input, e)
    } else {
        None
    }
}

/// `#` through the end of the line or of the input.
pub fn trailing_comment(input: &[u8], pos: usize) -> (r: Option<usize>)
    requires
        pos <= input@.len(),
    ensures
        pos_matches(r, grammar::spec_trailing_comment(input@, pos as int)),
        r matches Some(p) ==> pos < p && p <= input@.len(),
{
    if pos < input.len() && input[pos] == 0x23 {
        Some(scan_not_crlf(input, pos + 1))
    } else {
        None
    }
}

/// A comment or a bare line ending.
pub fn comment_or_eol(input: &[u8], pos: usize) -> (r: Option<usize>)
    requires
        pos <= input@.len(),
    ensures
        pos_matches(r, grammar::spec_comment_or_eol(input@, pos as int)),
        r matches Some(p) ==> pos < p && p <= input@.len(),
{
    match comment(input, pos) {
        Some(p) => Some(p),
        None => line_ending(input, pos),
    }
}

/// Optional inline spacing, then a comment-or-line-ending.
pub fn wspace_to_eol(input: &[u8], pos: usize) -> (r: Option<usize>)
    requires
        pos <= input@.len(),
    ensures
        pos_matches(r, grammar::spec_wspace_to_eol(input@, pos as int)),
        r matches Some(p) ==> pos < p && p <= input@.len(),
{
    comment_or_eol(input, scan_spaces(input, pos))
}

/// Zero or more blank-or-comment lines.
pub fn wspace_to_eol_star(input: &[u8], pos: usize) -> (r: usize)
    requires
        pos <= input@.len(),
    ensures
        r as int == grammar::spec_wspace_to_eol_star(input@, pos as int),
        pos <= r <= input@.len(),
    decreases input@.len() - pos,
{
    match wspace_to_eol(input, pos) {
        Some(p2) => if p2 > pos && p2 <= input.len() {
            wspace_to_eol_star(input, p2)
        } else {
            pos
        },
        None => pos,
    }
}

/// Loose skipping: blank/comment lines, then trailing inline spaces.
pub fn wspace_any(input: &[u8], pos: usize) -> (r: usize)
    requires
        pos <= input@.len(),
    ensures
        r as int == grammar::spec_wspace_any(input@, pos as int),
        pos <= r <= input@.len(),
{
    scan_spaces(input, wspace_to_eol_star(input, pos))
}

/// Skip to a fresh line start.
pub fn wspace_lines(input: &[u8], pos: usize) -> (r: Option<usize>)
    requires
        pos <= input@.len(),
    ensures
        pos_matches(r, grammar::spec_wspace_lines(input@, pos as int)),
        r matches Some(p) ==> pos < p && p <= input@.len(),
{
    let p1 = match comment(input, pos) {
        Some(p) => p,
        None => pos,
    };
    match line_ending(input, scan_spaces(input, p1)) {
        Some(p2) => Some(wspace_to_eol_star(input, p2)),
        None => None,
    }
}

/// The mandatory separator.
pub fn wspace(input: &[u8], pos: usize) -> (r: Option<usize>)
    requires
        pos <= input@.len(),
    ensures
        pos_matches(r, grammar::spec_wspace(input@, pos as int)),
        r matches Some(p) ==> pos < p && p <= input@.len(),
{
    let sp = scan_spaces(input, pos);
    if sp > pos {
        Some(wspace_any(input, sp))
    } else {
        match line_ending(input, pos) {
            Some(p2) => Some(wspace_any(input, p2)),
            None => None,
        }
    }
}

// ---------------------------------------------------------------------------
// Scalar value forms
// ---------------------------------------------------------------------------
/// Finds the next line-anchored `;`.
pub fn find_text_end(input: &[u8], pos: usize) -> (r: Option<usize>)
    requires
        pos <= input@.len(),
    ensures
        pos_matches(r, grammar::spec_find_text_end(input@, pos as int)),
        r matches Some(i) ==> pos <= i && i + 2 <= input@.len(),
    decreases input@.len() - pos,
{
    if input.len() - pos < 2 {
        None
    } else if input[pos] == 0x0a && input[pos + 1] == 0x3b {
        Some(pos)
    } else {
        find_text_end(input, pos + 1)
    }
}

/// A text block between two line-anchored `;` delimiters.
pub fn text_field(input: &[u8], pos: usize) -> (r: Option<(Span, usize)>)
    requires
        pos <= input@.len(),
    ensures
        span_matches(r, grammar::spec_text_field(input@, pos as int)),
        r matches Some((_, p)) ==> pos < p && p <= input@.len(),
        r matches Some((sp, _)) ==> sp@.wf(input@.len() as int),
{
    match line_ending(input, pos) {
        None => None,
        Some(p1) => if p1 < input.len() && input[p1] == 0x3b {
            match find_text_end(input, p1 + 1) {
                None => None,
                Some(i) => Some((Span { start: p1 + 1, end: i }, i + 2)),
            }
        } else {
            None
        },
    }
}

/// Finds the next triple `q` delimiter.
pub fn find_triple(input: &[u8], pos: usize, q: u8) -> (r: Option<usize>)
    requires
        pos <= input@.len(),
    ensures
        pos_matches(r, grammar::spec_find_triple(input@, pos as int, q)),
        r matches Some(i) ==> pos <= i && i + 3 <= input@.len(),
    decreases input@.len() - pos,
{
    if input.len() - pos < 3 {
        None
    } else if input[pos] == q && input[pos + 1] == q && input[pos + 2] == q {
        Some(pos)
    } else {
        find_triple(input, pos + 1, q)
    }
}

/// A triple-quoted string with quote byte `q`.
pub fn triple_string(input: &[u8], pos: usize, q: u8) -> (r: Option<(Span, usize)>)
    requires
        pos <= input@.len(),
    ensures
        span_matches(r, grammar::spec_triple(input@, pos as int, q)),
        r matches Some((_, p)) ==> pos < p && p <= input@.len(),
        r matches Some((sp, _)) ==> sp@.wf(input@.len() as int),
{
    if input.len() - pos >= 3 && input[pos] == q && input[pos + 1] == q && input[pos + 2] == q {
        match find_triple(input, pos + 3, q) {
            None => None,
            Some(i) => Some((Span { start: pos + 3, end: i }, i + 3)),
        }
    } else {
        None
    }
}

/// Either triple-quoted form, double quotes tried first.
pub fn triple_quoted_string(input: &[u8], pos: usize) -> (r: Option<(Span, usize)>)
    requires
        pos <= input@.len(),
    ensures
        span_matches(r, grammar::spec_triple_quoted(input@, pos as int)),
        r matches Some((_, p)) ==> pos < p && p <= input@.len(),
        r matches Some((sp, _)) ==> sp@.wf(input@.len() as int),
{
    match triple_string(input, pos, 0x22) {
        Some(r) => Some(r),
        None => triple_string(input, pos, 0x27),
    }
}

/// A single-quoted string with quote byte `q`.
pub fn single_string(input: &[u8], pos: usize, q: u8) -> (r: Option<(Span, usize)>)
    requires
        pos <= input@.len(),
    ensures
        span_matches(r, grammar::spec_single(input@, pos as int, q)),
        r matches Some((_, p)) ==> pos < p && p <= input@.len(),
        r matches Some((sp, _)) ==> sp@.wf(input@.len() as int),
{
    if pos < input.len() && input[pos] == q {
        let e = scan_not_byte(input, pos + 1, q);
        if e > pos + 1 && e < input.len() {
            Some((Span { start: pos + 1, end: e }, e + 1))
        } else {
            None
        }
    } else {
        None
    }
}

/// Either single-quoted form, double quotes tried first.
pub fn single_quoted_string(input: &[u8], pos: usize) -> (r: Option<(Span, usize)>)
    requires
        pos <= input@.len(),
    ensures
        span_matches(r, grammar::spec_single_quoted(input@, pos as int)),
        r matches Some((_, p)) ==> pos < p && p <= input@.len(),
        r matches Some((sp, _)) ==> sp@.wf(input@.len() as int),
{
    match single_string(input, pos, 0x22) {
        Some(r) => Some(r),
        None => single_string(input, pos, 0x27),
    }
}

/// A bare token.
pub fn wsdelim_string(input: &[u8], pos: usize) -> (r: Option<(Span, usize)>)
    requires
        pos <= input@.len(),
    ensures
        span_matches(r, grammar::spec_wsdelim_string(input@, pos as int)),
        r matches Some((_, p)) ==> pos < p && p <= input@.len(),
        r matches Some((sp, _)) ==> sp@.wf(input@.len() as int),
{
    if not_token(input, pos) && pos < input.len() && lead_char(input[pos]) {
        let e = scan_restrict(input, pos);
        if e > pos {
            Some((Span { start: pos, end: e }, e))
        } else {
            None
        }
    } else {
        None
    }
}

/// A bare token at a forced line start, where a lone `;` plus inline space
/// is itself a value.
pub fn wsdelim_string_sol(input: &[u8], pos: usize) -> (r: Option<(Span, usize)>)
    requires
        pos <= input@.len(),
    ensures
        span_matches(r, grammar::spec_wsdelim_string_sol(input@, pos as int)),
        r matches Some((_, p)) ==> pos < p && p <= input@.len(),
        r matches Some((sp, _)) ==> sp@.wf(input@.len() as int),
{
    if not_token(input, pos) && pos < input.len() && lead_char(input[pos]) {
        if input[pos] == 0x3b {
            let e = scan_spaces(input, pos + 1);
            if e > pos + 1 {
                Some((Span { start: pos, end: pos + 1 }, e))
            } else {
                None
            }
        } else {
            let e = scan_restrict(input, pos);
            if e > pos {
                Some((Span { start: pos, end: e }, e))
            } else {
                None
            }
        }
    } else {
        None
    }
}

/// A data name: `_` and the rest of its non-blank run.
pub fn data_name(input: &[u8], pos: usize) -> (r: Option<(Span, usize)>)
    requires
        pos <= input@.len(),
    ensures
        span_matches(r, grammar::spec_data_name(input@, pos as int)),
        r matches Some((_, p)) ==> pos <= p && p <= input@.len(),
        r matches Some((sp, _)) ==> sp@.wf(input@.len() as int),
{
    if pos < input.len() && input[pos] == 0x5f {
        let e = scan_non_blank(input, pos);
        Some((Span { start: pos, end: e }, e))
    } else {
        None
    }
}

/// A container code: a non-empty non-blank run.
pub fn container_code(input: &[u8], pos: usize) -> (r: Option<(Span, usize)>)
    requires
        pos <= input@.len(),
    ensures
        span_matches(r, grammar::spec_container_code(input@, pos as int)),
        r matches Some((_, p)) ==> pos < p && p <= input@.len(),
        r matches Some((sp, _)) ==> sp@.wf(input@.len() as int),
{
    let e = scan_non_blank(input, pos);
    if e > pos {
        Some((Span { start: pos, end: e }, e))
    } else {
        None
    }
}

// ---------------------------------------------------------------------------
// Composite values
// ---------------------------------------------------------------------------
/// A value with no leading whitespace: quoted forms, then list, then table.
pub fn nospace_value(input: &[u8], pos: usize, depth: usize) -> (r: Outcome<RawDataItemContent>)
    requires
        pos <= input@.len(),
    ensures
        value_matches(r, grammar::spec_nospace_value(input@, pos as int, depth as nat)),
        r matches Outcome::Parsed(_, p) ==> pos < p && p <= input@.len(),
        r matches Outcome::Parsed(v, _) ==> spec_value_wf(v, input@.len() as int),
    decreases input@.len() - pos, 1int,
{
    match single_quoted_string(input, pos) {
        Some((sp, p)) => Outcome::Parsed(RawDataItemContent::Str(sp), p),
        None => match triple_quoted_string(input, pos) {
            Some((sp, p)) => Outcome::Parsed(RawDataItemContent::Str(sp), p),
            None => match list(input, pos, depth) {
                Outcome::NoMatch => table(input, pos, depth),
                r2 => r2,
            },
        },
    }
}

/// A list value.
pub fn list(input: &[u8], pos: usize, depth: usize) -> (r: Outcome<RawDataItemContent>)
    requires
        pos <= input@.len(),
    ensures
        value_matches(r, grammar::spec_list(input@, pos as int, depth as nat)),
        r matches Outcome::Parsed(_, p) ==> pos < p && p <= input@.len(),
        r matches Outcome::Parsed(v, _) ==> spec_value_wf(v, input@.len() as int),
    decreases input@.len() - pos, 0int,
{
    if !(pos < input.len() && input[pos] == 0x5b) {
        Outcome::NoMatch
    } else if depth == 0 {
        Outcome::TooDeep
    } else {
        let inner = depth - 1;
        let p1 = pos + 1;
        match list_values_start(input, p1, inner) {
            Outcome::TooDeep => Outcome::TooDeep,
            Outcome::NoMatch => list_close(input, None, p1, inner),
            Outcome::Parsed(v, p2) => if p1 <= p2 && p2 <= input.len() {
                list_close(input, Some(v), p2, inner)
            } else {
                Outcome::NoMatch
            },
        }
    }
}

/// The remainder of a list after its optional first value.
pub fn list_close(
    input: &[u8],
    first: Option<RawDataItemContent>,
    p: usize,
    depth: usize,
) -> (r: Outcome<RawDataItemContent>)
    requires
        p <= input@.len(),
        first matches Some(v) ==> spec_value_wf(v, input@.len() as int),
    ensures
        value_matches(
            r,
            grammar::spec_list_close(
                input@,
                match first {
                    None => None,
                    Some(v) => Some(deep_value(v)),
                },
                p as int,
                depth as nat,
            ),
        ),
        r matches Outcome::Parsed(_, q) ==> p < q && q <= input@.len(),
        r matches Outcome::Parsed(v, _) ==> spec_value_wf(v, input@.len() as int),
    decreases input@.len() - p, 3int,
{
    match value_star(input, p, depth) {
        Outcome::TooDeep => Outcome::TooDeep,
        Outcome::NoMatch => Outcome::NoMatch,
        Outcome::Parsed(vs, p3) => {
            let p4 = wspace_any(input, scan_spaces(input, p3));
            if p4 < input.len() && input[p4] == 0x5d {
                match first {
                    None => Outcome::Parsed(RawDataItemContent::List(vs), p4 + 1),
                    Some(v) => {
                        proof {
                            lemma_deep_values_prepend(vs@, v);
                            lemma_values_wf_prepend(vs@, v, input@.len() as int);
                        }
                        let mut vs2 = vs;
                        vs2.insert(0, v);
                        Outcome::Parsed(RawDataItemContent::List(vs2), p4 + 1)
                    },
                }
            } else {
                Outcome::NoMatch
            }
        },
    }
}

/// The first value of a list.
pub fn list_values_start(input: &[u8], pos: usize, depth: usize) -> (r: Outcome<
    RawDataItemContent,
>)
    requires
        pos <= input@.len(),
    ensures
        value_matches(r, grammar::spec_list_values_start(input@, pos as int, depth as nat)),
        r matches Outcome::Parsed(_, p) ==> p <= input@.len(),
        r matches Outcome::Parsed(v, _) ==> spec_value_wf(v, input@.len() as int),
    decreases input@.len() - pos, 2int,
{
    let pa = wspace_any(input, pos);
    if pa >= pos && pa <= input.len() {
        match nospace_value(input, pa, depth) {
            Outcome::TooDeep => Outcome::TooDeep,
            Outcome::Parsed(v, p) => Outcome::Parsed(v, p),
            Outcome::NoMatch => {
                let pb = match comment(input, pa) {
                    Some(p) => p,
                    None => pa,
                };
                match text_field(input, pb) {
                    Some((sp, p)) => Outcome::Parsed(RawDataItemContent::Str(sp), p),
                    None => match wsdelim_string(input, pa) {
                        Some((sp, p)) => Outcome::Parsed(RawDataItemContent::Str(sp), p),
                        None => match wspace_to_eol(input, pos) {
                            Some(q1) => if q1 > pos && q1 <= input.len() {
                                match wsdelim_string_sol(
                                    input,
                                    wspace_to_eol_star(input, q1),
                                ) {
                                    Some((sp, p)) => Outcome::Parsed(
                                        RawDataItemContent::Str(sp),
                                        p,
                                    ),
                                    None => Outcome::NoMatch,
                                }
                            } else {
                                Outcome::NoMatch
                            },
                            None => Outcome::NoMatch,
                        },
                    },
                }
            },
        }
    } else {
        Outcome::NoMatch
    }
}

/// Zero or more whitespace-governed values.
pub fn value_star(input: &[u8], pos: usize, depth: usize) -> (r: Outcome<Vec<RawDataItemContent>>)
    requires
        pos <= input@.len(),
    ensures
        values_matches(r, grammar::spec_value_star(input@, pos as int, depth as nat)),
        r matches Outcome::Parsed(_, p) ==> pos <= p && p <= input@.len(),
        r matches Outcome::Parsed(vs, _) ==> spec_values_wf(vs@, input@.len() as int),
    decreases input@.len() - pos, 2int,
{
    match wspace_data_value(input, pos, depth) {
        Outcome::TooDeep => Outcome::TooDeep,
        Outcome::NoMatch => Outcome::Parsed(Vec::new(), pos),
        Outcome::Parsed(v, p2) => if p2 > pos && p2 <= input.len() {
            match value_star(input, p2, depth) {
                Outcome::TooDeep => Outcome::TooDeep,
                Outcome::Parsed(vs, p3) => {
                    proof {
                        lemma_deep_values_prepend(vs@, v);
                        lemma_values_wf_prepend(vs@, v, input@.len() as int);
                    }
                    let mut vs2 = vs;
                    vs2.insert(0, v);
                    Outcome::Parsed(vs2, p3)
                },
                Outcome::NoMatch => {
                    proof {
                        lemma_deep_values_singleton(v);
                        lemma_values_wf_singleton(v, input@.len() as int);
                    }
                    let mut vs2 = Vec::new();
                    vs2.push(v);
                    Outcome::Parsed(vs2, p2)
                },
            }
        } else {
            Outcome::Parsed(Vec::new(), pos)
        },
    }
}

/// A table value.
pub fn table(input: &[u8], pos: usize, depth: usize) -> (r: Outcome<RawDataItemContent>)
    requires
        pos <= input@.len(),
    ensures
        value_matches(r, grammar::spec_table(input@, pos as int, depth as nat)),
        r matches Outcome::Parsed(_, p) ==> pos < p && p <= input@.len(),
        r matches Outcome::Parsed(v, _) ==> spec_value_wf(v, input@.len() as int),
    decreases input@.len() - pos, 0int,
{
    if !(pos < input.len() && input[pos] == 0x7b) {
        Outcome::NoMatch
    } else if depth == 0 {
        Outcome::TooDeep
    } else {
        let inner = depth - 1;
        let p1 = wspace_any(input, pos + 1);
        if p1 > pos && p1 <= input.len() {
            match table_entry(input, p1, inner) {
                Outcome::TooDeep => Outcome::TooDeep,
                Outcome::NoMatch => if p1 < input.len() && input[p1] == 0x7d {
                    Outcome::Parsed(RawDataItemContent::Table(Vec::new()), p1 + 1)
                } else {
                    Outcome::NoMatch
                },
                Outcome::Parsed(ent, p2) => if p2 > p1 && p2 <= input.len() {
                    match table_tail(input, p2, inner) {
                        Outcome::TooDeep => Outcome::TooDeep,
                        Outcome::NoMatch => Outcome::NoMatch,
                        Outcome::Parsed(ents, p3) => {
                            let p4 = wspace_any(input, p3);
                            if p4 < input.len() && input[p4] == 0x7d {
                                proof {
                                    lemma_deep_entries_prepend(ents@, ent);
                                    lemma_entries_wf_prepend(ents@, ent, input@.len() as int);
                                }
                                let mut es = ents;
                                es.insert(0, ent);
                                Outcome::Parsed(RawDataItemContent::Table(es), p4 + 1)
                            } else {
                                Outcome::NoMatch
                            }
                        },
                    }
                } else {
                    Outcome::NoMatch
                },
            }
        } else {
            Outcome::NoMatch
        }
    }
}

/// Zero or more further table entries.
pub fn table_tail(input: &[u8], pos: usize, depth: usize) -> (r: Outcome<
    Vec<(RawDataItemContent, RawDataItemContent)>,
>)
    requires
        pos <= input@.len(),
    ensures
        ({
            let g = grammar::spec_table_tail(input@, pos as int, depth as nat);
            match r {
                Outcome::Parsed(es, p) => g == SpecOutcome::Parsed(
                    deep_entries(es@),
                    p as int,
                ),
                Outcome::NoMatch => g is NoMatch,
                Outcome::TooDeep => g is TooDeep,
            }
        }),
        r matches Outcome::Parsed(_, p) ==> pos <= p && p <= input@.len(),
        r matches Outcome::Parsed(es, _) ==> spec_entries_wf(es@, input@.len() as int),
    decreases input@.len() - pos, 1int,
{
    let p1 = wspace_any(input, pos);
    if p1 >= pos && p1 <= input.len() {
        match table_entry(input, p1, depth) {
            Outcome::TooDeep => Outcome::TooDeep,
            Outcome::NoMatch => Outcome::Parsed(Vec::new(), pos),
            Outcome::Parsed(ent, p2) => if p2 > pos && p2 <= input.len() {
                match table_tail(input, p2, depth) {
                    Outcome::TooDeep => Outcome::TooDeep,
                    Outcome::NoMatch => {
                        proof {
                            lemma_deep_entries_singleton(ent);
                            lemma_entries_wf_singleton(ent, input@.len() as int);
                        }
                        let mut es = Vec::new();
                        es.push(ent);
                        Outcome::Parsed(es, p2)
                    },
                    Outcome::Parsed(ents, p3) => {
                        proof {
                            lemma_deep_entries_prepend(ents@, ent);
                            lemma_entries_wf_prepend(ents@, ent, input@.len() as int);
                        }
                        let mut es = ents;
                        es.insert(0, ent);
                        Outcome::Parsed(es, p3)
                    },
                }
            } else {
                Outcome::Parsed(Vec::new(), pos)
            },
        }
    } else {
        Outcome::Parsed(Vec::new(), pos)
    }
}

/// One table entry: quoted key, `:`, value.
pub fn table_entry(input: &[u8], pos: usize, depth: usize) -> (r: Outcome<
    (RawDataItemContent, RawDataItemContent),
>)
    requires
        pos <= input@.len(),
    ensures
        entry_matches(r, grammar::spec_table_entry(input@, pos as int, depth as nat)),
        r matches Outcome::Parsed(_, p) ==> pos < p && p <= input@.len(),
        r matches Outcome::Parsed(e, _) ==> spec_value_wf(e.0, input@.len() as int) && spec_value_wf(e.1, input@.len() as int),
    decreases input@.len() - pos, 0int,
{
    let key = match single_quoted_string(input, pos) {
        Some(k) => Some(k),
        None => triple_quoted_string(input, pos),
    };
    match key {
        None => Outcome::NoMatch,
        Some((ksp, p2)) => if p2 > pos && p2 < input.len() && input[p2] == 0x3a {
            let p3 = p2 + 1;
            match nospace_value(input, p3, depth) {
                Outcome::TooDeep => Outcome::TooDeep,
                Outcome::Parsed(v, p4) => Outcome::Parsed(
                    (RawDataItemContent::Str(ksp), v),
                    p4,
                ),
                Outcome::NoMatch => match wsdelim_string(input, p3) {
                    Some((sp, p4)) => Outcome::Parsed(
                        (RawDataItemContent::Str(ksp), RawDataItemContent::Str(sp)),
                        p4,
                    ),
                    None => match wspace_data_value(input, p3, depth) {
                        Outcome::TooDeep => Outcome::TooDeep,
                        Outcome::NoMatch => Outcome::NoMatch,
                        Outcome::Parsed(v, p4) => Outcome::Parsed(
                            (RawDataItemContent::Str(ksp), v),
                            p4,
                        ),
                    },
                },
            }
        } else {
            Outcome::NoMatch
        },
    }
}

/// The whitespace-governed value dispatch.
pub fn wspace_data_value(input: &[u8], pos: usize, depth: usize) -> (r: Outcome<
    RawDataItemContent,
>)
    requires
        pos <= input@.len(),
    ensures
        value_matches(r, grammar::spec_wspace_data_value(input@, pos as int, depth as nat)),
        r matches Outcome::Parsed(_, p) ==> pos < p && p <= input@.len(),
        r matches Outcome::Parsed(v, _) ==> spec_value_wf(v, input@.len() as int),
    decreases input@.len() - pos, 1int,
{
    match dv_quoted(input, pos, depth) {
        Outcome::TooDeep => Outcome::TooDeep,
        Outcome::Parsed(v, p) => Outcome::Parsed(v, p),
        Outcome::NoMatch => match dv_inline_bare(input, pos) {
            Some((sp, p)) => Outcome::Parsed(RawDataItemContent::Str(sp), p),
            None => match dv_line_start(input, pos) {
                Some((sp, p)) => Outcome::Parsed(RawDataItemContent::Str(sp), p),
                None => match dv_text_block(input, pos) {
                    Some((sp, p)) => Outcome::Parsed(RawDataItemContent::Str(sp), p),
                    None => Outcome::NoMatch,
                },
            },
        },
    }
}

/// First alternative: mandatory separator, then a quoted/composite value.
pub fn dv_quoted(input: &[u8], pos: usize, depth: usize) -> (r: Outcome<RawDataItemContent>)
    requires
        pos <= input@.len(),
    ensures
        value_matches(r, grammar::spec_dv_quoted(input@, pos as int, depth as nat)),
        r matches Outcome::Parsed(_, p) ==> pos < p && p <= input@.len(),
        r matches Outcome::Parsed(v, _) ==> spec_value_wf(v, input@.len() as int),
    decreases input@.len() - pos, 0int,
{
    match wspace(input, pos) {
        None => Outcome::NoMatch,
        Some(p2) => if p2 > pos && p2 <= input.len() {
            nospace_value(input, p2, depth)
        } else {
            Outcome::NoMatch
        },
    }
}

/// Second alternative: optional blank lines, one inline space, a bare token.
pub fn dv_inline_bare(input: &[u8], pos: usize) -> (r: Option<(Span, usize)>)
    requires
        pos <= input@.len(),
    ensures
        span_matches(r, grammar::spec_dv_inline_bare(input@, pos as int)),
        r matches Some((_, p)) ==> pos < p && p <= input@.len(),
        r matches Some((sp, _)) ==> sp@.wf(input@.len() as int),
{
    let p1 = match wspace_lines(input, pos) {
        Some(p) => p,
        None => pos,
    };
    let p2 = scan_spaces(input, p1);
    if p2 > p1 {
        wsdelim_string(input, p2)
    } else {
        None
    }
}

/// Third alternative: a forced fresh line start, then a start-of-line token.
pub fn dv_line_start(input: &[u8], pos: usize) -> (r: Option<(Span, usize)>)
    requires
        pos <= input@.len(),
    ensures
        span_matches(r, grammar::spec_dv_line_start(input@, pos as int)),
        r matches Some((_, p)) ==> pos < p && p <= input@.len(),
        r matches Some((sp, _)) ==> sp@.wf(input@.len() as int),
{
    match wspace_lines(input, pos) {
        Some(p1) => wsdelim_string_sol(input, p1),
        None => None,
    }
}

/// Fourth alternative: optional spaces and comment, then a text block.
pub fn dv_text_block(input: &[u8], pos: usize) -> (r: Option<(Span, usize)>)
    requires
        pos <= input@.len(),
    ensures
        span_matches(r, grammar::spec_dv_text_block(input@, pos as int)),
        r matches Some((_, p)) ==> pos < p && p <= input@.len(),
        r matches Some((sp, _)) ==> sp@.wf(input@.len() as int),
{
    let p1 = scan_spaces(input, pos);
    let p2 = match comment(input, p1) {
        Some(p) => p,
        None => p1,
    };
    text_field(input, p2)
}

// ---------------------------------------------------------------------------
// Data items
// ---------------------------------------------------------------------------
/// A scalar data item.
pub fn data_scalar(input: &[u8], pos: usize, depth: usize) -> (r: Outcome<RawDataItem>)
    requires
        pos <= input@.len(),
    ensures
        item_matches(r, grammar::spec_data_scalar(input@, pos as int, depth as nat)),
        r matches Outcome::Parsed(_, p) ==> pos < p && p <= input@.len(),
        r matches Outcome::Parsed(it, _) ==> spec_item_wf(it, input@.len() as int),
{
    match data_name(input, pos) {
        None => Outcome::NoMatch,
        Some((name, p2)) => if p2 > pos && p2 <= input.len() {
            match wspace_data_value(input, p2, depth) {
                Outcome::TooDeep => Outcome::TooDeep,
                Outcome::NoMatch => Outcome::NoMatch,
                Outcome::Parsed(v, p3) => Outcome::Parsed(
                    RawDataItem::Data { name, value: v },
                    p3,
                ),
            }
        } else {
            Outcome::NoMatch
        },
    }
}

/// Further loop column names.
pub fn names_star(input: &[u8], pos: usize) -> (r: (Vec<Span>, usize))
    requires
        pos <= input@.len(),
    ensures
        ({
            let g = grammar::spec_names_star(input@, pos as int);
            deep_spans(r.0@) == g.0 && r.1 as int == g.1
        }),
        pos <= r.1 && r.1 <= input@.len(),
        spec_spans_wf(r.0@, input@.len() as int),
    decreases input@.len() - pos,
{
    match wspace(input, pos) {
        None => (Vec::new(), pos),
        Some(p1) => if p1 > pos && p1 <= input.len() {
            match data_name(input, p1) {
                None => (Vec::new(), pos),
                Some((n, p2)) => if p2 > pos && p2 <= input.len() {
                    let pair = names_star(input, p2);
                    proof {
                        lemma_deep_spans_prepend(pair.0@, n);
                        lemma_spans_wf_prepend(pair.0@, n, input@.len() as int);
                    }
                    let mut ns = pair.0;
                    ns.insert(0, n);
                    (ns, pair.1)
                } else {
                    (Vec::new(), pos)
                },
            }
        } else {
            (Vec::new(), pos)
        },
    }
}

/// A loop item: `loop_`, its column names, then the flattened value stream.
pub fn data_loop(input: &[u8], pos: usize, depth: usize) -> (r: Outcome<RawDataItem>)
    requires
        pos <= input@.len(),
    ensures
        item_matches(r, grammar::spec_data_loop(input@, pos as int, depth as nat)),
        r matches Outcome::Parsed(_, p) ==> pos < p && p <= input@.len(),
        r matches Outcome::Parsed(it, _) ==> spec_item_wf(it, input@.len() as int),
{
    if !loop_token(input, pos) {
        Outcome::NoMatch
    } else {
        proof {
            vstd::slice::axiom_spec_len::<u8>(input);
        }
        match wspace(input, pos + 5) {
            None => Outcome::NoMatch,
            Some(p1) => if p1 > pos && p1 <= input.len() {
                match data_name(input, p1) {
                    None => Outcome::NoMatch,
                    Some((n1, p2)) => if p2 > pos && p2 <= input.len() {
                        let pair = names_star(input, p2);
                        let p3 = pair.1;
                        if p3 >= p2 && p3 <= input.len() {
                            match wspace_data_value(input, p3, depth) {
                                Outcome::TooDeep => Outcome::TooDeep,
                                Outcome::NoMatch => Outcome::NoMatch,
                                Outcome::Parsed(v1, p4) => if p4 > p3 && p4 <= input.len() {
                                    match value_star(input, p4, depth) {
                                        Outcome::TooDeep => Outcome::TooDeep,
                                        Outcome::NoMatch => Outcome::NoMatch,
                                        Outcome::Parsed(vs, p5) => {
                                            proof {
                                                lemma_deep_spans_prepend(pair.0@, n1);
                                                lemma_deep_values_prepend(vs@, v1);
                                                lemma_spans_wf_prepend(pair.0@, n1, input@.len() as int);
                                                lemma_values_wf_prepend(vs@, v1, input@.len() as int);
                                            }
                                            let mut ns = pair.0;
                                            ns.insert(0, n1);
                                            let mut vals = vs;
                                            vals.insert(0, v1);
                                            Outcome::Parsed(
                                                RawDataItem::Loop {
                                                    names: ns,
                                                    values: vals,
                                                },
                                                p5,
                                            )
                                        },
                                    }
                                } else {
                                    Outcome::NoMatch
                                },
                            }
                        } else {
                            Outcome::NoMatch
                        }
                    } else {
                        Outcome::NoMatch
                    },
                }
            } else {
                Outcome::NoMatch
            },
        }
    }
}

/// A generic data item: the scalar form, then the loop form.
pub fn data(input: &[u8], pos: usize, depth: usize) -> (r: Outcome<RawDataItem>)
    requires
        pos <= input@.len(),
    ensures
        item_matches(r, grammar::spec_data(input@, pos as int, depth as nat)),
        r matches Outcome::Parsed(_, p) ==> pos < p && p <= input@.len(),
        r matches Outcome::Parsed(it, _) ==> spec_item_wf(it, input@.len() as int),
{
    match data_scalar(input, pos, depth) {
        Outcome::NoMatch => data_loop(input, pos, depth),
        r2 => r2,
    }
}

// ---------------------------------------------------------------------------
// Containers
// ---------------------------------------------------------------------------
/// Zero or more separator-prefixed items inside a save frame.
#[verifier::rlimit(50)]
pub fn frame_star(input: &[u8], pos: usize, depth: usize) -> (r: Outcome<Vec<RawDataItem>>)
    requires
        pos <= input@.len(),
    ensures
        items_matches(r, grammar::spec_frame_star(input@, pos as int, depth as nat)),
        r matches Outcome::Parsed(_, p) ==> pos <= p && p <= input@.len(),
        r matches Outcome::Parsed(its, _) ==> spec_items_wf(its@, input@.len() as int),
    decreases input@.len() - pos,
{
    match wspace(input, pos) {
        None => Outcome::Parsed(Vec::new(), pos),
        Some(p1) => if p1 > pos && p1 <= input.len() {
            match data(input, p1, depth) {
                Outcome::TooDeep => Outcome::TooDeep,
                Outcome::NoMatch => Outcome::Parsed(Vec::new(), pos),
                Outcome::Parsed(it, p2) => if p2 > pos && p2 <= input.len() {
                    match frame_star(input, p2, depth) {
                        Outcome::TooDeep => Outcome::TooDeep,
                        Outcome::NoMatch => {
                            proof {
                                lemma_deep_items_singleton(it);
                                lemma_items_wf_singleton(it, input@.len() as int);
                            }
                            let mut its = Vec::new();
                            its.push(it);
                            Outcome::Parsed(its, p2)
                        },
                        Outcome::Parsed(items, p3) => {
                            proof {
                                lemma_deep_items_prepend(items@, it);
                                lemma_items_wf_prepend(items@, it, input@.len() as int);
                            }
                            let mut its = items;
                            its.insert(0, it);
                            Outcome::Parsed(its, p3)
                        },
                    }
                } else {
                    Outcome::Parsed(Vec::new(), pos)
                },
            }
        } else {
            Outcome::Parsed(Vec::new(), pos)
        },
    }
}

/// A save frame heading: `save_` plus the frame name.
pub fn save_heading(input: &[u8], pos: usize) -> (r: Option<(Span, usize)>)
    requires
        pos <= input@.len(),
    ensures
        span_matches(r, grammar::spec_save_heading(input@, pos as int)),
        r matches Some((_, p)) ==> pos < p && p <= input@.len(),
        r matches Some((sp, _)) ==> sp@.wf(input@.len() as int),
{
    if save_token(input, pos) {
        proof {
            vstd::slice::axiom_spec_len::<u8>(input);
        }
        container_code(input, pos + 5)
    } else {
        None
    }
}

/// A save frame.
pub fn save_frame(input: &[u8], pos: usize, depth: usize) -> (r: Outcome<RawDataItem>)
    requires
        pos <= input@.len(),
    ensures
        item_matches(r, grammar::spec_save_frame(input@, pos as int, depth as nat)),
        r matches Outcome::Parsed(_, p) ==> pos < p && p <= input@.len(),
        r matches Outcome::Parsed(it, _) ==> spec_item_wf(it, input@.len() as int),
{
    match save_heading(input, pos) {
        None => Outcome::NoMatch,
        Some((name, p1)) => match frame_star(input, p1, depth) {
            Outcome::TooDeep => Outcome::TooDeep,
            Outcome::NoMatch => Outcome::NoMatch,
            Outcome::Parsed(items, p2) => match wspace(input, p2) {
                None => Outcome::NoMatch,
                Some(p3) => if save_token(input, p3) {
                    proof {
                        vstd::slice::axiom_spec_len::<u8>(input);
                    }
                    Outcome::Parsed(
                        RawDataItem::SaveFrame { name, content: items },
                        p3 + 5,
                    )
                } else {
                    Outcome::NoMatch
                },
            },
        },
    }
}

/// One block item: a separator, then a data item or a save frame.
pub fn block_content(input: &[u8], pos: usize, depth: usize) -> (r: Outcome<RawDataItem>)
    requires
        pos <= input@.len(),
    ensures
        item_matches(r, grammar::spec_block_content(input@, pos as int, depth as nat)),
        r matches Outcome::Parsed(_, p) ==> pos < p && p <= input@.len(),
        r matches Outcome::Parsed(it, _) ==> spec_item_wf(it, input@.len() as int),
{
    match wspace(input, pos) {
        None => Outcome::NoMatch,
        Some(p1) => if p1 > pos && p1 <= input.len() {
            match data(input, p1, depth) {
                Outcome::NoMatch => save_frame(input, p1, depth),
                r2 => r2,
            }
        } else {
            Outcome::NoMatch
        },
    }
}

/// Zero or more block items.
pub fn block_star(input: &[u8], pos: usize, depth: usize) -> (r: Outcome<Vec<RawDataItem>>)
    requires
        pos <= input@.len(),
    ensures
        items_matches(r, grammar::spec_block_star(input@, pos as int, depth as nat)),
        r matches Outcome::Parsed(_, p) ==> pos <= p && p <= input@.len(),
        r matches Outcome::Parsed(its, _) ==> spec_items_wf(its@, input@.len() as int),
    decreases input@.len() - pos,
{
    match block_content(input, pos, depth) {
        Outcome::TooDeep => Outcome::TooDeep,
        Outcome::NoMatch => Outcome::Parsed(Vec::new(), pos),
        Outcome::Parsed(it, p2) => if p2 > pos && p2 <= input.len() {
            match block_star(input, p2, depth) {
                Outcome::TooDeep => Outcome::TooDeep,
                Outcome::NoMatch => {
                    proof {
                        lemma_deep_items_singleton(it);
                        lemma_items_wf_singleton(it, input@.len() as int);
                    }
                    let mut its = Vec::new();
                    its.push(it);
                    Outcome::Parsed(its, p2)
                },
                Outcome::Parsed(items, p3) => {
                    proof {
                        lemma_deep_items_prepend(items@, it);
                        lemma_items_wf_prepend(items@, it, input@.len() as int);
                    }
                    let mut its = items;
                    its.insert(0, it);
                    Outcome::Parsed(its, p3)
                },
            }
        } else {
            Outcome::Parsed(Vec::new(), pos)
        },
    }
}

/// A data block heading: `data_` plus the container code, verbatim.
pub fn data_heading(input: &[u8], pos: usize) -> (r: Option<(Span, usize)>)
    requires
        pos <= input@.len(),
    ensures
        span_matches(r, grammar::spec_data_heading(input@, pos as int)),
        r matches Some((_, p)) ==> pos < p && p <= input@.len(),
        r matches Some((sp, _)) ==> sp@.wf(input@.len() as int),
{
    if data_token(input, pos) {
        proof {
            vstd::slice::axiom_spec_len::<u8>(input);
        }
        container_code(input, pos + 5)
    } else {
        None
    }
}

/// A data block.
pub fn data_block(input: &[u8], pos: usize, depth: usize) -> (r: Outcome<RawDataBlock>)
    requires
        pos <= input@.len(),
    ensures
        block_matches(r, grammar::spec_data_block(input@, pos as int, depth as nat)),
        r matches Outcome::Parsed(_, p) ==> pos < p && p <= input@.len(),
        r matches Outcome::Parsed(b, _) ==> spec_block_wf(b, input@.len() as int),
{
    match data_heading(input, pos) {
        None => Outcome::NoMatch,
        Some((heading, p1)) => match block_star(input, p1, depth) {
            Outcome::TooDeep => Outcome::TooDeep,
            Outcome::NoMatch => Outcome::NoMatch,
            Outcome::Parsed(items, p2) => Outcome::Parsed(
                RawDataBlock { heading, content: items },
                p2,
            ),
        },
    }
}

// ---------------------------------------------------------------------------
// The file layer
// ---------------------------------------------------------------------------
/// Further data blocks, each preceded by a separator.
pub fn blocks_star(input: &[u8], pos: usize, depth: usize) -> (r: Outcome<Vec<RawDataBlock>>)
    requires
        pos <= input@.len(),
    ensures
        blocks_matches(r, grammar::spec_blocks_star(input@, pos as int, depth as nat)),
        r matches Outcome::Parsed(_, p) ==> pos <= p && p <= input@.len(),
        r matches Outcome::Parsed(bs, _) ==> spec_blocks_wf(bs@, input@.len() as int),
    decreases input@.len() - pos,
{
    match wspace(input, pos) {
        None => Outcome::Parsed(Vec::new(), pos),
        Some(p1) => if p1 > pos && p1 <= input.len() {
            match data_block(input, p1, depth) {
                Outcome::TooDeep => Outcome::TooDeep,
                Outcome::NoMatch => Outcome::Parsed(Vec::new(), pos),
                Outcome::Parsed(b, p2) => if p2 > pos && p2 <= input.len() {
                    match blocks_star(input, p2, depth) {
                        Outcome::TooDeep => Outcome::TooDeep,
                        Outcome::NoMatch => {
                            proof {
                                lemma_deep_blocks_singleton(b);
                                lemma_blocks_wf_singleton(b, input@.len() as int);
                            }
                            let mut bs = Vec::new();
                            bs.push(b);
                            Outcome::Parsed(bs, p2)
                        },
                        Outcome::Parsed(blocks, p3) => {
                            proof {
                                lemma_deep_blocks_prepend(blocks@, b);
                                lemma_blocks_wf_prepend(blocks@, b, input@.len() as int);
                            }
                            let mut bs = blocks;
                            bs.insert(0, b);
                            Outcome::Parsed(bs, p3)
                        },
                    }
                } else {
                    Outcome::Parsed(Vec::new(), pos)
                },
            }
        } else {
            Outcome::Parsed(Vec::new(), pos)
        },
    }
}

/// The file heading: optional byte-order mark, magic literal, spaces.
pub fn file_heading(input: &[u8], pos: usize) -> (r: Option<(Span, usize)>)
    requires
        pos <= input@.len(),
    ensures
        span_matches(r, grammar::spec_file_heading(input@, pos as int)),
        r matches Some((_, p)) ==> pos < p && p <= input@.len(),
        r matches Some((sp, _)) ==> sp@.wf(input@.len() as int),
{
    proof {
        vstd::slice::axiom_spec_len::<u8>(input);
    }
    let p0 = if bom_mark(input, pos) {
        pos + 3
    } else {
        pos
    };
    if magic_code(input, p0) {
        Some((Span { start: p0, end: p0 + 10 }, scan_spaces(input, p0 + 10)))
    } else {
        None
    }
}

/// The file body after the heading.
pub fn file_content(input: &[u8], pos: usize, depth: usize) -> (r: Outcome<Vec<RawDataBlock>>)
    requires
        pos <= input@.len(),
    ensures
        blocks_matches(r, grammar::spec_file_content(input@, pos as int, depth as nat)),
        r matches Outcome::Parsed(_, p) ==> pos < p && p <= input@.len(),
        r matches Outcome::Parsed(bs, _) ==> spec_blocks_wf(bs@, input@.len() as int),
{
    match line_ending(input, pos) {
        None => Outcome::NoMatch,
        Some(p1) => {
            let p2 = wspace_any(input, p1);
            match data_block(input, p2, depth) {
                Outcome::TooDeep => Outcome::TooDeep,
                Outcome::NoMatch => Outcome::NoMatch,
                Outcome::Parsed(b1, p3) => if p3 >= p2 && p3 <= input.len() {
                    match blocks_star(input, p3, depth) {
                        Outcome::TooDeep => Outcome::TooDeep,
                        Outcome::NoMatch => Outcome::NoMatch,
                        Outcome::Parsed(blocks, p4) => {
                            proof {
                                lemma_deep_blocks_prepend(blocks@, b1);
                                lemma_blocks_wf_prepend(blocks@, b1, input@.len() as int);
                            }
                            let mut bs = blocks;
                            bs.insert(0, b1);
                            Outcome::Parsed(bs, p4)
                        },
                    }
                } else {
                    Outcome::NoMatch
                },
            }
        },
    }
}

/// Parses one whole CIF 2.0 document with an explicit nesting bound.
pub fn cif2_file_with_depth(input: &[u8], max_depth: usize) -> (r: Result<RawModel, CifError>)
    ensures
        model_result_matches(r, grammar::spec_cif2_file(input@, max_depth as nat)),
        r matches Ok(m) ==> spec_model_wf(m, input@.len() as int),
{
    match file_heading(input, 0) {
        None => Err(CifError::Header),
        Some((heading, p1)) => match file_content(input, p1, max_depth) {
            Outcome::TooDeep => Err(CifError::NestingTooDeep),
            Outcome::NoMatch => Err(CifError::Content),
            Outcome::Parsed(blocks, p2) => {
                let p3 = wspace_any(input, p2);
                let p4 = match trailing_comment(input, p3) {
                    Some(p) => p,
                    None => p3,
                };
                if p4 == input.len() {
                    Ok(RawModel { heading, content: blocks })
                } else {
                    Err(CifError::EndOfInput)
                }
            },
        },
    }
}

/// Parses one whole CIF 2.0 document with the default nesting bound.
pub fn cif2_file(input: &[u8]) -> (r: Result<RawModel, CifError>)
    ensures
        model_result_matches(r, grammar::spec_cif2_file(input@, MAX_NESTING_DEPTH as nat)),
        r matches Ok(m) ==> spec_model_wf(m, input@.len() as int),
{
    cif2_file_with_depth(input, MAX_NESTING_DEPTH)
}

} // verus!
