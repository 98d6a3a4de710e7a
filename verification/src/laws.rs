//! Proved, document-level properties of the grammar.

use crate::grammar;
use crate::grammar::SpecOutcome;
use crate::model::{CifError, SpecItem, SpecModel};
use vstd::prelude::*;

verus! {

/// The grammar is a pure function of the source bytes: parsing equal
/// sources, with equal nesting budgets, yields equal results — so two
/// parses of one input always build structurally equal trees.
pub proof fn lemma_parse_deterministic(s1: Seq<u8>, s2: Seq<u8>, depth: nat)
    requires
        s1 == s2,
    ensures
        grammar::spec_cif2_file(s1, depth) == grammar::spec_cif2_file(s2, depth),
{
}

/// The source starts with the magic header literal, after an optional
/// byte-order mark.
pub open spec fn spec_has_header(s: Seq<u8>) -> bool {
    grammar::spec_magic(s, 0) || (grammar::spec_bom(s, 0) && grammar::spec_magic(s, 3))
}

/// Header gating: a parse fails at the header stage exactly when the source
/// does not start with the magic header literal (after an optional
/// byte-order mark).
pub proof fn lemma_header_gate(s: Seq<u8>, depth: nat)
    ensures
        grammar::spec_cif2_file(s, depth) == Err::<SpecModel, CifError>(CifError::Header)
            <==> !spec_has_header(s),
{
}

/// A parsed loop always carries at least one column name and at least one
/// value; only the multiple-of relation between the two counts is left to
/// the post-parse validation.
pub proof fn lemma_parsed_loop_is_nonempty(s: Seq<u8>, pos: int, depth: nat)
    ensures
        grammar::spec_data_loop(s, pos, depth) matches SpecOutcome::Parsed(it, _) ==> (it
            matches SpecItem::Loop { names, values } && names.len() >= 1 && values.len() >= 1),
{
}

/// The loose-whitespace and trailing-comment stages always match, so a
/// parse never fails at them: those two stages of the taxonomy are present
/// for completeness only.
pub proof fn lemma_trailing_stages_never_fail(s: Seq<u8>, depth: nat)
    ensures
        grammar::spec_cif2_file(s, depth) != Err::<SpecModel, CifError>(
            CifError::TrailingWhitespace,
        ),
        grammar::spec_cif2_file(s, depth) != Err::<SpecModel, CifError>(
            CifError::TrailingComment,
        ),
{
}

/// A non-blank scan depends only on the bytes at or after its start.
proof fn lemma_scan_non_blank_congruent(s1: Seq<u8>, s2: Seq<u8>, pos: int)
    requires
        s1.len() == s2.len(),
        forall|i: int| pos <= i < s1.len() ==> s1[i] == s2[i],
    ensures
        grammar::scan_non_blank(s1, pos) == grammar::scan_non_blank(s2, pos),
    decreases s1.len() - pos,
{
    if 0 <= pos < s1.len() && grammar::is_non_blank(s1[pos]) {
        lemma_scan_non_blank_congruent(s1, s2, pos + 1);
    }
}

/// Case handling: two sources that differ only in the letter case of the
/// five keyword bytes at `pos` yield the same data-block heading — the
/// keyword is matched case-insensitively, while the container code that
/// follows is taken verbatim and keeps its original casing.
pub proof fn lemma_data_heading_case_insensitive(s1: Seq<u8>, s2: Seq<u8>, pos: int)
    requires
        s1.len() == s2.len(),
        forall|i: int| 0 <= i < s1.len() && !(pos <= i < pos + 5) ==> s1[i] == s2[i],
        forall|i: int|
            pos <= i < pos + 5 && 0 <= i < s1.len() ==> grammar::to_lower(s1[i])
                == grammar::to_lower(s2[i]),
    ensures
        grammar::spec_data_heading(s1, pos) == grammar::spec_data_heading(s2, pos),
{
    assert(grammar::spec_kw_data(s1, pos) == grammar::spec_kw_data(s2, pos));
    if grammar::spec_kw_data(s1, pos) {
        lemma_scan_non_blank_congruent(s1, s2, pos + 5);
    }
}

/// Where a triple search succeeds it reports the first occurrence.
proof fn lemma_find_triple_first(s: Seq<u8>, pos: int, q: u8)
    ensures
        grammar::spec_find_triple(s, pos, q) matches Some(i) ==> {
            &&& pos <= i
            &&& i + 3 <= s.len()
            &&& s[i] == q && s[i + 1] == q && s[i + 2] == q
            &&& forall|j: int|
                pos <= j < i ==> !(#[trigger] s[j] == q && s[j + 1] == q && s[j + 2] == q)
        },
    decreases s.len() - pos,
{
    if !(pos < 0 || pos + 3 > s.len()) && !(s[pos] == q && s[pos + 1] == q && s[pos + 2] == q) {
        lemma_find_triple_first(s, pos + 1, q);
    }
}

/// Quote fidelity: a parsed triple-quoted string spans exactly the bytes
/// between its delimiters — the content starts right after the opening
/// delimiter, the closing delimiter stands right after the content, and no
/// triple delimiter occurs inside, so embedded single quote characters and
/// newlines are kept unmodified.
pub proof fn lemma_triple_quoted_fidelity(s: Seq<u8>, pos: int, q: u8)
    ensures
        grammar::spec_triple(s, pos, q) matches Some((sp, p)) ==> {
            &&& sp.start == pos + 3
            &&& sp.start <= sp.end
            &&& p == sp.end + 3
            &&& sp.end + 3 <= s.len()
            &&& s[sp.end] == q && s[sp.end + 1] == q && s[sp.end + 2] == q
            &&& forall|j: int|
                sp.start <= j < sp.end ==> !(#[trigger] s[j] == q && s[j + 1] == q && s[j + 2]
                    == q)
        },
{
    lemma_find_triple_first(s, pos + 3, q);
}

/// A search for a line-anchored `;` over a region holding none fails.
proof fn lemma_find_text_end_none(s: Seq<u8>, pos: int)
    requires
        forall|j: int|
            pos <= j && j + 2 <= s.len() ==> !(#[trigger] s[j] == 0x0a && s[j + 1] == 0x3b),
    ensures
        grammar::spec_find_text_end(s, pos) is None,
    decreases s.len() - pos,
{
    if !(pos < 0 || pos + 2 > s.len()) {
        lemma_find_text_end_none(s, pos + 1);
    }
}

/// An unterminated text block fails: an opening `;` at a line start with no
/// later line-anchored `;` is rejected by the text-block rule.
pub proof fn lemma_unterminated_text_block(s: Seq<u8>, pos: int, p1: int)
    requires
        grammar::spec_line_ending(s, pos) == Some(p1),
        grammar::spec_byte(s, p1, 0x3b),
        forall|j: int|
            p1 + 1 <= j && j + 2 <= s.len() ==> !(#[trigger] s[j] == 0x0a && s[j + 1] == 0x3b),
    ensures
        grammar::spec_text_field(s, pos) is None,
{
    lemma_find_text_end_none(s, p1 + 1);
}

} // verus!
