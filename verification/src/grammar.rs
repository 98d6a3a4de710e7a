//! The CIF 2.0 grammar, stated mathematically.
//!
//! Every rule is a spec function from the source bytes and a cursor position
//! to either a parsed result plus the new cursor, or a local failure that an
//! enclosing ordered choice may use to try its next alternative.  Ordered
//! choice, and therefore the disambiguation of the mutually ambiguous value
//! forms, is part of the definition: the first alternative that matches wins.
//!
//! Composite values (lists and tables) nest without a grammatical bound; the
//! definitions therefore carry an explicit nesting budget `depth`, and yield
//! the dedicated `TooDeep` outcome once it is exhausted, which aborts the
//! whole parse rather than backtracking.

use crate::model::{CifError, SpecBlock, SpecItem, SpecModel, SpecSpan, SpecValue};
use vstd::prelude::*;

verus! {

// ---------------------------------------------------------------------------
// Character classes
// ---------------------------------------------------------------------------
/// Inline spacing: space or tab.
pub open spec fn is_space(c: u8) -> bool {
    c == 0x20 || c == 0x09
}

/// Blank characters: inline spacing or a line-ending byte.
pub open spec fn is_blank(c: u8) -> bool {
    is_space(c) || c == 0x0d || c == 0x0a
}

/// Characters that may appear in an unquoted run.
pub open spec fn is_non_blank(c: u8) -> bool {
    !is_blank(c)
}

/// Non-blank characters that are not list/table brackets.
pub open spec fn is_restrict(c: u8) -> bool {
    is_non_blank(c) && c != 0x5b && c != 0x5d && c != 0x7b && c != 0x7d
}

/// Characters a bare token may begin with: restricted characters that are
/// not one of the reserved leading characters.
pub open spec fn is_lead(c: u8) -> bool {
    is_restrict(c) && c != 0x22 && c != 0x23 && c != 0x24 && c != 0x27 && c != 0x5f
}

/// ASCII lower-casing of one byte.
pub open spec fn to_lower(c: u8) -> u8 {
    if 0x41 <= c && c <= 0x5a {
        (c + 0x20) as u8
    } else {
        c
    }
}

// ---------------------------------------------------------------------------
// Scanners: maximal runs, as the first position where the run stops
// ---------------------------------------------------------------------------
/// First position at or after `pos` holding no inline space.
pub open spec fn scan_spaces(s: Seq<u8>, pos: int) -> int
    decreases s.len() - pos,
{
    if 0 <= pos < s.len() && is_space(s[pos]) {
        scan_spaces(s, pos + 1)
    } else {
        pos
    }
}

/// First position at or after `pos` holding a blank character (or the end).
pub open spec fn scan_non_blank(s: Seq<u8>, pos: int) -> int
    decreases s.len() - pos,
{
    if 0 <= pos < s.len() && is_non_blank(s[pos]) {
        scan_non_blank(s, pos + 1)
    } else {
        pos
    }
}

/// First position at or after `pos` where a restricted run stops.
pub open spec fn scan_restrict(s: Seq<u8>, pos: int) -> int
    decreases s.len() - pos,
{
    if 0 <= pos < s.len() && is_restrict(s[pos]) {
        scan_restrict(s, pos + 1)
    } else {
        pos
    }
}

/// First position at or after `pos` holding byte `q` (or the end).
pub open spec fn scan_not_byte(s: Seq<u8>, pos: int, q: u8) -> int
    decreases s.len() - pos,
{
    if 0 <= pos < s.len() && s[pos] != q {
        scan_not_byte(s, pos + 1, q)
    } else {
        pos
    }
}

/// First position at or after `pos` holding a line-ending byte (or the end).
pub open spec fn scan_not_crlf(s: Seq<u8>, pos: int) -> int
    decreases s.len() - pos,
{
    if 0 <= pos < s.len() && s[pos] != 0x0d && s[pos] != 0x0a {
        scan_not_crlf(s, pos + 1)
    } else {
        pos
    }
}

// ---------------------------------------------------------------------------
// Line endings, keywords and fixed tokens
// ---------------------------------------------------------------------------
/// A line ending: `\n`, or `\r\n`.
pub open spec fn spec_line_ending(s: Seq<u8>, pos: int) -> Option<int> {
    if 0 <= pos < s.len() && s[pos] == 0x0a {
        Some(pos + 1)
    } else if 0 <= pos && pos + 1 < s.len() && s[pos] == 0x0d && s[pos + 1] == 0x0a {
        Some(pos + 2)
    } else {
        None
    }
}

/// One exact byte at `pos`.
pub open spec fn spec_byte(s: Seq<u8>, pos: int, c: u8) -> bool {
    0 <= pos < s.len() && s[pos] == c
}

/// The reserved keyword `data_`, case-insensitively.
pub open spec fn spec_kw_data(s: Seq<u8>, pos: int) -> bool {
    &&& 0 <= pos
    &&& pos + 5 <= s.len()
    &&& to_lower(s[pos]) == 0x64
    &&& to_lower(s[pos + 1]) == 0x61
    &&& to_lower(s[pos + 2]) == 0x74
    &&& to_lower(s[pos + 3]) == 0x61
    &&& s[pos + 4] == 0x5f
}

/// The reserved keyword `save_`, case-insensitively.
pub open spec fn spec_kw_save(s: Seq<u8>, pos: int) -> bool {
    &&& 0 <= pos
    &&& pos + 5 <= s.len()
    &&& to_lower(s[pos]) == 0x73
    &&& to_lower(s[pos + 1]) == 0x61
    &&& to_lower(s[pos + 2]) == 0x76
    &&& to_lower(s[pos + 3]) == 0x65
    &&& s[pos + 4] == 0x5f
}

/// The reserved keyword `loop_`, case-insensitively.
pub open spec fn spec_kw_loop(s: Seq<u8>, pos: int) -> bool {
    &&& 0 <= pos
    &&& pos + 5 <= s.len()
    &&& to_lower(s[pos]) == 0x6c
    &&& to_lower(s[pos + 1]) == 0x6f
    &&& to_lower(s[pos + 2]) == 0x6f
    &&& to_lower(s[pos + 3]) == 0x70
    &&& s[pos + 4] == 0x5f
}

/// The reserved keyword `global_`, case-insensitively.
pub open spec fn spec_kw_global(s: Seq<u8>, pos: int) -> bool {
    &&& 0 <= pos
    &&& pos + 7 <= s.len()
    &&& to_lower(s[pos]) == 0x67
    &&& to_lower(s[pos + 1]) == 0x6c
    &&& to_lower(s[pos + 2]) == 0x6f
    &&& to_lower(s[pos + 3]) == 0x62
    &&& to_lower(s[pos + 4]) == 0x61
    &&& to_lower(s[pos + 5]) == 0x6c
    &&& s[pos + 6] == 0x5f
}

/// The reserved keyword `stop_`, case-insensitively.
pub open spec fn spec_kw_stop(s: Seq<u8>, pos: int) -> bool {
    &&& 0 <= pos
    &&& pos + 5 <= s.len()
    &&& to_lower(s[pos]) == 0x73
    &&& to_lower(s[pos + 1]) == 0x74
    &&& to_lower(s[pos + 2]) == 0x6f
    &&& to_lower(s[pos + 3]) == 0x70
    &&& s[pos + 4] == 0x5f
}

/// No reserved keyword begins at `pos`: a bare token may start here.
pub open spec fn spec_not_reserved(s: Seq<u8>, pos: int) -> bool {
    &&& !spec_kw_data(s, pos)
    &&& !spec_kw_save(s, pos)
    &&& !spec_kw_loop(s, pos)
    &&& !spec_kw_global(s, pos)
    &&& !spec_kw_stop(s, pos)
}

/// The exact magic header literal `#\#CIF_2.0`.
pub open spec fn spec_magic(s: Seq<u8>, pos: int) -> bool {
    &&& 0 <= pos
    &&& pos + 10 <= s.len()
    &&& s[pos] == 0x23
    &&& s[pos + 1] == 0x5c
    &&& s[pos + 2] == 0x23
    &&& s[pos + 3] == 0x43
    &&& s[pos + 4] == 0x49
    &&& s[pos + 5] == 0x46
    &&& s[pos + 6] == 0x5f
    &&& s[pos + 7] == 0x32
    &&& s[pos + 8] == 0x2e
    &&& s[pos + 9] == 0x30
}

/// A UTF-8 byte-order mark at `pos`.
pub open spec fn spec_bom(s: Seq<u8>, pos: int) -> bool {
    &&& 0 <= pos
    &&& pos + 3 <= s.len()
    &&& s[pos] == 0xef
    &&& s[pos + 1] == 0xbb
    &&& s[pos + 2] == 0xbf
}

// ---------------------------------------------------------------------------
// Comments and whitespace
// ---------------------------------------------------------------------------
/// `#` through a mandatory line ending.
pub open spec fn spec_comment(s: Seq<u8>, pos: int) -> Option<int> {
    if spec_byte(s, pos, 0x23) {
        spec_line_ending(s, scan_not_crlf(s, pos + 1))
    } else {
        None
    }
}

/// `#` through the end of the line, with no line ending required: the form
/// allowed once at the very end of the file.
pub open spec fn spec_trailing_comment(s: Seq<u8>, pos: int) -> Option<int> {
    if spec_byte(s, pos, 0x23) {
        Some(scan_not_crlf(s, pos + 1))
    } else {
        None
    }
}

/// A comment or a bare line ending.
pub open spec fn spec_comment_or_eol(s: Seq<u8>, pos: int) -> Option<int> {
    match spec_comment(s, pos) {
        Some(p) => Some(p),
        None => spec_line_ending(s, pos),
    }
}

/// Optional inline spacing, then a comment-or-line-ending.
pub open spec fn spec_wspace_to_eol(s: Seq<u8>, pos: int) -> Option<int> {
    spec_comment_or_eol(s, scan_spaces(s, pos))
}

/// Zero or more blank-or-comment lines.
pub open spec fn spec_wspace_to_eol_star(s: Seq<u8>, pos: int) -> int
    decreases s.len() - pos,
{
    match spec_wspace_to_eol(s, pos) {
        Some(p2) => if pos < p2 <= s.len() {
            spec_wspace_to_eol_star(s, p2)
        } else {
            pos
        },
        None => pos,
    }
}

/// Loose skipping: blank/comment lines, then optional trailing inline spaces.
pub open spec fn spec_wspace_any(s: Seq<u8>, pos: int) -> int {
    scan_spaces(s, spec_wspace_to_eol_star(s, pos))
}

/// Skip to a fresh line start: an optional trailing comment, optional
/// spaces, a mandatory line ending, then further blank/comment lines.
pub open spec fn spec_wspace_lines(s: Seq<u8>, pos: int) -> Option<int> {
    let p1 = match spec_comment(s, pos) {
        Some(p) => p,
        None => pos,
    };
    match spec_line_ending(s, scan_spaces(s, p1)) {
        Some(p2) => Some(spec_wspace_to_eol_star(s, p2)),
        None => None,
    }
}

/// The mandatory separator: one inline space or line ending, then loose
/// skipping.
pub open spec fn spec_wspace(s: Seq<u8>, pos: int) -> Option<int> {
    if scan_spaces(s, pos) > pos {
        Some(spec_wspace_any(s, scan_spaces(s, pos)))
    } else {
        match spec_line_ending(s, pos) {
            Some(p2) => Some(spec_wspace_any(s, p2)),
            None => None,
        }
    }
}

// ---------------------------------------------------------------------------
// Scalar value forms
// ---------------------------------------------------------------------------
/// First position `i` at or after `pos` where a line-anchored `;` follows,
/// that is where `s[i] == '\n'` and `s[i+1] == ';'`.
pub open spec fn spec_find_text_end(s: Seq<u8>, pos: int) -> Option<int>
    decreases s.len() - pos,
{
    if pos < 0 || pos + 2 > s.len() {
        None
    } else if s[pos] == 0x0a && s[pos + 1] == 0x3b {
        Some(pos)
    } else {
        spec_find_text_end(s, pos + 1)
    }
}

/// A text block: a line ending, `;` at column one, content up to the next
/// line-anchored `;`, which closes it.  Both delimiter lines stay outside
/// the content.
pub open spec fn spec_text_field(s: Seq<u8>, pos: int) -> Option<(SpecSpan, int)> {
    match spec_line_ending(s, pos) {
        None => None,
        Some(p1) => if spec_byte(s, p1, 0x3b) {
            match spec_find_text_end(s, p1 + 1) {
                None => None,
                Some(i) => Some((SpecSpan { start: p1 + 1, end: i }, i + 2)),
            }
        } else {
            None
        },
    }
}

/// First position `i` at or after `pos` where three consecutive `q` bytes
/// begin.
pub open spec fn spec_find_triple(s: Seq<u8>, pos: int, q: u8) -> Option<int>
    decreases s.len() - pos,
{
    if pos < 0 || pos + 3 > s.len() {
        None
    } else if s[pos] == q && s[pos + 1] == q && s[pos + 2] == q {
        Some(pos)
    } else {
        spec_find_triple(s, pos + 1, q)
    }
}

/// A triple-quoted string with quote byte `q`: content is everything up to
/// the first subsequent triple delimiter.
pub open spec fn spec_triple(s: Seq<u8>, pos: int, q: u8) -> Option<(SpecSpan, int)> {
    if 0 <= pos && pos + 3 <= s.len() && s[pos] == q && s[pos + 1] == q && s[pos + 2] == q {
        match spec_find_triple(s, pos + 3, q) {
            None => None,
            Some(i) => Some((SpecSpan { start: pos + 3, end: i }, i + 3)),
        }
    } else {
        None
    }
}

/// Either triple-quoted form, double quotes tried first.
pub open spec fn spec_triple_quoted(s: Seq<u8>, pos: int) -> Option<(SpecSpan, int)> {
    match spec_triple(s, pos, 0x22) {
        Some(r) => Some(r),
        None => spec_triple(s, pos, 0x27),
    }
}

/// A single-quoted string with quote byte `q`: a non-empty run of bytes
/// other than `q`, between two `q` delimiters, with no escape processing.
pub open spec fn spec_single(s: Seq<u8>, pos: int, q: u8) -> Option<(SpecSpan, int)> {
    if spec_byte(s, pos, q) {
        let e = scan_not_byte(s, pos + 1, q);
        if e > pos + 1 && e < s.len() {
            Some((SpecSpan { start: pos + 1, end: e }, e + 1))
        } else {
            None
        }
    } else {
        None
    }
}

/// Either single-quoted form, double quotes tried first.
pub open spec fn spec_single_quoted(s: Seq<u8>, pos: int) -> Option<(SpecSpan, int)> {
    match spec_single(s, pos, 0x22) {
        Some(r) => Some(r),
        None => spec_single(s, pos, 0x27),
    }
}

/// A bare token: no reserved keyword here, a permitted leading character,
/// then a maximal restricted run.
pub open spec fn spec_wsdelim_string(s: Seq<u8>, pos: int) -> Option<(SpecSpan, int)> {
    if spec_not_reserved(s, pos) && 0 <= pos < s.len() && is_lead(s[pos]) {
        let e = scan_restrict(s, pos);
        if e > pos {
            Some((SpecSpan { start: pos, end: e }, e))
        } else {
            None
        }
    } else {
        None
    }
}

/// A bare token at a forced line start.  Here a lone `;` followed by
/// mandatory inline space is itself a legal value (it is not a text-block
/// delimiter, since the preceding line ending was already consumed).
pub open spec fn spec_wsdelim_string_sol(s: Seq<u8>, pos: int) -> Option<(SpecSpan, int)> {
    if spec_not_reserved(s, pos) && 0 <= pos < s.len() && is_lead(s[pos]) {
        if s[pos] == 0x3b {
            let e = scan_spaces(s, pos + 1);
            if e > pos + 1 {
                Some((SpecSpan { start: pos, end: pos + 1 }, e))
            } else {
                None
            }
        } else {
            let e = scan_restrict(s, pos);
            if e > pos {
                Some((SpecSpan { start: pos, end: e }, e))
            } else {
                None
            }
        }
    } else {
        None
    }
}

/// A data name: `_` followed by the rest of a non-blank run.
pub open spec fn spec_data_name(s: Seq<u8>, pos: int) -> Option<(SpecSpan, int)> {
    if spec_byte(s, pos, 0x5f) {
        let e = scan_non_blank(s, pos);
        Some((SpecSpan { start: pos, end: e }, e))
    } else {
        None
    }
}

/// A container code: a non-empty non-blank run.
pub open spec fn spec_container_code(s: Seq<u8>, pos: int) -> Option<(SpecSpan, int)> {
    if 0 <= pos {
        let e = scan_non_blank(s, pos);
        if e > pos {
            Some((SpecSpan { start: pos, end: e }, e))
        } else {
            None
        }
    } else {
        None
    }
}

// ---------------------------------------------------------------------------
// The outcome of a rule that may exhaust the nesting budget
// ---------------------------------------------------------------------------
/// Result of a grammar rule: a parse with the new cursor, a local mismatch
/// that ordered choice may recover from, or an exhausted nesting budget,
/// which is fatal.
pub enum SpecOutcome<T> {
    Parsed(T, int),
    NoMatch,
    TooDeep,
}

// ---------------------------------------------------------------------------
// Composite values: the mutually recursive heart of the grammar
// ---------------------------------------------------------------------------
/// A value with no leading whitespace: quoted forms first, then list, then
/// table.
pub open spec fn spec_nospace_value(s: Seq<u8>, pos: int, depth: nat) -> SpecOutcome<SpecValue>
    decreases s.len() - pos, 1int,
{
    match spec_single_quoted(s, pos) {
        Some((sp, p)) => SpecOutcome::Parsed(SpecValue::Str(sp), p),
        None => match spec_triple_quoted(s, pos) {
            Some((sp, p)) => SpecOutcome::Parsed(SpecValue::Str(sp), p),
            None => match spec_list(s, pos, depth) {
                SpecOutcome::NoMatch => spec_table(s, pos, depth),
                r => r,
            },
        },
    }
}

/// A list: `[`, an optional first value with its own whitespace family,
/// further whitespace-governed values, loose whitespace, `]`.
pub open spec fn spec_list(s: Seq<u8>, pos: int, depth: nat) -> SpecOutcome<SpecValue>
    decreases s.len() - pos, 0int,
{
    if !spec_byte(s, pos, 0x5b) {
        SpecOutcome::NoMatch
    } else if depth == 0 {
        SpecOutcome::TooDeep
    } else {
        let inner = (depth - 1) as nat;
        let p1 = pos + 1;
        match spec_list_values_start(s, p1, inner) {
            SpecOutcome::TooDeep => SpecOutcome::TooDeep,
            SpecOutcome::NoMatch => spec_list_close(s, None, p1, inner),
            SpecOutcome::Parsed(v, p2) => if p1 <= p2 <= s.len() {
                spec_list_close(s, Some(v), p2, inner)
            } else {
                SpecOutcome::NoMatch
            },
        }
    }
}

/// The remainder of a list after its optional first value: the repeated
/// values, then the closing bracket.
pub open spec fn spec_list_close(
    s: Seq<u8>,
    first: Option<SpecValue>,
    p: int,
    depth: nat,
) -> SpecOutcome<SpecValue>
    decreases s.len() - p, 3int,
{
    match spec_value_star(s, p, depth) {
        SpecOutcome::TooDeep => SpecOutcome::TooDeep,
        SpecOutcome::NoMatch => SpecOutcome::NoMatch,
        SpecOutcome::Parsed(vs, p3) => {
            let p4 = spec_wspace_any(s, scan_spaces(s, p3));
            if spec_byte(s, p4, 0x5d) {
                let elems = match first {
                    None => vs,
                    Some(v) => vs.insert(0, v),
                };
                SpecOutcome::Parsed(SpecValue::List(elems), p4 + 1)
            } else {
                SpecOutcome::NoMatch
            }
        },
    }
}

/// The first value of a list, which has no preceding name to anchor the
/// whitespace rules: the same four-alternative family as after a name.
pub open spec fn spec_list_values_start(s: Seq<u8>, pos: int, depth: nat) -> SpecOutcome<
    SpecValue,
>
    decreases s.len() - pos, 2int,
{
    let pa = spec_wspace_any(s, pos);
    if pos <= pa <= s.len() {
        match spec_nospace_value(s, pa, depth) {
            SpecOutcome::TooDeep => SpecOutcome::TooDeep,
            SpecOutcome::Parsed(v, p) => SpecOutcome::Parsed(v, p),
            SpecOutcome::NoMatch => {
                let pb = match spec_comment(s, pa) {
                    Some(p) => p,
                    None => pa,
                };
                match spec_text_field(s, pb) {
                    Some((sp, p)) => SpecOutcome::Parsed(SpecValue::Str(sp), p),
                    None => match spec_wsdelim_string(s, pa) {
                        Some((sp, p)) => SpecOutcome::Parsed(SpecValue::Str(sp), p),
                        None => match spec_wspace_to_eol(s, pos) {
                            Some(q1) => if pos < q1 <= s.len() {
                                match spec_wsdelim_string_sol(
                                    s,
                                    spec_wspace_to_eol_star(s, q1),
                                ) {
                                    Some((sp, p)) => SpecOutcome::Parsed(SpecValue::Str(sp), p),
                                    None => SpecOutcome::NoMatch,
                                }
                            } else {
                                SpecOutcome::NoMatch
                            },
                            None => SpecOutcome::NoMatch,
                        },
                    },
                }
            },
        }
    } else {
        SpecOutcome::NoMatch
    }
}

/// Zero or more whitespace-governed values.
pub open spec fn spec_value_star(s: Seq<u8>, pos: int, depth: nat) -> SpecOutcome<Seq<SpecValue>>
    decreases s.len() - pos, 2int,
{
    match spec_wspace_data_value(s, pos, depth) {
        SpecOutcome::TooDeep => SpecOutcome::TooDeep,
        SpecOutcome::NoMatch => SpecOutcome::Parsed(Seq::empty(), pos),
        SpecOutcome::Parsed(v, p2) => if pos < p2 <= s.len() {
            match spec_value_star(s, p2, depth) {
                SpecOutcome::TooDeep => SpecOutcome::TooDeep,
                SpecOutcome::Parsed(vs, p3) => SpecOutcome::Parsed(vs.insert(0, v), p3),
                SpecOutcome::NoMatch => SpecOutcome::Parsed(seq![v], p2),
            }
        } else {
            SpecOutcome::Parsed(Seq::empty(), pos)
        },
    }
}

/// A table: `{`, loose whitespace, entries separated by blank lines or
/// spaces, loose whitespace, `}`.
pub open spec fn spec_table(s: Seq<u8>, pos: int, depth: nat) -> SpecOutcome<SpecValue>
    decreases s.len() - pos, 0int,
{
    if !spec_byte(s, pos, 0x7b) {
        SpecOutcome::NoMatch
    } else if depth == 0 {
        SpecOutcome::TooDeep
    } else {
        let inner = (depth - 1) as nat;
        let p1 = spec_wspace_any(s, pos + 1);
        if pos < p1 <= s.len() {
            match spec_table_entry(s, p1, inner) {
                SpecOutcome::TooDeep => SpecOutcome::TooDeep,
                SpecOutcome::NoMatch => if spec_byte(s, p1, 0x7d) {
                    SpecOutcome::Parsed(SpecValue::Table(Seq::empty()), p1 + 1)
                } else {
                    SpecOutcome::NoMatch
                },
                SpecOutcome::Parsed(ent, p2) => if p1 < p2 <= s.len() {
                    match spec_table_tail(s, p2, inner) {
                        SpecOutcome::TooDeep => SpecOutcome::TooDeep,
                        SpecOutcome::NoMatch => SpecOutcome::NoMatch,
                        SpecOutcome::Parsed(ents, p3) => {
                            let p4 = spec_wspace_any(s, p3);
                            if spec_byte(s, p4, 0x7d) {
                                SpecOutcome::Parsed(
                                    SpecValue::Table(ents.insert(0, ent)),
                                    p4 + 1,
                                )
                            } else {
                                SpecOutcome::NoMatch
                            }
                        },
                    }
                } else {
                    SpecOutcome::NoMatch
                },
            }
        } else {
            SpecOutcome::NoMatch
        }
    }
}

/// Zero or more further table entries, each after loose whitespace.  A
/// failed attempt backtracks to before that whitespace.
pub open spec fn spec_table_tail(s: Seq<u8>, pos: int, depth: nat) -> SpecOutcome<
    Seq<(SpecValue, SpecValue)>,
>
    decreases s.len() - pos, 1int,
{
    let p1 = spec_wspace_any(s, pos);
    if pos <= p1 <= s.len() {
        match spec_table_entry(s, p1, depth) {
            SpecOutcome::TooDeep => SpecOutcome::TooDeep,
            SpecOutcome::NoMatch => SpecOutcome::Parsed(Seq::empty(), pos),
            SpecOutcome::Parsed(ent, p2) => if pos < p2 <= s.len() {
                match spec_table_tail(s, p2, depth) {
                    SpecOutcome::TooDeep => SpecOutcome::TooDeep,
                    SpecOutcome::NoMatch => SpecOutcome::Parsed(seq![ent], p2),
                    SpecOutcome::Parsed(ents, p3) => SpecOutcome::Parsed(
                        ents.insert(0, ent),
                        p3,
                    ),
                }
            } else {
                SpecOutcome::Parsed(Seq::empty(), pos)
            },
        }
    } else {
        SpecOutcome::Parsed(Seq::empty(), pos)
    }
}

/// One table entry: a quoted-string key, `:`, then a value tried as
/// quoted/composite first, then bare token, then the whitespace-governed
/// family.
pub open spec fn spec_table_entry(s: Seq<u8>, pos: int, depth: nat) -> SpecOutcome<
    (SpecValue, SpecValue),
>
    decreases s.len() - pos, 0int,
{
    let key = match spec_single_quoted(s, pos) {
        Some(r) => Some(r),
        None => spec_triple_quoted(s, pos),
    };
    match key {
        None => SpecOutcome::NoMatch,
        Some((ksp, p2)) => if pos < p2 && spec_byte(s, p2, 0x3a) {
            let p3 = p2 + 1;
            match spec_nospace_value(s, p3, depth) {
                SpecOutcome::TooDeep => SpecOutcome::TooDeep,
                SpecOutcome::Parsed(v, p4) => SpecOutcome::Parsed(
                    (SpecValue::Str(ksp), v),
                    p4,
                ),
                SpecOutcome::NoMatch => match spec_wsdelim_string(s, p3) {
                    Some((sp, p4)) => SpecOutcome::Parsed(
                        (SpecValue::Str(ksp), SpecValue::Str(sp)),
                        p4,
                    ),
                    None => match spec_wspace_data_value(s, p3, depth) {
                        SpecOutcome::TooDeep => SpecOutcome::TooDeep,
                        SpecOutcome::NoMatch => SpecOutcome::NoMatch,
                        SpecOutcome::Parsed(v, p4) => SpecOutcome::Parsed(
                            (SpecValue::Str(ksp), v),
                            p4,
                        ),
                    },
                },
            }
        } else {
            SpecOutcome::NoMatch
        },
    }
}

/// The whitespace-governed value dispatch: the four alternatives, in order.
pub open spec fn spec_wspace_data_value(s: Seq<u8>, pos: int, depth: nat) -> SpecOutcome<
    SpecValue,
>
    decreases s.len() - pos, 1int,
{
    match spec_dv_quoted(s, pos, depth) {
        SpecOutcome::TooDeep => SpecOutcome::TooDeep,
        SpecOutcome::Parsed(v, p) => SpecOutcome::Parsed(v, p),
        SpecOutcome::NoMatch => match spec_dv_inline_bare(s, pos) {
            Some((sp, p)) => SpecOutcome::Parsed(SpecValue::Str(sp), p),
            None => match spec_dv_line_start(s, pos) {
                Some((sp, p)) => SpecOutcome::Parsed(SpecValue::Str(sp), p),
                None => match spec_dv_text_block(s, pos) {
                    Some((sp, p)) => SpecOutcome::Parsed(SpecValue::Str(sp), p),
                    None => SpecOutcome::NoMatch,
                },
            },
        },
    }
}

/// First alternative: a mandatory separator, then a quoted or composite
/// value.
pub open spec fn spec_dv_quoted(s: Seq<u8>, pos: int, depth: nat) -> SpecOutcome<SpecValue>
    decreases s.len() - pos, 0int,
{
    match spec_wspace(s, pos) {
        None => SpecOutcome::NoMatch,
        Some(p2) => if pos < p2 <= s.len() {
            spec_nospace_value(s, p2, depth)
        } else {
            SpecOutcome::NoMatch
        },
    }
}

/// Second alternative: optional blank lines, a mandatory inline space, then
/// a same-line bare token.
pub open spec fn spec_dv_inline_bare(s: Seq<u8>, pos: int) -> Option<(SpecSpan, int)> {
    let p1 = match spec_wspace_lines(s, pos) {
        Some(p) => p,
        None => pos,
    };
    let p2 = scan_spaces(s, p1);
    if p2 > p1 {
        spec_wsdelim_string(s, p2)
    } else {
        None
    }
}

/// Third alternative: a forced fresh line start, then a start-of-line bare
/// token (or the lone-`;` value).
pub open spec fn spec_dv_line_start(s: Seq<u8>, pos: int) -> Option<(SpecSpan, int)> {
    match spec_wspace_lines(s, pos) {
        Some(p1) => spec_wsdelim_string_sol(s, p1),
        None => None,
    }
}

/// Fourth alternative: optional spaces and comment, then a text block.
pub open spec fn spec_dv_text_block(s: Seq<u8>, pos: int) -> Option<(SpecSpan, int)> {
    let p1 = scan_spaces(s, pos);
    let p2 = match spec_comment(s, p1) {
        Some(p) => p,
        None => p1,
    };
    spec_text_field(s, p2)
}

// ---------------------------------------------------------------------------
// Data items
// ---------------------------------------------------------------------------
/// A scalar data item: a data name followed by one whitespace-governed
/// value.
pub open spec fn spec_data_scalar(s: Seq<u8>, pos: int, depth: nat) -> SpecOutcome<SpecItem> {
    match spec_data_name(s, pos) {
        None => SpecOutcome::NoMatch,
        Some((name, p2)) => if pos < p2 <= s.len() {
            match spec_wspace_data_value(s, p2, depth) {
                SpecOutcome::TooDeep => SpecOutcome::TooDeep,
                SpecOutcome::NoMatch => SpecOutcome::NoMatch,
                SpecOutcome::Parsed(v, p3) => SpecOutcome::Parsed(
                    SpecItem::Data { name, value: v },
                    p3,
                ),
            }
        } else {
            SpecOutcome::NoMatch
        },
    }
}

/// Further loop column names, each preceded by a separator.  A failed
/// attempt backtracks to before its separator.
pub open spec fn spec_names_star(s: Seq<u8>, pos: int) -> (Seq<SpecSpan>, int)
    decreases s.len() - pos,
{
    match spec_wspace(s, pos) {
        None => (Seq::empty(), pos),
        Some(p1) => if pos < p1 <= s.len() {
            match spec_data_name(s, p1) {
                None => (Seq::empty(), pos),
                Some((n, p2)) => if pos < p2 <= s.len() {
                    let (ns, pe) = spec_names_star(s, p2);
                    (ns.insert(0, n), pe)
                } else {
                    (Seq::empty(), pos)
                },
            }
        } else {
            (Seq::empty(), pos)
        },
    }
}

/// A loop item: the `loop_` keyword, separator-prefixed column names, then
/// one or more whitespace-governed values as the flattened row stream.
pub open spec fn spec_data_loop(s: Seq<u8>, pos: int, depth: nat) -> SpecOutcome<SpecItem> {
    if !spec_kw_loop(s, pos) {
        SpecOutcome::NoMatch
    } else {
        match spec_wspace(s, pos + 5) {
            None => SpecOutcome::NoMatch,
            Some(p1) => if pos < p1 <= s.len() {
                match spec_data_name(s, p1) {
                    None => SpecOutcome::NoMatch,
                    Some((n1, p2)) => if pos < p2 <= s.len() {
                        let (ns, p3) = spec_names_star(s, p2);
                        if p2 <= p3 <= s.len() {
                            match spec_wspace_data_value(s, p3, depth) {
                                SpecOutcome::TooDeep => SpecOutcome::TooDeep,
                                SpecOutcome::NoMatch => SpecOutcome::NoMatch,
                                SpecOutcome::Parsed(v1, p4) => if p3 < p4 <= s.len() {
                                    match spec_value_star(s, p4, depth) {
                                        SpecOutcome::TooDeep => SpecOutcome::TooDeep,
                                        SpecOutcome::NoMatch => SpecOutcome::NoMatch,
                                        SpecOutcome::Parsed(vs, p5) => SpecOutcome::Parsed(
                                            SpecItem::Loop {
                                                names: ns.insert(0, n1),
                                                values: vs.insert(0, v1),
                                            },
                                            p5,
                                        ),
                                    }
                                } else {
                                    SpecOutcome::NoMatch
                                },
                            }
                        } else {
                            SpecOutcome::NoMatch
                        }
                    } else {
                        SpecOutcome::NoMatch
                    },
                }
            } else {
                SpecOutcome::NoMatch
            },
        }
    }
}

/// A generic data item: the scalar form, then the loop form.
pub open spec fn spec_data(s: Seq<u8>, pos: int, depth: nat) -> SpecOutcome<SpecItem> {
    match spec_data_scalar(s, pos, depth) {
        SpecOutcome::NoMatch => spec_data_loop(s, pos, depth),
        r => r,
    }
}

// ---------------------------------------------------------------------------
// Containers
// ---------------------------------------------------------------------------
/// Zero or more separator-prefixed data items inside a save frame.
pub open spec fn spec_frame_star(s: Seq<u8>, pos: int, depth: nat) -> SpecOutcome<Seq<SpecItem>>
    decreases s.len() - pos,
{
    match spec_wspace(s, pos) {
        None => SpecOutcome::Parsed(Seq::empty(), pos),
        Some(p1) => if pos < p1 <= s.len() {
            match spec_data(s, p1, depth) {
                SpecOutcome::TooDeep => SpecOutcome::TooDeep,
                SpecOutcome::NoMatch => SpecOutcome::Parsed(Seq::empty(), pos),
                SpecOutcome::Parsed(it, p2) => if pos < p2 <= s.len() {
                    match spec_frame_star(s, p2, depth) {
                        SpecOutcome::TooDeep => SpecOutcome::TooDeep,
                        SpecOutcome::NoMatch => SpecOutcome::Parsed(seq![it], p2),
                        SpecOutcome::Parsed(its, p3) => SpecOutcome::Parsed(
                            its.insert(0, it),
                            p3,
                        ),
                    }
                } else {
                    SpecOutcome::Parsed(Seq::empty(), pos)
                },
            }
        } else {
            SpecOutcome::Parsed(Seq::empty(), pos)
        },
    }
}

/// A save frame heading: the `save_` keyword immediately followed by the
/// frame name.
pub open spec fn spec_save_heading(s: Seq<u8>, pos: int) -> Option<(SpecSpan, int)> {
    if spec_kw_save(s, pos) {
        spec_container_code(s, pos + 5)
    } else {
        None
    }
}

/// A save frame: heading, items, then a separator and the bare closing
/// `save_` keyword.
pub open spec fn spec_save_frame(s: Seq<u8>, pos: int, depth: nat) -> SpecOutcome<SpecItem> {
    match spec_save_heading(s, pos) {
        None => SpecOutcome::NoMatch,
        Some((name, p1)) => match spec_frame_star(s, p1, depth) {
            SpecOutcome::TooDeep => SpecOutcome::TooDeep,
            SpecOutcome::NoMatch => SpecOutcome::NoMatch,
            SpecOutcome::Parsed(items, p2) => match spec_wspace(s, p2) {
                None => SpecOutcome::NoMatch,
                Some(p3) => if spec_kw_save(s, p3) {
                    SpecOutcome::Parsed(
                        SpecItem::SaveFrame { name, content: items },
                        p3 + 5,
                    )
                } else {
                    SpecOutcome::NoMatch
                },
            },
        },
    }
}

/// One block item: a separator, then a data item or a save frame.
pub open spec fn spec_block_content(s: Seq<u8>, pos: int, depth: nat) -> SpecOutcome<SpecItem> {
    match spec_wspace(s, pos) {
        None => SpecOutcome::NoMatch,
        Some(p1) => if pos < p1 <= s.len() {
            match spec_data(s, p1, depth) {
                SpecOutcome::NoMatch => spec_save_frame(s, p1, depth),
                r => r,
            }
        } else {
            SpecOutcome::NoMatch
        },
    }
}

/// Zero or more block items.
pub open spec fn spec_block_star(s: Seq<u8>, pos: int, depth: nat) -> SpecOutcome<Seq<SpecItem>>
    decreases s.len() - pos,
{
    match spec_block_content(s, pos, depth) {
        SpecOutcome::TooDeep => SpecOutcome::TooDeep,
        SpecOutcome::NoMatch => SpecOutcome::Parsed(Seq::empty(), pos),
        SpecOutcome::Parsed(it, p2) => if pos < p2 <= s.len() {
            match spec_block_star(s, p2, depth) {
                SpecOutcome::TooDeep => SpecOutcome::TooDeep,
                SpecOutcome::NoMatch => SpecOutcome::Parsed(seq![it], p2),
                SpecOutcome::Parsed(its, p3) => SpecOutcome::Parsed(its.insert(0, it), p3),
            }
        } else {
            SpecOutcome::Parsed(Seq::empty(), pos)
        },
    }
}

/// A data block heading: the `data_` keyword immediately followed by the
/// container code, which keeps its original casing verbatim.
pub open spec fn spec_data_heading(s: Seq<u8>, pos: int) -> Option<(SpecSpan, int)> {
    if spec_kw_data(s, pos) {
        spec_container_code(s, pos + 5)
    } else {
        None
    }
}

/// A data block: heading, then its items.
pub open spec fn spec_data_block(s: Seq<u8>, pos: int, depth: nat) -> SpecOutcome<SpecBlock> {
    match spec_data_heading(s, pos) {
        None => SpecOutcome::NoMatch,
        Some((heading, p1)) => match spec_block_star(s, p1, depth) {
            SpecOutcome::TooDeep => SpecOutcome::TooDeep,
            SpecOutcome::NoMatch => SpecOutcome::NoMatch,
            SpecOutcome::Parsed(items, p2) => SpecOutcome::Parsed(
                SpecBlock { heading, content: items },
                p2,
            ),
        },
    }
}

// ---------------------------------------------------------------------------
// The file layer
// ---------------------------------------------------------------------------
/// Further data blocks, each preceded by a separator.  A failed attempt
/// backtracks to before its separator.
pub open spec fn spec_blocks_star(s: Seq<u8>, pos: int, depth: nat) -> SpecOutcome<
    Seq<SpecBlock>,
>
    decreases s.len() - pos,
{
    match spec_wspace(s, pos) {
        None => SpecOutcome::Parsed(Seq::empty(), pos),
        Some(p1) => if pos < p1 <= s.len() {
            match spec_data_block(s, p1, depth) {
                SpecOutcome::TooDeep => SpecOutcome::TooDeep,
                SpecOutcome::NoMatch => SpecOutcome::Parsed(Seq::empty(), pos),
                SpecOutcome::Parsed(b, p2) => if pos < p2 <= s.len() {
                    match spec_blocks_star(s, p2, depth) {
                        SpecOutcome::TooDeep => SpecOutcome::TooDeep,
                        SpecOutcome::NoMatch => SpecOutcome::Parsed(seq![b], p2),
                        SpecOutcome::Parsed(bs, p3) => SpecOutcome::Parsed(
                            bs.insert(0, b),
                            p3,
                        ),
                    }
                } else {
                    SpecOutcome::Parsed(Seq::empty(), pos)
                },
            }
        } else {
            SpecOutcome::Parsed(Seq::empty(), pos)
        },
    }
}

/// The file heading: an optional byte-order mark, then the mandatory magic
/// header literal, then optional inline spaces.  The heading span is the
/// magic literal itself.
pub open spec fn spec_file_heading(s: Seq<u8>, pos: int) -> Option<(SpecSpan, int)> {
    let p0 = if spec_bom(s, pos) {
        pos + 3
    } else {
        pos
    };
    if spec_magic(s, p0) {
        Some((SpecSpan { start: p0, end: p0 + 10 }, scan_spaces(s, p0 + 10)))
    } else {
        None
    }
}

/// The file body after the heading: a mandatory line ending, loose
/// skipping, then one or more data blocks separated by separators.
pub open spec fn spec_file_content(s: Seq<u8>, pos: int, depth: nat) -> SpecOutcome<
    Seq<SpecBlock>,
>
{
    match spec_line_ending(s, pos) {
        None => SpecOutcome::NoMatch,
        Some(p1) => {
            let p2 = spec_wspace_any(s, p1);
            match spec_data_block(s, p2, depth) {
                SpecOutcome::TooDeep => SpecOutcome::TooDeep,
                SpecOutcome::NoMatch => SpecOutcome::NoMatch,
                SpecOutcome::Parsed(b1, p3) => if p2 <= p3 <= s.len() {
                    match spec_blocks_star(s, p3, depth) {
                        SpecOutcome::TooDeep => SpecOutcome::TooDeep,
                        SpecOutcome::NoMatch => SpecOutcome::NoMatch,
                        SpecOutcome::Parsed(bs, p4) => SpecOutcome::Parsed(
                            bs.insert(0, b1),
                            p4,
                        ),
                    }
                } else {
                    SpecOutcome::NoMatch
                },
            }
        },
    }
}

/// A whole file: heading, content, trailing loose whitespace, an optional
/// trailing comment with no line ending required, then mandatory
/// end-of-input.  Failures carry the stage at which parsing stopped.
pub open spec fn spec_cif2_file(s: Seq<u8>, depth: nat) -> Result<SpecModel, CifError> {
    match spec_file_heading(s, 0) {
        None => Err(CifError::Header),
        Some((heading, p1)) => match spec_file_content(s, p1, depth) {
            SpecOutcome::TooDeep => Err(CifError::NestingTooDeep),
            SpecOutcome::NoMatch => Err(CifError::Content),
            SpecOutcome::Parsed(blocks, p2) => {
                let p3 = spec_wspace_any(s, p2);
                let p4 = match spec_trailing_comment(s, p3) {
                    Some(p) => p,
                    None => p3,
                };
                if p4 == s.len() {
                    Ok(SpecModel { heading, content: blocks })
                } else {
                    Err(CifError::EndOfInput)
                }
            },
        },
    }
}

} // verus!
