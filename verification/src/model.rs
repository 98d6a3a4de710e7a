//! The syntax tree produced by one parse: a hierarchy of data blocks, save
//! frames, scalar and looped data items, and recursive list/table values.
//!
//! Every piece of text in the tree is a `Span`: a non-owning `(start, end)`
//! byte range into the caller-supplied source buffer.  The tree never copies
//! or rewrites source text, so a span's content is exactly the source bytes.

use vstd::prelude::*;

verus! {

broadcast use vstd::std_specs::vec::group_vec_axioms;

/// A contiguous byte range `[start, end)` into the source buffer.
#[derive(Debug, PartialEq, Eq, Clone, Copy)]
pub struct Span {
    pub start: usize,
    pub end: usize,
}

/// Mathematical counterpart of `Span`, over unbounded integers.
pub struct SpecSpan {
    pub start: int,
    pub end: int,
}

impl View for Span {
    type V = SpecSpan;

    open spec fn view(&self) -> SpecSpan {
        SpecSpan { start: self.start as int, end: self.end as int }
    }
}

impl Span {
    /// The source bytes this span designates.
    pub open spec fn spec_bytes(&self, src: Seq<u8>) -> Seq<u8> {
        src.subrange(self.start as int, self.end as int)
    }

    /// Whether the span lies inside a buffer of length `n`.
    pub open spec fn wf(&self, n: int) -> bool {
        self.start <= self.end <= n
    }

    /// Extracts the spanned bytes from the source buffer the span points into.
    pub fn bytes<'a>(&self, src: &'a [u8]) -> (r: &'a [u8])
        requires
            self@.wf(src@.len() as int),
        ensures
            r@ == self.spec_bytes(src@),
    {
        vstd::slice::slice_subrange(src, self.start, self.end)
    }

    /// The number of bytes spanned.
    pub fn len(&self) -> (r: usize)
        requires
            self.start <= self.end,
        ensures
            r == self@.end - self@.start,
    {
        self.end - self.start
    }
}

impl SpecSpan {
    /// Whether the span lies inside a buffer of length `n`.
    pub open spec fn wf(&self, n: int) -> bool {
        0 <= self.start <= self.end <= n
    }
}

/// One value of a data item: empty, a scalar text span, or a recursive
/// list / table composite.
#[derive(Debug, PartialEq)]
pub enum RawDataItemContent {
    Empty,
    Str(Span),
    List(Vec<RawDataItemContent>),
    Table(Vec<(RawDataItemContent, RawDataItemContent)>),
}

/// One item of a container: a nested save frame, a named scalar value, or a
/// columnar loop (column names plus a row-major flattened value stream).
#[derive(Debug, PartialEq)]
pub enum RawDataItem {
    SaveFrame { name: Span, content: Vec<RawDataItem> },
    Data { name: Span, value: RawDataItemContent },
    Loop { names: Vec<Span>, values: Vec<RawDataItemContent> },
}

/// One `data_...` block: its heading code and its items.
#[derive(Debug, PartialEq)]
pub struct RawDataBlock {
    pub heading: Span,
    pub content: Vec<RawDataItem>,
}

/// The root of one parse: the magic-header span and the data blocks in order.
#[derive(Debug, PartialEq)]
pub struct RawModel {
    pub heading: Span,
    pub content: Vec<RawDataBlock>,
}

/// Mathematical counterpart of `RawDataItemContent`.
pub enum SpecValue {
    Empty,
    Str(SpecSpan),
    List(Seq<SpecValue>),
    Table(Seq<(SpecValue, SpecValue)>),
}

/// Mathematical counterpart of `RawDataItem`.
pub enum SpecItem {
    SaveFrame { name: SpecSpan, content: Seq<SpecItem> },
    Data { name: SpecSpan, value: SpecValue },
    Loop { names: Seq<SpecSpan>, values: Seq<SpecValue> },
}

/// Mathematical counterpart of `RawDataBlock`.
pub struct SpecBlock {
    pub heading: SpecSpan,
    pub content: Seq<SpecItem>,
}

/// Mathematical counterpart of `RawModel`.
pub struct SpecModel {
    pub heading: SpecSpan,
    pub content: Seq<SpecBlock>,
}

/// How a parse can fail: the top-level stage that could not be matched, or
/// the configurable nesting-depth bound being exceeded.
#[derive(Debug, PartialEq, Eq, Structural, Clone, Copy)]
pub enum CifError {
    Header,
    Content,
    TrailingWhitespace,
    TrailingComment,
    EndOfInput,
    NestingTooDeep,
}

/// Deep view of a value tree.
pub open spec fn deep_value(v: RawDataItemContent) -> SpecValue
    decreases v,
{
    match v {
        RawDataItemContent::Empty => SpecValue::Empty,
        RawDataItemContent::Str(sp) => SpecValue::Str(sp@),
        RawDataItemContent::List(vs) => SpecValue::List(deep_values(vs@)),
        RawDataItemContent::Table(es) => SpecValue::Table(deep_entries(es@)),
    }
}

/// Deep view of a sequence of values.
pub open spec fn deep_values(s: Seq<RawDataItemContent>) -> Seq<SpecValue>
    decreases s,
{
    if s.len() == 0 {
        Seq::empty()
    } else {
        deep_values(s.drop_first()).insert(0, deep_value(s.first()))
    }
}

/// Deep view of a sequence of table entries.
pub open spec fn deep_entries(s: Seq<(RawDataItemContent, RawDataItemContent)>) -> Seq<
    (SpecValue, SpecValue),
>
    decreases s,
{
    if s.len() == 0 {
        Seq::empty()
    } else {
        deep_entries(s.drop_first()).insert(
            0,
            (deep_value(s.first().0), deep_value(s.first().1)),
        )
    }
}

/// Deep view of an item tree.
pub open spec fn deep_item(it: RawDataItem) -> SpecItem
    decreases it,
{
    match it {
        RawDataItem::SaveFrame { name, content } => SpecItem::SaveFrame {
            name: name@,
            content: deep_items(content@),
        },
        RawDataItem::Data { name, value } => SpecItem::Data {
            name: name@,
            value: deep_value(value),
        },
        RawDataItem::Loop { names, values } => SpecItem::Loop {
            names: deep_spans(names@),
            values: deep_values(values@),
        },
    }
}

/// Deep view of a sequence of items.
pub open spec fn deep_items(s: Seq<RawDataItem>) -> Seq<SpecItem>
    decreases s,
{
    if s.len() == 0 {
        Seq::empty()
    } else {
        deep_items(s.drop_first()).insert(0, deep_item(s.first()))
    }
}

/// Deep view of a sequence of spans.
pub open spec fn deep_spans(s: Seq<Span>) -> Seq<SpecSpan>
    decreases s,
{
    if s.len() == 0 {
        Seq::empty()
    } else {
        deep_spans(s.drop_first()).insert(0, s.first()@)
    }
}

/// Deep view of one block.
pub open spec fn deep_block(b: RawDataBlock) -> SpecBlock {
    SpecBlock { heading: b.heading@, content: deep_items(b.content@) }
}

/// Deep view of a sequence of blocks.
pub open spec fn deep_blocks(s: Seq<RawDataBlock>) -> Seq<SpecBlock>
    decreases s,
{
    if s.len() == 0 {
        Seq::empty()
    } else {
        deep_blocks(s.drop_first()).insert(0, deep_block(s.first()))
    }
}

/// Deep view of the whole model.
pub open spec fn deep_model(m: RawModel) -> SpecModel {
    SpecModel { heading: m.heading@, content: deep_blocks(m.content@) }
}

/// Every span of the value tree lies inside a buffer of length `n`.
pub open spec fn spec_value_wf(v: RawDataItemContent, n: int) -> bool
    decreases v,
{
    match v {
        RawDataItemContent::Empty => true,
        RawDataItemContent::Str(sp) => sp@.wf(n),
        RawDataItemContent::List(vs) => spec_values_wf(vs@, n),
        RawDataItemContent::Table(es) => spec_entries_wf(es@, n),
    }
}

/// Every span of a sequence of values lies inside a buffer of length `n`.
pub open spec fn spec_values_wf(s: Seq<RawDataItemContent>, n: int) -> bool
    decreases s,
{
    s.len() == 0 || (spec_value_wf(s.first(), n) && spec_values_wf(s.drop_first(), n))
}

/// Every span of a sequence of table entries lies inside a buffer of
/// length `n`.
pub open spec fn spec_entries_wf(s: Seq<(RawDataItemContent, RawDataItemContent)>, n: int) -> bool
    decreases s,
{
    s.len() == 0 || (spec_value_wf(s.first().0, n) && spec_value_wf(s.first().1, n)
        && spec_entries_wf(s.drop_first(), n))
}

/// Every span of a sequence of spans lies inside a buffer of length `n`.
pub open spec fn spec_spans_wf(s: Seq<Span>, n: int) -> bool
    decreases s,
{
    s.len() == 0 || (s.first()@.wf(n) && spec_spans_wf(s.drop_first(), n))
}

/// Every span of the item tree lies inside a buffer of length `n`.
pub open spec fn spec_item_wf(it: RawDataItem, n: int) -> bool
    decreases it,
{
    match it {
        RawDataItem::SaveFrame { name, content } => name@.wf(n) && spec_items_wf(content@, n),
        RawDataItem::Data { name, value } => name@.wf(n) && spec_value_wf(value, n),
        RawDataItem::Loop { names, values } => spec_spans_wf(names@, n) && spec_values_wf(
            values@,
            n,
        ),
    }
}

/// Every span of a sequence of items lies inside a buffer of length `n`.
pub open spec fn spec_items_wf(s: Seq<RawDataItem>, n: int) -> bool
    decreases s,
{
    s.len() == 0 || (spec_item_wf(s.first(), n) && spec_items_wf(s.drop_first(), n))
}

/// Every span of the block lies inside a buffer of length `n`.
pub open spec fn spec_block_wf(b: RawDataBlock, n: int) -> bool {
    b.heading@.wf(n) && spec_items_wf(b.content@, n)
}

/// Every span of a sequence of blocks lies inside a buffer of length `n`.
pub open spec fn spec_blocks_wf(s: Seq<RawDataBlock>, n: int) -> bool
    decreases s,
{
    s.len() == 0 || (spec_block_wf(s.first(), n) && spec_blocks_wf(s.drop_first(), n))
}

/// Every span of the model lies inside a buffer of length `n`: the
/// guarantee that lets a caller read any span of the tree back out of the
/// source buffer it handed to the parser.
pub open spec fn spec_model_wf(m: RawModel, n: int) -> bool {
    m.heading@.wf(n) && spec_blocks_wf(m.content@, n)
}

/// Well-formedness of a value sequence is preserved by prepending a
/// well-formed value.
pub proof fn lemma_values_wf_prepend(s: Seq<RawDataItemContent>, x: RawDataItemContent, n: int)
    requires
        spec_values_wf(s, n),
        spec_value_wf(x, n),
    ensures
        spec_values_wf(s.insert(0, x), n),
{
    let t = s.insert(0, x);
    assert(t.first() == x);
    assert(t.drop_first() =~= s);
}

/// Well-formedness of an entry sequence is preserved by prepending a
/// well-formed entry.
pub proof fn lemma_entries_wf_prepend(
    s: Seq<(RawDataItemContent, RawDataItemContent)>,
    x: (RawDataItemContent, RawDataItemContent),
    n: int,
)
    requires
        spec_entries_wf(s, n),
        spec_value_wf(x.0, n),
        spec_value_wf(x.1, n),
    ensures
        spec_entries_wf(s.insert(0, x), n),
{
    let t = s.insert(0, x);
    assert(t.first() == x);
    assert(t.drop_first() =~= s);
}

/// Well-formedness of a span sequence is preserved by prepending a
/// well-formed span.
pub proof fn lemma_spans_wf_prepend(s: Seq<Span>, x: Span, n: int)
    requires
        spec_spans_wf(s, n),
        x@.wf(n),
    ensures
        spec_spans_wf(s.insert(0, x), n),
{
    let t = s.insert(0, x);
    assert(t.first() == x);
    assert(t.drop_first() =~= s);
}

/// Well-formedness of an item sequence is preserved by prepending a
/// well-formed item.
pub proof fn lemma_items_wf_prepend(s: Seq<RawDataItem>, x: RawDataItem, n: int)
    requires
        spec_items_wf(s, n),
        spec_item_wf(x, n),
    ensures
        spec_items_wf(s.insert(0, x), n),
{
    let t = s.insert(0, x);
    assert(t.first() == x);
    assert(t.drop_first() =~= s);
}

/// Well-formedness of a block sequence is preserved by prepending a
/// well-formed block.
pub proof fn lemma_blocks_wf_prepend(s: Seq<RawDataBlock>, x: RawDataBlock, n: int)
    requires
        spec_blocks_wf(s, n),
        spec_block_wf(x, n),
    ensures
        spec_blocks_wf(s.insert(0, x), n),
{
    let t = s.insert(0, x);
    assert(t.first() == x);
    assert(t.drop_first() =~= s);
}

/// A one-value sequence of a well-formed value is well formed.
pub proof fn lemma_values_wf_singleton(x: RawDataItemContent, n: int)
    requires
        spec_value_wf(x, n),
    ensures
        spec_values_wf(seq![x], n),
{
    assert(spec_values_wf(Seq::<RawDataItemContent>::empty(), n));
    assert(seq![x].first() == x);
    assert(seq![x].drop_first() =~= Seq::<RawDataItemContent>::empty());
}

/// A one-entry sequence of a well-formed entry is well formed.
pub proof fn lemma_entries_wf_singleton(x: (RawDataItemContent, RawDataItemContent), n: int)
    requires
        spec_value_wf(x.0, n),
        spec_value_wf(x.1, n),
    ensures
        spec_entries_wf(seq![x], n),
{
    assert(spec_entries_wf(Seq::<(RawDataItemContent, RawDataItemContent)>::empty(), n));
    assert(seq![x].first() == x);
    assert(seq![x].drop_first() =~= Seq::<(RawDataItemContent, RawDataItemContent)>::empty());
}

/// A one-item sequence of a well-formed item is well formed.
pub proof fn lemma_items_wf_singleton(x: RawDataItem, n: int)
    requires
        spec_item_wf(x, n),
    ensures
        spec_items_wf(seq![x], n),
{
    assert(spec_items_wf(Seq::<RawDataItem>::empty(), n));
    assert(seq![x].first() == x);
    assert(seq![x].drop_first() =~= Seq::<RawDataItem>::empty());
}

/// A one-block sequence of a well-formed block is well formed.
pub proof fn lemma_blocks_wf_singleton(x: RawDataBlock, n: int)
    requires
        spec_block_wf(x, n),
    ensures
        spec_blocks_wf(seq![x], n),
{
    assert(spec_blocks_wf(Seq::<RawDataBlock>::empty(), n));
    assert(seq![x].first() == x);
    assert(seq![x].drop_first() =~= Seq::<RawDataBlock>::empty());
}

/// A loop item is well shaped when its value count is a whole number of
/// rows: a positive multiple of its column count.  The grammar itself does
/// not enforce this; it is a post-parse validation.
pub open spec fn spec_item_loops_shaped(it: RawDataItem) -> bool
    decreases it,
{
    match it {
        RawDataItem::Loop { names, values } => names@.len() > 0 && values@.len() % names@.len()
            == 0,
        RawDataItem::SaveFrame { name, content } => forall|i: int|
            0 <= i < content@.len() ==> spec_item_loops_shaped(#[trigger] content@[i]),
        RawDataItem::Data { .. } => true,
    }
}

/// Every loop of the block, save frames included, is well shaped.
pub open spec fn spec_block_loops_shaped(b: RawDataBlock) -> bool {
    forall|i: int| 0 <= i < b.content@.len() ==> spec_item_loops_shaped(#[trigger] b.content@[i])
}

/// Every loop of the model is well shaped.
pub open spec fn spec_model_loops_shaped(m: RawModel) -> bool {
    forall|i: int| 0 <= i < m.content@.len() ==> spec_block_loops_shaped(#[trigger] m.content@[i])
}

/// Checks one item's loops, recursing into save frames.
pub fn item_loops_shaped(it: &RawDataItem) -> (r: bool)
    ensures
        r == spec_item_loops_shaped(*it),
    decreases *it, 0int,
{
    match it {
        RawDataItem::Loop { names, values } => names.len() > 0 && values.len() % names.len()
            == 0,
        RawDataItem::Data { .. } => true,
        RawDataItem::SaveFrame { name, content } => items_loops_shaped(content, 0),
    }
}

/// Checks the loops of the items from index `i` on.
pub fn items_loops_shaped(items: &Vec<RawDataItem>, i: usize) -> (r: bool)
    requires
        i <= items@.len(),
    ensures
        r == (forall|j: int|
            i <= j < items@.len() ==> spec_item_loops_shaped(#[trigger] items@[j])),
    decreases *items, items@.len() - i,
{
    if i < items.len() {
        if !item_loops_shaped(&items[i]) {
            false
        } else {
            items_loops_shaped(items, i + 1)
        }
    } else {
        true
    }
}

/// Checks every loop of one block.
pub fn block_loops_shaped(b: &RawDataBlock) -> (r: bool)
    ensures
        r == spec_block_loops_shaped(*b),
{
    let mut i: usize = 0;
    while i < b.content.len()
        invariant
            i <= b.content@.len(),
            forall|j: int| 0 <= j < i ==> spec_item_loops_shaped(#[trigger] b.content@[j]),
        decreases b.content@.len() - i,
    {
        if !item_loops_shaped(&b.content[i]) {
            return false;
        }
        i = i + 1;
    }
    true
}

/// The post-parse loop-shape validation: true exactly when every `Loop` in
/// the model has a positive column count and a value count that is a whole
/// multiple of it.
pub fn validate_loop_shape(m: &RawModel) -> (r: bool)
    ensures
        r == spec_model_loops_shaped(*m),
{
    let mut i: usize = 0;
    while i < m.content.len()
        invariant
            i <= m.content@.len(),
            forall|j: int| 0 <= j < i ==> spec_block_loops_shaped(#[trigger] m.content@[j]),
        decreases m.content@.len() - i,
    {
        if !block_loops_shaped(&m.content[i]) {
            return false;
        }
        i = i + 1;
    }
    true
}

/// The name/value span pairs of the scalar string items of one item, in
/// order, recursing into save frames.
pub open spec fn spec_item_str_pairs(it: RawDataItem) -> Seq<(Span, Span)>
    decreases it, 0int,
{
    match it {
        RawDataItem::Data { name, value } => match value {
            RawDataItemContent::Str(sp) => seq![(name, sp)],
            _ => Seq::empty(),
        },
        RawDataItem::SaveFrame { name, content } => spec_items_str_pairs(content@, 0),
        RawDataItem::Loop { .. } => Seq::empty(),
    }
}

/// The name/value span pairs of the items of `s` from index `i` on.
pub open spec fn spec_items_str_pairs(s: Seq<RawDataItem>, i: int) -> Seq<(Span, Span)>
    decreases s, s.len() - i,
{
    if 0 <= i < s.len() {
        spec_item_str_pairs(s[i]) + spec_items_str_pairs(s, i + 1)
    } else {
        Seq::empty()
    }
}

/// Collects the name and value spans of one item's plain string data,
/// recursing into save frames.
pub fn match_data_item(data_item: &RawDataItem) -> (r: Vec<(Span, Span)>)
    ensures
        r@ == spec_item_str_pairs(*data_item),
    decreases *data_item, 0int,
{
    match data_item {
        RawDataItem::Data { name, value } => match value {
            RawDataItemContent::Str(sp) => {
                let mut out: Vec<(Span, Span)> = Vec::new();
                out.push((*name, *sp));
                out
            },
            _ => Vec::new(),
        },
        RawDataItem::SaveFrame { name, content } => items_str_pairs(content, 0),
        RawDataItem::Loop { .. } => Vec::new(),
    }
}

/// Collects the name and value spans of the plain string data of the items
/// from index `i` on.
pub fn items_str_pairs(items: &Vec<RawDataItem>, i: usize) -> (r: Vec<(Span, Span)>)
    requires
        i <= items@.len(),
    ensures
        r@ == spec_items_str_pairs(items@, i as int),
    decreases *items, items@.len() - i,
{
    if i < items.len() {
        let mut first = match_data_item(&items[i]);
        let mut rest = items_str_pairs(items, i + 1);
        first.append(&mut rest);
        first
    } else {
        Vec::new()
    }
}

/// Collects the name and value spans of every plain string data item of the
/// block, save frames included, in source order.
pub fn iterate_data_block(data_block: &RawDataBlock) -> (r: Vec<(Span, Span)>)
    ensures
        r@ == spec_items_str_pairs(data_block.content@, 0),
{
    items_str_pairs(&data_block.content, 0)
}

/// Prepending to a value sequence prepends to its deep view.
pub proof fn lemma_deep_values_prepend(s: Seq<RawDataItemContent>, x: RawDataItemContent)
    ensures
        deep_values(s.insert(0, x)) == deep_values(s).insert(0, deep_value(x)),
{
    let t = s.insert(0, x);
    assert(t.first() == x);
    assert(t.drop_first() =~= s);
}

/// The deep view of a one-value sequence.
pub proof fn lemma_deep_values_singleton(x: RawDataItemContent)
    ensures
        deep_values(seq![x]) == seq![deep_value(x)],
{
    assert(seq![x].drop_first() =~= Seq::<RawDataItemContent>::empty());
    assert(deep_values(seq![x].drop_first()) =~= Seq::<SpecValue>::empty());
    assert(deep_values(seq![x]) =~= seq![deep_value(x)]);
}

/// The deep view of a one-entry sequence.
pub proof fn lemma_deep_entries_singleton(x: (RawDataItemContent, RawDataItemContent))
    ensures
        deep_entries(seq![x]) == seq![(deep_value(x.0), deep_value(x.1))],
{
    assert(seq![x].drop_first() =~= Seq::<(RawDataItemContent, RawDataItemContent)>::empty());
    assert(deep_entries(seq![x].drop_first()) =~= Seq::<(SpecValue, SpecValue)>::empty());
    assert(deep_entries(seq![x]) =~= seq![(deep_value(x.0), deep_value(x.1))]);
}

/// The deep view of a one-item sequence.
pub proof fn lemma_deep_items_singleton(x: RawDataItem)
    ensures
        deep_items(seq![x]) == seq![deep_item(x)],
{
    assert(seq![x].drop_first() =~= Seq::<RawDataItem>::empty());
    assert(deep_items(seq![x].drop_first()) =~= Seq::<SpecItem>::empty());
    assert(deep_items(seq![x]) =~= seq![deep_item(x)]);
}

/// The deep view of a one-block sequence.
pub proof fn lemma_deep_blocks_singleton(x: RawDataBlock)
    ensures
        deep_blocks(seq![x]) == seq![deep_block(x)],
{
    assert(seq![x].drop_first() =~= Seq::<RawDataBlock>::empty());
    assert(deep_blocks(seq![x].drop_first()) =~= Seq::<SpecBlock>::empty());
    assert(deep_blocks(seq![x]) =~= seq![deep_block(x)]);
}

/// Prepending to an entry sequence prepends to its deep view.
pub proof fn lemma_deep_entries_prepend(
    s: Seq<(RawDataItemContent, RawDataItemContent)>,
    x: (RawDataItemContent, RawDataItemContent),
)
    ensures
        deep_entries(s.insert(0, x)) == deep_entries(s).insert(
            0,
            (deep_value(x.0), deep_value(x.1)),
        ),
{
    let t = s.insert(0, x);
    assert(t.first() == x);
    assert(t.drop_first() =~= s);
}

/// Prepending to an item sequence prepends to its deep view.
pub proof fn lemma_deep_items_prepend(s: Seq<RawDataItem>, x: RawDataItem)
    ensures
        deep_items(s.insert(0, x)) == deep_items(s).insert(0, deep_item(x)),
{
    let t = s.insert(0, x);
    assert(t.first() == x);
    assert(t.drop_first() =~= s);
}

/// Prepending to a span sequence prepends to its deep view.
pub proof fn lemma_deep_spans_prepend(s: Seq<Span>, x: Span)
    ensures
        deep_spans(s.insert(0, x)) == deep_spans(s).insert(0, x@),
{
    let t = s.insert(0, x);
    assert(t.first() == x);
    assert(t.drop_first() =~= s);
}

/// Prepending to a block sequence prepends to its deep view.
pub proof fn lemma_deep_blocks_prepend(s: Seq<RawDataBlock>, x: RawDataBlock)
    ensures
        deep_blocks(s.insert(0, x)) == deep_blocks(s).insert(0, deep_block(x)),
{
    let t = s.insert(0, x);
    assert(t.first() == x);
    assert(t.drop_first() =~= s);
}

} // verus!
