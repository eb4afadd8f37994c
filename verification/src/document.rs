//! Rich documents: blocks of styled runs of text, and what they amount to.

use vstd::prelude::*;

use crate::text::{chars_of, string_of_char, string_range};

verus! {

/// One run of a line: text, a styled group of runs, or a link around them.
#[derive(Debug, PartialEq, Eq)]
pub enum Inline {
    Text(String),
    Bold(Vec<Inline>),
    Italic(Vec<Inline>),
    Underline(Vec<Inline>),
    Strikethrough(Vec<Inline>),
    Link { label: Vec<Inline>, href: String },
}

#[derive(Debug, PartialEq, Eq)]
pub struct ListItem {
    pub content: Vec<Inline>,
}

#[derive(Debug, PartialEq, Eq)]
pub enum Block {
    Paragraph(Vec<Inline>),
    Heading1(Vec<Inline>),
    Heading2(Vec<Inline>),
    Heading3(Vec<Inline>),
    BulletList(Vec<ListItem>),
    NumberedList(Vec<ListItem>),
    Quote(Vec<Inline>),
    CodeBlock(String),
}

#[derive(Debug, PartialEq, Eq)]
pub struct RichDocument {
    pub blocks: Vec<Block>,
}

// ---------------------------------------------------------------------------
// The model
// ---------------------------------------------------------------------------

/// How a group of runs is styled.
pub enum Mark {
    Bold,
    Italic,
    Underline,
    Strikethrough,
}

/// The model of a run.
pub enum Run {
    Text(Seq<char>),
    Styled(Mark, Seq<Run>),
    Link(Seq<Run>, Seq<char>),
}

/// The forms a block of one line of runs can take.
pub enum LineForm {
    Paragraph,
    Heading1,
    Heading2,
    Heading3,
    Quote,
}

#[derive(Clone, Copy, Debug, PartialEq, Eq, Structural)]
pub enum ListKind {
    Bullet,
    Numbered,
}

/// The model of a block: a line of runs, a list of such lines, or code.
pub enum Piece {
    Line(LineForm, Seq<Run>),
    List(ListKind, Seq<Seq<Run>>),
    Code(Seq<char>),
}

pub open spec fn run_of(i: Inline) -> Run
    decreases i,
{
    match i {
        Inline::Text(s) => Run::Text(s@),
        Inline::Bold(c) => Run::Styled(Mark::Bold, runs_of(c@)),
        Inline::Italic(c) => Run::Styled(Mark::Italic, runs_of(c@)),
        Inline::Underline(c) => Run::Styled(Mark::Underline, runs_of(c@)),
        Inline::Strikethrough(c) => Run::Styled(Mark::Strikethrough, runs_of(c@)),
        Inline::Link { label, href } => Run::Link(runs_of(label@), href@),
    }
}

pub open spec fn runs_of(s: Seq<Inline>) -> Seq<Run>
    decreases s,
{
    Seq::new(
        s.len(),
        |k: int|
            if 0 <= k < s.len() {
                run_of(s[k])
            } else {
                arbitrary()
            },
    )
}

impl View for Inline {
    type V = Run;

    open spec fn view(&self) -> Run {
        run_of(*self)
    }
}

pub open spec fn items_of(s: Seq<ListItem>) -> Seq<Seq<Run>> {
    Seq::new(s.len(), |k: int| runs_of(s[k].content@))
}

impl View for Block {
    type V = Piece;

    open spec fn view(&self) -> Piece {
        match *self {
            Block::Paragraph(c) => Piece::Line(LineForm::Paragraph, runs_of(c@)),
            Block::Heading1(c) => Piece::Line(LineForm::Heading1, runs_of(c@)),
            Block::Heading2(c) => Piece::Line(LineForm::Heading2, runs_of(c@)),
            Block::Heading3(c) => Piece::Line(LineForm::Heading3, runs_of(c@)),
            Block::Quote(c) => Piece::Line(LineForm::Quote, runs_of(c@)),
            Block::BulletList(items) => Piece::List(ListKind::Bullet, items_of(items@)),
            Block::NumberedList(items) => Piece::List(ListKind::Numbered, items_of(items@)),
            Block::CodeBlock(text) => Piece::Code(text@),
        }
    }
}

pub open spec fn pieces_of(s: Seq<Block>) -> Seq<Piece> {
    Seq::new(s.len(), |k: int| s[k]@)
}

impl View for RichDocument {
    type V = Seq<Piece>;

    open spec fn view(&self) -> Seq<Piece> {
        pieces_of(self.blocks@)
    }
}

/// The text of a run, its styles left aside.
pub open spec fn run_text(r: Run) -> Seq<char>
    decreases r,
{
    match r {
        Run::Text(s) => s,
        Run::Styled(_, c) => runs_text(c),
        Run::Link(c, _) => runs_text(c),
    }
}

/// The text of a line of runs.
pub open spec fn runs_text(s: Seq<Run>) -> Seq<char>
    decreases s,
{
    if s.len() == 0 {
        seq![]
    } else {
        run_text(s[0]) + runs_text(s.drop_first())
    }
}

impl Clone for Inline {
    fn clone(&self) -> (r: Self)
        ensures
            r@ == self@,
        decreases self,
    {
        match self {
            Inline::Text(s) => Inline::Text(s.clone()),
            Inline::Bold(c) => Inline::Bold(clone_inlines(c)),
            Inline::Italic(c) => Inline::Italic(clone_inlines(c)),
            Inline::Underline(c) => Inline::Underline(clone_inlines(c)),
            Inline::Strikethrough(c) => Inline::Strikethrough(clone_inlines(c)),
            Inline::Link { label, href } => Inline::Link {
                label: clone_inlines(label),
                href: href.clone(),
            },
        }
    }
}

pub fn clone_inlines(v: &Vec<Inline>) -> (r: Vec<Inline>)
    ensures
        runs_of(r@) == runs_of(v@),
    decreases v,
{
    let mut out: Vec<Inline> = Vec::new();
    let mut i: usize = 0;
    while i < v.len()
        invariant
            i <= v@.len(),
            out@.len() == i,
            forall|k: int| 0 <= k < i ==> run_of(#[trigger] out@[k]) == run_of(v@[k]),
        decreases v@.len() - i,
    {
        let item = &v[i];
        assert(decreases_to!(v => v@[i as int]));
        let copy = item.clone();
        out.push(copy);
        i = i + 1;
    }
    assert(runs_of(out@) =~= runs_of(v@));
    out
}

impl Clone for ListItem {
    fn clone(&self) -> (r: Self)
        ensures
            runs_of(r.content@) == runs_of(self.content@),
    {
        ListItem { content: clone_inlines(&self.content) }
    }
}

pub fn clone_items(v: &Vec<ListItem>) -> (r: Vec<ListItem>)
    ensures
        items_of(r@) == items_of(v@),
{
    let mut out: Vec<ListItem> = Vec::new();
    let mut i: usize = 0;
    while i < v.len()
        invariant
            i <= v@.len(),
            out@.len() == i,
            forall|k: int|
                0 <= k < i ==> runs_of((#[trigger] out@[k]).content@) == runs_of(v@[k].content@),
        decreases v@.len() - i,
    {
        out.push(v[i].clone());
        i = i + 1;
    }
    assert(items_of(out@) =~= items_of(v@));
    out
}

impl Clone for Block {
    fn clone(&self) -> (r: Self)
        ensures
            r@ == self@,
    {
        match self {
            Block::Paragraph(c) => Block::Paragraph(clone_inlines(c)),
            Block::Heading1(c) => Block::Heading1(clone_inlines(c)),
            Block::Heading2(c) => Block::Heading2(clone_inlines(c)),
            Block::Heading3(c) => Block::Heading3(clone_inlines(c)),
            Block::Quote(c) => Block::Quote(clone_inlines(c)),
            Block::BulletList(items) => Block::BulletList(clone_items(items)),
            Block::NumberedList(items) => Block::NumberedList(clone_items(items)),
            Block::CodeBlock(text) => Block::CodeBlock(text.clone()),
        }
    }
}

impl Clone for RichDocument {
    fn clone(&self) -> (r: Self)
        ensures
            r@ == self@,
    {
        let mut out: Vec<Block> = Vec::new();
        let mut i: usize = 0;
        while i < self.blocks.len()
            invariant
                i <= self.blocks@.len(),
                out@.len() == i,
                forall|k: int| 0 <= k < i ==> (#[trigger] out@[k])@ == self.blocks@[k]@,
            decreases self.blocks@.len() - i,
        {
            out.push(self.blocks[i].clone());
            i = i + 1;
        }
        assert(pieces_of(out@) =~= pieces_of(self.blocks@));
        RichDocument { blocks: out }
    }
}

// ---------------------------------------------------------------------------
// Equality
// ---------------------------------------------------------------------------

/// Whether two runs are the same, styles and links included.
pub fn same_inline(a: &Inline, b: &Inline) -> (r: bool)
    ensures
        r == (a@ == b@),
    decreases a,
{
    match (a, b) {
        (Inline::Text(x), Inline::Text(y)) => x.eq(y),
        (Inline::Bold(x), Inline::Bold(y)) => same_inlines(x, y),
        (Inline::Italic(x), Inline::Italic(y)) => same_inlines(x, y),
        (Inline::Underline(x), Inline::Underline(y)) => same_inlines(x, y),
        (Inline::Strikethrough(x), Inline::Strikethrough(y)) => same_inlines(x, y),
        (Inline::Link { label: x, href: s }, Inline::Link { label: y, href: t }) => {
            let labels = same_inlines(x, y);
            labels && s.eq(t)
        },
        _ => false,
    }
}

pub fn same_inlines(a: &Vec<Inline>, b: &Vec<Inline>) -> (r: bool)
    ensures
        r == (runs_of(a@) == runs_of(b@)),
    decreases a,
{
    if a.len() != b.len() {
        assert(runs_of(a@).len() != runs_of(b@).len());
        return false;
    }
    let mut i: usize = 0;
    while i < a.len()
        invariant
            i <= a@.len(),
            a@.len() == b@.len(),
            forall|k: int| 0 <= k < i ==> run_of(#[trigger] a@[k]) == run_of(b@[k]),
        decreases a@.len() - i,
    {
        assert(decreases_to!(a => a@[i as int]));
        if !same_inline(&a[i], &b[i]) {
            assert(runs_of(a@)[i as int] != runs_of(b@)[i as int]);
            return false;
        }
        i = i + 1;
    }
    assert(runs_of(a@) =~= runs_of(b@));
    true
}

pub fn same_items(a: &Vec<ListItem>, b: &Vec<ListItem>) -> (r: bool)
    ensures
        r == (items_of(a@) == items_of(b@)),
{
    if a.len() != b.len() {
        assert(items_of(a@).len() != items_of(b@).len());
        return false;
    }
    let mut i: usize = 0;
    while i < a.len()
        invariant
            i <= a@.len(),
            a@.len() == b@.len(),
            forall|k: int|
                0 <= k < i ==> runs_of((#[trigger] a@[k]).content@) == runs_of(b@[k].content@),
        decreases a@.len() - i,
    {
        if !same_inlines(&a[i].content, &b[i].content) {
            assert(items_of(a@)[i as int] != items_of(b@)[i as int]);
            return false;
        }
        i = i + 1;
    }
    assert(items_of(a@) =~= items_of(b@));
    true
}

pub fn same_block(a: &Block, b: &Block) -> (r: bool)
    ensures
        r == (a@ == b@),
{
    match (a, b) {
        (Block::Paragraph(x), Block::Paragraph(y)) => same_inlines(x, y),
        (Block::Heading1(x), Block::Heading1(y)) => same_inlines(x, y),
        (Block::Heading2(x), Block::Heading2(y)) => same_inlines(x, y),
        (Block::Heading3(x), Block::Heading3(y)) => same_inlines(x, y),
        (Block::Quote(x), Block::Quote(y)) => same_inlines(x, y),
        (Block::BulletList(x), Block::BulletList(y)) => same_items(x, y),
        (Block::NumberedList(x), Block::NumberedList(y)) => same_items(x, y),
        (Block::CodeBlock(x), Block::CodeBlock(y)) => x.eq(y),
        _ => false,
    }
}

/// Whether two documents are the same, block by block.
pub fn same_document(a: &RichDocument, b: &RichDocument) -> (r: bool)
    ensures
        r == (a@ == b@),
{
    if a.blocks.len() != b.blocks.len() {
        assert(a@.len() != b@.len());
        return false;
    }
    let mut i: usize = 0;
    while i < a.blocks.len()
        invariant
            i <= a.blocks@.len(),
            a.blocks@.len() == b.blocks@.len(),
            forall|k: int| 0 <= k < i ==> (#[trigger] a.blocks@[k])@ == b.blocks@[k]@,
        decreases a.blocks@.len() - i,
    {
        if !same_block(&a.blocks[i], &b.blocks[i]) {
            assert(a@[i as int] != b@[i as int]);
            return false;
        }
        i = i + 1;
    }
    assert(a@ =~= b@);
    true
}

// ---------------------------------------------------------------------------
// Text of runs
// ---------------------------------------------------------------------------

proof fn lemma_runs_text_push(s: Seq<Run>, r: Run)
    ensures
        runs_text(s.push(r)) == runs_text(s) + run_text(r),
    decreases s.len(),
{
    reveal_with_fuel(runs_text, 2);
    if s.len() == 0 {
        assert(s.push(r).drop_first() =~= Seq::<Run>::empty());
        assert(run_text(r) + Seq::<char>::empty() =~= Seq::<char>::empty() + run_text(r));
    } else {
        assert(s.push(r).drop_first() =~= s.drop_first().push(r));
        lemma_runs_text_push(s.drop_first(), r);
        assert(run_text(s[0]) + (runs_text(s.drop_first()) + run_text(r)) =~= run_text(s[0])
            + runs_text(s.drop_first()) + run_text(r));
    }
}

/// Adds the text of the runs to a text.
pub fn append_inline_text(items: &Vec<Inline>, text: &mut String)
    ensures
        final(text)@ == old(text)@ + runs_text(runs_of(items@)),
    decreases items,
{
    let ghost before = text@;
    let ghost all = runs_of(items@);
    let mut i: usize = 0;
    proof {
        assert(all.take(0) =~= Seq::<Run>::empty());
        assert(before + Seq::<char>::empty() =~= before);
    }
    while i < items.len()
        invariant
            i <= items@.len(),
            all == runs_of(items@),
            text@ == before + runs_text(all.take(i as int)),
        decreases items@.len() - i,
    {
        let item = &items[i];
        assert(decreases_to!(items => items@[i as int]));
        let ghost prior = text@;
        match item {
            Inline::Text(value) => text.append(value.as_str()),
            Inline::Bold(children) => append_inline_text(children, text),
            Inline::Italic(children) => append_inline_text(children, text),
            Inline::Underline(children) => append_inline_text(children, text),
            Inline::Strikethrough(children) => append_inline_text(children, text),
            Inline::Link { label, .. } => append_inline_text(label, text),
        }
        proof {
            assert(text@ == prior + run_text(all[i as int]));
            lemma_runs_text_push(all.take(i as int), all[i as int]);
            assert(all.take(i + 1) =~= all.take(i as int).push(all[i as int]));
            assert(before + runs_text(all.take(i as int)) + run_text(all[i as int]) =~= before + (
            runs_text(all.take(i as int)) + run_text(all[i as int])));
        }
        i = i + 1;
    }
    assert(all.take(items@.len() as int) =~= all);
}

/// The text of a line of runs.
pub fn text_from_inlines(items: &Vec<Inline>) -> (r: String)
    ensures
        r@ == runs_text(runs_of(items@)),
{
    let mut text = String::new();
    append_inline_text(items, &mut text);
    assert(Seq::<char>::empty() + runs_text(runs_of(items@)) =~= runs_text(runs_of(items@)));
    text
}

/// A line of runs with the given text and no style.
pub open spec fn plain_runs(text: Seq<char>) -> Seq<Run> {
    if text.len() == 0 {
        seq![]
    } else {
        seq![Run::Text(text)]
    }
}

/// A line of runs with the given text and no style.
pub fn inlines_from_text(text: String) -> (r: Vec<Inline>)
    ensures
        runs_of(r@) == plain_runs(text@),
{
    let mut out: Vec<Inline> = Vec::new();
    if !text.as_str().is_empty() {
        out.push(Inline::Text(text));
        assert(runs_of(out@) =~= seq![Run::Text(text@)]);
    } else {
        assert(runs_of(out@) =~= Seq::<Run>::empty());
    }
    out
}

// ---------------------------------------------------------------------------
// Lengths
// ---------------------------------------------------------------------------

/// The number, or the largest `usize` where it is larger.
pub open spec fn saturated(n: nat) -> nat {
    if n <= usize::MAX {
        n
    } else {
        usize::MAX as nat
    }
}

/// The number of characters of a run.
pub fn inline_char_len(item: &Inline) -> (r: usize)
    ensures
        r == saturated(run_text(item@).len()),
    decreases item,
{
    match item {
        Inline::Text(text) => text.as_str().unicode_len(),
        Inline::Bold(children) => inlines_char_len(children),
        Inline::Italic(children) => inlines_char_len(children),
        Inline::Underline(children) => inlines_char_len(children),
        Inline::Strikethrough(children) => inlines_char_len(children),
        Inline::Link { label, .. } => inlines_char_len(label),
    }
}

/// The number of characters of a line of runs.
pub fn inlines_char_len(items: &Vec<Inline>) -> (r: usize)
    ensures
        r == saturated(runs_text(runs_of(items@)).len()),
    decreases items,
{
    let ghost all = runs_of(items@);
    let mut sum: usize = 0;
    let mut i: usize = 0;
    assert(all.take(0) =~= Seq::<Run>::empty());
    while i < items.len()
        invariant
            i <= items@.len(),
            all == runs_of(items@),
            sum == saturated(runs_text(all.take(i as int)).len()),
        decreases items@.len() - i,
    {
        assert(decreases_to!(items => items@[i as int]));
        let len = inline_char_len(&items[i]);
        proof {
            lemma_runs_text_push(all.take(i as int), all[i as int]);
            assert(all.take(i + 1) =~= all.take(i as int).push(all[i as int]));
        }
        sum = sum.saturating_add(len);
        i = i + 1;
    }
    assert(all.take(items@.len() as int) =~= all);
    sum
}

// ---------------------------------------------------------------------------
// Inserting and deleting one character
// ---------------------------------------------------------------------------

/// Puts a character before the one at `at`, or at the end of a shorter text.
pub fn insert_into_text(text: &mut String, at: usize, ch: char)
    ensures
        final(text)@ == old(text)@.insert(
            if at <= old(text)@.len() {
                at as int
            } else {
                old(text)@.len() as int
            },
            ch,
        ),
{
    let mut cs = chars_of(text.as_str());
    let k: usize = if at <= cs.len() {
        at
    } else {
        cs.len()
    };
    cs.insert(k, ch);
    let n = cs.len();
    assert(cs@.subrange(0, n as int) =~= cs@);
    *text = string_range(&cs, 0, n);
}

/// Takes out the character at `at`; a shorter text stays as it is.
pub fn delete_from_text(text: &mut String, at: usize)
    ensures
        final(text)@ == if at < old(text)@.len() {
            old(text)@.remove(at as int)
        } else {
            old(text)@
        },
{
    let mut cs = chars_of(text.as_str());
    if at < cs.len() {
        cs.remove(at);
        let n = cs.len();
        assert(cs@.subrange(0, n as int) =~= cs@);
        *text = string_range(&cs, 0, n);
    }
}

/// A run with a character put before the one at `at`.
pub open spec fn insert_run(r: Run, at: nat, ch: char) -> Run
    decreases r,
{
    match r {
        Run::Text(s) => Run::Text(
            s.insert(
                if at <= s.len() {
                    at as int
                } else {
                    s.len() as int
                },
                ch,
            ),
        ),
        Run::Styled(m, c) => Run::Styled(m, insert_runs(c, at, ch)),
        Run::Link(c, href) => Run::Link(insert_runs(c, at, ch), href),
    }
}

/// A line of runs with a character put before the one at `at`: into the first run
/// that reaches that far, else into a new run of its own at the end.
pub open spec fn insert_runs(s: Seq<Run>, at: nat, ch: char) -> Seq<Run>
    decreases s,
{
    if s.len() == 0 {
        seq![Run::Text(seq![ch])]
    } else if at <= run_text(s[0]).len() {
        seq![insert_run(s[0], at, ch)] + s.drop_first()
    } else {
        seq![s[0]] + insert_runs(s.drop_first(), (at - run_text(s[0]).len()) as nat, ch)
    }
}

/// A run without the character at `at`.
pub open spec fn delete_run(r: Run, at: nat) -> Run
    decreases r,
{
    match r {
        Run::Text(s) => Run::Text(
            if at < s.len() {
                s.remove(at as int)
            } else {
                s
            },
        ),
        Run::Styled(m, c) => Run::Styled(m, delete_runs(c, at)),
        Run::Link(c, href) => Run::Link(delete_runs(c, at), href),
    }
}

/// A line of runs without the character at `at`.
pub open spec fn delete_runs(s: Seq<Run>, at: nat) -> Seq<Run>
    decreases s,
{
    if s.len() == 0 {
        s
    } else if at < run_text(s[0]).len() {
        seq![delete_run(s[0], at)] + s.drop_first()
    } else {
        seq![s[0]] + delete_runs(s.drop_first(), (at - run_text(s[0]).len()) as nat)
    }
}

pub fn insert_into_inline(item: &mut Inline, at: usize, ch: char)
    ensures
        final(item)@ == insert_run(old(item)@, at as nat, ch),
    decreases *old(item),
{
    match item {
        Inline::Text(text) => insert_into_text(text, at, ch),
        Inline::Bold(children) => insert_into_inlines(children, at, ch),
        Inline::Italic(children) => insert_into_inlines(children, at, ch),
        Inline::Underline(children) => insert_into_inlines(children, at, ch),
        Inline::Strikethrough(children) => insert_into_inlines(children, at, ch),
        Inline::Link { label, .. } => insert_into_inlines(label, at, ch),
    }
}

pub fn insert_into_inlines(items: &mut Vec<Inline>, at: usize, ch: char)
    ensures
        runs_of(final(items)@) == insert_runs(runs_of(old(items)@), at as nat, ch),
    decreases *old(items),
{
    let ghost all = runs_of(items@);
    let mut remaining: usize = at;
    let mut i: usize = 0;
    proof {
        assert(all.skip(0) =~= all);
        assert(all.take(0) + insert_runs(all, at as nat, ch) =~= insert_runs(all, at as nat, ch));
    }
    while i < items.len()
        invariant
            i <= items@.len(),
            *items == *old(items),
            all == runs_of(items@),
            all.take(i as int) + insert_runs(all.skip(i as int), remaining as nat, ch)
                == insert_runs(all, at as nat, ch),
        decreases items@.len() - i,
    {
        let len = inline_char_len(&items[i]);
        let ghost rest = all.skip(i as int);
        assert(rest[0] == all[i as int]);
        assert(rest.drop_first() =~= all.skip(i + 1));
        if remaining <= len {
            assert(decreases_to!(*old(items) => items@[i as int]));
            insert_into_inline(&mut items[i], remaining, ch);
            assert(runs_of(items@) =~= all.take(i as int) + (seq![
                insert_run(all[i as int], remaining as nat, ch),
            ] + all.skip(i + 1)));
            return;
        }
        proof {
            assert(all.take(i as int) + (seq![all[i as int]] + insert_runs(
                all.skip(i + 1),
                (remaining - len) as nat,
                ch,
            )) =~= all.take(i + 1) + insert_runs(all.skip(i + 1), (remaining - len) as nat, ch));
        }
        remaining = remaining - len;
        i = i + 1;
    }
    assert(all.skip(i as int) =~= Seq::<Run>::empty());
    items.push(Inline::Text(string_of_char(ch)));
    assert(runs_of(items@) =~= all.take(i as int) + seq![Run::Text(seq![ch])]);
}

pub fn delete_from_inline(item: &mut Inline, at: usize)
    requires
        at < usize::MAX,
    ensures
        final(item)@ == delete_run(old(item)@, at as nat),
    decreases *old(item),
{
    match item {
        Inline::Text(text) => delete_from_text(text, at),
        Inline::Bold(children) => delete_from_inlines(children, at),
        Inline::Italic(children) => delete_from_inlines(children, at),
        Inline::Underline(children) => delete_from_inlines(children, at),
        Inline::Strikethrough(children) => delete_from_inlines(children, at),
        Inline::Link { label, .. } => delete_from_inlines(label, at),
    }
}

pub fn delete_from_inlines(items: &mut Vec<Inline>, at: usize)
    requires
        at < usize::MAX,
    ensures
        runs_of(final(items)@) == delete_runs(runs_of(old(items)@), at as nat),
    decreases *old(items),
{
    let ghost all = runs_of(items@);
    let mut remaining: usize = at;
    let mut i: usize = 0;
    proof {
        assert(all.skip(0) =~= all);
        assert(all.take(0) + delete_runs(all, at as nat) =~= delete_runs(all, at as nat));
    }
    while i < items.len()
        invariant
            i <= items@.len(),
            *items == *old(items),
            remaining < usize::MAX,
            all == runs_of(items@),
            all.take(i as int) + delete_runs(all.skip(i as int), remaining as nat) == delete_runs(
                all,
                at as nat,
            ),
        decreases items@.len() - i,
    {
        let len = inline_char_len(&items[i]);
        let ghost rest = all.skip(i as int);
        assert(rest[0] == all[i as int]);
        assert(rest.drop_first() =~= all.skip(i + 1));
        if remaining < len {
            assert(decreases_to!(*old(items) => items@[i as int]));
            delete_from_inline(&mut items[i], remaining);
            assert(runs_of(items@) =~= all.take(i as int) + (seq![
                delete_run(all[i as int], remaining as nat),
            ] + all.skip(i + 1)));
            return;
        }
        proof {
            assert(all.take(i as int) + (seq![all[i as int]] + delete_runs(
                all.skip(i + 1),
                (remaining - len) as nat,
            )) =~= all.take(i + 1) + delete_runs(all.skip(i + 1), (remaining - len) as nat));
        }
        remaining = remaining - len;
        i = i + 1;
    }
    proof {
        assert(all.skip(i as int) =~= Seq::<Run>::empty());
        assert(all.take(i as int) + Seq::<Run>::empty() =~= all);
    }
}

} // verus!
