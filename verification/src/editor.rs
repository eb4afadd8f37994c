//! Editing a rich document through its targets: the lines and list items that a
//! cursor can stand in.

use vstd::prelude::*;

use crate::document::{
    delete_from_inlines, delete_from_text, delete_run, delete_runs, inlines_from_text,
    insert_into_inlines, insert_into_text, insert_run, insert_runs, items_of, pieces_of,
    plain_runs, run_of, run_text, runs_of, runs_text, text_from_inlines, Block, Inline, LineForm, ListItem,
    ListKind, Mark, Piece, RichDocument, Run,
};
use crate::text::{split_feeds, text_split_feeds, texts};

verus! {

/// A place that the cursor can stand in: a block of one line, or an item of a list.
#[derive(Clone, Copy, Debug, PartialEq, Eq, Structural)]
pub enum EditorTarget {
    Block { block_index: usize },
    ListItem { block_index: usize, item_index: usize },
}

#[derive(Clone, Copy, Debug, PartialEq, Eq, Structural)]
pub enum InlineStyle {
    Bold,
    Italic,
    Underline,
}

/// What a target can be turned into.
#[derive(Clone, Copy, Debug, PartialEq, Eq, Structural)]
pub enum TargetKind {
    Paragraph,
    Heading1,
    Heading2,
    Heading3,
    Bullet,
    Numbered,
    Quote,
    Code,
}

#[derive(Clone, Copy, Debug, PartialEq, Eq, Structural)]
pub enum EditorError {
    InvalidTarget,
}

impl EditorError {
    pub open spec fn spec_message(self) -> Seq<char> {
        "invalid editor target"@
    }

    pub fn message(self) -> (r: String)
        ensures
            r@ == self.spec_message(),
    {
        "invalid editor target".to_owned()
    }
}

// ---------------------------------------------------------------------------
// The model
// ---------------------------------------------------------------------------

/// The model of a target.
pub enum Spot {
    Block(int),
    Item(int, int),
}

impl View for EditorTarget {
    type V = Spot;

    open spec fn view(&self) -> Spot {
        match *self {
            EditorTarget::Block { block_index } => Spot::Block(block_index as int),
            EditorTarget::ListItem { block_index, item_index } => Spot::Item(
                block_index as int,
                item_index as int,
            ),
        }
    }
}

/// Whether a document has the target.
pub open spec fn valid_spot(doc: Seq<Piece>, t: Spot) -> bool {
    match t {
        Spot::Block(b) => 0 <= b < doc.len() && !(doc[b] is List),
        Spot::Item(b, i) => 0 <= b < doc.len() && doc[b] is List && 0 <= i < doc[b]->List_1.len(),
    }
}

/// What stands at a target: runs, or the text of a code block.
pub enum Content {
    Runs(Seq<Run>),
    Code(Seq<char>),
}

pub open spec fn content_at(doc: Seq<Piece>, t: Spot) -> Content {
    match t {
        Spot::Block(b) => match doc[b] {
            Piece::Line(_, runs) => Content::Runs(runs),
            Piece::Code(s) => Content::Code(s),
            Piece::List(_, _) => arbitrary(),
        },
        Spot::Item(b, i) => Content::Runs(doc[b]->List_1[i]),
    }
}

/// The document with other runs at a target.
pub open spec fn with_runs(doc: Seq<Piece>, t: Spot, runs: Seq<Run>) -> Seq<Piece> {
    match t {
        Spot::Block(b) => doc.update(
            b,
            match doc[b] {
                Piece::Line(form, _) => Piece::Line(form, runs),
                p => p,
            },
        ),
        Spot::Item(b, i) => doc.update(
            b,
            match doc[b] {
                Piece::List(kind, items) => Piece::List(kind, items.update(i, runs)),
                p => p,
            },
        ),
    }
}

/// The document with other content, of the same sort, at a target.
pub open spec fn with_content(doc: Seq<Piece>, t: Spot, content: Content) -> Seq<Piece> {
    match content {
        Content::Runs(runs) => with_runs(doc, t, runs),
        Content::Code(s) => doc.update(t->Block_0, Piece::Code(s)),
    }
}

pub open spec fn content_text(c: Content) -> Seq<char> {
    match c {
        Content::Runs(runs) => runs_text(runs),
        Content::Code(s) => s,
    }
}

/// The text at a target.
pub open spec fn text_at(doc: Seq<Piece>, t: Spot) -> Seq<char> {
    content_text(content_at(doc, t))
}

/// The content with a character put before the one at `at`.
pub open spec fn content_insert(c: Content, at: nat, ch: char) -> Content {
    match c {
        Content::Runs(runs) => Content::Runs(insert_runs(runs, at, ch)),
        Content::Code(s) => Content::Code(s.insert(at as int, ch)),
    }
}

/// The content without the character at `at`.
pub open spec fn content_delete(c: Content, at: nat) -> Content {
    match c {
        Content::Runs(runs) => Content::Runs(delete_runs(runs, at)),
        Content::Code(s) => Content::Code(s.remove(at as int)),
    }
}

/// The smaller of a cursor and the length of the text it stands in.
pub open spec fn clamp(cursor: nat, len: nat) -> nat {
    if cursor <= len {
        cursor
    } else {
        len
    }
}

/// The targets of one block.
pub open spec fn piece_spots(p: Piece, b: int) -> Seq<Spot> {
    match p {
        Piece::List(_, items) => Seq::new(items.len(), |i: int| Spot::Item(b, i)),
        _ => seq![Spot::Block(b)],
    }
}

/// The targets of the first `n` blocks, in order.
pub open spec fn spots_upto(doc: Seq<Piece>, n: nat) -> Seq<Spot>
    decreases n,
{
    if n == 0 {
        seq![]
    } else {
        spots_upto(doc, (n - 1) as nat) + piece_spots(doc[n - 1], n - 1)
    }
}

/// The targets of a document, in order.
pub open spec fn spots(doc: Seq<Piece>) -> Seq<Spot> {
    spots_upto(doc, doc.len())
}

/// The position of a target among others, or their number where it is not there.
pub open spec fn spot_index(all: Seq<Spot>, t: Spot) -> nat
    decreases all.len(),
{
    if all.len() == 0 || all[0] == t {
        0
    } else {
        1 + spot_index(all.drop_first(), t)
    }
}

/// The targets of a sequence of them.
pub open spec fn spot_views(v: Seq<EditorTarget>) -> Seq<Spot> {
    Seq::new(v.len(), |i: int| v[i]@)
}

/// A document that can be edited: it has a block, and no list without items.
pub open spec fn editable(doc: Seq<Piece>) -> bool {
    &&& doc.len() > 0
    &&& forall|b: int|
        0 <= b < doc.len() ==> !is_empty_list(#[trigger] doc[b])
}

pub proof fn lemma_spot_index(all: Seq<Spot>, t: Spot)
    ensures
        spot_index(all, t) <= all.len(),
        spot_index(all, t) < all.len() ==> all[spot_index(all, t) as int] == t,
        spot_index(all, t) < all.len() <==> all.contains(t),
        forall|i: int| 0 <= i < spot_index(all, t) ==> all[i] != t,
    decreases all.len(),
{
    if all.len() > 0 && all[0] != t {
        lemma_spot_index(all.drop_first(), t);
        assert forall|i: int| 0 <= i < spot_index(all, t) implies all[i] != t by {
            if i > 0 {
                assert(all[i] == all.drop_first()[i - 1]);
            }
        }
        if all.contains(t) {
            let i = choose|i: int| 0 <= i < all.len() && all[i] == t;
            assert(all.drop_first()[i - 1] == t);
        }
        if spot_index(all, t) < all.len() {
            assert(all.contains(t));
        }
    } else if all.len() > 0 {
        assert(all[0] == t);
    }
}

/// The targets of a document are the valid ones.
pub proof fn lemma_spots_upto(doc: Seq<Piece>, n: nat, t: Spot)
    requires
        n <= doc.len(),
    ensures
        spots_upto(doc, n).contains(t) <==> valid_spot(doc, t) && (match t {
            Spot::Block(b) => b < n,
            Spot::Item(b, _) => b < n,
        }),
    decreases n,
{
    if n > 0 {
        let m = (n - 1) as nat;
        lemma_spots_upto(doc, m, t);
        let a = spots_upto(doc, m);
        let c = piece_spots(doc[m as int], m as int);
        let s = a + c;
        if a.contains(t) {
            let i = choose|i: int| 0 <= i < a.len() && a[i] == t;
            assert(s[i] == t);
        }
        if c.contains(t) {
            let i = choose|i: int| 0 <= i < c.len() && c[i] == t;
            assert(s[a.len() + i] == t);
        }
        if s.contains(t) {
            let i = choose|i: int| 0 <= i < s.len() && s[i] == t;
            if i < a.len() {
                assert(a[i] == t);
            } else {
                assert(c[i - a.len()] == t);
            }
        }
        match t {
            Spot::Block(b) => {
                if b == m && valid_spot(doc, t) {
                    assert(c[0] == t);
                }
            },
            Spot::Item(b, i) => {
                if b == m && valid_spot(doc, t) {
                    assert(c[i] == t);
                }
            },
        }
    }
}

/// The targets of a document are exactly its valid ones.
pub proof fn lemma_spots(doc: Seq<Piece>, t: Spot)
    ensures
        spots(doc).contains(t) <==> valid_spot(doc, t),
{
    lemma_spots_upto(doc, doc.len(), t);
}

/// An editable document has a target.
pub proof fn lemma_spots_nonempty(doc: Seq<Piece>)
    requires
        editable(doc),
    ensures
        spots(doc).len() > 0,
{
    let t = if doc[0] is List {
        Spot::Item(0, 0)
    } else {
        Spot::Block(0)
    };
    lemma_spots(doc, t);
}

// ---------------------------------------------------------------------------
// Targets
// ---------------------------------------------------------------------------

impl TargetKind {
    pub open spec fn spec_list_kind(self) -> Option<ListKind> {
        match self {
            TargetKind::Bullet => Some(ListKind::Bullet),
            TargetKind::Numbered => Some(ListKind::Numbered),
            _ => None,
        }
    }

    pub fn list_kind(self) -> (r: Option<ListKind>)
        ensures
            r == self.spec_list_kind(),
    {
        match self {
            TargetKind::Bullet => Some(ListKind::Bullet),
            TargetKind::Numbered => Some(ListKind::Numbered),
            _ => None,
        }
    }

    pub fn is_list(self) -> (r: bool)
        ensures
            r == (self.spec_list_kind() is Some),
    {
        self.list_kind().is_some()
    }
}

/// Whether the document has the target.
pub fn validate_target(document: &RichDocument, target: EditorTarget) -> (r: bool)
    ensures
        r == valid_spot(document@, target@),
{
    match target {
        EditorTarget::Block { block_index } => {
            if block_index >= document.blocks.len() {
                return false;
            }
            assert(document@[block_index as int] == document.blocks@[block_index as int]@);
            match &document.blocks[block_index] {
                Block::BulletList(_) | Block::NumberedList(_) => false,
                _ => true,
            }
        },
        EditorTarget::ListItem { block_index, item_index } => {
            if block_index >= document.blocks.len() {
                return false;
            }
            assert(document@[block_index as int] == document.blocks@[block_index as int]@);
            match &document.blocks[block_index] {
                Block::BulletList(items) => item_index < items.len(),
                Block::NumberedList(items) => item_index < items.len(),
                _ => false,
            }
        },
    }
}

/// The targets of the document, in order.
pub fn targets(document: &RichDocument) -> (r: Vec<EditorTarget>)
    ensures
        spot_views(r@) == spots(document@),
{
    let mut out: Vec<EditorTarget> = Vec::new();
    let mut b: usize = 0;
    assert(spot_views(out@) =~= Seq::<Spot>::empty());
    while b < document.blocks.len()
        invariant
            b <= document.blocks@.len(),
            spot_views(out@) == spots_upto(document@, b as nat),
        decreases document.blocks@.len() - b,
    {
        let ghost before = spot_views(out@);
        assert(document@[b as int] == document.blocks@[b as int]@);
        let count: Option<usize> = match &document.blocks[b] {
            Block::BulletList(items) => Some(items.len()),
            Block::NumberedList(items) => Some(items.len()),
            _ => None,
        };
        match count {
            Some(n) => {
                let mut i: usize = 0;
                assert(before + Seq::new(0, |k: int| Spot::Item(b as int, k)) =~= before);
                while i < n
                    invariant
                        i <= n,
                        spot_views(out@) == before + Seq::new(
                            i as nat,
                            |k: int| Spot::Item(b as int, k),
                        ),
                    decreases n - i,
                {
                    let ghost prior = out@;
                    out.push(EditorTarget::ListItem { block_index: b, item_index: i });
                    assert(spot_views(out@) =~= spot_views(prior).push(Spot::Item(b as int, i as int)));
                    assert(spot_views(out@) =~= before + Seq::new(
                        (i + 1) as nat,
                        |k: int| Spot::Item(b as int, k),
                    ));
                    i = i + 1;
                }
                assert(Seq::new(n as nat, |k: int| Spot::Item(b as int, k)) =~= piece_spots(
                    document@[b as int],
                    b as int,
                ));
            },
            None => {
                out.push(EditorTarget::Block { block_index: b });
                assert(spot_views(out@) =~= before + seq![Spot::Block(b as int)]);
            },
        }
        b = b + 1;
    }
    out
}

/// Targets are the same where their models are.
pub proof fn lemma_target_view(a: EditorTarget, b: EditorTarget)
    ensures
        a == b <==> a@ == b@,
{
}

/// The position of a target among others.
pub fn position_of(all: &Vec<EditorTarget>, target: EditorTarget) -> (r: Option<usize>)
    ensures
        match r {
            Some(i) => i < all@.len() && i == spot_index(spot_views(all@), target@),
            None => spot_index(spot_views(all@), target@) == all@.len(),
        },
{
    let ghost views = spot_views(all@);
    let mut i: usize = 0;
    assert(views.skip(0) =~= views);
    while i < all.len()
        invariant
            i <= all@.len(),
            views == spot_views(all@),
            spot_index(views, target@) == i + spot_index(views.skip(i as int), target@),
        decreases all@.len() - i,
    {
        assert(views.skip(i as int)[0] == all@[i as int]@);
        proof {
            lemma_target_view(all@[i as int], target);
        }
        if all[i] == target {
            return Some(i);
        }
        assert(views.skip(i as int).drop_first() =~= views.skip(i + 1));
        i = i + 1;
    }
    None
}

/// The first target of a document.
pub open spec fn first_spot(doc: Seq<Piece>) -> Spot {
    if spots(doc).len() > 0 {
        spots(doc)[0]
    } else {
        Spot::Block(0)
    }
}

/// Where a target stands among those of its document; a target that is not there
/// counts as the first one.
pub open spec fn spot_position(doc: Seq<Piece>, t: Spot) -> nat {
    let p = spot_index(spots(doc), t);
    if p < spots(doc).len() {
        p
    } else {
        0
    }
}

/// The target after another; the last one stays.
pub open spec fn next_spot(doc: Seq<Piece>, t: Spot) -> Spot {
    let all = spots(doc);
    let p = spot_position(doc, t);
    if all.len() == 0 {
        Spot::Block(0)
    } else if p + 1 < all.len() {
        all[p as int + 1]
    } else {
        all.last()
    }
}

/// The target before another; the first one stays.
pub open spec fn previous_spot(doc: Seq<Piece>, t: Spot) -> Spot {
    let all = spots(doc);
    let p = spot_position(doc, t);
    if all.len() == 0 {
        Spot::Block(0)
    } else if p > 0 {
        all[p - 1]
    } else {
        all[0]
    }
}

pub fn first_target(document: &RichDocument) -> (r: EditorTarget)
    ensures
        r@ == first_spot(document@),
{
    let all = targets(document);
    assert(spot_views(all@).len() == all@.len());
    if all.len() > 0 {
        assert(spot_views(all@)[0] == all@[0]@);
        all[0]
    } else {
        EditorTarget::Block { block_index: 0 }
    }
}

pub fn next_target(document: &RichDocument, target: EditorTarget) -> (r: EditorTarget)
    ensures
        r@ == next_spot(document@, target@),
{
    let all = targets(document);
    let ghost views = spot_views(all@);
    assert(views.len() == all@.len());
    if all.len() == 0 {
        return EditorTarget::Block { block_index: 0 };
    }
    let position: usize = match position_of(&all, target) {
        Some(i) => i,
        None => 0,
    };
    let next: usize = if position < all.len() - 1 {
        position + 1
    } else {
        all.len() - 1
    };
    assert(views[next as int] == all@[next as int]@);
    all[next]
}

pub fn previous_target(document: &RichDocument, target: EditorTarget) -> (r: EditorTarget)
    ensures
        r@ == previous_spot(document@, target@),
{
    let all = targets(document);
    let ghost views = spot_views(all@);
    assert(views.len() == all@.len());
    if all.len() == 0 {
        return EditorTarget::Block { block_index: 0 };
    }
    let position: usize = match position_of(&all, target) {
        Some(i) => i,
        None => 0,
    };
    let previous: usize = position.saturating_sub(1);
    assert(views[previous as int] == all@[previous as int]@);
    all[previous]
}

// ---------------------------------------------------------------------------
// The document under edit
// ---------------------------------------------------------------------------

#[derive(Debug, PartialEq, Eq)]
pub struct EditorDocument {
    pub document: RichDocument,
}

impl View for EditorDocument {
    type V = Seq<Piece>;

    open spec fn view(&self) -> Seq<Piece> {
        self.document@
    }
}

impl Clone for EditorDocument {
    fn clone(&self) -> (r: Self)
        ensures
            r@ == self@,
    {
        EditorDocument { document: self.document.clone() }
    }
}

/// A list without items.
pub open spec fn is_empty_list(p: Piece) -> bool {
    p is List && p->List_1.len() == 0
}

/// The blocks but for the lists without items.
pub open spec fn drop_empty_lists(doc: Seq<Piece>) -> Seq<Piece>
    decreases doc.len(),
{
    if doc.len() == 0 {
        seq![]
    } else {
        let front = drop_empty_lists(doc.drop_last());
        if is_empty_list(doc.last()) {
            front
        } else {
            front.push(doc.last())
        }
    }
}

pub open spec fn blank_line() -> Piece {
    Piece::Line(LineForm::Paragraph, seq![])
}

/// The blocks, or one empty paragraph where there are none.
pub open spec fn with_a_line(doc: Seq<Piece>) -> Seq<Piece> {
    if doc.len() == 0 {
        seq![blank_line()]
    } else {
        doc
    }
}

/// What an editor makes of a document that it opens.
pub open spec fn opened(doc: Seq<Piece>) -> Seq<Piece> {
    with_a_line(drop_empty_lists(doc))
}

pub proof fn lemma_drop_empty_lists(doc: Seq<Piece>)
    ensures
        forall|b: int|
            0 <= b < drop_empty_lists(doc).len() ==> !is_empty_list(
                #[trigger] drop_empty_lists(doc)[b],
            ),
        editable(doc) ==> drop_empty_lists(doc) == doc,
        drop_empty_lists(doc).len() <= doc.len(),
    decreases doc.len(),
{
    if doc.len() > 0 {
        lemma_drop_empty_lists(doc.drop_last());
        if editable(doc) {
            assert(doc[doc.len() - 1] == doc.last());
            if doc.len() > 1 {
                assert forall|b: int| 0 <= b < doc.drop_last().len() implies !is_empty_list(#[trigger] doc.drop_last()[b]) by {
                    assert(doc.drop_last()[b] == doc[b]);
                }
            }
            assert(drop_empty_lists(doc.drop_last()) =~= doc.drop_last());
            assert(doc.drop_last().push(doc.last()) =~= doc);
        }
    }
}

/// What an editor opens can be edited; a document that can be edited is opened as it is.
pub proof fn lemma_opened(doc: Seq<Piece>)
    ensures
        editable(opened(doc)),
        editable(doc) ==> opened(doc) == doc,
{
    lemma_drop_empty_lists(doc);
}

pub open spec fn style_mark(style: InlineStyle) -> Mark {
    match style {
        InlineStyle::Bold => Mark::Bold,
        InlineStyle::Italic => Mark::Italic,
        InlineStyle::Underline => Mark::Underline,
    }
}

/// A line with a style taken off where it spans the whole line, else put on it.
pub open spec fn toggled(runs: Seq<Run>, mark: Mark) -> Seq<Run> {
    if runs.len() == 1 && runs[0] is Styled && runs[0]->Styled_0 == mark {
        runs[0]->Styled_1
    } else {
        seq![Run::Styled(mark, runs)]
    }
}

pub open spec fn piece_kind(p: Piece) -> Option<ListKind> {
    match p {
        Piece::List(kind, _) => Some(kind),
        _ => None,
    }
}

/// Whether two neighbours are lists of one kind.
pub open spec fn mergeable(p: Piece, q: Piece) -> bool {
    piece_kind(p) is Some && piece_kind(p) == piece_kind(q)
}

pub open spec fn merge(p: Piece, q: Piece) -> Piece {
    Piece::List(p->List_0, p->List_1 + q->List_1)
}

/// The document after the lists at `at` and behind it have become one.
pub open spec fn merged_at(doc: Seq<Piece>, at: int) -> Seq<Piece> {
    doc.remove(at + 1).update(at, merge(doc[at], doc[at + 1]))
}

/// The blocks from `at` on, without empty lists, and with neighbouring lists of one
/// kind made one.
pub open spec fn tidy_from(doc: Seq<Piece>, at: int) -> Seq<Piece>
    decreases doc.len() - at,
{
    if at < 0 || at >= doc.len() {
        doc
    } else if is_empty_list(doc[at]) {
        tidy_from(doc.remove(at), at)
    } else if at + 1 < doc.len() && mergeable(doc[at], doc[at + 1]) {
        tidy_from(merged_at(doc, at), at)
    } else {
        tidy_from(doc, at + 1)
    }
}

/// Where a target goes when the block at `removed` is taken out.
pub open spec fn spot_after_removal(t: Spot, removed: int) -> Spot {
    match t {
        Spot::Block(b) if b > removed => Spot::Block(b - 1),
        Spot::Item(b, i) if b > removed => Spot::Item(b - 1, i),
        other => other,
    }
}

/// Where a target goes when the list behind `left` joins it.
pub open spec fn spot_after_merge(t: Spot, left: int, left_len: int) -> Spot {
    match t {
        Spot::Item(b, i) if b == left + 1 => Spot::Item(left, left_len + i),
        Spot::Block(b) if b > left + 1 => Spot::Block(b - 1),
        Spot::Item(b, i) if b > left + 1 => Spot::Item(b - 1, i),
        other => other,
    }
}

/// Where a target goes when the blocks from `at` on are tidied.
pub open spec fn follow_from(doc: Seq<Piece>, at: int, t: Spot) -> Spot
    decreases doc.len() - at,
{
    if at < 0 || at >= doc.len() {
        t
    } else if is_empty_list(doc[at]) {
        follow_from(doc.remove(at), at, spot_after_removal(t, at))
    } else if at + 1 < doc.len() && mergeable(doc[at], doc[at + 1]) {
        follow_from(
            merged_at(doc, at),
            at,
            spot_after_merge(t, at, doc[at]->List_1.len() as int),
        )
    } else {
        follow_from(doc, at + 1, t)
    }
}

pub open spec fn tidy(doc: Seq<Piece>) -> Seq<Piece> {
    tidy_from(doc, 0)
}

pub open spec fn follow(doc: Seq<Piece>, t: Spot) -> Spot {
    follow_from(doc, 0, t)
}

/// A removed empty list leaves each target with its content.
pub proof fn lemma_removal_keeps(doc: Seq<Piece>, at: int, t: Spot)
    requires
        0 <= at < doc.len(),
        is_empty_list(doc[at]),
        valid_spot(doc, t),
    ensures
        valid_spot(doc.remove(at), spot_after_removal(t, at)),
        content_at(doc.remove(at), spot_after_removal(t, at)) == content_at(doc, t),
{
}

/// A merge leaves each target with its content.
pub proof fn lemma_merge_keeps(doc: Seq<Piece>, at: int, t: Spot)
    requires
        0 <= at < doc.len() - 1,
        mergeable(doc[at], doc[at + 1]),
        valid_spot(doc, t),
    ensures
        valid_spot(merged_at(doc, at), spot_after_merge(t, at, doc[at]->List_1.len() as int)),
        content_at(merged_at(doc, at), spot_after_merge(t, at, doc[at]->List_1.len() as int))
            == content_at(doc, t),
{
}

/// Tidying leaves each target with its content.
pub proof fn lemma_follow_from(doc: Seq<Piece>, at: int, t: Spot)
    requires
        0 <= at,
        valid_spot(doc, t),
    ensures
        valid_spot(tidy_from(doc, at), follow_from(doc, at, t)),
        content_at(tidy_from(doc, at), follow_from(doc, at, t)) == content_at(doc, t),
    decreases doc.len() - at,
{
    if at >= doc.len() {
    } else if is_empty_list(doc[at]) {
        lemma_removal_keeps(doc, at, t);
        lemma_follow_from(doc.remove(at), at, spot_after_removal(t, at));
    } else if at + 1 < doc.len() && mergeable(doc[at], doc[at + 1]) {
        let n = doc[at]->List_1.len() as int;
        lemma_merge_keeps(doc, at, t);
        lemma_follow_from(merged_at(doc, at), at, spot_after_merge(t, at, n));
    } else {
        lemma_follow_from(doc, at + 1, t);
    }
}

/// A document without neighbouring lists of one kind before position `n`.
pub open spec fn settled_upto(doc: Seq<Piece>, n: int) -> bool {
    forall|b: int| 0 <= b < n && b + 1 < doc.len() ==> !mergeable(#[trigger] doc[b], doc[b + 1])
}

/// Tidying an editable document keeps it so, and leaves no neighbouring lists of one
/// kind.
pub proof fn lemma_tidy_from(doc: Seq<Piece>, at: int)
    requires
        0 <= at,
        editable(doc),
        settled_upto(doc, at),
    ensures
        editable(tidy_from(doc, at)),
        settled_upto(tidy_from(doc, at), tidy_from(doc, at).len() as int),
    decreases doc.len() - at,
{
    if at >= doc.len() {
    } else if is_empty_list(doc[at]) {
        assert(doc[at] is List);
    } else if at + 1 < doc.len() && mergeable(doc[at], doc[at + 1]) {
        let next = merged_at(doc, at);
        assert(editable(next)) by {
            assert forall|b: int| 0 <= b < next.len() implies !is_empty_list(#[trigger] next[b]) by {
                if b < at {
                    assert(next[b] == doc[b]);
                } else if b > at {
                    assert(next[b] == doc[b + 1]);
                }
            }
        }
        assert(settled_upto(next, at)) by {
            assert forall|b: int| 0 <= b < at && b + 1 < next.len() implies !mergeable(
                #[trigger] next[b],
                next[b + 1],
            ) by {
                assert(!mergeable(doc[b], doc[b + 1]));
            }
        }
        lemma_tidy_from(next, at);
    } else {
        assert(settled_upto(doc, at + 1)) by {
            assert forall|b: int| 0 <= b < at + 1 && b + 1 < doc.len() implies !mergeable(
                #[trigger] doc[b],
                doc[b + 1],
            ) by {
                if b == at {
                    assert(doc[b] == doc[at]);
                }
            }
        }
        lemma_tidy_from(doc, at + 1);
    }
}

/// What a block becomes when it is given a kind and a line of runs.
pub open spec fn piece_of_kind(kind: TargetKind, runs: Seq<Run>) -> Piece {
    match kind {
        TargetKind::Paragraph => Piece::Line(LineForm::Paragraph, runs),
        TargetKind::Heading1 => Piece::Line(LineForm::Heading1, runs),
        TargetKind::Heading2 => Piece::Line(LineForm::Heading2, runs),
        TargetKind::Heading3 => Piece::Line(LineForm::Heading3, runs),
        TargetKind::Bullet => Piece::List(ListKind::Bullet, seq![runs]),
        TargetKind::Numbered => Piece::List(ListKind::Numbered, seq![runs]),
        TargetKind::Quote => Piece::Line(LineForm::Quote, runs),
        TargetKind::Code => Piece::Code(runs_text(runs)),
    }
}

/// The runs of a content; those of code are its text without style.
pub open spec fn content_runs(c: Content) -> Seq<Run> {
    match c {
        Content::Runs(runs) => runs,
        Content::Code(s) => plain_runs(s),
    }
}

pub open spec fn list_part(kind: ListKind, items: Seq<Seq<Run>>) -> Seq<Piece> {
    if items.len() == 0 {
        seq![]
    } else {
        seq![Piece::List(kind, items)]
    }
}

/// A list with one of its items taken out to stand as a block of its own.
pub open spec fn split_list(p: Piece, i: int, kind: TargetKind) -> Seq<Piece> {
    let items = p->List_1;
    list_part(p->List_0, items.take(i)) + seq![piece_of_kind(kind, items[i])] + list_part(
        p->List_0,
        items.skip(i + 1),
    )
}

pub open spec fn spot_of_kind(kind: TargetKind, b: int) -> Spot {
    if kind.spec_list_kind() is Some {
        Spot::Item(b, 0)
    } else {
        Spot::Block(b)
    }
}

/// A conversion before the lists around it are tidied: the document and the target.
pub open spec fn converted_raw(doc: Seq<Piece>, t: Spot, kind: TargetKind) -> (Seq<Piece>, Spot) {
    match t {
        Spot::Block(b) => (
            doc.update(b, piece_of_kind(kind, content_runs(content_at(doc, t)))),
            spot_of_kind(kind, b),
        ),
        Spot::Item(b, i) => (
            doc.take(b) + split_list(doc[b], i, kind) + doc.skip(b + 1),
            spot_of_kind(
                kind,
                if i > 0 {
                    b + 1
                } else {
                    b
                },
            ),
        ),
    }
}

/// Whether a conversion leaves everything as it is: an item of a list of that kind.
pub open spec fn conversion_idle(doc: Seq<Piece>, t: Spot, kind: TargetKind) -> bool {
    t is Item && kind.spec_list_kind() == Some(doc[t->Item_0]->List_0)
}

/// The document and the target after a conversion.
pub open spec fn converted(doc: Seq<Piece>, t: Spot, kind: TargetKind) -> (Seq<Piece>, Spot) {
    if conversion_idle(doc, t, kind) {
        (doc, t)
    } else {
        let raw = converted_raw(doc, t, kind);
        (tidy(raw.0), follow(raw.0, raw.1))
    }
}

pub proof fn lemma_converted_raw(doc: Seq<Piece>, t: Spot, kind: TargetKind)
    requires
        editable(doc),
        valid_spot(doc, t),
    ensures
        editable(converted_raw(doc, t, kind).0),
        valid_spot(converted_raw(doc, t, kind).0, converted_raw(doc, t, kind).1),
{
    let raw = converted_raw(doc, t, kind).0;
    match t {
        Spot::Block(b) => {
            assert forall|k: int| 0 <= k < raw.len() implies !is_empty_list(#[trigger] raw[k]) by {
                if k != b {
                    assert(raw[k] == doc[k]);
                }
            }
        },
        Spot::Item(b, i) => {
            let items = doc[b]->List_1;
            let parts = split_list(doc[b], i, kind);
            let front = list_part(doc[b]->List_0, items.take(i));
            assert(parts[front.len() as int] == piece_of_kind(kind, items[i]));
            assert(raw[b + front.len()] == parts[front.len() as int]);
            assert forall|k: int| 0 <= k < raw.len() implies !is_empty_list(#[trigger] raw[k]) by {
                if k < b {
                    assert(raw[k] == doc[k]);
                } else if k < b + parts.len() {
                    assert(raw[k] == parts[k - b]);
                } else {
                    assert(raw[k] == doc[k - parts.len() + 1]);
                }
            }
        },
    }
}

/// A conversion keeps a document editable and gives back one of its targets.
pub proof fn lemma_converted(doc: Seq<Piece>, t: Spot, kind: TargetKind)
    requires
        editable(doc),
        valid_spot(doc, t),
    ensures
        editable(converted(doc, t, kind).0),
        valid_spot(converted(doc, t, kind).0, converted(doc, t, kind).1),
{
    if !conversion_idle(doc, t, kind) {
        let raw = converted_raw(doc, t, kind);
        lemma_converted_raw(doc, t, kind);
        lemma_tidy_from(raw.0, 0);
        lemma_follow_from(raw.0, 0, raw.1);
    }
}

/// The document without a target; a list that loses its last item goes with it.
pub open spec fn without_spot(doc: Seq<Piece>, t: Spot) -> Seq<Piece> {
    match t {
        Spot::Block(b) => doc.remove(b),
        Spot::Item(b, i) => if doc[b]->List_1.len() == 1 {
            doc.remove(b)
        } else {
            doc.update(b, Piece::List(doc[b]->List_0, doc[b]->List_1.remove(i)))
        },
    }
}

/// The document after a target is deleted.
pub open spec fn deleted(doc: Seq<Piece>, t: Spot) -> Seq<Piece> {
    tidy(with_a_line(without_spot(doc, t)))
}

/// The target that takes the place of a deleted one: the one behind it, or the last.
pub open spec fn spot_after_delete(doc: Seq<Piece>, t: Spot) -> Spot {
    let all = spots(deleted(doc, t));
    let p = spot_index(spots(doc), t);
    if p < all.len() {
        all[p as int]
    } else {
        all.last()
    }
}

pub proof fn lemma_deleted(doc: Seq<Piece>, t: Spot)
    requires
        editable(doc),
        valid_spot(doc, t),
    ensures
        editable(with_a_line(without_spot(doc, t))),
        editable(deleted(doc, t)),
        valid_spot(deleted(doc, t), spot_after_delete(doc, t)),
{
    let rest = without_spot(doc, t);
    assert forall|k: int| 0 <= k < rest.len() implies !is_empty_list(#[trigger] rest[k]) by {
        match t {
            Spot::Block(b) => {
                assert(rest[k] == doc[if k < b {
                    k
                } else {
                    k + 1
                }]);
            },
            Spot::Item(b, i) => {
                if doc[b]->List_1.len() == 1 {
                    assert(rest[k] == doc[if k < b {
                        k
                    } else {
                        k + 1
                    }]);
                } else if k != b {
                    assert(rest[k] == doc[k]);
                }
            },
        }
    }
    lemma_tidy_from(with_a_line(rest), 0);
    let done = deleted(doc, t);
    lemma_spots_nonempty(done);
    lemma_spots(done, spot_after_delete(doc, t));
    let all = spots(done);
    assert(all.contains(spot_after_delete(doc, t)));
}

/// One plain paragraph for each line of a text.
pub open spec fn plain_document(text: Seq<char>) -> Seq<Piece> {
    Seq::new(
        split_feeds(text).len(),
        |i: int| Piece::Line(LineForm::Paragraph, plain_runs(split_feeds(text)[i])),
    )
}

pub proof fn lemma_stepping_valid(doc: Seq<Piece>, t: Spot)
    requires
        editable(doc),
    ensures
        valid_spot(doc, next_spot(doc, t)),
        valid_spot(doc, previous_spot(doc, t)),
{
    let all = spots(doc);
    lemma_spots_nonempty(doc);
    lemma_spot_index(all, t);
    lemma_spots(doc, next_spot(doc, t));
    lemma_spots(doc, previous_spot(doc, t));
    assert(all.contains(next_spot(doc, t)));
    assert(all.contains(previous_spot(doc, t)));
}

pub proof fn lemma_editable_update(doc: Seq<Piece>, b: int, p: Piece)
    requires
        editable(doc),
        0 <= b < doc.len(),
        !is_empty_list(p),
    ensures
        editable(doc.update(b, p)),
{
    let next = doc.update(b, p);
    assert forall|k: int| 0 <= k < next.len() implies !is_empty_list(#[trigger] next[k]) by {
        if k != b {
            assert(next[k] == doc[k]);
        }
    }
}

/// Other content at a target: the document stays editable, and the content is there.
pub proof fn lemma_with_content(doc: Seq<Piece>, t: Spot, content: Content)
    requires
        editable(doc),
        valid_spot(doc, t),
        content is Runs <==> content_at(doc, t) is Runs,
    ensures
        editable(with_content(doc, t, content)),
        valid_spot(with_content(doc, t, content), t),
        content_at(with_content(doc, t, content), t) == content,
{
    match t {
        Spot::Block(b) => {
            lemma_editable_update(doc, b, with_content(doc, t, content)[b]);
        },
        Spot::Item(b, i) => {
            lemma_editable_update(doc, b, with_content(doc, t, content)[b]);
        },
    }
}

pub proof fn lemma_items_insert(s: Seq<ListItem>, i: int, item: ListItem)
    requires
        0 <= i <= s.len(),
    ensures
        items_of(s).len() == s.len(),
        items_of(s.insert(i, item)) == items_of(s).insert(i, runs_of(item.content@)),
{
    assert(items_of(s.insert(i, item)) =~= items_of(s).insert(i, runs_of(item.content@)));
}

/// Typing a character into runs types it into their text.
pub proof fn lemma_insert_runs_text(s: Seq<Run>, at: nat, ch: char)
    requires
        at <= runs_text(s).len(),
    ensures
        runs_text(insert_runs(s, at, ch)) == runs_text(s).insert(at as int, ch),
    decreases s,
{
    reveal_with_fuel(runs_text, 2);
    if s.len() == 0 {
        let one = seq![Run::Text(seq![ch])];
        assert(one.drop_first() =~= Seq::<Run>::empty());
        assert(runs_text(one) =~= Seq::<char>::empty().insert(0, ch));
    } else {
        let head = run_text(s[0]);
        let tail = runs_text(s.drop_first());
        let next = insert_runs(s, at, ch);
        if at <= head.len() {
            lemma_insert_run_text(s[0], at, ch);
            assert(next[0] == insert_run(s[0], at, ch));
            assert(next.drop_first() =~= s.drop_first());
            assert(head.insert(at as int, ch) + tail =~= (head + tail).insert(at as int, ch));
        } else {
            let rest = (at - head.len()) as nat;
            lemma_insert_runs_text(s.drop_first(), rest, ch);
            assert(next[0] == s[0]);
            assert(next.drop_first() =~= insert_runs(s.drop_first(), rest, ch));
            assert(head + tail.insert(rest as int, ch) =~= (head + tail).insert(at as int, ch));
        }
    }
}

pub proof fn lemma_insert_run_text(r: Run, at: nat, ch: char)
    requires
        at <= run_text(r).len(),
    ensures
        run_text(insert_run(r, at, ch)) == run_text(r).insert(at as int, ch),
    decreases r,
{
    match r {
        Run::Text(_) => {},
        Run::Styled(_, c) => {
            lemma_insert_runs_text(c, at, ch);
        },
        Run::Link(c, _) => {
            lemma_insert_runs_text(c, at, ch);
        },
    }
}

/// Deleting a character from runs deletes it from their text.
pub proof fn lemma_delete_runs_text(s: Seq<Run>, at: nat)
    requires
        at < runs_text(s).len(),
    ensures
        runs_text(delete_runs(s, at)) == runs_text(s).remove(at as int),
    decreases s,
{
    reveal_with_fuel(runs_text, 2);
    let head = run_text(s[0]);
    let tail = runs_text(s.drop_first());
    let next = delete_runs(s, at);
    if at < head.len() {
        lemma_delete_run_text(s[0], at);
        assert(next[0] == delete_run(s[0], at));
        assert(next.drop_first() =~= s.drop_first());
        assert(head.remove(at as int) + tail =~= (head + tail).remove(at as int));
    } else {
        let rest = (at - head.len()) as nat;
        lemma_delete_runs_text(s.drop_first(), rest);
        assert(next[0] == s[0]);
        assert(next.drop_first() =~= delete_runs(s.drop_first(), rest));
        assert(head + tail.remove(rest as int) =~= (head + tail).remove(at as int));
    }
}

pub proof fn lemma_delete_run_text(r: Run, at: nat)
    requires
        at < run_text(r).len(),
    ensures
        run_text(delete_run(r, at)) == run_text(r).remove(at as int),
    decreases r,
{
    match r {
        Run::Text(_) => {},
        Run::Styled(_, c) => {
            lemma_delete_runs_text(c, at);
        },
        Run::Link(c, _) => {
            lemma_delete_runs_text(c, at);
        },
    }
}

pub proof fn lemma_content_insert_text(c: Content, at: nat, ch: char)
    requires
        at <= content_text(c).len(),
    ensures
        content_text(content_insert(c, at, ch)) == content_text(c).insert(at as int, ch),
{
    match c {
        Content::Runs(runs) => {
            lemma_insert_runs_text(runs, at, ch);
        },
        Content::Code(_) => {},
    }
}

pub proof fn lemma_content_delete_text(c: Content, at: nat)
    requires
        at < content_text(c).len(),
    ensures
        content_text(content_delete(c, at)) == content_text(c).remove(at as int),
{
    match c {
        Content::Runs(runs) => {
            lemma_delete_runs_text(runs, at);
        },
        Content::Code(_) => {},
    }
}

// ---------------------------------------------------------------------------
// Blocks and lists
// ---------------------------------------------------------------------------

pub fn list_kind(block: &Block) -> (r: Option<ListKind>)
    ensures
        r == piece_kind(block@),
{
    match block {
        Block::BulletList(_) => Some(ListKind::Bullet),
        Block::NumberedList(_) => Some(ListKind::Numbered),
        _ => None,
    }
}

pub fn list_items(block: &Block) -> (r: Option<&Vec<ListItem>>)
    ensures
        match r {
            Some(items) => block@ is List && block@->List_1 == items_of(items@),
            None => !(block@ is List),
        },
{
    match block {
        Block::BulletList(items) => Some(items),
        Block::NumberedList(items) => Some(items),
        _ => None,
    }
}

pub fn list_len(block: &Block) -> (r: Option<usize>)
    ensures
        match r {
            Some(n) => block@ is List && block@->List_1.len() == n,
            None => !(block@ is List),
        },
{
    match list_items(block) {
        Some(items) => Some(items.len()),
        None => None,
    }
}

fn is_empty_list_block(block: &Block) -> (r: bool)
    ensures
        r == is_empty_list(block@),
{
    match list_len(block) {
        Some(n) => n == 0,
        None => false,
    }
}

fn same_list_kind(a: &Block, b: &Block) -> (r: bool)
    ensures
        r == mergeable(a@, b@),
{
    match (a, b) {
        (Block::BulletList(_), Block::BulletList(_)) => true,
        (Block::NumberedList(_), Block::NumberedList(_)) => true,
        _ => false,
    }
}

pub fn take_list(block: Block) -> (r: Option<Vec<ListItem>>)
    ensures
        match r {
            Some(items) => block@ is List && block@->List_1 == items_of(items@),
            None => !(block@ is List),
        },
{
    match block {
        Block::BulletList(items) => Some(items),
        Block::NumberedList(items) => Some(items),
        _ => None,
    }
}

pub fn list_block(kind: ListKind, items: Vec<ListItem>) -> (r: Block)
    ensures
        r@ == Piece::List(kind, items_of(items@)),
{
    match kind {
        ListKind::Bullet => Block::BulletList(items),
        ListKind::Numbered => Block::NumberedList(items),
    }
}

/// Puts more items behind those of a list; gives back how many it has then.
fn extend_list(block: &mut Block, more: Vec<ListItem>) -> (r: usize)
    requires
        old(block)@ is List,
    ensures
        final(block)@ == Piece::List(
            old(block)@->List_0,
            old(block)@->List_1 + items_of(more@),
        ),
        r == old(block)@->List_1.len() + more@.len(),
{
    let mut more = more;
    match block {
        Block::BulletList(items) => {
            let ghost before = items@;
            let ghost added = more@;
            items.append(&mut more);
            assert(items_of(items@) =~= items_of(before) + items_of(added));
            items.len()
        },
        Block::NumberedList(items) => {
            let ghost before = items@;
            let ghost added = more@;
            items.append(&mut more);
            assert(items_of(items@) =~= items_of(before) + items_of(added));
            items.len()
        },
        _ => 0,
    }
}

/// Takes an item out of a list; tells whether that leaves the list without items.
fn remove_item(block: &mut Block, i: usize) -> (r: bool)
    requires
        old(block)@ is List,
        i < old(block)@->List_1.len(),
    ensures
        final(block)@ == Piece::List(old(block)@->List_0, old(block)@->List_1.remove(i as int)),
        r == (old(block)@->List_1.len() == 1),
{
    match block {
        Block::BulletList(items) => {
            let ghost before = items@;
            items.remove(i);
            assert(items_of(items@) =~= items_of(before).remove(i as int));
            items.len() == 0
        },
        Block::NumberedList(items) => {
            let ghost before = items@;
            items.remove(i);
            assert(items_of(items@) =~= items_of(before).remove(i as int));
            items.len() == 0
        },
        _ => false,
    }
}

/// The runs of a block of one line; those of code are its text without style.
pub fn block_inlines(block: Block) -> (r: Result<Vec<Inline>, EditorError>)
    ensures
        match r {
            Ok(items) => !(block@ is List) && runs_of(items@) == content_runs(
                content_at(seq![block@], Spot::Block(0)),
            ),
            Err(_) => block@ is List,
        },
{
    match block {
        Block::Paragraph(items) => Ok(items),
        Block::Heading1(items) => Ok(items),
        Block::Heading2(items) => Ok(items),
        Block::Heading3(items) => Ok(items),
        Block::Quote(items) => Ok(items),
        Block::CodeBlock(text) => Ok(inlines_from_text(text)),
        Block::BulletList(_) => Err(EditorError::InvalidTarget),
        Block::NumberedList(_) => Err(EditorError::InvalidTarget),
    }
}

fn one_item(content: Vec<Inline>) -> (r: Vec<ListItem>)
    ensures
        items_of(r@) == seq![runs_of(content@)],
{
    let mut items: Vec<ListItem> = Vec::new();
    items.push(ListItem { content });
    assert(items_of(items@) =~= seq![runs_of(content@)]);
    items
}

pub fn block_from_kind(kind: TargetKind, content: Vec<Inline>) -> (r: Block)
    ensures
        r@ == piece_of_kind(kind, runs_of(content@)),
{
    match kind {
        TargetKind::Paragraph => Block::Paragraph(content),
        TargetKind::Heading1 => Block::Heading1(content),
        TargetKind::Heading2 => Block::Heading2(content),
        TargetKind::Heading3 => Block::Heading3(content),
        TargetKind::Bullet => Block::BulletList(one_item(content)),
        TargetKind::Numbered => Block::NumberedList(one_item(content)),
        TargetKind::Quote => Block::Quote(content),
        TargetKind::Code => Block::CodeBlock(text_from_inlines(&content)),
    }
}

pub fn remove_empty_lists(document: &mut RichDocument)
    ensures
        final(document)@ == drop_empty_lists(old(document)@),
{
    let ghost doc = document@;
    let ghost mut seen: int = 0;
    let mut i: usize = 0;
    assert(doc.take(0) =~= Seq::<Piece>::empty());
    assert(document@.take(0) =~= Seq::<Piece>::empty());
    assert(document@.skip(0) =~= doc.skip(0));
    while i < document.blocks.len()
        invariant
            0 <= seen <= doc.len(),
            i <= document.blocks@.len(),
            document@.take(i as int) == drop_empty_lists(doc.take(seen)),
            document@.skip(i as int) == doc.skip(seen),
        decreases document.blocks@.len() - i,
    {
        let ghost now = document@;
        proof {
            lemma_pieces_update(document.blocks@, i as int);
            assert(now.skip(i as int).len() == doc.skip(seen).len());
            assert(now.skip(i as int)[0] == now[i as int]);
            assert(doc.skip(seen)[0] == doc[seen]);
            assert(doc.take(seen + 1).drop_last() =~= doc.take(seen));
            assert(doc.take(seen + 1).last() == doc[seen]);
            assert(now.skip(i as int).drop_first() =~= now.skip(i + 1));
            assert(doc.skip(seen).drop_first() =~= doc.skip(seen + 1));
        }
        if is_empty_list_block(&document.blocks[i]) {
            document.blocks.remove(i);
            proof {
                assert(document@ =~= now.remove(i as int));
                assert(document@.take(i as int) =~= now.take(i as int));
                assert(document@.skip(i as int) =~= now.skip(i + 1));
                seen = seen + 1;
            }
        } else {
            proof {
                assert(now.take(i + 1) =~= now.take(i as int).push(now[i as int]));
                seen = seen + 1;
            }
            i = i + 1;
        }
    }
    proof {
        assert(document@.skip(i as int).len() == 0);
        assert(doc.take(seen) =~= doc);
        assert(document@.take(i as int) =~= document@);
    }
}

pub fn ensure_editable_document(document: &mut RichDocument)
    ensures
        final(document)@ == with_a_line(old(document)@),
{
    if document.blocks.len() == 0 {
        let line = Block::Paragraph(Vec::new());
        assert(runs_of(line->Paragraph_0@) =~= Seq::<Run>::empty());
        document.blocks.push(line);
        assert(document@ =~= seq![blank_line()]);
    }
}

/// Where a target goes when the block at `removed` is taken out.
pub fn remap_after_block_removal(target: EditorTarget, removed: usize) -> (r: EditorTarget)
    ensures
        r@ == spot_after_removal(target@, removed as int),
{
    match target {
        EditorTarget::Block { block_index } => if block_index > removed {
            EditorTarget::Block { block_index: block_index - 1 }
        } else {
            target
        },
        EditorTarget::ListItem { block_index, item_index } => if block_index > removed {
            EditorTarget::ListItem { block_index: block_index - 1, item_index }
        } else {
            target
        },
    }
}

/// Where a target goes when the list behind `left_block` joins it.
pub fn remap_after_list_merge(target: EditorTarget, left_block: usize, left_len: usize) -> (r:
    EditorTarget)
    requires
        left_block < usize::MAX,
        target@ is Item && target@->Item_0 == left_block + 1 ==> left_len + target@->Item_1
            <= usize::MAX,
    ensures
        r@ == spot_after_merge(target@, left_block as int, left_len as int),
{
    match target {
        EditorTarget::Block { block_index } => if block_index > left_block + 1 {
            EditorTarget::Block { block_index: block_index - 1 }
        } else {
            target
        },
        EditorTarget::ListItem { block_index, item_index } => if block_index == left_block + 1 {
            EditorTarget::ListItem { block_index: left_block, item_index: left_len + item_index }
        } else if block_index > left_block + 1 {
            EditorTarget::ListItem { block_index: block_index - 1, item_index }
        } else {
            target
        },
    }
}

/// A line with a style taken off where it spans the whole line, else put on it.
fn toggled_inlines(line: Vec<Inline>, style: InlineStyle) -> (r: Vec<Inline>)
    ensures
        runs_of(r@) == toggled(runs_of(line@), style_mark(style)),
{
    let ghost runs = runs_of(line@);
    let mut line = line;
    if line.len() == 1 {
        match line.pop() {
            Some(only) => {
                assert(run_of(only) == runs[0]);
                match (style, only) {
                    (InlineStyle::Bold, Inline::Bold(children)) => {
                        return children;
                    },
                    (InlineStyle::Italic, Inline::Italic(children)) => {
                        return children;
                    },
                    (InlineStyle::Underline, Inline::Underline(children)) => {
                        return children;
                    },
                    (_, other) => {
                        line.push(other);
                    },
                }
            },
            None => {},
        }
    }
    assert(runs_of(line@) =~= runs);
    let mut out: Vec<Inline> = Vec::new();
    out.push(
        match style {
            InlineStyle::Bold => Inline::Bold(line),
            InlineStyle::Italic => Inline::Italic(line),
            InlineStyle::Underline => Inline::Underline(line),
        },
    );
    assert(runs_of(out@) =~= seq![Run::Styled(style_mark(style), runs)]);
    out
}

/// Replacing a block replaces its model.
pub proof fn lemma_pieces_update(s: Seq<Block>, b: int)
    requires
        0 <= b < s.len(),
    ensures
        pieces_of(s).len() == s.len(),
        pieces_of(s)[b] == s[b]@,
        forall|x: Block| #[trigger] pieces_of(s.update(b, x)) == pieces_of(s).update(b, x@),
{
    assert forall|x: Block| #[trigger]
        pieces_of(s.update(b, x)) == pieces_of(s).update(b, x@) by {
        assert(pieces_of(s.update(b, x)) =~= pieces_of(s).update(b, x@));
    }
}

/// Replacing a list item replaces its model.
pub proof fn lemma_items_update(s: Seq<ListItem>, i: int)
    requires
        0 <= i < s.len(),
    ensures
        items_of(s).len() == s.len(),
        items_of(s)[i] == runs_of(s[i].content@),
        forall|x: ListItem| #[trigger]
            items_of(s.update(i, x)) == items_of(s).update(i, runs_of(x.content@)),
{
    assert forall|x: ListItem| #[trigger]
        items_of(s.update(i, x)) == items_of(s).update(i, runs_of(x.content@)) by {
        assert(items_of(s.update(i, x)) =~= items_of(s).update(i, runs_of(x.content@)));
    }
}

impl EditorDocument {
    pub open spec fn wf(self) -> bool {
        editable(self@)
    }

    fn target_inlines_mut(&mut self, target: EditorTarget) -> (r: Result<
        &mut Vec<Inline>,
        EditorError,
    >)
        ensures
            match r {
                Ok(items) => {
                    &&& valid_spot(old(self)@, target@)
                    &&& content_at(old(self)@, target@) == Content::Runs(runs_of(items@))
                    &&& final(self)@ == with_runs(old(self)@, target@, runs_of(final(items)@))
                },
                Err(e) => {
                    &&& e == EditorError::InvalidTarget
                    &&& final(self)@ == old(self)@
                    &&& !(valid_spot(old(self)@, target@) && content_at(
                        old(self)@,
                        target@,
                    ) is Runs)
                },
            },
    {
        match target {
            EditorTarget::Block { block_index } => {
                if block_index >= self.document.blocks.len() {
                    return Err(EditorError::InvalidTarget);
                }
                proof {
                    lemma_pieces_update(self.document.blocks@, block_index as int);
                }
                match &mut self.document.blocks[block_index] {
                    Block::Paragraph(items) => Ok(items),
                    Block::Heading1(items) => Ok(items),
                    Block::Heading2(items) => Ok(items),
                    Block::Heading3(items) => Ok(items),
                    Block::Quote(items) => Ok(items),
                    _ => Err(EditorError::InvalidTarget),
                }
            },
            EditorTarget::ListItem { block_index, item_index } => {
                if block_index >= self.document.blocks.len() {
                    return Err(EditorError::InvalidTarget);
                }
                proof {
                    lemma_pieces_update(self.document.blocks@, block_index as int);
                }
                match &mut self.document.blocks[block_index] {
                    Block::BulletList(items) => {
                        if item_index >= items.len() {
                            return Err(EditorError::InvalidTarget);
                        }
                        proof {
                            lemma_items_update(items@, item_index as int);
                        }
                        Ok(&mut items[item_index].content)
                    },
                    Block::NumberedList(items) => {
                        if item_index >= items.len() {
                            return Err(EditorError::InvalidTarget);
                        }
                        proof {
                            lemma_items_update(items@, item_index as int);
                        }
                        Ok(&mut items[item_index].content)
                    },
                    _ => Err(EditorError::InvalidTarget),
                }
            },
        }
    }

    /// Opens a document: lists without items go, and a document without blocks
    /// gets an empty paragraph.
    pub fn new(document: RichDocument) -> (r: Self)
        ensures
            r@ == opened(document@),
            r.wf(),
    {
        proof {
            lemma_opened(document@);
        }
        let mut document = document;
        remove_empty_lists(&mut document);
        ensure_editable_document(&mut document);
        EditorDocument { document }
    }

    /// A document of one empty paragraph.
    pub fn empty() -> (r: Self)
        ensures
            r@ == seq![blank_line()],
            r.wf(),
    {
        let mut blocks: Vec<Block> = Vec::new();
        blocks.push(Block::Paragraph(Vec::new()));
        let document = RichDocument { blocks };
        assert(runs_of(document.blocks@[0]->Paragraph_0@) =~= Seq::<Run>::empty());
        assert(document@ =~= seq![blank_line()]);
        proof {
            lemma_opened(document@);
        }
        EditorDocument::new(document)
    }

    /// A document of one plain paragraph for each line of a text.
    pub fn from_plaintext(text: &str) -> (r: Self)
        ensures
            r@ == plain_document(text@),
            r.wf(),
    {
        let lines = text_split_feeds(text);
        let mut blocks: Vec<Block> = Vec::new();
        let mut i: usize = 0;
        let ghost all = split_feeds(text@);
        assert(all.len() > 0);
        while i < lines.len()
            invariant
                i <= lines@.len(),
                texts(lines@) == all,
                all == split_feeds(text@),
                blocks@.len() == i,
                forall|k: int|
                    0 <= k < i ==> (#[trigger] blocks@[k])@ == Piece::Line(
                        LineForm::Paragraph,
                        plain_runs(all[k]),
                    ),
            decreases lines@.len() - i,
        {
            assert(texts(lines@)[i as int] == lines@[i as int]@);
            blocks.push(Block::Paragraph(inlines_from_text(lines[i].clone())));
            i = i + 1;
        }
        let document = RichDocument { blocks };
        assert(texts(lines@).len() == lines@.len());
        assert(document@ =~= plain_document(text@));
        proof {
            lemma_opened(document@);
        }
        EditorDocument::new(document)
    }

    pub fn first_target(&self) -> (r: EditorTarget)
        ensures
            r@ == first_spot(self@),
            self.wf() ==> valid_spot(self@, r@),
    {
        proof {
            if self.wf() {
                lemma_spots_nonempty(self@);
                lemma_spots(self@, first_spot(self@));
                assert(spots(self@).contains(spots(self@)[0]));
            }
        }
        first_target(&self.document)
    }

    pub fn validate_target(&self, target: EditorTarget) -> (r: bool)
        ensures
            r == valid_spot(self@, target@),
    {
        validate_target(&self.document, target)
    }

    pub fn next_target(&self, target: EditorTarget) -> (r: EditorTarget)
        ensures
            r@ == next_spot(self@, target@),
            self.wf() ==> valid_spot(self@, r@),
    {
        proof {
            if self.wf() {
                lemma_stepping_valid(self@, target@);
            }
        }
        next_target(&self.document, target)
    }

    pub fn previous_target(&self, target: EditorTarget) -> (r: EditorTarget)
        ensures
            r@ == previous_spot(self@, target@),
            self.wf() ==> valid_spot(self@, r@),
    {
        proof {
            if self.wf() {
                lemma_stepping_valid(self@, target@);
            }
        }
        previous_target(&self.document, target)
    }

    /// The position of a target among all of them.
    pub fn visual_index(&self, target: EditorTarget) -> (r: Option<usize>)
        ensures
            match r {
                Some(i) => valid_spot(self@, target@) && i == spot_index(spots(self@), target@),
                None => !valid_spot(self@, target@),
            },
    {
        let all = targets(&self.document);
        proof {
            lemma_spot_index(spots(self@), target@);
            lemma_spots(self@, target@);
            assert(spot_views(all@).len() == all@.len());
        }
        position_of(&all, target)
    }

    /// The text at a target.
    pub fn target_text(&self, target: EditorTarget) -> (r: Result<String, EditorError>)
        ensures
            match r {
                Ok(text) => valid_spot(self@, target@) && text@ == text_at(self@, target@),
                Err(_) => !valid_spot(self@, target@),
            },
    {
        match target {
            EditorTarget::Block { block_index } => {
                if block_index >= self.document.blocks.len() {
                    return Err(EditorError::InvalidTarget);
                }
                proof {
                    lemma_pieces_update(self.document.blocks@, block_index as int);
                }
                match &self.document.blocks[block_index] {
                    Block::CodeBlock(text) => Ok(text.clone()),
                    Block::Paragraph(items) => Ok(text_from_inlines(items)),
                    Block::Heading1(items) => Ok(text_from_inlines(items)),
                    Block::Heading2(items) => Ok(text_from_inlines(items)),
                    Block::Heading3(items) => Ok(text_from_inlines(items)),
                    Block::Quote(items) => Ok(text_from_inlines(items)),
                    _ => Err(EditorError::InvalidTarget),
                }
            },
            EditorTarget::ListItem { block_index, item_index } => {
                if block_index >= self.document.blocks.len() {
                    return Err(EditorError::InvalidTarget);
                }
                proof {
                    lemma_pieces_update(self.document.blocks@, block_index as int);
                }
                match list_items(&self.document.blocks[block_index]) {
                    Some(items) => if item_index < items.len() {
                        proof {
                            lemma_items_update(items@, item_index as int);
                        }
                        Ok(text_from_inlines(&items[item_index].content))
                    } else {
                        Err(EditorError::InvalidTarget)
                    },
                    None => Err(EditorError::InvalidTarget),
                }
            },
        }
    }

    /// The number of characters at a target.
    pub fn char_len(&self, target: EditorTarget) -> (r: Result<usize, EditorError>)
        ensures
            match r {
                Ok(n) => valid_spot(self@, target@) && n == text_at(self@, target@).len(),
                Err(_) => !valid_spot(self@, target@),
            },
    {
        match self.target_text(target) {
            Ok(text) => Ok(text.as_str().unicode_len()),
            Err(error) => Err(error),
        }
    }

    /// The cursor, or the end of the text at a target where the cursor is beyond it.
    pub fn clamp_cursor(&self, target: EditorTarget, cursor: usize) -> (r: Result<
        usize,
        EditorError,
    >)
        ensures
            match r {
                Ok(n) => valid_spot(self@, target@) && n == clamp(
                    cursor as nat,
                    text_at(self@, target@).len(),
                ),
                Err(_) => !valid_spot(self@, target@),
            },
    {
        match self.char_len(target) {
            Ok(len) => Ok(
                if cursor <= len {
                    cursor
                } else {
                    len
                },
            ),
            Err(error) => Err(error),
        }
    }

    /// Types a character at the cursor; gives back the cursor behind it.
    pub fn insert_char(&mut self, target: EditorTarget, cursor: usize, ch: char) -> (r: Result<
        usize,
        EditorError,
    >)
        requires
            old(self).wf(),
        ensures
            final(self).wf(),
            match r {
                Ok(n) => {
                    let at = clamp(cursor as nat, text_at(old(self)@, target@).len());
                    &&& valid_spot(old(self)@, target@)
                    &&& n == at + 1
                    &&& final(self)@ == with_content(
                        old(self)@,
                        target@,
                        content_insert(content_at(old(self)@, target@), at, ch),
                    )
                },
                Err(_) => !valid_spot(old(self)@, target@) && final(self)@ == old(self)@,
            },
    {
        let at = match self.clamp_cursor(target, cursor) {
            Ok(at) => at,
            Err(error) => {
                return Err(error);
            },
        };
        let ghost doc = self@;
        let ghost content = content_insert(content_at(doc, target@), at as nat, ch);
        let mut done = false;
        if let EditorTarget::Block { block_index } = target {
            proof {
                lemma_pieces_update(self.document.blocks@, block_index as int);
            }
            if let Block::CodeBlock(text) = &mut self.document.blocks[block_index] {
                insert_into_text(text, at, ch);
                done = true;
            }
        }
        if !done {
            match self.target_inlines_mut(target) {
                Ok(items) => insert_into_inlines(items, at, ch),
                Err(error) => {
                    return Err(error);
                },
            }
        }
        proof {
            assert(self@ == with_content(doc, target@, content));
            lemma_with_content(doc, target@, content);
            lemma_content_insert_text(content_at(doc, target@), at as nat, ch);
        }
        match self.char_len(target) {
            Ok(_) => Ok(at + 1),
            Err(error) => Err(error),
        }
    }

    /// Deletes the character before the cursor; gives back the cursor.
    pub fn backspace(&mut self, target: EditorTarget, cursor: usize) -> (r: Result<
        usize,
        EditorError,
    >)
        requires
            old(self).wf(),
        ensures
            final(self).wf(),
            match r {
                Ok(n) => {
                    let at = clamp(cursor as nat, text_at(old(self)@, target@).len());
                    &&& valid_spot(old(self)@, target@)
                    &&& if at == 0 {
                        n == 0 && final(self)@ == old(self)@
                    } else {
                        n == at - 1 && final(self)@ == with_content(
                            old(self)@,
                            target@,
                            content_delete(content_at(old(self)@, target@), (at - 1) as nat),
                        )
                    }
                },
                Err(_) => !valid_spot(old(self)@, target@) && final(self)@ == old(self)@,
            },
    {
        let at = match self.clamp_cursor(target, cursor) {
            Ok(at) => at,
            Err(error) => {
                return Err(error);
            },
        };
        if at == 0 {
            return Ok(0);
        }
        match self.delete_at(target, at - 1) {
            Ok(()) => Ok(at - 1),
            Err(error) => Err(error),
        }
    }

    /// Deletes the character at the cursor; gives back the cursor.
    pub fn delete_char(&mut self, target: EditorTarget, cursor: usize) -> (r: Result<
        usize,
        EditorError,
    >)
        requires
            old(self).wf(),
        ensures
            final(self).wf(),
            match r {
                Ok(n) => {
                    let len = text_at(old(self)@, target@).len();
                    &&& valid_spot(old(self)@, target@)
                    &&& n == clamp(cursor as nat, len)
                    &&& final(self)@ == if cursor < len {
                        with_content(
                            old(self)@,
                            target@,
                            content_delete(content_at(old(self)@, target@), cursor as nat),
                        )
                    } else {
                        old(self)@
                    }
                },
                Err(_) => !valid_spot(old(self)@, target@) && final(self)@ == old(self)@,
            },
    {
        let at = match self.clamp_cursor(target, cursor) {
            Ok(at) => at,
            Err(error) => {
                return Err(error);
            },
        };
        let len = match self.char_len(target) {
            Ok(len) => len,
            Err(error) => {
                return Err(error);
            },
        };
        if at == len {
            return Ok(at);
        }
        match self.delete_at(target, at) {
            Ok(()) => Ok(at),
            Err(error) => Err(error),
        }
    }

    fn delete_at(&mut self, target: EditorTarget, at: usize) -> (r: Result<(), EditorError>)
        requires
            old(self).wf(),
            valid_spot(old(self)@, target@),
            at < text_at(old(self)@, target@).len(),
            at < usize::MAX,
        ensures
            r is Ok,
            final(self).wf(),
            final(self)@ == with_content(
                old(self)@,
                target@,
                content_delete(content_at(old(self)@, target@), at as nat),
            ),
    {
        let ghost doc = self@;
        let ghost content = content_delete(content_at(doc, target@), at as nat);
        let mut done = false;
        if let EditorTarget::Block { block_index } = target {
            proof {
                lemma_pieces_update(self.document.blocks@, block_index as int);
            }
            if let Block::CodeBlock(text) = &mut self.document.blocks[block_index] {
                delete_from_text(text, at);
                done = true;
            }
        }
        if !done {
            match self.target_inlines_mut(target) {
                Ok(items) => delete_from_inlines(items, at),
                Err(error) => {
                    return Err(error);
                },
            }
        }
        proof {
            assert(self@ == with_content(doc, target@, content));
            lemma_with_content(doc, target@, content);
        }
        Ok(())
    }

    /// Puts a style on the line at a target, or takes it off.
    pub fn toggle_style(&mut self, target: EditorTarget, style: InlineStyle) -> (r: Result<
        (),
        EditorError,
    >)
        requires
            old(self).wf(),
        ensures
            final(self).wf(),
            r is Ok <==> valid_spot(old(self)@, target@) && content_at(old(self)@, target@) is Runs,
            final(self)@ == if r is Ok {
                with_runs(
                    old(self)@,
                    target@,
                    toggled(content_at(old(self)@, target@)->Runs_0, style_mark(style)),
                )
            } else {
                old(self)@
            },
    {
        let ghost doc = self@;
        match self.target_inlines_mut(target) {
            Ok(items) => {
                let mut line: Vec<Inline> = Vec::new();
                std::mem::swap(items, &mut line);
                *items = toggled_inlines(line, style);
            },
            Err(error) => {
                return Err(error);
            },
        }
        proof {
            lemma_with_content(doc, target@, Content::Runs(content_at(self@, target@)->Runs_0));
        }
        Ok(())
    }

    /// Makes the line at a target a link.
    pub fn set_link(&mut self, target: EditorTarget, url: String) -> (r: Result<(), EditorError>)
        requires
            old(self).wf(),
        ensures
            final(self).wf(),
            r is Ok <==> valid_spot(old(self)@, target@) && content_at(old(self)@, target@) is Runs,
            final(self)@ == if r is Ok {
                with_runs(
                    old(self)@,
                    target@,
                    seq![Run::Link(content_at(old(self)@, target@)->Runs_0, url@)],
                )
            } else {
                old(self)@
            },
    {
        let ghost doc = self@;
        match self.target_inlines_mut(target) {
            Ok(items) => {
                let mut label: Vec<Inline> = Vec::new();
                std::mem::swap(items, &mut label);
                let ghost runs = runs_of(label@);
                items.push(Inline::Link { label, href: url });
                assert(runs_of(items@) =~= seq![Run::Link(runs, url@)]);
            },
            Err(error) => {
                return Err(error);
            },
        }
        proof {
            lemma_with_content(doc, target@, Content::Runs(content_at(self@, target@)->Runs_0));
        }
        Ok(())
    }

    /// Puts an empty paragraph or list item behind a target and gives back its target.
    pub fn insert_after(&mut self, target: EditorTarget) -> (r: Result<EditorTarget, EditorError>)
        requires
            old(self).wf(),
        ensures
            final(self).wf(),
            match (r, target@) {
                (Ok(next), Spot::Block(b)) => {
                    &&& b < old(self)@.len()
                    &&& next@ == Spot::Block(b + 1)
                    &&& final(self)@ == old(self)@.insert(b + 1, blank_line())
                },
                (Ok(next), Spot::Item(b, i)) => {
                    &&& valid_spot(old(self)@, target@)
                    &&& next@ == Spot::Item(b, i + 1)
                    &&& final(self)@ == old(self)@.update(
                        b,
                        Piece::List(
                            old(self)@[b]->List_0,
                            old(self)@[b]->List_1.insert(i + 1, seq![]),
                        ),
                    )
                },
                (Err(_), Spot::Block(b)) => b >= old(self)@.len() && final(self)@ == old(self)@,
                (Err(_), Spot::Item(_, _)) => !valid_spot(old(self)@, target@) && final(self)@
                    == old(self)@,
            },
            r is Ok ==> valid_spot(final(self)@, r->Ok_0@),
    {
        let ghost doc = self@;
        match target {
            EditorTarget::Block { block_index } => {
                if block_index >= self.document.blocks.len() {
                    return Err(EditorError::InvalidTarget);
                }
                let line = Block::Paragraph(Vec::new());
                assert(runs_of(line->Paragraph_0@) =~= Seq::<Run>::empty());
                self.document.blocks.insert(block_index + 1, line);
                proof {
                    assert(self@ =~= doc.insert(block_index + 1, blank_line()));
                    assert forall|k: int| 0 <= k < self@.len() implies !is_empty_list(#[trigger] self@[k]) by {
                        if k <= block_index {
                            assert(self@[k] == doc[k]);
                        } else if k > block_index + 1 {
                            assert(self@[k] == doc[k - 1]);
                        }
                    }
                }
                Ok(EditorTarget::Block { block_index: block_index + 1 })
            },
            EditorTarget::ListItem { block_index, item_index } => {
                if block_index >= self.document.blocks.len() {
                    return Err(EditorError::InvalidTarget);
                }
                proof {
                    lemma_pieces_update(self.document.blocks@, block_index as int);
                }
                let count: usize = match list_items(&self.document.blocks[block_index]) {
                    Some(items) => items.len(),
                    None => {
                        return Err(EditorError::InvalidTarget);
                    },
                };
                if item_index >= count {
                    return Err(EditorError::InvalidTarget);
                }
                let item = ListItem { content: Vec::new() };
                assert(runs_of(item.content@) =~= Seq::<Run>::empty());
                match &mut self.document.blocks[block_index] {
                    Block::BulletList(items) => {
                        proof {
                            lemma_items_insert(items@, item_index + 1, item);
                        }
                        items.insert(item_index + 1, item);
                    },
                    Block::NumberedList(items) => {
                        proof {
                            lemma_items_insert(items@, item_index + 1, item);
                        }
                        items.insert(item_index + 1, item);
                    },
                    _ => {},
                }
                proof {
                    let list = Piece::List(
                        doc[block_index as int]->List_0,
                        doc[block_index as int]->List_1.insert(item_index + 1, seq![]),
                    );
                    assert(self@ == doc.update(block_index as int, list));
                    lemma_editable_update(doc, block_index as int, list);
                }
                Ok(EditorTarget::ListItem { block_index, item_index: item_index + 1 })
            },
        }
    }

    /// Tidies the lists of the document and gives back where a target has gone.
    fn normalize_adjacent_lists(&mut self, target: EditorTarget) -> (r: EditorTarget)
        requires
            old(self).wf(),
            valid_spot(old(self)@, target@),
        ensures
            final(self).wf(),
            final(self)@ == tidy(old(self)@),
            r@ == follow(old(self)@, target@),
            valid_spot(final(self)@, r@),
    {
        let ghost doc = self@;
        let ghost start = target@;
        let mut target = target;
        let mut index: usize = 0;
        proof {
            lemma_tidy_from(doc, 0);
        }
        while index < self.document.blocks.len()
            invariant
                valid_spot(self@, target@),
                tidy_from(self@, index as int) == tidy(doc),
                follow_from(self@, index as int, target@) == follow(doc, start),
                index <= self.document.blocks@.len(),
            decreases self.document.blocks@.len() - index,
        {
            let ghost now = self@;
            proof {
                lemma_pieces_update(self.document.blocks@, index as int);
            }
            if is_empty_list_block(&self.document.blocks[index]) {
                self.document.blocks.remove(index);
                proof {
                    assert(self@ =~= now.remove(index as int));
                    lemma_removal_keeps(now, index as int, target@);
                }
                target = remap_after_block_removal(target, index);
                continue;
            }
            if index + 1 < self.document.blocks.len() {
                proof {
                    lemma_pieces_update(self.document.blocks@, index + 1);
                }
                if same_list_kind(
                    &self.document.blocks[index],
                    &self.document.blocks[index + 1],
                ) {
                    let left_len: usize = match list_len(&self.document.blocks[index]) {
                        Some(n) => n,
                        None => 0,
                    };
                    let right = self.document.blocks.remove(index + 1);
                    assert(self@ =~= now.remove(index + 1));
                    let right_items = match take_list(right) {
                        Some(items) => items,
                        None => Vec::new(),
                    };
                    let _total: usize = extend_list(&mut self.document.blocks[index], right_items);
                    proof {
                        assert(self@ =~= merged_at(now, index as int));
                        lemma_merge_keeps(now, index as int, target@);
                    }
                    target = remap_after_list_merge(target, index, left_len);
                    continue;
                }
            }
            index = index + 1;
        }
        target
    }

    /// Takes an item out of its list to stand as a block of its own; gives back the
    /// position of that block.
    fn split_item_out(
        &mut self,
        block_index: usize,
        item_index: usize,
        source_kind: ListKind,
        kind: TargetKind,
    ) -> (r: usize)
        requires
            valid_spot(old(self)@, Spot::Item(block_index as int, item_index as int)),
            source_kind == old(self)@[block_index as int]->List_0,
        ensures
            final(self)@ == converted_raw(
                old(self)@,
                Spot::Item(block_index as int, item_index as int),
                kind,
            ).0,
            r == if item_index > 0 {
                block_index + 1
            } else {
                block_index as int
            },
    {
        let ghost doc = self@;
        let ghost b = block_index as int;
        let ghost i = item_index as int;
        proof {
            lemma_pieces_update(self.document.blocks@, b);
        }
        let source = self.document.blocks.remove(block_index);
        assert(self@ =~= doc.remove(b));
        let mut before = match take_list(source) {
            Some(items) => items,
            None => Vec::new(),
        };
        let ghost model = items_of(before@);
        let ghost items = before@;
        assert(item_index < before.len());
        let after = before.split_off(item_index + 1);
        let current = match before.pop() {
            Some(current) => current,
            None => ListItem { content: Vec::new() },
        };
        proof {
            assert(items_of(before@) =~= model.take(i));
            assert(items_of(after@) =~= model.skip(i + 1));
            assert(current == items[i]);
            assert(runs_of(current.content@) == model[i]);
        }
        let replacement = block_from_kind(kind, current.content);
        let ghost middle = replacement@;
        let ghost front = list_part(source_kind, model.take(i));
        let ghost back = list_part(source_kind, model.skip(i + 1));
        let mut at: usize = block_index;
        if before.len() > 0 {
            self.document.blocks.insert(at, list_block(source_kind, before));
            assert(at < self.document.blocks.len());
            at = at + 1;
        }
        assert(self@ =~= doc.take(b) + front + doc.skip(b + 1));
        self.document.blocks.insert(at, replacement);
        assert(self@ =~= doc.take(b) + front + seq![middle] + doc.skip(b + 1));
        assert(at < self.document.blocks.len());
        if after.len() > 0 {
            self.document.blocks.insert(at + 1, list_block(source_kind, after));
        }
        assert(self@ =~= doc.take(b) + front + seq![middle] + back + doc.skip(b + 1));
        assert(self@ =~= doc.take(b) + (front + seq![middle] + back) + doc.skip(b + 1));
        at
    }

    /// Turns a target into another kind: a line changes its form, an item of a list
    /// of another kind leaves its list. Gives back where the target has gone.
    pub fn convert_target(&mut self, target: EditorTarget, kind: TargetKind) -> (r: Result<
        EditorTarget,
        EditorError,
    >)
        requires
            old(self).wf(),
        ensures
            final(self).wf(),
            match r {
                Ok(next) => {
                    &&& valid_spot(old(self)@, target@)
                    &&& final(self)@ == converted(old(self)@, target@, kind).0
                    &&& next@ == converted(old(self)@, target@, kind).1
                    &&& valid_spot(final(self)@, next@)
                },
                Err(_) => !valid_spot(old(self)@, target@) && final(self)@ == old(self)@,
            },
    {
        if !self.validate_target(target) {
            return Err(EditorError::InvalidTarget);
        }
        let ghost doc = self@;
        proof {
            lemma_converted(doc, target@, kind);
            lemma_converted_raw(doc, target@, kind);
        }
        match target {
            EditorTarget::Block { block_index } => {
                proof {
                    lemma_pieces_update(self.document.blocks@, block_index as int);
                }
                let source = self.document.blocks[block_index].clone();
                let content = match block_inlines(source) {
                    Ok(content) => content,
                    Err(error) => {
                        return Err(error);
                    },
                };
                let replacement = block_from_kind(kind, content);
                self.document.blocks.set(block_index, replacement);
                let next = if kind.is_list() {
                    EditorTarget::ListItem { block_index, item_index: 0 }
                } else {
                    EditorTarget::Block { block_index }
                };
                Ok(self.normalize_adjacent_lists(next))
            },
            EditorTarget::ListItem { block_index, item_index } => {
                proof {
                    lemma_pieces_update(self.document.blocks@, block_index as int);
                }
                let source_kind = match list_kind(&self.document.blocks[block_index]) {
                    Some(source_kind) => source_kind,
                    None => {
                        return Err(EditorError::InvalidTarget);
                    },
                };
                if let Some(wanted) = kind.list_kind() {
                    if wanted == source_kind {
                        return Ok(target);
                    }
                }
                let at: usize = self.split_item_out(block_index, item_index, source_kind, kind);
                let next = if kind.is_list() {
                    EditorTarget::ListItem { block_index: at, item_index: 0 }
                } else {
                    EditorTarget::Block { block_index: at }
                };
                Ok(self.normalize_adjacent_lists(next))
            },
        }
    }

    /// Deletes a target; gives back the one that takes its place.
    pub fn delete_target(&mut self, target: EditorTarget) -> (r: Result<EditorTarget, EditorError>)
        requires
            old(self).wf(),
        ensures
            final(self).wf(),
            match r {
                Ok(next) => {
                    &&& valid_spot(old(self)@, target@)
                    &&& final(self)@ == deleted(old(self)@, target@)
                    &&& next@ == spot_after_delete(old(self)@, target@)
                    &&& valid_spot(final(self)@, next@)
                },
                Err(_) => !valid_spot(old(self)@, target@) && final(self)@ == old(self)@,
            },
    {
        let ghost doc = self@;
        let position = match self.visual_index(target) {
            Some(position) => position,
            None => {
                return Err(EditorError::InvalidTarget);
            },
        };
        proof {
            lemma_deleted(doc, target@);
        }
        match target {
            EditorTarget::Block { block_index } => {
                self.document.blocks.remove(block_index);
                assert(self@ =~= without_spot(doc, target@));
            },
            EditorTarget::ListItem { block_index, item_index } => {
                proof {
                    lemma_pieces_update(self.document.blocks@, block_index as int);
                }
                let emptied = remove_item(&mut self.document.blocks[block_index], item_index);
                if emptied {
                    self.document.blocks.remove(block_index);
                }
                assert(self@ =~= without_spot(doc, target@));
            },
        }
        ensure_editable_document(&mut self.document);
        let first = self.first_target();
        let _first: EditorTarget = self.normalize_adjacent_lists(first);
        let remaining = targets(&self.document);
        proof {
            lemma_spots_nonempty(self@);
            assert(spot_views(remaining@).len() == remaining@.len());
        }
        let at: usize = if position < remaining.len() {
            position
        } else {
            remaining.len() - 1
        };
        assert(spot_views(remaining@)[at as int] == remaining@[at as int]@);
        Ok(remaining[at])
    }
}

} // verus!
