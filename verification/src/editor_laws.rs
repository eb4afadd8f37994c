//! What holds of the editor as a whole.

use vstd::prelude::*;

use crate::document::{runs_text, LineForm, ListKind, Mark, Piece, Run};
use crate::editor::{
    clamp, content_at, content_delete, content_insert, content_runs, content_text, conversion_idle,
    converted, converted_raw, deleted, editable, follow_from, is_empty_list,
    lemma_content_delete_text, lemma_content_insert_text, lemma_converted, lemma_converted_raw,
    lemma_deleted, lemma_merge_keeps, lemma_removal_keeps, lemma_spot_index, lemma_spots,
    lemma_spots_upto, lemma_tidy_from, list_part, merge, mergeable, merged_at, next_spot,
    piece_of_kind, piece_spots, previous_spot, settled_upto, split_list, spot_after_merge,
    spot_after_removal, spot_index, spots, spots_upto, text_at, tidy_from, toggled, valid_spot,
    with_a_line, with_content, without_spot, Content, Spot, TargetKind,
};

verus! {

/// The contents of a block: one, or one for each item of a list.
pub open spec fn piece_contents(p: Piece) -> Seq<Content> {
    match p {
        Piece::Line(_, runs) => seq![Content::Runs(runs)],
        Piece::List(_, items) => Seq::new(items.len(), |i: int| Content::Runs(items[i])),
        Piece::Code(s) => seq![Content::Code(s)],
    }
}

/// The contents of a document, target by target.
pub open spec fn doc_contents(doc: Seq<Piece>) -> Seq<Content>
    decreases doc.len(),
{
    if doc.len() == 0 {
        seq![]
    } else {
        doc_contents(doc.drop_last()) + piece_contents(doc.last())
    }
}

/// The texts of a document, target by target.
pub open spec fn doc_texts(doc: Seq<Piece>) -> Seq<Seq<char>> {
    Seq::new(doc_contents(doc).len(), |i: int| content_text(doc_contents(doc)[i]))
}

/// The kind of a block, which is that of its targets.
pub open spec fn kind_of(p: Piece) -> TargetKind {
    match p {
        Piece::Line(LineForm::Paragraph, _) => TargetKind::Paragraph,
        Piece::Line(LineForm::Heading1, _) => TargetKind::Heading1,
        Piece::Line(LineForm::Heading2, _) => TargetKind::Heading2,
        Piece::Line(LineForm::Heading3, _) => TargetKind::Heading3,
        Piece::Line(LineForm::Quote, _) => TargetKind::Quote,
        Piece::List(ListKind::Bullet, _) => TargetKind::Bullet,
        Piece::List(ListKind::Numbered, _) => TargetKind::Numbered,
        Piece::Code(_) => TargetKind::Code,
    }
}

/// The block that a target is in.
pub open spec fn block_of(t: Spot) -> int {
    match t {
        Spot::Block(b) => b,
        Spot::Item(b, _) => b,
    }
}

/// The kind of a target.
pub open spec fn kind_at(doc: Seq<Piece>, t: Spot) -> TargetKind {
    kind_of(doc[block_of(t)])
}

pub proof fn lemma_doc_contents_add(a: Seq<Piece>, b: Seq<Piece>)
    ensures
        doc_contents(a + b) == doc_contents(a) + doc_contents(b),
    decreases b.len(),
{
    if b.len() == 0 {
        assert(a + b =~= a);
        assert(doc_contents(a) + doc_contents(b) =~= doc_contents(a));
    } else {
        lemma_doc_contents_add(a, b.drop_last());
        assert((a + b).drop_last() =~= a + b.drop_last());
        assert((a + b).last() == b.last());
        assert(doc_contents(a) + doc_contents(b.drop_last()) + piece_contents(b.last())
            =~= doc_contents(a) + (doc_contents(b.drop_last()) + piece_contents(b.last())));
    }
}

pub proof fn lemma_doc_contents_one(p: Piece)
    ensures
        doc_contents(seq![p]) == piece_contents(p),
{
    reveal_with_fuel(doc_contents, 2);
    assert(seq![p].drop_last() =~= Seq::<Piece>::empty());
    assert(Seq::<Content>::empty() + piece_contents(p) =~= piece_contents(p));
}

/// The contents of a document that has `part` between two others.
pub proof fn lemma_doc_contents_middle(a: Seq<Piece>, part: Seq<Piece>, c: Seq<Piece>)
    ensures
        doc_contents(a + part + c) == doc_contents(a) + doc_contents(part) + doc_contents(c),
{
    lemma_doc_contents_add(a + part, c);
    lemma_doc_contents_add(a, part);
}

/// The contents of two lists of one kind are those of the list that they become.
pub proof fn lemma_merge_contents(p: Piece, q: Piece)
    requires
        mergeable(p, q),
    ensures
        doc_contents(seq![p] + seq![q]) == doc_contents(seq![merge(p, q)]),
{
    lemma_doc_contents_add(seq![p], seq![q]);
    lemma_doc_contents_one(p);
    lemma_doc_contents_one(q);
    lemma_doc_contents_one(merge(p, q));
    assert(piece_contents(p) + piece_contents(q) =~= piece_contents(merge(p, q)));
}

pub proof fn lemma_empty_list_contents(p: Piece)
    requires
        is_empty_list(p),
    ensures
        doc_contents(seq![p]) == doc_contents(Seq::<Piece>::empty()),
{
    lemma_doc_contents_one(p);
    assert(piece_contents(p) =~= Seq::<Content>::empty());
}

pub proof fn lemma_tidy_contents(doc: Seq<Piece>, at: int)
    requires
        0 <= at,
    ensures
        doc_contents(tidy_from(doc, at)) == doc_contents(doc),
    decreases doc.len() - at,
{
    if at >= doc.len() {
    } else if is_empty_list(doc[at]) {
        lemma_tidy_contents(doc.remove(at), at);
        let a = doc.take(at);
        let c = doc.skip(at + 1);
        assert(doc =~= a + seq![doc[at]] + c);
        assert(doc.remove(at) =~= a + Seq::<Piece>::empty() + c);
        lemma_doc_contents_middle(a, seq![doc[at]], c);
        lemma_doc_contents_middle(a, Seq::<Piece>::empty(), c);
        lemma_empty_list_contents(doc[at]);
    } else if at + 1 < doc.len() && mergeable(doc[at], doc[at + 1]) {
        let next = merged_at(doc, at);
        lemma_tidy_contents(next, at);
        let a = doc.take(at);
        let c = doc.skip(at + 2);
        let pair = seq![doc[at]] + seq![doc[at + 1]];
        let one = seq![merge(doc[at], doc[at + 1])];
        assert(doc =~= a + pair + c);
        assert(next =~= a + one + c);
        lemma_doc_contents_middle(a, pair, c);
        lemma_doc_contents_middle(a, one, c);
        lemma_merge_contents(doc[at], doc[at + 1]);
    } else {
        lemma_tidy_contents(doc, at + 1);
    }
}

pub proof fn lemma_plain_runs_text(s: Seq<char>)
    ensures
        runs_text(crate::document::plain_runs(s)) == s,
{
    reveal_with_fuel(runs_text, 2);
    reveal_with_fuel(crate::document::run_text, 2);
    if s.len() > 0 {
        let one = seq![Run::Text(s)];
        assert(one.drop_first() =~= Seq::<Run>::empty());
        assert(s + Seq::<char>::empty() =~= s);
    } else {
        assert(s =~= Seq::<char>::empty());
    }
}

pub proof fn lemma_piece_of_kind(kind: TargetKind, runs: Seq<Run>)
    ensures
        doc_contents(seq![piece_of_kind(kind, runs)]) == seq![
            content_of_kind(kind, Content::Runs(runs)),
        ],
        kind_of(piece_of_kind(kind, runs)) == kind,
{
    lemma_doc_contents_one(piece_of_kind(kind, runs));
    assert(piece_contents(piece_of_kind(kind, runs)) =~= seq![
        content_of_kind(kind, Content::Runs(runs)),
    ]);
}

pub proof fn lemma_list_part_contents(kind: ListKind, items: Seq<Seq<Run>>)
    ensures
        doc_contents(list_part(kind, items)) == Seq::new(
            items.len(),
            |i: int| Content::Runs(items[i]),
        ),
{
    if items.len() == 0 {
        assert(Seq::new(items.len(), |i: int| Content::Runs(items[i])) =~= Seq::<Content>::empty());
    } else {
        lemma_doc_contents_one(Piece::List(kind, items));
    }
}

/// How many targets stand before one.
#[verifier::opaque]
pub open spec fn place(doc: Seq<Piece>, t: Spot) -> int {
    match t {
        Spot::Block(b) => doc_contents(doc.take(b)).len() as int,
        Spot::Item(b, i) => doc_contents(doc.take(b)).len() + i,
    }
}

pub proof fn lemma_spots_count(doc: Seq<Piece>, n: nat)
    requires
        n <= doc.len(),
    ensures
        spots_upto(doc, n).len() == doc_contents(doc.take(n as int)).len(),
    decreases n,
{
    if n > 0 {
        lemma_spots_count(doc, (n - 1) as nat);
        assert(doc.take(n as int).drop_last() =~= doc.take(n - 1));
        assert(doc.take(n as int).last() == doc[n - 1]);
    } else {
        assert(doc.take(0) =~= Seq::<Piece>::empty());
    }
}

/// The position of a target in its document.
pub proof fn lemma_spot_place(doc: Seq<Piece>, t: Spot)
    requires
        valid_spot(doc, t),
    ensures
        spot_index(spots(doc), t) == place(doc, t),
{
    reveal(place);
    let b = block_of(t);
    let all = spots(doc);
    lemma_spots_count(doc, b as nat);
    lemma_spots_prefix(doc, (b + 1) as nat, doc.len());
    lemma_spots(doc, t);
    lemma_spot_index(all, t);
    let p = spot_index(all, t) as int;
    let at = place(doc, t);
    assert(spots_upto(doc, (b + 1) as nat)[at] == t);
    assert(all[at] == t);
    if p < at {
        if p < spots_upto(doc, b as nat).len() {
            lemma_spots_prefix(doc, b as nat, (b + 1) as nat);
            lemma_spots_upto(doc, b as nat, t);
            assert(spots_upto(doc, b as nat)[p] == t);
        } else {
            assert(all[p] == spots_upto(doc, (b + 1) as nat)[p]);
        }
    }
}

pub proof fn lemma_spots_prefix(doc: Seq<Piece>, m: nat, n: nat)
    requires
        m <= n <= doc.len(),
    ensures
        spots_upto(doc, m).len() <= spots_upto(doc, n).len(),
        forall|k: int|
            0 <= k < spots_upto(doc, m).len() ==> spots_upto(doc, n)[k] == #[trigger] spots_upto(
                doc,
                m,
            )[k],
    decreases n - m,
{
    if m < n {
        lemma_spots_prefix(doc, m, (n - 1) as nat);
        assert forall|k: int| 0 <= k < spots_upto(doc, m).len() implies spots_upto(doc, n)[k]
            == #[trigger] spots_upto(doc, m)[k] by {
            assert(spots_upto(doc, (n - 1) as nat)[k] == spots_upto(doc, m)[k]);
        }
    }
}

/// The contents of a document are those at its targets, in the order of the targets.
pub proof fn law_contents_stand_at_their_targets(doc: Seq<Piece>, t: Spot)
    requires
        valid_spot(doc, t),
    ensures
        doc_contents(doc).len() == spots(doc).len(),
        spot_index(spots(doc), t) < spots(doc).len(),
        doc_contents(doc)[spot_index(spots(doc), t) as int] == content_at(doc, t),
{
    reveal(place);
    let b = block_of(t);
    let a = doc.take(b);
    let c = doc.skip(b + 1);
    assert(doc.take(doc.len() as int) =~= doc);
    assert(doc =~= a + seq![doc[b]] + c);
    lemma_spots_count(doc, doc.len());
    lemma_doc_contents_middle(a, seq![doc[b]], c);
    lemma_doc_contents_one(doc[b]);
    lemma_spot_place(doc, t);
}

/// A removed empty list leaves each target at its position, with its kind.
pub proof fn lemma_removal_place(doc: Seq<Piece>, at: int, t: Spot)
    requires
        0 <= at < doc.len(),
        is_empty_list(doc[at]),
        valid_spot(doc, t),
    ensures
        place(doc.remove(at), spot_after_removal(t, at)) == place(doc, t),
        kind_at(doc.remove(at), spot_after_removal(t, at)) == kind_at(doc, t),
{
    reveal(place);
    let b = block_of(t);
    let next = doc.remove(at);
    if b > at {
        let a = doc.take(at);
        let c = doc.subrange(at + 1, b);
        assert(doc.take(b) =~= a + seq![doc[at]] + c);
        assert(next.take(b - 1) =~= a + Seq::<Piece>::empty() + c);
        lemma_doc_contents_middle(a, seq![doc[at]], c);
        lemma_doc_contents_middle(a, Seq::<Piece>::empty(), c);
        lemma_empty_list_contents(doc[at]);
        assert(next[b - 1] == doc[b]);
    } else {
        assert(next.take(b) =~= doc.take(b));
        assert(next[b] == doc[b]);
    }
}

/// A merge leaves each target at its position, with its kind.
pub proof fn lemma_merge_place(doc: Seq<Piece>, at: int, t: Spot)
    requires
        0 <= at < doc.len() - 1,
        mergeable(doc[at], doc[at + 1]),
        valid_spot(doc, t),
    ensures
        place(merged_at(doc, at), spot_after_merge(t, at, doc[at]->List_1.len() as int)) == place(
            doc,
            t,
        ),
        kind_at(merged_at(doc, at), spot_after_merge(t, at, doc[at]->List_1.len() as int))
            == kind_at(doc, t),
{
    reveal(place);
    let b = block_of(t);
    let next = merged_at(doc, at);
    let a = doc.take(at);
    if b > at + 1 {
        let c = doc.subrange(at + 2, b);
        let pair = seq![doc[at]] + seq![doc[at + 1]];
        let one = seq![merge(doc[at], doc[at + 1])];
        assert(doc.take(b) =~= a + pair + c);
        assert(next.take(b - 1) =~= a + one + c);
        lemma_doc_contents_middle(a, pair, c);
        lemma_doc_contents_middle(a, one, c);
        lemma_merge_contents(doc[at], doc[at + 1]);
        assert(next[b - 1] == doc[b]);
    } else if b == at + 1 {
        assert(doc.take(b) =~= a + seq![doc[at]]);
        assert(next.take(at) =~= a);
        lemma_doc_contents_add(a, seq![doc[at]]);
        lemma_doc_contents_one(doc[at]);
        assert(next[at] == merge(doc[at], doc[at + 1]));
    } else {
        assert(next.take(b) =~= doc.take(b));
    }
}

/// Tidying leaves each target at its position, with its kind.
pub proof fn lemma_follow_place(doc: Seq<Piece>, at: int, t: Spot)
    requires
        0 <= at,
        valid_spot(doc, t),
    ensures
        place(tidy_from(doc, at), follow_from(doc, at, t)) == place(doc, t),
        kind_at(tidy_from(doc, at), follow_from(doc, at, t)) == kind_at(doc, t),
    decreases doc.len() - at,
{
    if at >= doc.len() {
    } else if is_empty_list(doc[at]) {
        lemma_removal_keeps(doc, at, t);
        lemma_removal_place(doc, at, t);
        lemma_follow_place(doc.remove(at), at, spot_after_removal(t, at));
    } else if at + 1 < doc.len() && mergeable(doc[at], doc[at + 1]) {
        let n = doc[at]->List_1.len() as int;
        lemma_merge_keeps(doc, at, t);
        lemma_merge_place(doc, at, t);
        lemma_follow_place(merged_at(doc, at), at, spot_after_merge(t, at, n));
    } else {
        lemma_follow_place(doc, at + 1, t);
    }
}

/// A conversion gives back the target at the position of the converted one, and it has
/// the kind that was asked for.
pub proof fn law_conversion_stays_in_place(doc: Seq<Piece>, t: Spot, kind: TargetKind)
    requires
        editable(doc),
        valid_spot(doc, t),
    ensures
        valid_spot(converted(doc, t, kind).0, converted(doc, t, kind).1),
        spot_index(spots(converted(doc, t, kind).0), converted(doc, t, kind).1) == spot_index(
            spots(doc),
            t,
        ),
        kind_at(converted(doc, t, kind).0, converted(doc, t, kind).1) == kind,
{
    reveal(place);
    lemma_converted(doc, t, kind);
    lemma_spot_place(doc, t);
    lemma_spot_place(converted(doc, t, kind).0, converted(doc, t, kind).1);
    if !conversion_idle(doc, t, kind) {
        let (raw, u) = converted_raw(doc, t, kind);
        lemma_converted_raw(doc, t, kind);
        lemma_follow_place(raw, 0, u);
        lemma_piece_of_kind(kind, content_runs(content_at(doc, t)));
        match t {
            Spot::Block(b) => {
                assert(raw.take(b) =~= doc.take(b));
            },
            Spot::Item(b, i) => {
                let items = doc[b]->List_1;
                let front = list_part(doc[b]->List_0, items.take(i));
                let parts = split_list(doc[b], i, kind);
                assert(parts[front.len() as int] == piece_of_kind(kind, items[i]));
                assert(raw[b + front.len()] == parts[front.len() as int]);
                assert(raw.take(b + front.len()) =~= doc.take(b) + front);
                lemma_doc_contents_add(doc.take(b), front);
                lemma_list_part_contents(doc[b]->List_0, items.take(i));
            },
        }
    }
}

/// What a content becomes under a kind: code is its text alone, and any other kind keeps
/// the runs.
pub open spec fn content_of_kind(kind: TargetKind, c: Content) -> Content {
    match kind {
        TargetKind::Code => Content::Code(content_text(c)),
        _ => Content::Runs(content_runs(c)),
    }
}

/// A conversion changes the content at its target alone, as the kind asks for. All other
/// contents stay as they are, in the same order, with their styles and links.
pub proof fn law_conversion_changes_one_content(doc: Seq<Piece>, t: Spot, kind: TargetKind)
    requires
        editable(doc),
        valid_spot(doc, t),
    ensures
        doc_contents(converted(doc, t, kind).0) == doc_contents(doc).update(
            spot_index(spots(doc), t) as int,
            content_of_kind(kind, content_at(doc, t)),
        ),
{
    reveal(place);
    law_contents_stand_at_their_targets(doc, t);
    lemma_spot_place(doc, t);
    let b = block_of(t);
    let a = doc.take(b);
    let c = doc.skip(b + 1);
    let x = doc_contents(a);
    let y = piece_contents(doc[b]);
    let z = doc_contents(c);
    let p = spot_index(spots(doc), t) as int;
    let k = p - x.len();
    let runs = content_runs(content_at(doc, t));
    let new = content_of_kind(kind, content_at(doc, t));
    assert(doc =~= a + seq![doc[b]] + c);
    lemma_doc_contents_middle(a, seq![doc[b]], c);
    lemma_doc_contents_one(doc[b]);
    assert((x + y + z).update(p, new) =~= x + y.update(k, new) + z);
    if conversion_idle(doc, t, kind) {
        assert(y.update(k, new) =~= y);
    } else {
        let raw = converted_raw(doc, t, kind).0;
        lemma_tidy_contents(raw, 0);
        lemma_piece_of_kind(kind, runs);
        if content_at(doc, t) is Code {
            lemma_plain_runs_text(content_at(doc, t)->Code_0);
        }
        assert(content_of_kind(kind, Content::Runs(runs)) == new);
        let middle = seq![piece_of_kind(kind, runs)];
        match t {
            Spot::Block(_) => {
                assert(raw =~= a + middle + c);
                lemma_doc_contents_middle(a, middle, c);
                assert(y.update(k, new) =~= seq![new]);
            },
            Spot::Item(_, i) => {
                let items = doc[b]->List_1;
                let front = list_part(doc[b]->List_0, items.take(i));
                let back = list_part(doc[b]->List_0, items.skip(i + 1));
                lemma_doc_contents_middle(a, split_list(doc[b], i, kind), c);
                lemma_doc_contents_middle(front, middle, back);
                lemma_list_part_contents(doc[b]->List_0, items.take(i));
                lemma_list_part_contents(doc[b]->List_0, items.skip(i + 1));
                assert(doc_contents(front) + seq![new] + doc_contents(back) =~= y.update(k, new));
            },
        }
    }
}

/// A conversion moves no text and changes none: the texts of all targets are the same
/// as before, in the same order.
pub proof fn law_conversion_keeps_texts(doc: Seq<Piece>, t: Spot, kind: TargetKind)
    requires
        editable(doc),
        valid_spot(doc, t),
    ensures
        doc_texts(converted(doc, t, kind).0) == doc_texts(doc),
{
    law_conversion_changes_one_content(doc, t, kind);
    law_contents_stand_at_their_targets(doc, t);
    if content_at(doc, t) is Code {
        lemma_plain_runs_text(content_at(doc, t)->Code_0);
    }
    assert(doc_texts(converted(doc, t, kind).0) =~= doc_texts(doc));
}

/// A conversion gives back a target with the text that the converted one had.
pub proof fn law_conversion_follows_its_text(doc: Seq<Piece>, t: Spot, kind: TargetKind)
    requires
        editable(doc),
        valid_spot(doc, t),
    ensures
        valid_spot(converted(doc, t, kind).0, converted(doc, t, kind).1),
        text_at(converted(doc, t, kind).0, converted(doc, t, kind).1) == text_at(doc, t),
{
    law_conversion_stays_in_place(doc, t, kind);
    law_conversion_keeps_texts(doc, t, kind);
    law_contents_stand_at_their_targets(doc, t);
    law_contents_stand_at_their_targets(converted(doc, t, kind).0, converted(doc, t, kind).1);
    let p = spot_index(spots(doc), t) as int;
    assert(doc_texts(converted(doc, t, kind).0)[p] == doc_texts(doc)[p]);
}

/// A conversion that changes something leaves no two neighbouring lists of one kind.
pub proof fn law_conversion_joins_lists(doc: Seq<Piece>, t: Spot, kind: TargetKind)
    requires
        editable(doc),
        valid_spot(doc, t),
        !conversion_idle(doc, t, kind),
    ensures
        settled_upto(converted(doc, t, kind).0, converted(doc, t, kind).0.len() as int),
{
    lemma_converted_raw(doc, t, kind);
    lemma_tidy_from(converted_raw(doc, t, kind).0, 0);
}

/// A deletion leaves an editable document without neighbouring lists of one kind.
pub proof fn law_deletion_joins_lists(doc: Seq<Piece>, t: Spot)
    requires
        editable(doc),
        valid_spot(doc, t),
    ensures
        editable(deleted(doc, t)),
        settled_upto(deleted(doc, t), deleted(doc, t).len() as int),
{
    lemma_deleted(doc, t);
    lemma_tidy_from(with_a_line(without_spot(doc, t)), 0);
}

/// The contents of a document without a target are those of the document but one.
pub proof fn lemma_without_spot_contents(doc: Seq<Piece>, t: Spot)
    requires
        editable(doc),
        valid_spot(doc, t),
    ensures
        spot_index(spots(doc), t) < doc_contents(doc).len(),
        doc_contents(without_spot(doc, t)) == doc_contents(doc).remove(spot_index(spots(doc), t) as int),
{
    reveal(place);
    let b = block_of(t);
    let a = doc.take(b);
    let c = doc.skip(b + 1);
    let part = if t is Block || doc[b]->List_1.len() == 1 {
        Seq::<Piece>::empty()
    } else {
        seq![Piece::List(doc[b]->List_0, doc[b]->List_1.remove(t->Item_1))]
    };
    assert(doc =~= a + seq![doc[b]] + c);
    assert(without_spot(doc, t) =~= a + part + c);
    lemma_doc_contents_middle(a, seq![doc[b]], c);
    lemma_doc_contents_middle(a, part, c);
    lemma_doc_contents_one(doc[b]);
    if part.len() > 0 {
        lemma_doc_contents_one(part[0]);
    }
    lemma_spot_place(doc, t);
    let p = spot_index(spots(doc), t) as int;
    let x = doc_contents(a);
    let y = piece_contents(doc[b]);
    let z = doc_contents(c);
    let k = p - x.len();
    assert(doc_contents(part) =~= y.remove(k));
    assert((x + y + z).remove(p) =~= x + y.remove(k) + z);
}

/// A deletion takes away the content of its target and no other; what remains stays as it
/// is, in order. Where nothing would remain, one empty line does.
pub proof fn law_deletion_takes_one_content(doc: Seq<Piece>, t: Spot)
    requires
        editable(doc),
        valid_spot(doc, t),
    ensures
        doc_contents(deleted(doc, t)) == if doc_contents(doc).len() == 1 {
            seq![Content::Runs(Seq::<Run>::empty())]
        } else {
            doc_contents(doc).remove(spot_index(spots(doc), t) as int)
        },
{
    let rest = without_spot(doc, t);
    lemma_deleted(doc, t);
    lemma_tidy_contents(with_a_line(rest), 0);
    lemma_without_spot_contents(doc, t);
    if rest.len() == 0 {
        lemma_doc_contents_one(crate::editor::blank_line());
        assert(doc_contents(rest).len() == 0);
    } else {
        lemma_contents_nonempty(rest);
    }
}

/// A deletion takes away the text of its target and no other; what remains keeps its
/// order. Where nothing would remain, one empty text does.
pub proof fn law_deletion_takes_one_text(doc: Seq<Piece>, t: Spot)
    requires
        editable(doc),
        valid_spot(doc, t),
    ensures
        doc_texts(deleted(doc, t)) == if doc_texts(doc).len() == 1 {
            seq![Seq::<char>::empty()]
        } else {
            doc_texts(doc).remove(spot_index(spots(doc), t) as int)
        },
{
    law_deletion_takes_one_content(doc, t);
    law_contents_stand_at_their_targets(doc, t);
    if doc_texts(doc).len() == 1 {
        assert(runs_text(Seq::<Run>::empty()) =~= Seq::<char>::empty());
        assert(doc_texts(deleted(doc, t)) =~= seq![Seq::<char>::empty()]);
    } else {
        let p = spot_index(spots(doc), t) as int;
        assert(doc_texts(deleted(doc, t)) =~= doc_texts(doc).remove(p));
    }
}

pub proof fn lemma_contents_nonempty(doc: Seq<Piece>)
    requires
        editable(doc),
    ensures
        doc_contents(doc).len() > 0,
{
    assert(doc[doc.len() - 1] == doc.last());
}

/// What is typed at the cursor is taken back by a backspace: the text and the cursor
/// are as before.
pub proof fn law_type_then_backspace(doc: Seq<Piece>, t: Spot, cursor: nat, ch: char)
    requires
        editable(doc),
        valid_spot(doc, t),
        cursor <= text_at(doc, t).len(),
    ensures
        ({
            let typed = with_content(doc, t, content_insert(content_at(doc, t), cursor, ch));
            let back = with_content(typed, t, content_delete(content_at(typed, t), cursor));
            &&& text_at(typed, t) == text_at(doc, t).insert(cursor as int, ch)
            &&& clamp(cursor + 1, text_at(typed, t).len()) - 1 == cursor
            &&& text_at(back, t) == text_at(doc, t)
        }),
{
    let c = content_at(doc, t);
    let typed = with_content(doc, t, content_insert(c, cursor, ch));
    crate::editor::lemma_with_content(doc, t, content_insert(c, cursor, ch));
    lemma_content_insert_text(c, cursor, ch);
    let d = content_delete(content_at(typed, t), cursor);
    crate::editor::lemma_with_content(typed, t, d);
    lemma_content_delete_text(content_at(typed, t), cursor);
    assert(text_at(doc, t).insert(cursor as int, ch).remove(cursor as int) =~= text_at(doc, t));
}

/// Editing at one target leaves the content of every other target as it is.
pub proof fn law_edits_are_isolated(doc: Seq<Piece>, t: Spot, content: Content, other: Spot)
    requires
        valid_spot(doc, t),
        valid_spot(doc, other),
        content is Runs <==> content_at(doc, t) is Runs,
        other != t,
    ensures
        valid_spot(with_content(doc, t, content), other),
        content_at(with_content(doc, t, content), other) == content_at(doc, other),
{
}

/// A style that is put on and taken off again leaves the line as it was, and so does
/// one that is taken off and put on; the one exception is a line that carries the
/// style twice over.
pub proof fn law_toggle_twice(runs: Seq<Run>, mark: Mark)
    requires
        !(runs.len() == 1 && runs[0] is Styled && runs[0]->Styled_0 == mark
            && runs[0]->Styled_1.len() == 1 && runs[0]->Styled_1[0] is Styled
            && runs[0]->Styled_1[0]->Styled_0 == mark),
    ensures
        toggled(toggled(runs, mark), mark) == runs,
{
    assert(toggled(toggled(runs, mark), mark) =~= runs);
}

/// Neither a style nor a link changes the text of a line.
pub proof fn law_styles_keep_text(runs: Seq<Run>, mark: Mark, href: Seq<char>)
    ensures
        runs_text(toggled(runs, mark)) == runs_text(runs),
        runs_text(seq![Run::Link(runs, href)]) == runs_text(runs),
{
    lemma_one_run_text(Run::Link(runs, href));
    if runs.len() == 1 {
        lemma_one_run_text(runs[0]);
        assert(runs =~= seq![runs[0]]);
    }
    lemma_one_run_text(Run::Styled(mark, runs));
}

pub proof fn lemma_one_run_text(r: Run)
    ensures
        runs_text(seq![r]) == crate::document::run_text(r),
{
    reveal_with_fuel(runs_text, 2);
    assert(seq![r].drop_first() =~= Seq::<Run>::empty());
    assert(crate::document::run_text(r) + Seq::<char>::empty() =~= crate::document::run_text(r));
}

/// Stepping forward from a target that has one behind it, and back, returns to it.
pub proof fn law_next_then_previous(doc: Seq<Piece>, t: Spot)
    requires
        valid_spot(doc, t),
        spot_index(spots(doc), t) + 1 < spots(doc).len(),
    ensures
        next_spot(doc, t) != t,
        previous_spot(doc, next_spot(doc, t)) == t,
{
    let all = spots(doc);
    let p = spot_index(all, t) as int;
    lemma_spot_index(all, t);
    let n = next_spot(doc, t);
    assert(n == all[p + 1]);
    assert(all.contains(n));
    lemma_spots(doc, n);
    lemma_spots_distinct(doc, p, p + 1);
    lemma_spot_index(all, n);
    let q = spot_index(all, n) as int;
    if q != p + 1 {
        lemma_spots_distinct(doc, q, p + 1);
    }
}

/// No target occurs twice.
pub proof fn lemma_spots_distinct(doc: Seq<Piece>, i: int, j: int)
    requires
        0 <= i < spots(doc).len(),
        0 <= j < spots(doc).len(),
        i != j,
    ensures
        spots(doc)[i] != spots(doc)[j],
{
    lemma_spots_distinct_upto(doc, doc.len(), i, j);
}

pub proof fn lemma_spots_distinct_upto(doc: Seq<Piece>, n: nat, i: int, j: int)
    requires
        n <= doc.len(),
        0 <= i < spots_upto(doc, n).len(),
        0 <= j < spots_upto(doc, n).len(),
        i != j,
    ensures
        spots_upto(doc, n)[i] != spots_upto(doc, n)[j],
    decreases n,
{
    let m = (n - 1) as nat;
    let a = spots_upto(doc, m);
    let c = piece_spots(doc[m as int], m as int);
    let s = a + c;
    if i < a.len() && j < a.len() {
        lemma_spots_distinct_upto(doc, m, i, j);
    } else if i < a.len() {
        lemma_spots_upto(doc, m, s[i]);
        assert(a.contains(a[i]));
    } else if j < a.len() {
        lemma_spots_upto(doc, m, s[j]);
        assert(a.contains(a[j]));
    }
}

} // verus!
