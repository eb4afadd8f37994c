//! What the keys of the editor do to the edit, in terms of its texts and its cursor.

use vstd::prelude::*;

use crate::document::{ListKind, Piece, Run};
use crate::edit::{
    can_style, cursor_at_edge, cursor_stepped, cursor_text, document_lines, field_switched,
    line_added, linked, rubbed_out, scrolled, struck_out, styled, target_converted, target_line,
    target_mark, target_removed, target_stepped, target_there, typed, typed_char, typed_chars,
    viewport_limit, EditModel,
};
use crate::editor::{
    blank_line, clamp, content_at, content_delete, content_insert, conversion_idle, converted,
    converted_raw, deleted, editable, is_empty_list, lemma_content_delete_text,
    lemma_content_insert_text, lemma_deleted, lemma_spot_index, lemma_spots, lemma_spots_nonempty,
    lemma_with_content, list_part, merge, mergeable, merged_at, piece_of_kind, spot_index, spots,
    style_mark, text_at, tidy_from, toggled, valid_spot, with_a_line, without_spot, split_list,
    Content, InlineStyle, Spot, TargetKind,
};
use crate::editor_laws::{
    block_of, doc_contents, kind_at, kind_of, law_contents_stand_at_their_targets,
    law_conversion_stays_in_place, lemma_doc_contents_add, lemma_doc_contents_middle,
    lemma_doc_contents_one, lemma_spot_place, lemma_spots_distinct, piece_contents, place,
};
use crate::rich_text_laws::{
    glyphs_at, law_deleting_at_a_target, law_runs_are_put_at_one_target, law_style_covers_the_line,
    law_link_covers_the_line, law_typing_at_a_target, wholly_in, wrapped, Wrap,
};
use crate::text;

verus! {

// ---------------------------------------------------------------------------
// Typing and deleting
// ---------------------------------------------------------------------------

/// Whether the cursor stands in its text, in an edit that can be edited.
pub open spec fn cursor_stands(e: EditModel) -> bool {
    editable(e.document) && target_there(e) && e.cursor <= cursor_text(e).len() < usize::MAX
}

/// Whether an edit tells that it has changes just where its title or its body is not what
/// it was opened with.
pub open spec fn changes_told(e: EditModel) -> bool {
    e.dirty <==> (e.title != e.original_title || e.document != e.original)
}

/// Whether an edit differs from another in its texts and its cursor at most, and in the
/// field alone that the cursor is in.
pub open spec fn only_text_differs(e: EditModel, n: EditModel) -> bool {
    &&& n == (EditModel {
        title: n.title,
        document: n.document,
        cursor: n.cursor,
        dirty: n.dirty,
        ..e
    })
    &&& e.field is Body ==> n.title == e.title
    &&& e.field is Title ==> n.document == e.document
}

/// A character that is typed stands at the cursor, and the cursor behind it. Every other
/// character of the text stays where it was, with its styles and links.
pub proof fn law_typed_character_stands_at_the_cursor(e: EditModel, ch: char)
    requires
        cursor_stands(e),
    ensures
        ({
            let n = typed(e, seq![ch]);
            &&& cursor_text(n) == cursor_text(e).insert(e.cursor as int, ch)
            &&& n.cursor == e.cursor + 1
            &&& only_text_differs(e, n)
            &&& changes_told(n)
            &&& e.field is Body ==> glyphs_at(n.document, e.target).remove(e.cursor as int)
                == glyphs_at(e.document, e.target)
        }),
{
    let s = seq![ch];
    assert(s.drop_last() =~= Seq::<char>::empty());
    assert(typed_chars(e, s.drop_last()) == e);
    assert(typed_chars(e, s) == typed_char(e, ch));
    if e.field is Body {
        let c = content_at(e.document, e.target);
        let at = e.cursor as nat;
        law_typing_at_a_target(e.document, e.target, at, ch);
        lemma_content_insert_text(c, at, ch);
        lemma_with_content(e.document, e.target, content_insert(c, at, ch));
    }
}

/// A backspace takes away the character before the cursor and no other, and the cursor
/// steps back. At the start of the text it does nothing.
pub proof fn law_backspace_takes_the_character_before(e: EditModel)
    requires
        cursor_stands(e),
    ensures
        e.cursor == 0 ==> rubbed_out(e) == e,
        e.cursor > 0 ==> ({
            let n = rubbed_out(e);
            &&& cursor_text(n) == cursor_text(e).remove(e.cursor - 1)
            &&& n.cursor == e.cursor - 1
            &&& only_text_differs(e, n)
            &&& changes_told(n)
            &&& e.field is Body ==> glyphs_at(n.document, e.target) == glyphs_at(
                e.document,
                e.target,
            ).remove(e.cursor - 1)
        }),
{
    if e.field is Body && e.cursor > 0 {
        let c = content_at(e.document, e.target);
        let at = (e.cursor - 1) as nat;
        law_deleting_at_a_target(e.document, e.target, at);
        lemma_content_delete_text(c, at);
        lemma_with_content(e.document, e.target, content_delete(c, at));
    }
}

/// Delete takes away the character at the cursor and no other, and the cursor stays. At
/// the end of the text it does nothing.
pub proof fn law_delete_takes_the_character_at_the_cursor(e: EditModel)
    requires
        cursor_stands(e),
    ensures
        e.cursor == cursor_text(e).len() ==> struck_out(e) == e,
        e.cursor < cursor_text(e).len() ==> ({
            let n = struck_out(e);
            &&& cursor_text(n) == cursor_text(e).remove(e.cursor as int)
            &&& n.cursor == e.cursor
            &&& only_text_differs(e, n)
            &&& changes_told(n)
            &&& e.field is Body ==> glyphs_at(n.document, e.target) == glyphs_at(
                e.document,
                e.target,
            ).remove(e.cursor as int)
        }),
{
    if e.field is Body && e.cursor < cursor_text(e).len() {
        let c = content_at(e.document, e.target);
        let at = e.cursor as nat;
        law_deleting_at_a_target(e.document, e.target, at);
        lemma_content_delete_text(c, at);
        lemma_with_content(e.document, e.target, content_delete(c, at));
    }
}

// ---------------------------------------------------------------------------
// The cursor
// ---------------------------------------------------------------------------

/// The cursor steps by one character and stays in its text; a step on and a step back
/// undo each other, but at the ends. Nothing else changes.
pub proof fn law_cursor_steps_within_its_text(e: EditModel)
    requires
        cursor_stands(e),
    ensures
        cursor_stepped(e, false) == (EditModel { cursor: cursor_stepped(e, false).cursor, ..e }),
        cursor_stepped(e, true) == (EditModel { cursor: cursor_stepped(e, true).cursor, ..e }),
        e.cursor < cursor_text(e).len() ==> cursor_stepped(e, false).cursor == e.cursor + 1
            && cursor_stepped(cursor_stepped(e, false), true) == e,
        e.cursor > 0 ==> cursor_stepped(e, true).cursor == e.cursor - 1 && cursor_stepped(
            cursor_stepped(e, true),
            false,
        ) == e,
        e.cursor == cursor_text(e).len() ==> cursor_stepped(e, false) == e,
        e.cursor == 0 ==> cursor_stepped(e, true) == e,
{
}

/// The cursor goes to the start of its text, or behind its last character. Nothing else
/// changes.
pub proof fn law_cursor_goes_to_the_edge(e: EditModel)
    requires
        cursor_stands(e),
    ensures
        cursor_at_edge(e, false) == (EditModel { cursor: 0, ..e }),
        cursor_at_edge(e, true).cursor == cursor_text(e).len(),
        cursor_at_edge(e, true) == (EditModel { cursor: cursor_at_edge(e, true).cursor, ..e }),
{
}

/// Switching goes between the title and the body, to the end of the text there. Nothing
/// else changes, and switching twice comes back to the field.
pub proof fn law_switching_goes_to_the_other_field(e: EditModel)
    requires
        valid_spot(e.document, e.target),
        e.title.len() <= usize::MAX,
        text_at(e.document, e.target).len() <= usize::MAX,
    ensures
        e.field is Title ==> field_switched(e).field is Body && field_switched(e).cursor == text_at(
            e.document,
            e.target,
        ).len(),
        e.field is Body ==> field_switched(e).field is Title && field_switched(e).cursor
            == e.title.len(),
        field_switched(e) == (EditModel {
            field: field_switched(e).field,
            cursor: field_switched(e).cursor,
            ..e
        }),
        field_switched(field_switched(e)).field == e.field,
{
}

/// Stepping between targets goes to the next one in the order of the document, or the one
/// before, and stays at the ends. The cursor stays where it is, or at the end of a
/// shorter text. Nothing else changes.
pub proof fn law_targets_are_stepped_through_in_order(e: EditModel, back: bool)
    requires
        e.field is Body,
        valid_spot(e.document, e.target),
    ensures
        ({
            let n = target_stepped(e, back);
            let all = spots(e.document);
            let p = spot_index(all, e.target) as int;
            let q = spot_index(all, n.target) as int;
            &&& valid_spot(e.document, n.target)
            &&& q == if back {
                if p > 0 {
                    p - 1
                } else {
                    0
                }
            } else {
                if p + 1 < all.len() {
                    p + 1
                } else {
                    p
                }
            }
            &&& n == (EditModel { target: n.target, cursor: n.cursor, ..e })
            &&& e.cursor <= text_at(e.document, n.target).len() ==> n.cursor == e.cursor
            &&& e.cursor > text_at(e.document, n.target).len() ==> n.cursor == text_at(
                e.document,
                n.target,
            ).len()
        }),
{
    let all = spots(e.document);
    lemma_spots(e.document, e.target);
    lemma_spot_index(all, e.target);
    let n = target_stepped(e, back);
    let p = spot_index(all, e.target) as int;
    let want = if back {
        if p > 0 {
            p - 1
        } else {
            0
        }
    } else {
        if p + 1 < all.len() {
            p + 1
        } else {
            p
        }
    };
    assert(n.target == all[want]);
    assert(all.contains(n.target));
    lemma_spots(e.document, n.target);
    lemma_spot_index(all, n.target);
    let q = spot_index(all, n.target) as int;
    if q != want {
        lemma_spots_distinct(e.document, q, want);
    }
}

/// In the title there is no target to step from.
pub proof fn law_the_title_has_no_targets(e: EditModel, back: bool, style: InlineStyle)
    requires
        e.field is Title,
    ensures
        target_stepped(e, back) == e,
        target_removed(e) == e,
        styled(e, style) == e,
{
}

// ---------------------------------------------------------------------------
// Lines
// ---------------------------------------------------------------------------

/// An added line is empty and stands right behind the current one; all others stay as they
/// are, in order. An item of a list is followed by an item of the same list, any other
/// line by a paragraph. The cursor is at the start of the new line.
pub proof fn law_added_line_follows_the_current_one(e: EditModel)
    requires
        editable(e.document),
        valid_spot(e.document, e.target),
    ensures
        ({
            let n = line_added(e);
            let p = spot_index(spots(e.document), e.target) as int;
            &&& doc_contents(n.document) == doc_contents(e.document).insert(
                p + 1,
                Content::Runs(seq![]),
            )
            &&& valid_spot(n.document, n.target)
            &&& spot_index(spots(n.document), n.target) == p + 1
            &&& kind_at(n.document, n.target) == if e.target is Item {
                kind_at(e.document, e.target)
            } else {
                TargetKind::Paragraph
            }
            &&& n.cursor == 0
            &&& n == (EditModel {
                document: n.document,
                target: n.target,
                cursor: n.cursor,
                dirty: n.dirty,
                ..e
            })
            &&& changes_told(n)
        }),
{
    reveal(place);
    let doc = e.document;
    let t = e.target;
    let n = line_added(e);
    let b = block_of(t);
    let a = doc.take(b);
    let c = doc.skip(b + 1);
    lemma_spot_place(doc, t);
    lemma_spot_place(n.document, n.target);
    assert(doc =~= a + seq![doc[b]] + c);
    lemma_doc_contents_middle(a, seq![doc[b]], c);
    lemma_doc_contents_one(doc[b]);
    let x = doc_contents(a);
    let y = piece_contents(doc[b]);
    let z = doc_contents(c);
    let p = spot_index(spots(doc), t) as int;
    let k = p - x.len();
    let new = Content::Runs(Seq::<Run>::empty());
    assert((x + y + z).insert(p + 1, new) =~= x + y.insert(k + 1, new) + z);
    match t {
        Spot::Block(_) => {
            let part = seq![doc[b]] + seq![blank_line()];
            assert(n.document =~= a + part + c);
            lemma_doc_contents_middle(a, part, c);
            lemma_doc_contents_add(seq![doc[b]], seq![blank_line()]);
            lemma_doc_contents_one(blank_line());
            assert(piece_contents(blank_line()) =~= seq![new]);
            assert(y + seq![new] =~= y.insert(k + 1, new));
            assert(n.document.take(b + 1) =~= a + seq![doc[b]]);
            lemma_doc_contents_add(a, seq![doc[b]]);
        },
        Spot::Item(_, i) => {
            let list = Piece::List(doc[b]->List_0, doc[b]->List_1.insert(i + 1, seq![]));
            assert(n.document =~= a + seq![list] + c);
            lemma_doc_contents_middle(a, seq![list], c);
            lemma_doc_contents_one(list);
            assert(piece_contents(list) =~= y.insert(k + 1, new));
            assert(n.document.take(b) =~= a);
        },
    }
}

/// A removed line leaves the one behind it as the current one, or the last one where none
/// is behind it. What remains of the edit stays as it is.
pub proof fn law_removed_line_gives_way_to_the_next(e: EditModel)
    requires
        e.field is Body,
        editable(e.document),
        valid_spot(e.document, e.target),
    ensures
        ({
            let n = target_removed(e);
            let p = spot_index(spots(e.document), e.target) as int;
            let left = spots(n.document).len();
            &&& n.document == deleted(e.document, e.target)
            &&& valid_spot(n.document, n.target)
            &&& spot_index(spots(n.document), n.target) == if p < left {
                p
            } else {
                left - 1
            }
            &&& n.cursor == clamp(e.cursor as nat, text_at(n.document, n.target).len())
            &&& n == (EditModel {
                document: n.document,
                target: n.target,
                cursor: n.cursor,
                dirty: n.dirty,
                ..e
            })
            &&& changes_told(n)
        }),
{
    let n = target_removed(e);
    lemma_deleted(e.document, e.target);
    let all = spots(n.document);
    let p = spot_index(spots(e.document), e.target) as int;
    lemma_spots_nonempty(n.document);
    let want = if p < all.len() {
        p
    } else {
        all.len() - 1
    };
    assert(n.target == all[want]);
    assert(all.contains(n.target));
    lemma_spot_index(all, n.target);
    let q = spot_index(all, n.target) as int;
    if q != want {
        lemma_spots_distinct(n.document, q, want);
    }
}

/// A style goes on every character of the current line, or off every one where the whole
/// line has it; no other line changes, and no text.
pub proof fn law_style_changes_the_current_line(e: EditModel, style: InlineStyle)
    requires
        e.field is Body,
        editable(e.document),
        can_style(e.document, e.target),
    ensures
        ({
            let n = styled(e, style);
            let mark = style_mark(style);
            let runs = content_at(e.document, e.target)->Runs_0;
            &&& n == (EditModel { document: n.document, dirty: n.dirty, ..e })
            &&& changes_told(n)
            &&& n.document.len() == e.document.len()
            &&& kind_at(n.document, e.target) == kind_at(e.document, e.target)
            &&& !wholly_in(runs, mark) ==> glyphs_at(n.document, e.target) == wrapped(
                Wrap::Style(mark),
                glyphs_at(e.document, e.target),
            )
            &&& wholly_in(runs, mark) ==> glyphs_at(e.document, e.target) == wrapped(
                Wrap::Style(mark),
                glyphs_at(n.document, e.target),
            )
            &&& forall|other: Spot|
                #![trigger content_at(n.document, other)]
                other != e.target && valid_spot(e.document, other) ==> content_at(n.document, other)
                    == content_at(e.document, other)
        }),
{
    let runs = content_at(e.document, e.target)->Runs_0;
    let mark = style_mark(style);
    law_runs_are_put_at_one_target(e.document, e.target, toggled(runs, mark));
    law_style_covers_the_line(runs, mark);
}

/// A link goes on every character of its line; no other line changes, and no text.
pub proof fn law_link_changes_its_line(e: EditModel, t: Spot, url: Seq<char>)
    requires
        editable(e.document),
        can_style(e.document, t),
    ensures
        ({
            let n = linked(e, t, url);
            &&& n == (EditModel { document: n.document, dirty: n.dirty, ..e })
            &&& changes_told(n)
            &&& n.document.len() == e.document.len()
            &&& kind_at(n.document, t) == kind_at(e.document, t)
            &&& glyphs_at(n.document, t) == wrapped(Wrap::Link(url), glyphs_at(e.document, t))
            &&& forall|other: Spot|
                #![trigger content_at(n.document, other)]
                other != t && valid_spot(e.document, other) ==> content_at(n.document, other)
                    == content_at(e.document, other)
        }),
{
    let runs = content_at(e.document, t)->Runs_0;
    law_runs_are_put_at_one_target(e.document, t, seq![Run::Link(runs, url)]);
    law_link_covers_the_line(runs, url);
}

/// A conversion in the editor makes the current line the kind that was asked for, in its
/// place, with the cursor where it was or at the end of the text.
pub proof fn law_conversion_stays_at_the_current_line(e: EditModel, kind: TargetKind)
    requires
        editable(e.document),
        valid_spot(e.document, e.target),
    ensures
        ({
            let n = target_converted(e, kind);
            &&& valid_spot(n.document, n.target)
            &&& spot_index(spots(n.document), n.target) == spot_index(spots(e.document), e.target)
            &&& kind_at(n.document, n.target) == kind
            &&& n.cursor == clamp(e.cursor as nat, text_at(n.document, n.target).len())
            &&& n == (EditModel {
                document: n.document,
                target: n.target,
                cursor: n.cursor,
                dirty: n.dirty,
                ..e
            })
            &&& changes_told(n)
        }),
{
    law_conversion_stays_in_place(e.document, e.target, kind);
}

// ---------------------------------------------------------------------------
// Kinds
// ---------------------------------------------------------------------------

/// The kinds of a document, target by target.
pub open spec fn doc_kinds(doc: Seq<Piece>) -> Seq<TargetKind>
    decreases doc.len(),
{
    if doc.len() == 0 {
        seq![]
    } else {
        doc_kinds(doc.drop_last()) + piece_kinds(doc.last())
    }
}

/// The kinds of the targets of a block.
pub open spec fn piece_kinds(p: Piece) -> Seq<TargetKind> {
    Seq::new(piece_contents(p).len(), |i: int| kind_of(p))
}

proof fn lemma_kinds_add(a: Seq<Piece>, b: Seq<Piece>)
    ensures
        doc_kinds(a + b) == doc_kinds(a) + doc_kinds(b),
    decreases b.len(),
{
    if b.len() == 0 {
        assert(a + b =~= a);
        assert(doc_kinds(a) + doc_kinds(b) =~= doc_kinds(a));
    } else {
        lemma_kinds_add(a, b.drop_last());
        assert((a + b).drop_last() =~= a + b.drop_last());
        assert((a + b).last() == b.last());
        assert(doc_kinds(a) + doc_kinds(b.drop_last()) + piece_kinds(b.last()) =~= doc_kinds(a) + (
        doc_kinds(b.drop_last()) + piece_kinds(b.last())));
    }
}

proof fn lemma_kinds_one(p: Piece)
    ensures
        doc_kinds(seq![p]) == piece_kinds(p),
{
    reveal_with_fuel(doc_kinds, 2);
    assert(seq![p].drop_last() =~= Seq::<Piece>::empty());
    assert(Seq::<TargetKind>::empty() + piece_kinds(p) =~= piece_kinds(p));
}

proof fn lemma_kinds_middle(a: Seq<Piece>, part: Seq<Piece>, c: Seq<Piece>)
    ensures
        doc_kinds(a + part + c) == doc_kinds(a) + doc_kinds(part) + doc_kinds(c),
{
    lemma_kinds_add(a + part, c);
    lemma_kinds_add(a, part);
}

proof fn lemma_kinds_count(doc: Seq<Piece>)
    ensures
        doc_kinds(doc).len() == doc_contents(doc).len(),
    decreases doc.len(),
{
    if doc.len() > 0 {
        lemma_kinds_count(doc.drop_last());
    }
}

proof fn lemma_tidy_kinds(doc: Seq<Piece>, at: int)
    requires
        0 <= at,
    ensures
        doc_kinds(tidy_from(doc, at)) == doc_kinds(doc),
    decreases doc.len() - at,
{
    if at >= doc.len() {
    } else if is_empty_list(doc[at]) {
        lemma_tidy_kinds(doc.remove(at), at);
        let a = doc.take(at);
        let c = doc.skip(at + 1);
        assert(doc =~= a + seq![doc[at]] + c);
        assert(doc.remove(at) =~= a + Seq::<Piece>::empty() + c);
        lemma_kinds_middle(a, seq![doc[at]], c);
        lemma_kinds_middle(a, Seq::<Piece>::empty(), c);
        lemma_kinds_one(doc[at]);
        assert(piece_kinds(doc[at]) =~= Seq::<TargetKind>::empty());
    } else if at + 1 < doc.len() && mergeable(doc[at], doc[at + 1]) {
        let next = merged_at(doc, at);
        lemma_tidy_kinds(next, at);
        let a = doc.take(at);
        let c = doc.skip(at + 2);
        let p = doc[at];
        let q = doc[at + 1];
        let pair = seq![p] + seq![q];
        let one = seq![merge(p, q)];
        assert(doc =~= a + pair + c);
        assert(next =~= a + one + c);
        lemma_kinds_middle(a, pair, c);
        lemma_kinds_middle(a, one, c);
        lemma_kinds_add(seq![p], seq![q]);
        lemma_kinds_one(p);
        lemma_kinds_one(q);
        lemma_kinds_one(merge(p, q));
        assert(piece_kinds(p) + piece_kinds(q) =~= piece_kinds(merge(p, q)));
    } else {
        lemma_tidy_kinds(doc, at + 1);
    }
}

/// The kinds of a document are those at its targets, in the order of the targets.
pub proof fn law_kinds_stand_at_their_targets(doc: Seq<Piece>, t: Spot)
    requires
        valid_spot(doc, t),
    ensures
        doc_kinds(doc).len() == spots(doc).len(),
        spot_index(spots(doc), t) < spots(doc).len(),
        doc_kinds(doc)[spot_index(spots(doc), t) as int] == kind_at(doc, t),
{
    reveal(place);
    law_contents_stand_at_their_targets(doc, t);
    lemma_spot_place(doc, t);
    lemma_kinds_count(doc);
    let b = block_of(t);
    let a = doc.take(b);
    let c = doc.skip(b + 1);
    assert(doc =~= a + seq![doc[b]] + c);
    lemma_kinds_middle(a, seq![doc[b]], c);
    lemma_kinds_one(doc[b]);
    lemma_kinds_count(a);
}

/// A conversion gives its target the kind that was asked for, and leaves every other
/// target its kind.
pub proof fn law_conversion_changes_one_kind(doc: Seq<Piece>, t: Spot, kind: TargetKind)
    requires
        editable(doc),
        valid_spot(doc, t),
    ensures
        doc_kinds(converted(doc, t, kind).0) == doc_kinds(doc).update(
            spot_index(spots(doc), t) as int,
            kind,
        ),
{
    reveal(place);
    law_kinds_stand_at_their_targets(doc, t);
    lemma_spot_place(doc, t);
    let b = block_of(t);
    let a = doc.take(b);
    let c = doc.skip(b + 1);
    lemma_kinds_count(a);
    assert(doc =~= a + seq![doc[b]] + c);
    lemma_kinds_middle(a, seq![doc[b]], c);
    lemma_kinds_one(doc[b]);
    let x = doc_kinds(a);
    let y = piece_kinds(doc[b]);
    let z = doc_kinds(c);
    let p = spot_index(spots(doc), t) as int;
    let k = p - x.len();
    assert((x + y + z).update(p, kind) =~= x + y.update(k, kind) + z);
    if conversion_idle(doc, t, kind) {
        assert(y.update(k, kind) =~= y);
    } else {
        let raw = converted_raw(doc, t, kind).0;
        lemma_tidy_kinds(raw, 0);
        let runs = crate::editor::content_runs(content_at(doc, t));
        let new = piece_of_kind(kind, runs);
        let middle = seq![new];
        lemma_kinds_one(new);
        assert(piece_kinds(new) =~= seq![kind]);
        match t {
            Spot::Block(_) => {
                assert(raw =~= a + middle + c);
                lemma_kinds_middle(a, middle, c);
                assert(y.update(k, kind) =~= seq![kind]);
            },
            Spot::Item(_, i) => {
                let items = doc[b]->List_1;
                let list = doc[b]->List_0;
                let front = list_part(list, items.take(i));
                let back = list_part(list, items.skip(i + 1));
                lemma_kinds_middle(a, split_list(doc[b], i, kind), c);
                lemma_kinds_middle(front, middle, back);
                lemma_list_part_kinds(list, items.take(i));
                lemma_list_part_kinds(list, items.skip(i + 1));
                assert(doc_kinds(front) + seq![kind] + doc_kinds(back) =~= y.update(k, kind));
            },
        }
    }
}

proof fn lemma_list_part_kinds(kind: ListKind, items: Seq<Seq<Run>>)
    ensures
        doc_kinds(list_part(kind, items)) == Seq::new(
            items.len(),
            |i: int| kind_of(Piece::List(kind, items)),
        ),
{
    let want = Seq::new(items.len(), |i: int| kind_of(Piece::List(kind, items)));
    if items.len() == 0 {
        assert(want =~= Seq::<TargetKind>::empty());
    } else {
        lemma_kinds_one(Piece::List(kind, items));
        assert(piece_kinds(Piece::List(kind, items)) =~= want);
    }
}

proof fn lemma_without_spot_kinds(doc: Seq<Piece>, t: Spot)
    requires
        valid_spot(doc, t),
    ensures
        doc_kinds(without_spot(doc, t)) == doc_kinds(doc).remove(spot_index(spots(doc), t) as int),
{
    law_kinds_stand_at_their_targets(doc, t);
    lemma_spot_place(doc, t);
    let b = block_of(t);
    let a = doc.take(b);
    let c = doc.skip(b + 1);
    let part = if t is Block || doc[b]->List_1.len() == 1 {
        Seq::<Piece>::empty()
    } else {
        seq![Piece::List(doc[b]->List_0, doc[b]->List_1.remove(t->Item_1))]
    };
    lemma_kinds_count(a);
    assert(doc =~= a + seq![doc[b]] + c);
    assert(without_spot(doc, t) =~= a + part + c);
    lemma_kinds_middle(a, seq![doc[b]], c);
    lemma_kinds_middle(a, part, c);
    lemma_kinds_one(doc[b]);
    if part.len() > 0 {
        lemma_kinds_one(part[0]);
    }
    let x = doc_kinds(a);
    let y = piece_kinds(doc[b]);
    let z = doc_kinds(c);
    let p = spot_index(spots(doc), t) as int;
    let k = p - x.len();
    assert(0 <= k < y.len()) by {
        reveal(place);
    }
    assert(doc_kinds(part) =~= y.remove(k));
    assert((x + y + z).remove(p) =~= x + y.remove(k) + z);
}

/// A deletion leaves every other target its kind.
pub proof fn law_deletion_keeps_the_other_kinds(doc: Seq<Piece>, t: Spot)
    requires
        editable(doc),
        valid_spot(doc, t),
    ensures
        doc_kinds(deleted(doc, t)) == if doc_kinds(doc).len() == 1 {
            seq![TargetKind::Paragraph]
        } else {
            doc_kinds(doc).remove(spot_index(spots(doc), t) as int)
        },
{
    let rest = without_spot(doc, t);
    law_kinds_stand_at_their_targets(doc, t);
    lemma_without_spot_kinds(doc, t);
    lemma_tidy_kinds(with_a_line(rest), 0);
    if rest.len() == 0 {
        lemma_kinds_one(blank_line());
        assert(piece_kinds(blank_line()) =~= seq![TargetKind::Paragraph]);
        assert(doc_kinds(rest).len() == 0);
    } else {
        lemma_deleted(doc, t);
        assert(with_a_line(rest) == rest);
        crate::editor_laws::lemma_contents_nonempty(rest);
        lemma_kinds_count(rest);
    }
}

// ---------------------------------------------------------------------------
// What the editor shows
// ---------------------------------------------------------------------------

/// The editor shows one line for each target, in order: the current one begins with an
/// arrow and no other does, and each ends in the text of its target.
pub proof fn law_editor_shows_every_target(doc: Seq<Piece>, current: Spot, i: int)
    requires
        0 <= i < spots(doc).len(),
    ensures
        document_lines(doc, current).len() == spots(doc).len(),
        ({
            let line = document_lines(doc, current)[i];
            let words = text_at(doc, spots(doc)[i]);
            &&& line.len() > words.len()
            &&& line.skip(line.len() - words.len()) == words
            &&& line[0] == '>' <==> spots(doc)[i] == current
        }),
{
    reveal_strlit(">");
    reveal_strlit(" ");
    let t = spots(doc)[i];
    let line = document_lines(doc, current)[i];
    let words = text_at(doc, t);
    assert(line == target_line(doc, current, t));
    assert(line.skip(line.len() - words.len()) =~= words);
}

/// A numbered item is shown in the editor with its number, which counts from one.
pub proof fn law_editor_numbers_the_items(doc: Seq<Piece>, b: int, i: int)
    requires
        valid_spot(doc, Spot::Item(b, i)),
        doc[b]->List_0 is Numbered,
    ensures
        ({
            let mark = target_mark(doc, Spot::Item(b, i));
            let digits = mark.subrange(1, mark.len() - 3);
            &&& mark.len() > 4
            &&& text::all_digits(digits)
            &&& text::digits_value(digits) == i + 1
        }),
{
    reveal_strlit("[");
    reveal_strlit(".] ");
    let mark = target_mark(doc, Spot::Item(b, i));
    let digits = text::decimal((i + 1) as nat);
    text::lemma_decimal_value((i + 1) as nat);
    assert(mark.subrange(1, mark.len() - 3) =~= digits);
}

/// Scrolling the editor goes by the lines that were asked for and stays between its first
/// line and its last. Nothing else changes.
pub proof fn law_editor_scrolls_within_its_lines(e: EditModel, back: bool, lines: u16)
    requires
        e.viewport <= viewport_limit(e.document, e.target),
    ensures
        ({
            let n = scrolled(e, back, lines);
            &&& n == (EditModel { viewport: n.viewport, ..e })
            &&& n.viewport <= viewport_limit(e.document, e.target)
            &&& back ==> n.viewport <= e.viewport && (n.viewport == 0 || n.viewport + lines
                == e.viewport)
            &&& !back ==> n.viewport >= e.viewport && (n.viewport == viewport_limit(
                e.document,
                e.target,
            ) || n.viewport == e.viewport + lines)
            &&& back && e.viewport >= lines ==> n.viewport + lines == e.viewport
            &&& !back && e.viewport + lines <= viewport_limit(e.document, e.target) ==> n.viewport
                == e.viewport + lines
        }),
{
}

} // verus!
