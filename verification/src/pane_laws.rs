//! Laws of the panes for a note: the document that the editor opens, the text that it shows,
//! and where the cursor stands.

use std::sync::Arc;

use vstd::prelude::*;

use crate::app::{visible_note, AppModel};
use crate::document::{LineForm, Piece, Run};
use crate::edit::{
    before_cursor, cursor_cell, document_lines, document_text, edit_text, target_mark, Area,
    EditModel,
};
use crate::editor::{
    drop_empty_lists, lemma_spot_index, lemma_spots, next_spot, opened, plain_document,
    previous_spot, spot_index, spots, text_at, Spot,
};
use crate::model::Note;
use crate::preview::preview_lines;
use crate::screen::{preview_of, Pane};
use crate::text::{join, occurs, split_feeds, starts_with};
use crate::text_laws::law_texts_between_feeds;
use crate::workflow::CachedPreviewState;

verus! {

// ---------------------------------------------------------------------------
// The document
// ---------------------------------------------------------------------------

/// The blocks of a document but for the lists without items.
pub open spec fn full_blocks(doc: Seq<Piece>) -> Seq<Piece> {
    doc.filter(|p: Piece| !(p is List && p->List_1.len() == 0))
}

proof fn lemma_full_blocks(doc: Seq<Piece>)
    ensures
        drop_empty_lists(doc) == full_blocks(doc),
    decreases doc.len(),
{
    reveal(Seq::filter);
    if doc.len() > 0 {
        lemma_full_blocks(doc.drop_last());
    }
}

/// The editor opens every block of a document in its order but for lists without items; and
/// one empty paragraph where that leaves nothing.
pub proof fn law_editor_opens_every_block(doc: Seq<Piece>)
    ensures
        full_blocks(doc).len() > 0 ==> opened(doc) == full_blocks(doc),
        full_blocks(doc).len() == 0 ==> opened(doc) == seq![
            Piece::Line(LineForm::Paragraph, Seq::<Run>::empty()),
        ],
{
    lemma_full_blocks(doc);
}

/// The text of a block without style.
pub open spec fn block_text(p: Piece) -> Seq<char> {
    match p {
        Piece::Line(_, runs) => crate::document::runs_text(runs),
        _ => arbitrary(),
    }
}

/// A plain text is a document of one paragraph for each of its lines, whose texts make up
/// the whole again.
pub proof fn law_plain_text_is_its_paragraphs(text: Seq<char>, k: int)
    requires
        0 <= k < plain_document(text).len(),
    ensures
        plain_document(text)[k] matches Piece::Line(form, runs) && form is Paragraph,
        !block_text(plain_document(text)[k]).contains('\n'),
        join(
            Seq::new(
                plain_document(text).len(),
                |i: int| block_text(plain_document(text)[i]),
            ),
            seq!['\n'],
        ) == text,
{
    let parts = split_feeds(text);
    law_texts_between_feeds(text);
    let blocks = Seq::new(
        plain_document(text).len(),
        |i: int| block_text(plain_document(text)[i]),
    );
    assert forall|i: int| 0 <= i < parts.len() implies #[trigger] blocks[i] == parts[i] by {
        crate::editor_laws::lemma_plain_runs_text(parts[i]);
    }
    assert(blocks =~= parts);
    assert(block_text(plain_document(text)[k]) == parts[k]);
}

// ---------------------------------------------------------------------------
// The editor
// ---------------------------------------------------------------------------

/// The pane of an edit shows the title, then every line of the body, then which of the two
/// is edited.
pub proof fn law_editor_shows_title_and_body(e: EditModel)
    ensures
        starts_with(edit_text(e), "Title: "@ + e.title),
        occurs(edit_text(e), document_text(e.document, e.target)),
        e.field is Title ==> occurs(edit_text(e), "Editing Title"@),
        e.field is Body ==> occurs(edit_text(e), "Editing Body"@),
{
    reveal_strlit("\n\nEditing ");
    reveal_strlit("Title");
    reveal_strlit("Body");
    reveal_strlit("Editing Title");
    reveal_strlit("Editing Body");
    let s = edit_text(e);
    let head = "Title: "@ + e.title;
    let body = document_text(e.document, e.target);
    assert(s.take(head.len() as int) =~= head);
    let at = (head + "\n\nBody:\n"@).len() as int;
    assert(s.subrange(at, at + body.len()) =~= body);
    let from = at + body.len() + 2;
    if e.field is Title {
        assert(s.subrange(from, from + "Editing Title"@.len()) =~= "Editing Title"@);
    } else {
        assert(s.subrange(from, from + "Editing Body"@.len()) =~= "Editing Body"@);
    }
}

/// The cursor stands in the line of the title, behind the part of the title before it; or
/// in the line of the current target, three lines down and one more for each target before,
/// behind the part of its text before the cursor.
pub proof fn law_cursor_stands_in_its_line(e: EditModel, k: int)
    requires
        e.field is Body ==> 0 <= k < spots(e.document).len() && spots(e.document)[k] == e.target
            && k + 3 <= u16::MAX && (forall|j: int|
            0 <= j < k ==> #[trigger] spots(e.document)[j] != e.target),
    ensures
        e.field is Title && e.cursor <= e.title.len() ==> {
            &&& before_cursor(e).0 == 0
            &&& starts_with("Title: "@ + e.title, before_cursor(e).1)
            &&& before_cursor(e).1.len() == 7 + e.cursor
        },
        e.field is Body ==> {
            &&& before_cursor(e).0 == k + 3
            &&& starts_with(document_lines(e.document, e.target)[k], before_cursor(e).1)
            &&& e.cursor <= text_at(e.document, e.target).len() ==> before_cursor(e).1.len()
                + text_at(e.document, e.target).len() == document_lines(
                e.document,
                e.target,
            )[k].len() + e.cursor
        },
{
    reveal_strlit("Title: ");
    reveal_strlit(">");
    if e.field is Title {
        if e.cursor <= e.title.len() {
            let all = "Title: "@ + e.title;
            let before = before_cursor(e).1;
            assert(all.take(before.len() as int) =~= before);
        }
    } else {
        let all = spots(e.document);
        lemma_spots(e.document, e.target);
        lemma_spot_index(all, e.target);
        assert(all.contains(e.target));
        let at = spot_index(all, e.target) as int;
        if at < k {
            assert(all[at] != e.target);
        }
        assert(at == k);
        let line = document_lines(e.document, e.target)[k];
        let before = before_cursor(e).1;
        assert(line == ">"@ + target_mark(e.document, e.target) + text_at(e.document, e.target));
        assert(line.take(before.len() as int) =~= before);
    }
}

/// The cursor is drawn within the border of its pane: as many cells to the right as the
/// text before it is wide, and as many lines down as it stands below what is scrolled away,
/// as far as the pane goes.
pub proof fn law_cursor_is_drawn_within_the_pane(
    area: Area,
    line: int,
    width: int,
    viewport: int,
)
    requires
        area.x + area.width <= u16::MAX,
        area.y + area.height <= u16::MAX,
        area.width >= 3,
        area.height >= 3,
        0 <= viewport <= line <= u16::MAX,
        0 <= width <= u16::MAX,
        area.x + 1 + width <= u16::MAX,
        area.y + 1 + line <= u16::MAX,
    ensures
        ({
            let (x, y) = cursor_cell(area, line, width, viewport);
            &&& area.x < x < area.x + area.width - 1
            &&& area.y < y < area.y + area.height - 1
            &&& 1 + width < area.width - 1 ==> x == area.x + 1 + width
            &&& 1 + line - viewport < area.height - 1 ==> y == area.y + 1 + line - viewport
            &&& 1 + width >= area.width - 1 ==> x == area.x + area.width - 2
            &&& 1 + line - viewport >= area.height - 1 ==> y == area.y + area.height - 2
        }),
{
}

/// From a line that is not there the editor goes on as from the first one.
pub proof fn law_missing_line_counts_as_the_first(doc: Seq<Piece>, t: Spot)
    requires
        spots(doc).len() > 0,
        !spots(doc).contains(t),
    ensures
        previous_spot(doc, t) == spots(doc)[0],
        next_spot(doc, t) == next_spot(doc, spots(doc)[0]),
        spots(doc).len() > 1 ==> next_spot(doc, t) == spots(doc)[1],
{
    lemma_spot_index(spots(doc), t);
    lemma_spot_index(spots(doc), spots(doc)[0]);
}

// ---------------------------------------------------------------------------
// The preview
// ---------------------------------------------------------------------------

/// The preview pane shows the note on the screen; without one it tells why there is none.
pub proof fn law_preview_pane_shows_the_note(v: AppModel, note: Arc<Note>, e: String)
    ensures
        v.shown.selected_note == Some(note) ==> preview_of(v) == Pane::Lines(
            preview_lines(*note, v.prefs.show_attachment_metadata),
        ),
        v.shown.selected_note is None ==> preview_of(v) is Text,
        v.shown.selected_note is None && v.shown.cached_preview_state == Some(
            CachedPreviewState::ReadError(e),
        ) ==> occurs(preview_of(v)->Text_0, e@),
        v.shown.selected_note is None && v.shown.cached_preview_state == Some(
            CachedPreviewState::MissingFullNote,
        ) ==> occurs(preview_of(v)->Text_0, "not available in the local cache"@),
        v.shown.selected_note is None && v.shown.cached_preview_state is None && (visible_note(
            v,
            v.shown.selected_note_index as int,
        ) matches Some(summary) && summary.password_protected) ==> starts_with(
            preview_of(v)->Text_0,
            "[locked]"@,
        ),
{
    if v.shown.selected_note is None {
        let s = preview_of(v)->Text_0;
        match v.shown.cached_preview_state {
            Some(CachedPreviewState::ReadError(x)) => {
                let n = s.len() - x@.len();
                assert(s.subrange(n, n + x@.len()) =~= x@);
            },
            Some(CachedPreviewState::MissingFullNote) => {
                reveal_strlit(
                    "Full note content is not available in the local cache.\nThe note summary remains available offline.",
                );
                reveal_strlit("not available in the local cache");
                let part = "not available in the local cache"@;
                assert(s.subrange(21, 21int + part.len()) =~= part);
            },
            None => {
                reveal_strlit(
                    "[locked] Password protected\nContent is unavailable until the note is unlocked in Notes.app.",
                );
                reveal_strlit("[locked]");
                if s == "[locked] Password protected\nContent is unavailable until the note is unlocked in Notes.app."@ {
                    assert(s.take(8) =~= "[locked]"@);
                }
            },
        }
    }
}

} // verus!
