//! An edit under way: a title, a document, a cursor, and what was there before.

use vstd::prelude::*;

use crate::document::{
    delete_from_text, insert_into_text, same_document, Block, Inline, LineForm, ListKind, Piece,
    RichDocument, Run,
};
use crate::editor::{
    blank_line, clamp, content_at, content_delete, content_insert, converted, deleted, editable,
    lemma_with_content, next_spot, opened, plain_document, previous_spot, spot_after_delete, spots,
    style_mark, text_at, toggled, valid_spot, with_content, with_runs, EditorDocument, EditorError,
    EditorTarget, InlineStyle, Spot, TargetKind,
};
use crate::model::{FolderId, NoteDate, NoteId, RichFeature};
use crate::text;
use crate::text::{cat, cat3, decimal_text, joined, owned, text_lines};

verus! {

/// The part of a note that the cursor is in.
#[derive(Clone, Copy, Debug, PartialEq, Eq, Structural)]
pub enum EditField {
    Title,
    Body,
}

/// An edit under way.
#[derive(Debug)]
pub struct EditSession {
    pub note_id: Option<NoteId>,
    pub folder_id: FolderId,
    pub original_title: String,
    pub original_body_html: String,
    pub original_plaintext: String,
    pub base_modification_date: Option<NoteDate>,
    pub title_buffer: String,
    pub document: EditorDocument,
    pub original: RichDocument,
    pub current_target: EditorTarget,
    pub dirty: bool,
    pub is_new: bool,
    pub field: EditField,
    pub cursor: usize,
    pub viewport: u16,
}

/// The model of an edit.
#[verifier::ext_equal]
pub ghost struct EditModel {
    pub note_id: Option<NoteId>,
    pub folder_id: FolderId,
    pub original_title: Seq<char>,
    pub original_body_html: Seq<char>,
    pub original_plaintext: Seq<char>,
    pub base_modification_date: Option<NoteDate>,
    pub title: Seq<char>,
    pub document: Seq<Piece>,
    pub original: Seq<Piece>,
    pub target: Spot,
    pub dirty: bool,
    pub is_new: bool,
    pub field: EditField,
    pub cursor: usize,
    pub viewport: u16,
}

impl View for EditSession {
    type V = EditModel;

    open spec fn view(&self) -> EditModel {
        EditModel {
            note_id: self.note_id,
            folder_id: self.folder_id,
            original_title: self.original_title@,
            original_body_html: self.original_body_html@,
            original_plaintext: self.original_plaintext@,
            base_modification_date: self.base_modification_date,
            title: self.title_buffer@,
            document: self.document@,
            original: self.original@,
            target: self.current_target@,
            dirty: self.dirty,
            is_new: self.is_new,
            field: self.field,
            cursor: self.cursor,
            viewport: self.viewport,
        }
    }
}

impl EditSession {
    /// The document of an edit can be edited.
    pub open spec fn wf(&self) -> bool {
        self.document.wf()
    }
}

/// The target with a model.
pub open spec fn target_at(t: Spot) -> EditorTarget {
    match t {
        Spot::Block(b) => EditorTarget::Block { block_index: b as usize },
        Spot::Item(b, i) => EditorTarget::ListItem {
            block_index: b as usize,
            item_index: i as usize,
        },
    }
}

pub proof fn lemma_target_at(t: EditorTarget)
    ensures
        target_at(t@) == t,
{
}

// ---------------------------------------------------------------------------
// What was there before
// ---------------------------------------------------------------------------

/// The body without a first paragraph that only repeats the title.
pub open spec fn without_title(doc: Seq<Piece>, title: Seq<char>) -> Seq<Piece> {
    if doc.len() > 0 && doc[0] == Piece::Line(LineForm::Paragraph, seq![Run::Text(title)]) {
        doc.drop_first()
    } else {
        doc
    }
}

pub fn strip_notes_title_block(document: &mut RichDocument, title: &str)
    ensures
        final(document)@ == without_title(old(document)@, title@),
{
    let repeats = if document.blocks.len() == 0 {
        false
    } else {
        proof {
            assert(document@[0] == document.blocks@[0]@);
        }
        match &document.blocks[0] {
            Block::Paragraph(items) => {
                let ghost runs = crate::document::runs_of(items@);
                if items.len() == 1 {
                    match &items[0] {
                        Inline::Text(s) => {
                            proof {
                                assert(runs =~= seq![Run::Text(s@)]);
                                assert(seq![Run::Text(s@)][0] == Run::Text(s@));
                                assert(seq![Run::Text(title@)][0] == Run::Text(title@));
                            }
                            s.as_str().eq(title)
                        },
                        _ => {
                            proof {
                                assert(runs[0] == items@[0]@);
                                assert(seq![Run::Text(title@)][0] == Run::Text(title@));
                            }
                            false
                        },
                    }
                } else {
                    proof {
                        assert(runs.len() != 1);
                        assert(seq![Run::Text(title@)].len() == 1);
                    }
                    false
                }
            },
            _ => false,
        }
    };
    if repeats {
        document.blocks.remove(0);
        assert(document@ =~= old(document)@.drop_first());
    }
}

/// The document that an editor opens for a body that was read.
pub open spec fn body_opened(body: Seq<Piece>, title: Seq<char>) -> Seq<Piece> {
    opened(without_title(body, title))
}

/// The document that an editor opens for a body that was read.
pub fn open_body(body: &RichDocument, title: &str) -> (r: EditorDocument)
    ensures
        r@ == body_opened(body@, title@),
        r.wf(),
{
    let mut document = body.clone();
    strip_notes_title_block(&mut document, title);
    EditorDocument::new(document)
}

/// The document that a draft started from: nothing for a new note, else the body it was
/// opened with, else its plain text.
pub open spec fn original_of(
    is_new: bool,
    body: Option<Seq<Piece>>,
    title: Seq<char>,
    plaintext: Seq<char>,
) -> Seq<Piece> {
    if is_new {
        seq![blank_line()]
    } else {
        match body {
            Some(doc) => body_opened(doc, title),
            None => plain_document(plaintext),
        }
    }
}

pub fn original_document(
    is_new: bool,
    body: &Option<RichDocument>,
    title: &str,
    plaintext: &str,
) -> (r: RichDocument)
    ensures
        r@ == original_of(
            is_new,
            match *body {
                Some(doc) => Some(doc@),
                None => None,
            },
            title@,
            plaintext@,
        ),
{
    if is_new {
        EditorDocument::empty().document
    } else {
        match body {
            Some(doc) => open_body(doc, title).document,
            None => EditorDocument::from_plaintext(plaintext).document,
        }
    }
}

// ---------------------------------------------------------------------------
// The text of an edit
// ---------------------------------------------------------------------------

/// The mark in front of a block of one line.
pub open spec fn line_mark(p: Piece) -> Seq<char> {
    match p {
        Piece::Line(LineForm::Paragraph, _) => "[P ] "@,
        Piece::Line(LineForm::Heading1, _) => "[H1] "@,
        Piece::Line(LineForm::Heading2, _) => "[H2] "@,
        Piece::Line(LineForm::Heading3, _) => "[H3] "@,
        Piece::Line(LineForm::Quote, _) => "[Q ] "@,
        Piece::Code(_) => "[C ] "@,
        Piece::List(_, _) => ""@,
    }
}

/// The mark in front of a target.
pub open spec fn target_mark(doc: Seq<Piece>, t: Spot) -> Seq<char> {
    match t {
        Spot::Block(b) => if 0 <= b < doc.len() {
            line_mark(doc[b])
        } else {
            ""@
        },
        Spot::Item(b, i) => if 0 <= b < doc.len() && doc[b] is List {
            match doc[b]->List_0 {
                ListKind::Bullet => "[• ] "@,
                ListKind::Numbered => "["@ + text::decimal((i + 1) as nat) + ".] "@,
            }
        } else {
            ""@
        },
    }
}

pub fn editor_target_prefix(document: &EditorDocument, target: EditorTarget) -> (r: String)
    requires
        target matches EditorTarget::ListItem { item_index, .. } ==> item_index < usize::MAX,
    ensures
        r@ == target_mark(document@, target@),
{
    match target {
        EditorTarget::Block { block_index } => {
            if block_index >= document.document.blocks.len() {
                return owned("");
            }
            assert(document@[block_index as int] == document.document.blocks@[block_index as int]@);
            match &document.document.blocks[block_index] {
                Block::Paragraph(_) => owned("[P ] "),
                Block::Heading1(_) => owned("[H1] "),
                Block::Heading2(_) => owned("[H2] "),
                Block::Heading3(_) => owned("[H3] "),
                Block::Quote(_) => owned("[Q ] "),
                Block::CodeBlock(_) => owned("[C ] "),
                _ => owned(""),
            }
        },
        EditorTarget::ListItem { block_index, item_index } => {
            if block_index >= document.document.blocks.len() {
                return owned("");
            }
            assert(document@[block_index as int] == document.document.blocks@[block_index as int]@);
            match &document.document.blocks[block_index] {
                Block::BulletList(_) => owned("[• ] "),
                Block::NumberedList(_) => {
                    let number = decimal_text((item_index + 1) as u64);
                    cat3("[", number.as_str(), ".] ")
                },
                _ => owned(""),
            }
        },
    }
}

/// The line of a target: an arrow where it is the current one, its mark, its text.
pub open spec fn target_line(doc: Seq<Piece>, current: Spot, t: Spot) -> Seq<char> {
    (if current == t {
        ">"@
    } else {
        " "@
    }) + target_mark(doc, t) + text_at(doc, t)
}

/// The lines of a document, target by target.
pub open spec fn document_lines(doc: Seq<Piece>, current: Spot) -> Seq<Seq<char>> {
    Seq::new(spots(doc).len(), |i: int| target_line(doc, current, spots(doc)[i]))
}

/// The text of a document in the editor.
pub open spec fn document_text(doc: Seq<Piece>, current: Spot) -> Seq<char> {
    text::join(document_lines(doc, current), "\n"@)
}

/// The text of a document in the editor.
pub fn editor_blocks(document: &EditorDocument, current_target: EditorTarget) -> (r: String)
    ensures
        r@ == document_text(document@, current_target@),
{
    let all = crate::editor::targets(&document.document);
    let ghost doc = document@;
    let ghost want = document_lines(doc, current_target@);
    let mut lines: Vec<String> = Vec::new();
    let mut i: usize = 0;
    while i < all.len()
        invariant
            i <= all@.len(),
            doc == document@,
            want == document_lines(doc, current_target@),
            crate::editor::spot_views(all@) == spots(doc),
            text::texts(lines@) == want.take(i as int),
        decreases all@.len() - i,
    {
        let t = all[i];
        proof {
            assert(crate::editor::spot_views(all@)[i as int] == t@);
            assert(spots(doc).contains(t@));
            crate::editor::lemma_spots(doc, t@);
        }
        if let EditorTarget::ListItem { block_index, item_index } = t {
            let ghost items = doc[block_index as int]->List_1;
            let len = crate::editor::list_len(&document.document.blocks[block_index]);
            proof {
                assert(doc[block_index as int] == document.document.blocks@[block_index as int]@);
            }
            assert(len is Some && item_index < len->0);
        }
        let mark = editor_target_prefix(document, t);
        let body = match document.target_text(t) {
            Ok(body) => body,
            Err(_) => String::new(),
        };
        let arrow = if current_target == t {
            ">"
        } else {
            proof {
                lemma_target_at(current_target);
                lemma_target_at(t);
            }
            " "
        };
        let line = cat3(arrow, mark.as_str(), body.as_str());
        proof {
            text::lemma_texts_push(lines@, line);
            assert(line@ == want[i as int]);
            assert(want.take(i + 1) =~= want.take(i as int).push(line@));
        }
        lines.push(line);
        i = i + 1;
    }
    assert(want.take(i as int) =~= want);
    joined(&lines, "\n")
}

/// The last line that the editor can be scrolled to.
pub open spec fn viewport_limit(doc: Seq<Piece>, current: Spot) -> u16 {
    let n = text::lines(document_text(doc, current)).len() + 2;
    if n <= u16::MAX {
        n as u16
    } else {
        u16::MAX
    }
}

/// The last line that the editor can be scrolled to. It counts lines as they are
/// written, whatever the width of the terminal.
pub fn editor_viewport_max(document: &EditorDocument, current_target: EditorTarget) -> (r: u16)
    ensures
        r == viewport_limit(document@, current_target@),
{
    let shown = editor_blocks(document, current_target);
    let lines = text_lines(shown.as_str());
    let n = lines.len();
    proof {
        assert(text::texts(lines@).len() == n);
    }
    if n <= 65533 {
        (n + 2) as u16
    } else {
        u16::MAX
    }
}

// ---------------------------------------------------------------------------
// Editing
// ---------------------------------------------------------------------------

/// The edit with its changes told apart from what was there before.
pub open spec fn marked(e: EditModel) -> EditModel {
    EditModel { dirty: e.title != e.original_title || e.document != e.original, ..e }
}

/// The cursor one further on.
pub open spec fn cursor_after(cursor: usize) -> usize {
    if cursor < usize::MAX {
        (cursor + 1) as usize
    } else {
        cursor
    }
}

/// The smaller of a cursor and a length.
pub open spec fn cursor_within(cursor: usize, len: nat) -> usize {
    clamp(cursor as nat, len) as usize
}

/// A character typed into a line of text at a cursor.
pub open spec fn typed_into(s: Seq<char>, cursor: usize, ch: char) -> Seq<char> {
    s.insert(clamp(cursor as nat, s.len()) as int, ch)
}

/// A line of text without the character at a position.
pub open spec fn without_char(s: Seq<char>, at: int) -> Seq<char> {
    if at < s.len() {
        s.remove(at)
    } else {
        s
    }
}

/// The edit with a character typed at the cursor; the target must be there.
pub open spec fn typed_char(e: EditModel, ch: char) -> EditModel {
    match e.field {
        EditField::Title => EditModel {
            title: typed_into(e.title, e.cursor, ch),
            cursor: cursor_after(e.cursor),
            ..e
        },
        EditField::Body => {
            let at = clamp(e.cursor as nat, text_at(e.document, e.target).len());
            EditModel {
                document: with_content(
                    e.document,
                    e.target,
                    content_insert(content_at(e.document, e.target), at, ch),
                ),
                cursor: (at + 1) as usize,
                ..e
            }
        },
    }
}

/// The edit with characters typed one after the other.
pub open spec fn typed_chars(e: EditModel, s: Seq<char>) -> EditModel
    decreases s.len(),
{
    if s.len() == 0 {
        e
    } else {
        typed_char(typed_chars(e, s.drop_last()), s.last())
    }
}

/// Whether the target of an edit is there, where the cursor is in the body.
pub open spec fn target_there(e: EditModel) -> bool {
    e.field is Body ==> valid_spot(e.document, e.target)
}

/// What typing makes of an edit; nothing where the target is not there.
pub open spec fn typed(e: EditModel, s: Seq<char>) -> EditModel {
    if s.len() == 0 || !target_there(e) {
        e
    } else {
        marked(typed_chars(e, s))
    }
}

/// The text that the cursor is in.
pub open spec fn cursor_text(e: EditModel) -> Seq<char> {
    match e.field {
        EditField::Title => e.title,
        EditField::Body => text_at(e.document, e.target),
    }
}

/// The edit without the character before the cursor.
pub open spec fn rubbed_out(e: EditModel) -> EditModel {
    let next = match e.field {
        EditField::Title => if e.cursor > 0 {
            EditModel {
                title: without_char(e.title, e.cursor - 1),
                cursor: (e.cursor - 1) as usize,
                ..e
            }
        } else {
            e
        },
        EditField::Body => {
            let at = clamp(e.cursor as nat, text_at(e.document, e.target).len());
            if at == 0 {
                EditModel { cursor: 0, ..e }
            } else {
                EditModel {
                    document: with_content(
                        e.document,
                        e.target,
                        content_delete(content_at(e.document, e.target), (at - 1) as nat),
                    ),
                    cursor: (at - 1) as usize,
                    ..e
                }
            }
        },
    };
    if !target_there(e) {
        e
    } else if next.cursor != e.cursor {
        marked(next)
    } else {
        next
    }
}

/// The edit without the character at the cursor.
pub open spec fn struck_out(e: EditModel) -> EditModel {
    if !target_there(e) || e.cursor >= cursor_text(e).len() {
        e
    } else {
        marked(
            match e.field {
                EditField::Title => EditModel {
                    title: without_char(e.title, e.cursor as int),
                    ..e
                },
                EditField::Body => EditModel {
                    document: with_content(
                        e.document,
                        e.target,
                        content_delete(content_at(e.document, e.target), e.cursor as nat),
                    ),
                    ..e
                },
            },
        )
    }
}

/// The edit with the cursor one step back or on.
pub open spec fn cursor_stepped(e: EditModel, back: bool) -> EditModel {
    if !target_there(e) {
        e
    } else if back {
        EditModel {
            cursor: if e.cursor > 0 {
                (e.cursor - 1) as usize
            } else {
                0
            },
            ..e
        }
    } else {
        EditModel { cursor: cursor_within(cursor_after(e.cursor), cursor_text(e).len()), ..e }
    }
}

/// The edit with the cursor at the start or the end of its text.
pub open spec fn cursor_at_edge(e: EditModel, end: bool) -> EditModel {
    if !end {
        EditModel { cursor: 0, ..e }
    } else if !target_there(e) {
        e
    } else {
        EditModel { cursor: cursor_text(e).len() as usize, ..e }
    }
}

/// The edit with the cursor at the end of the other field.
pub open spec fn field_switched(e: EditModel) -> EditModel {
    let other = EditModel {
        field: if e.field is Title {
            EditField::Body
        } else {
            EditField::Title
        },
        ..e
    };
    if !target_there(other) {
        other
    } else {
        EditModel { cursor: cursor_text(other).len() as usize, ..other }
    }
}

/// The edit at another target.
pub open spec fn at_target(e: EditModel, t: Spot) -> EditModel {
    EditModel { target: t, cursor: cursor_within(e.cursor, text_at(e.document, t).len()), ..e }
}

/// The edit at the target before or behind.
pub open spec fn target_stepped(e: EditModel, back: bool) -> EditModel {
    if e.field is Title {
        e
    } else if back {
        at_target(e, previous_spot(e.document, e.target))
    } else {
        at_target(e, next_spot(e.document, e.target))
    }
}

/// Whether a line can be put behind a target.
pub open spec fn can_follow(doc: Seq<Piece>, t: Spot) -> bool {
    match t {
        Spot::Block(b) => 0 <= b < doc.len(),
        Spot::Item(_, _) => valid_spot(doc, t),
    }
}

/// The document with an empty line behind a target, and the target of that line.
pub open spec fn followed(doc: Seq<Piece>, t: Spot) -> (Seq<Piece>, Spot) {
    match t {
        Spot::Block(b) => (doc.insert(b + 1, blank_line()), Spot::Block(b + 1)),
        Spot::Item(b, i) => (
            doc.update(b, Piece::List(doc[b]->List_0, doc[b]->List_1.insert(i + 1, seq![]))),
            Spot::Item(b, i + 1),
        ),
    }
}

/// The edit with an empty line behind its target, and the cursor in it.
pub open spec fn line_added(e: EditModel) -> EditModel {
    if can_follow(e.document, e.target) {
        let next = followed(e.document, e.target);
        marked(EditModel { document: next.0, target: next.1, cursor: 0, ..e })
    } else {
        e
    }
}

/// The edit without its target.
pub open spec fn target_removed(e: EditModel) -> EditModel {
    if e.field is Title || !valid_spot(e.document, e.target) {
        e
    } else {
        marked(
            at_target(
                EditModel { document: deleted(e.document, e.target), ..e },
                spot_after_delete(e.document, e.target),
            ),
        )
    }
}

/// Whether the content of a target can carry a style or a link.
pub open spec fn can_style(doc: Seq<Piece>, t: Spot) -> bool {
    valid_spot(doc, t) && content_at(doc, t) is Runs
}

/// The edit with a style put on its target or taken off it.
pub open spec fn styled(e: EditModel, style: InlineStyle) -> EditModel {
    if e.field is Title || !can_style(e.document, e.target) {
        e
    } else {
        marked(
            EditModel {
                document: with_runs(
                    e.document,
                    e.target,
                    toggled(content_at(e.document, e.target)->Runs_0, style_mark(style)),
                ),
                ..e
            },
        )
    }
}

/// The edit with a target made a link.
pub open spec fn linked(e: EditModel, t: Spot, url: Seq<char>) -> EditModel {
    if !can_style(e.document, t) {
        e
    } else {
        marked(
            EditModel {
                document: with_runs(
                    e.document,
                    t,
                    seq![Run::Link(content_at(e.document, t)->Runs_0, url)],
                ),
                ..e
            },
        )
    }
}

/// Whether two blocks are lists of different kinds.
pub open spec fn mixed(a: Piece, b: Piece) -> bool {
    a is List && b is List && a->List_0 != b->List_0
}

/// How often a list stands next to a list of the other kind, among the first `n` blocks.
pub open spec fn mixed_upto(doc: Seq<Piece>, n: nat) -> nat
    decreases n,
{
    if n < 2 {
        0
    } else {
        mixed_upto(doc, (n - 1) as nat) + if mixed(doc[n - 2], doc[n - 1]) {
            1nat
        } else {
            0nat
        }
    }
}

/// How often a list stands next to a list of the other kind.
pub open spec fn mixed_boundaries(doc: Seq<Piece>) -> nat {
    mixed_upto(doc, doc.len())
}

pub fn mixed_list_boundary_count(document: &RichDocument) -> (r: usize)
    ensures
        r == mixed_boundaries(document@),
{
    let mut count: usize = 0;
    let mut i: usize = 1;
    let n = document.blocks.len();
    if n < 2 {
        return 0;
    }
    while i < n
        invariant
            1 <= i <= n,
            n == document.blocks@.len(),
            count == mixed_upto(document@, i as nat),
            count < i,
        decreases n - i,
    {
        let a = crate::editor::list_kind(&document.blocks[i - 1]);
        let b = crate::editor::list_kind(&document.blocks[i]);
        assert(document@[i - 1] == document.blocks@[i - 1]@);
        assert(document@[i as int] == document.blocks@[i as int]@);
        if let (Some(x), Some(y)) = (a, b) {
            if x != y {
                count = count + 1;
            }
        }
        i = i + 1;
    }
    count
}

/// Whether a conversion puts lists of different kinds next to each other.
pub open spec fn conversion_mixes(e: EditModel, kind: TargetKind) -> bool {
    mixed_boundaries(converted(e.document, e.target, kind).0) > mixed_boundaries(e.document)
}

/// The edit with its target made another kind.
pub open spec fn target_converted(e: EditModel, kind: TargetKind) -> EditModel {
    let next = converted(e.document, e.target, kind);
    marked(at_target(EditModel { document: next.0, ..e }, next.1))
}

/// The edit scrolled by some lines.
pub open spec fn scrolled(e: EditModel, back: bool, lines: u16) -> EditModel {
    let limit = viewport_limit(e.document, e.target);
    EditModel {
        viewport: if back {
            if e.viewport > lines {
                (e.viewport - lines) as u16
            } else {
                0
            }
        } else if e.viewport + lines > limit {
            limit
        } else {
            (e.viewport + lines) as u16
        },
        ..e
    }
}

/// The part of rich text that a kind of line is.
pub open spec fn kind_feature(kind: TargetKind) -> Option<RichFeature> {
    match kind {
        TargetKind::Paragraph => None,
        TargetKind::Heading1 => Some(RichFeature::Heading1),
        TargetKind::Heading2 => Some(RichFeature::Heading2),
        TargetKind::Heading3 => Some(RichFeature::Heading3),
        TargetKind::Bullet => Some(RichFeature::BulletList),
        TargetKind::Numbered => Some(RichFeature::NumberedList),
        TargetKind::Quote => Some(RichFeature::Quote),
        TargetKind::Code => Some(RichFeature::Code),
    }
}

pub fn target_kind_feature(kind: TargetKind) -> (r: Option<RichFeature>)
    ensures
        r == kind_feature(kind),
{
    match kind {
        TargetKind::Paragraph => None,
        TargetKind::Heading1 => Some(RichFeature::Heading1),
        TargetKind::Heading2 => Some(RichFeature::Heading2),
        TargetKind::Heading3 => Some(RichFeature::Heading3),
        TargetKind::Bullet => Some(RichFeature::BulletList),
        TargetKind::Numbered => Some(RichFeature::NumberedList),
        TargetKind::Quote => Some(RichFeature::Quote),
        TargetKind::Code => Some(RichFeature::Code),
    }
}

/// Typing keeps the target of an edit where it is.
proof fn lemma_typed_chars(e: EditModel, s: Seq<char>)
    requires
        editable(e.document),
        target_there(e),
    ensures
        editable(typed_chars(e, s).document),
        target_there(typed_chars(e, s)),
        typed_chars(e, s).field == e.field,
        typed_chars(e, s).target == e.target,
    decreases s.len(),
{
    if s.len() > 0 {
        lemma_typed_chars(e, s.drop_last());
        let x = typed_chars(e, s.drop_last());
        if e.field is Body {
            let at = clamp(x.cursor as nat, text_at(x.document, x.target).len());
            let c = content_insert(content_at(x.document, x.target), at, s.last());
            lemma_with_content(x.document, x.target, c);
        }
    }
}

impl EditSession {
    fn mark_dirty(&mut self)
        requires
            old(self).wf(),
        ensures
            final(self).wf(),
            final(self)@ == marked(old(self)@),
    {
        let title = !self.title_buffer.as_str().eq(self.original_title.as_str());
        let body = !same_document(&self.document.document, &self.original);
        self.dirty = title || body;
    }

    fn type_char(&mut self, ch: char) -> (r: Result<(), EditorError>)
        requires
            old(self).wf(),
        ensures
            final(self).wf(),
            r is Ok <==> target_there(old(self)@),
            final(self)@ == if r is Ok {
                typed_char(old(self)@, ch)
            } else {
                old(self)@
            },
    {
        match self.field {
            EditField::Title => {
                insert_into_text(&mut self.title_buffer, self.cursor, ch);
                self.cursor = self.cursor.saturating_add(1);
                Ok(())
            },
            EditField::Body => match self.document.insert_char(
                self.current_target,
                self.cursor,
                ch,
            ) {
                Ok(cursor) => {
                    self.cursor = cursor;
                    Ok(())
                },
                Err(e) => Err(e),
            },
        }
    }

    pub fn insert_text(&mut self, value: &str) -> (r: Result<(), EditorError>)
        requires
            old(self).wf(),
        ensures
            final(self).wf(),
            r is Err <==> value@.len() > 0 && !target_there(old(self)@),
            final(self)@ == typed(old(self)@, value@),
    {
        let cs = text::chars_of(value);
        if cs.len() == 0 {
            return Ok(());
        }
        let ghost start = self@;
        let mut i: usize = 0;
        assert(cs@.take(0) =~= Seq::<char>::empty());
        while i < cs.len()
            invariant
                self.wf(),
                cs@ == value@,
                cs@.len() > 0,
                i <= cs@.len(),
                start == old(self)@,
                editable(start.document),
                i > 0 ==> target_there(start),
                self@ == typed_chars(start, cs@.take(i as int)),
            decreases cs@.len() - i,
        {
            proof {
                if i > 0 {
                    lemma_typed_chars(start, cs@.take(i as int));
                }
                assert(cs@.take(i + 1).drop_last() =~= cs@.take(i as int));
            }
            match self.type_char(cs[i]) {
                Ok(_) => {},
                Err(e) => {
                    assert(cs@.take(0) =~= Seq::<char>::empty());
                    return Err(e);
                },
            }
            i = i + 1;
        }
        assert(cs@.take(i as int) =~= value@);
        self.mark_dirty();
        Ok(())
    }

    pub fn backspace(&mut self) -> (r: Result<(), EditorError>)
        requires
            old(self).wf(),
        ensures
            final(self).wf(),
            r is Ok <==> target_there(old(self)@),
            final(self)@ == rubbed_out(old(self)@),
    {
        let old_cursor = self.cursor;
        match self.field {
            EditField::Title => {
                if self.cursor > 0 {
                    delete_from_text(&mut self.title_buffer, self.cursor - 1);
                    self.cursor = self.cursor - 1;
                }
            },
            EditField::Body => match self.document.backspace(self.current_target, self.cursor) {
                Ok(cursor) => {
                    self.cursor = cursor;
                },
                Err(e) => return Err(e),
            },
        }
        if self.cursor != old_cursor {
            self.mark_dirty();
        }
        Ok(())
    }

    fn text_len(&self) -> (r: Result<usize, EditorError>)
        ensures
            match r {
                Ok(n) => target_there(self@) && n == cursor_text(self@).len(),
                Err(_) => !target_there(self@),
            },
    {
        match self.field {
            EditField::Title => Ok(self.title_buffer.as_str().unicode_len()),
            EditField::Body => self.document.char_len(self.current_target),
        }
    }

    pub fn delete(&mut self) -> (r: Result<(), EditorError>)
        requires
            old(self).wf(),
        ensures
            final(self).wf(),
            r is Ok <==> target_there(old(self)@),
            final(self)@ == struck_out(old(self)@),
    {
        let len = match self.text_len() {
            Ok(len) => len,
            Err(e) => return Err(e),
        };
        if self.cursor >= len {
            return Ok(());
        }
        match self.field {
            EditField::Title => delete_from_text(&mut self.title_buffer, self.cursor),
            EditField::Body => match self.document.delete_char(self.current_target, self.cursor) {
                Ok(cursor) => {
                    self.cursor = cursor;
                },
                Err(e) => return Err(e),
            },
        }
        self.mark_dirty();
        Ok(())
    }

    pub fn cursor_move(&mut self, back: bool) -> (r: Result<(), EditorError>)
        requires
            old(self).wf(),
        ensures
            final(self).wf(),
            r is Ok <==> target_there(old(self)@),
            final(self)@ == cursor_stepped(old(self)@, back),
    {
        let len = match self.text_len() {
            Ok(len) => len,
            Err(e) => return Err(e),
        };
        if back {
            self.cursor = self.cursor.saturating_sub(1);
        } else {
            let next = self.cursor.saturating_add(1);
            self.cursor = if next <= len {
                next
            } else {
                len
            };
        }
        Ok(())
    }

    pub fn cursor_edge(&mut self, end: bool) -> (r: Result<(), EditorError>)
        requires
            old(self).wf(),
        ensures
            final(self).wf(),
            r is Err <==> end && !target_there(old(self)@),
            final(self)@ == cursor_at_edge(old(self)@, end),
    {
        if !end {
            self.cursor = 0;
            return Ok(());
        }
        match self.text_len() {
            Ok(len) => {
                self.cursor = len;
                Ok(())
            },
            Err(e) => Err(e),
        }
    }

    pub fn switch_field(&mut self) -> (r: Result<(), EditorError>)
        requires
            old(self).wf(),
        ensures
            final(self).wf(),
            r is Ok <==> target_there(final(self)@),
            final(self)@ == field_switched(old(self)@),
    {
        self.field = match self.field {
            EditField::Title => EditField::Body,
            EditField::Body => EditField::Title,
        };
        match self.text_len() {
            Ok(len) => {
                self.cursor = len;
                Ok(())
            },
            Err(e) => Err(e),
        }
    }

    fn go_to(&mut self, target: EditorTarget) -> (r: Result<(), EditorError>)
        requires
            old(self).wf(),
            valid_spot(old(self)@.document, target@),
        ensures
            final(self).wf(),
            r is Ok,
            final(self)@ == at_target(old(self)@, target@),
    {
        self.current_target = target;
        match self.document.clamp_cursor(target, self.cursor) {
            Ok(cursor) => {
                self.cursor = cursor;
                Ok(())
            },
            Err(e) => Err(e),
        }
    }

    pub fn move_target(&mut self, back: bool) -> (r: Result<(), EditorError>)
        requires
            old(self).wf(),
        ensures
            final(self).wf(),
            r is Ok,
            final(self)@ == target_stepped(old(self)@, back),
    {
        if let EditField::Title = self.field {
            return Ok(());
        }
        let target = if back {
            self.document.previous_target(self.current_target)
        } else {
            self.document.next_target(self.current_target)
        };
        self.go_to(target)
    }

    pub fn insert_target_after(&mut self) -> (r: Result<(), EditorError>)
        requires
            old(self).wf(),
        ensures
            final(self).wf(),
            r is Ok <==> can_follow(old(self)@.document, old(self)@.target),
            final(self)@ == line_added(old(self)@),
    {
        match self.document.insert_after(self.current_target) {
            Ok(target) => {
                self.current_target = target;
                self.cursor = 0;
                self.mark_dirty();
                Ok(())
            },
            Err(e) => Err(e),
        }
    }

    pub fn delete_visual_target(&mut self) -> (r: Result<(), EditorError>)
        requires
            old(self).wf(),
        ensures
            final(self).wf(),
            r is Ok <==> target_there(old(self)@),
            final(self)@ == target_removed(old(self)@),
    {
        if let EditField::Title = self.field {
            return Ok(());
        }
        match self.document.delete_target(self.current_target) {
            Ok(target) => {
                let r = self.go_to(target);
                self.mark_dirty();
                r
            },
            Err(e) => Err(e),
        }
    }

    pub fn toggle_inline(&mut self, style: InlineStyle) -> (r: Result<(), EditorError>)
        requires
            old(self).wf(),
        ensures
            final(self).wf(),
            r is Ok <==> old(self)@.field is Title || can_style(
                old(self)@.document,
                old(self)@.target,
            ),
            final(self)@ == styled(old(self)@, style),
    {
        if let EditField::Title = self.field {
            return Ok(());
        }
        match self.document.toggle_style(self.current_target, style) {
            Ok(_) => {
                self.mark_dirty();
                Ok(())
            },
            Err(e) => Err(e),
        }
    }

    pub fn set_link(&mut self, target: EditorTarget, url: String) -> (r: Result<(), EditorError>)
        requires
            old(self).wf(),
        ensures
            final(self).wf(),
            r is Ok <==> can_style(old(self)@.document, target@),
            final(self)@ == linked(old(self)@, target@, url@),
    {
        match self.document.set_link(target, url) {
            Ok(_) => {
                self.mark_dirty();
                Ok(())
            },
            Err(e) => Err(e),
        }
    }

    /// Makes the target another kind. Where that would put lists of different kinds next
    /// to each other and they are not supported, nothing changes and the result is true.
    pub fn convert(&mut self, kind: TargetKind, supports_mixed: bool) -> (r: Result<
        bool,
        EditorError,
    >)
        requires
            old(self).wf(),
        ensures
            final(self).wf(),
            match r {
                Err(_) => !valid_spot(old(self)@.document, old(self)@.target) && final(self)@
                    == old(self)@,
                Ok(refused) => {
                    &&& valid_spot(old(self)@.document, old(self)@.target)
                    &&& refused == (conversion_mixes(old(self)@, kind) && !supports_mixed)
                    &&& final(self)@ == if refused {
                        old(self)@
                    } else {
                        target_converted(old(self)@, kind)
                    }
                },
            },
    {
        let before = mixed_list_boundary_count(&self.document.document);
        let mut candidate = self.document.clone();
        let target = match candidate.convert_target(self.current_target, kind) {
            Ok(target) => target,
            Err(e) => return Err(e),
        };
        let mixes = mixed_list_boundary_count(&candidate.document) > before;
        if mixes && !supports_mixed {
            return Ok(true);
        }
        self.document = candidate;
        let r = self.go_to(target);
        self.mark_dirty();
        match r {
            Ok(_) => Ok(false),
            Err(e) => Err(e),
        }
    }

    pub fn scroll(&mut self, back: bool, lines: u16)
        requires
            old(self).wf(),
        ensures
            final(self).wf(),
            final(self)@ == scrolled(old(self)@, back, lines),
    {
        let limit = editor_viewport_max(&self.document, self.current_target);
        if back {
            self.viewport = self.viewport.saturating_sub(lines);
        } else {
            let next = self.viewport.saturating_add(lines);
            self.viewport = if next <= limit {
                next
            } else {
                limit
            };
        }
    }
}

// ---------------------------------------------------------------------------
// The cursor on the screen
// ---------------------------------------------------------------------------

/// How many columns of a terminal a text takes.
pub uninterp spec fn display_width(s: Seq<char>) -> usize;

/// `UnicodeWidthStr::width` of the crate `unicode-width` is a function of the text alone
/// (the widths that Unicode gives its characters); `display_width` names it.
#[verifier::external_body]
fn text_width(s: &str) -> (r: usize)
    ensures
        r == display_width(s@),
{
    unicode_width::UnicodeWidthStr::width(s)
}

/// A part of the screen: its upper left corner and its size.
#[derive(Clone, Copy, Debug, PartialEq, Eq, Structural)]
pub struct Area {
    pub x: u16,
    pub y: u16,
    pub width: u16,
    pub height: u16,
}

pub open spec fn add_capped(a: int, b: int) -> int {
    if a + b > u16::MAX {
        u16::MAX as int
    } else {
        a + b
    }
}

pub open spec fn take_floored(a: int, b: int) -> int {
    if a < b {
        0
    } else {
        a - b
    }
}

pub open spec fn smaller(a: int, b: int) -> int {
    if a <= b {
        a
    } else {
        b
    }
}

/// The line of the cursor within the text of the editor, and what stands on that line
/// before it.
pub open spec fn before_cursor(e: EditModel) -> (int, Seq<char>) {
    match e.field {
        EditField::Title => (
            0,
            "Title: "@ + e.title.take(clamp(e.cursor as nat, e.title.len()) as int),
        ),
        EditField::Body => {
            let there = valid_spot(e.document, e.target);
            let line = if there {
                crate::editor::spot_index(spots(e.document), e.target) as int
            } else {
                0
            };
            let shown = if there {
                text_at(e.document, e.target)
            } else {
                seq![]
            };
            (
                add_capped(3, line % 0x1_0000),
                ">"@ + target_mark(e.document, e.target) + shown.take(
                    clamp(e.cursor as nat, shown.len()) as int,
                ),
            )
        },
    }
}

fn text_before(s: &str, cursor: usize) -> (r: String)
    ensures
        r@ == s@.take(clamp(cursor as nat, s@.len()) as int),
{
    let cs = text::chars_of(s);
    let n = cs.len();
    let k = if cursor <= n {
        cursor
    } else {
        n
    };
    assert(cs@.subrange(0, k as int) =~= s@.take(k as int));
    text::string_range(&cs, 0, k)
}

/// The line of the cursor within the text of the editor, and what stands on that line
/// before it.
pub fn text_before_cursor(edit: &EditSession) -> (r: (u16, String))
    requires
        edit.current_target matches EditorTarget::ListItem { item_index, .. } ==> item_index
            < usize::MAX,
    ensures
        r.0 == before_cursor(edit@).0,
        r.1@ == before_cursor(edit@).1,
{
    match edit.field {
        EditField::Title => {
            let before = text_before(edit.title_buffer.as_str(), edit.cursor);
            (0, cat("Title: ", before.as_str()))
        },
        EditField::Body => {
            let line = match edit.document.visual_index(edit.current_target) {
                Some(i) => (i % 0x1_0000) as u16,
                None => 0,
            };
            let shown = match edit.document.target_text(edit.current_target) {
                Ok(s) => s,
                Err(_) => String::new(),
            };
            proof {
                if !valid_spot(edit@.document, edit@.target) {
                    assert(shown@ =~= Seq::<char>::empty());
                }
            }
            let mark = editor_target_prefix(&edit.document, edit.current_target);
            let before = text_before(shown.as_str(), edit.cursor);
            let three: u16 = 3;
            (three.saturating_add(line), cat3(">", mark.as_str(), before.as_str()))
        },
    }
}

/// The cell of the cursor in a pane with a border, for the line of the cursor and the
/// width of what stands before it.
pub open spec fn cursor_cell(area: Area, line: int, width: int, viewport: int) -> (int, int) {
    let right = add_capped(area.x as int, area.width as int);
    let bottom = add_capped(area.y as int, area.height as int);
    (
        smaller(
            add_capped(add_capped(area.x as int, 1), width % 0x1_0000),
            take_floored(right, 2),
        ),
        smaller(
            take_floored(add_capped(add_capped(area.y as int, 1), line), viewport),
            take_floored(bottom, 2),
        ),
    )
}

/// The cell of the cursor in a pane with a border.
pub fn cursor_position(area: Area, line: u16, width: usize, viewport: u16) -> (r: (u16, u16))
    ensures
        (r.0 as int, r.1 as int) == cursor_cell(area, line as int, width as int, viewport as int),
{
    let shown = (width % 0x1_0000) as u16;
    let right = area.x.saturating_add(area.width).saturating_sub(2);
    let bottom = area.y.saturating_add(area.height).saturating_sub(2);
    let x = area.x.saturating_add(1).saturating_add(shown);
    let y = area.y.saturating_add(1).saturating_add(line).saturating_sub(viewport);
    (
        if x <= right {
            x
        } else {
            right
        },
        if y <= bottom {
            y
        } else {
            bottom
        },
    )
}

/// The cell of the cursor of an edit in a pane with a border.
pub fn edit_cursor(area: Area, edit: &EditSession) -> (r: (u16, u16))
    requires
        edit.current_target matches EditorTarget::ListItem { item_index, .. } ==> item_index
            < usize::MAX,
    ensures
        (r.0 as int, r.1 as int) == cursor_cell(
            area,
            before_cursor(edit@).0,
            display_width(before_cursor(edit@).1) as int,
            edit.viewport as int,
        ),
{
    let (line, before) = text_before_cursor(edit);
    let width = text_width(before.as_str());
    cursor_position(area, line, width, edit.viewport)
}

/// The text of the pane of an edit.
pub open spec fn edit_text(e: EditModel) -> Seq<char> {
    "Title: "@ + e.title + "\n\nBody:\n"@ + document_text(e.document, e.target) + "\n\nEditing "@ + (
    match e.field {
        EditField::Title => "Title"@,
        EditField::Body => "Body"@,
    })
        + " | Tab fields | Ctrl-b/i/u style | Ctrl-k link | Ctrl-d delete unit\nAlt-j/k unit | Alt-1/2/3/p/b/n/q/c structure"@
}

/// The text of the pane of an edit.
pub fn editor_text(edit: &EditSession) -> (r: String)
    ensures
        r@ == edit_text(edit@),
{
    let body = editor_blocks(&edit.document, edit.current_target);
    let field = match edit.field {
        EditField::Title => "Title",
        EditField::Body => "Body",
    };
    let top = cat3("Title: ", edit.title_buffer.as_str(), "\n\nBody:\n");
    let middle = cat3(top.as_str(), body.as_str(), "\n\nEditing ");
    cat3(
        middle.as_str(),
        field,
        " | Tab fields | Ctrl-b/i/u style | Ctrl-k link | Ctrl-d delete unit\nAlt-j/k unit | Alt-1/2/3/p/b/n/q/c structure",
    )
}

} // verus!
