//! The preview of a note: its data, its body, its attachments, line by line.

use vstd::prelude::*;

use crate::document::{
    items_of, runs_of, Block, Inline, LineForm, ListItem, ListKind, Mark, Piece, RichDocument, Run,
};
use crate::edit::{strip_notes_title_block, without_title};
use crate::model::{AttachmentSummary, Note};
use crate::text;
use crate::text::{cat, cat3, decimal_text, owned, text_lines};

verus! {

/// How a piece of text is shown.
#[derive(Clone, Copy, Debug, PartialEq, Eq, Structural)]
pub struct TextStyle {
    pub bold: bool,
    pub italic: bool,
    pub underlined: bool,
    pub crossed_out: bool,
}

pub open spec fn plain_style() -> TextStyle {
    TextStyle { bold: false, italic: false, underlined: false, crossed_out: false }
}

impl TextStyle {
    pub fn plain() -> (r: Self)
        ensures
            r == plain_style(),
    {
        TextStyle { bold: false, italic: false, underlined: false, crossed_out: false }
    }
}

/// A piece of text in one style.
#[derive(Debug, PartialEq, Eq)]
pub struct StyledSpan {
    pub content: String,
    pub style: TextStyle,
}

/// One line of a preview: a text as it is, or pieces in styles.
#[derive(Debug, PartialEq, Eq)]
pub enum PreviewLine {
    Plain(String),
    Spans(Vec<StyledSpan>),
}

/// The model of a piece of text.
#[verifier::ext_equal]
pub ghost struct Span {
    pub content: Seq<char>,
    pub style: TextStyle,
}

impl View for StyledSpan {
    type V = Span;

    open spec fn view(&self) -> Span {
        Span { content: self.content@, style: self.style }
    }
}

/// The model of a line of a preview.
pub ghost enum ShownLine {
    Plain(Seq<char>),
    Spans(Seq<Span>),
}

pub open spec fn spans_of(v: Seq<StyledSpan>) -> Seq<Span> {
    Seq::new(v.len(), |i: int| v[i]@)
}

impl View for PreviewLine {
    type V = ShownLine;

    open spec fn view(&self) -> ShownLine {
        match *self {
            PreviewLine::Plain(s) => ShownLine::Plain(s@),
            PreviewLine::Spans(v) => ShownLine::Spans(spans_of(v@)),
        }
    }
}

pub open spec fn shown(v: Seq<PreviewLine>) -> Seq<ShownLine> {
    Seq::new(v.len(), |i: int| v[i]@)
}

proof fn lemma_shown_push(v: Seq<PreviewLine>, line: PreviewLine)
    ensures
        shown(v.push(line)) == shown(v).push(line@),
{
    assert(shown(v.push(line)) =~= shown(v).push(line@));
}

proof fn lemma_spans_push(v: Seq<StyledSpan>, span: StyledSpan)
    ensures
        spans_of(v.push(span)) == spans_of(v).push(span@),
{
    assert(spans_of(v.push(span)) =~= spans_of(v).push(span@));
}

// ---------------------------------------------------------------------------
// Rich text
// ---------------------------------------------------------------------------

/// A style with the mark of a group of runs.
pub open spec fn with_mark(style: TextStyle, mark: Mark) -> TextStyle {
    match mark {
        Mark::Bold => TextStyle { bold: true, ..style },
        Mark::Italic => TextStyle { italic: true, ..style },
        Mark::Underline => TextStyle { underlined: true, ..style },
        Mark::Strikethrough => TextStyle { crossed_out: true, ..style },
    }
}

/// The pieces of a run: its texts, each in the styles of all groups around it. A link
/// is underlined.
pub open spec fn run_spans(r: Run, style: TextStyle) -> Seq<Span>
    decreases r,
{
    match r {
        Run::Text(s) => seq![Span { content: s, style }],
        Run::Styled(mark, c) => runs_spans(c, with_mark(style, mark)),
        Run::Link(c, _) => runs_spans(c, TextStyle { underlined: true, ..style }),
    }
}

/// The pieces of a line of runs.
pub open spec fn runs_spans(s: Seq<Run>, style: TextStyle) -> Seq<Span>
    decreases s,
{
    if s.len() == 0 {
        seq![]
    } else {
        run_spans(s[0], style) + runs_spans(s.drop_first(), style)
    }
}

proof fn lemma_runs_spans_push(s: Seq<Run>, r: Run, style: TextStyle)
    ensures
        runs_spans(s.push(r), style) == runs_spans(s, style) + run_spans(r, style),
    decreases s.len(),
{
    reveal_with_fuel(runs_spans, 2);
    if s.len() == 0 {
        assert(s.push(r).drop_first() =~= Seq::<Run>::empty());
        assert(run_spans(r, style) + Seq::<Span>::empty() =~= Seq::<Span>::empty() + run_spans(
            r,
            style,
        ));
    } else {
        assert(s.push(r).drop_first() =~= s.drop_first().push(r));
        lemma_runs_spans_push(s.drop_first(), r, style);
        assert(run_spans(s[0], style) + (runs_spans(s.drop_first(), style) + run_spans(r, style))
            =~= run_spans(s[0], style) + runs_spans(s.drop_first(), style) + run_spans(r, style));
    }
}

fn push_inline_spans(inlines: &Vec<Inline>, style: TextStyle, out: &mut Vec<StyledSpan>)
    ensures
        spans_of(final(out)@) == spans_of(old(out)@) + runs_spans(runs_of(inlines@), style),
    decreases inlines,
{
    let ghost before = spans_of(out@);
    let ghost all = runs_of(inlines@);
    let mut i: usize = 0;
    proof {
        assert(all.take(0) =~= Seq::<Run>::empty());
        assert(before + Seq::<Span>::empty() =~= before);
    }
    while i < inlines.len()
        invariant
            i <= inlines@.len(),
            all == runs_of(inlines@),
            spans_of(out@) == before + runs_spans(all.take(i as int), style),
        decreases inlines@.len() - i,
    {
        let item = &inlines[i];
        assert(decreases_to!(inlines => inlines@[i as int]));
        let ghost prior = spans_of(out@);
        match item {
            Inline::Text(value) => {
                let span = StyledSpan { content: value.clone(), style };
                proof {
                    lemma_spans_push(out@, span);
                    assert(prior.push(span@) =~= prior + seq![span@]);
                }
                out.push(span);
            },
            Inline::Bold(children) => push_inline_spans(
                children,
                TextStyle { bold: true, ..style },
                out,
            ),
            Inline::Italic(children) => push_inline_spans(
                children,
                TextStyle { italic: true, ..style },
                out,
            ),
            Inline::Underline(children) => push_inline_spans(
                children,
                TextStyle { underlined: true, ..style },
                out,
            ),
            Inline::Strikethrough(children) => push_inline_spans(
                children,
                TextStyle { crossed_out: true, ..style },
                out,
            ),
            Inline::Link { label, .. } => push_inline_spans(
                label,
                TextStyle { underlined: true, ..style },
                out,
            ),
        }
        proof {
            assert(spans_of(out@) == prior + run_spans(all[i as int], style));
            lemma_runs_spans_push(all.take(i as int), all[i as int], style);
            assert(all.take(i + 1) =~= all.take(i as int).push(all[i as int]));
            assert(before + runs_spans(all.take(i as int), style) + run_spans(
                all[i as int],
                style,
            ) =~= before + (runs_spans(all.take(i as int), style) + run_spans(
                all[i as int],
                style,
            )));
        }
        i = i + 1;
    }
    assert(all.take(inlines@.len() as int) =~= all);
}

/// The pieces of a line of runs.
pub fn inline_spans(inlines: &Vec<Inline>, style: TextStyle) -> (r: Vec<StyledSpan>)
    ensures
        spans_of(r@) == runs_spans(runs_of(inlines@), style),
{
    let mut out: Vec<StyledSpan> = Vec::new();
    push_inline_spans(inlines, style, &mut out);
    assert(Seq::<Span>::empty() + runs_spans(runs_of(inlines@), style) =~= runs_spans(
        runs_of(inlines@),
        style,
    ));
    assert(spans_of(Seq::<StyledSpan>::empty()) =~= Seq::<Span>::empty());
    out
}

/// A line of runs behind a text.
pub open spec fn led_line(lead: Seq<char>, runs: Seq<Run>) -> ShownLine {
    ShownLine::Spans(
        seq![Span { content: lead, style: plain_style() }] + runs_spans(runs, plain_style()),
    )
}

fn make_led_line(lead: String, inlines: &Vec<Inline>) -> (r: PreviewLine)
    ensures
        r@ == led_line(lead@, runs_of(inlines@)),
{
    let mut out: Vec<StyledSpan> = Vec::new();
    let first = StyledSpan { content: lead, style: TextStyle::plain() };
    let ghost head = first@;
    out.push(first);
    assert(spans_of(out@) =~= seq![head]);
    push_inline_spans(inlines, TextStyle::plain(), &mut out);
    PreviewLine::Spans(out)
}

/// What stands in front of an item of a list.
pub open spec fn item_lead(kind: ListKind, i: int) -> Seq<char> {
    match kind {
        ListKind::Bullet => "• "@,
        ListKind::Numbered => text::decimal((i + 1) as nat) + ". "@,
    }
}

/// The lines of a block.
pub open spec fn piece_lines(p: Piece) -> Seq<ShownLine> {
    match p {
        Piece::Line(LineForm::Paragraph, runs) => seq![
            ShownLine::Spans(runs_spans(runs, plain_style())),
        ],
        Piece::Line(LineForm::Quote, runs) => seq![led_line("> "@, runs)],
        Piece::Line(_, runs) => seq![
            ShownLine::Spans(runs_spans(runs, TextStyle { bold: true, ..plain_style() })),
        ],
        Piece::Code(s) => Seq::new(
            text::lines(s).len(),
            |i: int| ShownLine::Plain("    "@ + text::lines(s)[i]),
        ),
        Piece::List(kind, items) => Seq::new(
            items.len(),
            |i: int| led_line(item_lead(kind, i), items[i]),
        ),
    }
}

/// The lines of the first `n` blocks.
pub open spec fn rich_lines_upto(doc: Seq<Piece>, n: nat) -> Seq<ShownLine>
    decreases n,
{
    if n == 0 {
        seq![]
    } else {
        rich_lines_upto(doc, (n - 1) as nat) + piece_lines(doc[n - 1])
    }
}

/// The lines of a document.
pub open spec fn rich_lines(doc: Seq<Piece>) -> Seq<ShownLine> {
    rich_lines_upto(doc, doc.len())
}

fn push_code_lines(code: &str, out: &mut Vec<PreviewLine>)
    ensures
        shown(final(out)@) == shown(old(out)@) + piece_lines(Piece::Code(code@)),
{
    let lines = text_lines(code);
    let ghost all = text::lines(code@);
    let ghost want = piece_lines(Piece::Code(code@));
    let ghost before = shown(out@);
    let mut i: usize = 0;
    assert(before + want.take(0) =~= before);
    while i < lines.len()
        invariant
            i <= lines@.len(),
            all == text::texts(lines@),
            want == piece_lines(Piece::Code(code@)),
            all == text::lines(code@),
            shown(out@) == before + want.take(i as int),
        decreases lines@.len() - i,
    {
        let line = PreviewLine::Plain(cat("    ", lines[i].as_str()));
        proof {
            lemma_shown_push(out@, line);
            assert(all[i as int] == lines@[i as int]@);
            assert(line@ == want[i as int]);
            assert((before + want.take(i as int)).push(line@) =~= before + want.take(i + 1));
        }
        out.push(line);
        i = i + 1;
    }
    assert(want.take(i as int) =~= want);
}

fn push_item_lines(kind: ListKind, items: &Vec<ListItem>, out: &mut Vec<PreviewLine>)
    ensures
        shown(final(out)@) == shown(old(out)@) + piece_lines(Piece::List(kind, items_of(items@))),
{
    let ghost want = piece_lines(Piece::List(kind, items_of(items@)));
    let ghost before = shown(out@);
    let mut i: usize = 0;
    assert(before + want.take(0) =~= before);
    while i < items.len()
        invariant
            i <= items@.len(),
            want == piece_lines(Piece::List(kind, items_of(items@))),
            shown(out@) == before + want.take(i as int),
        decreases items@.len() - i,
    {
        let lead = match kind {
            ListKind::Bullet => owned("• "),
            ListKind::Numbered => {
                let number = decimal_text((i + 1) as u64);
                cat(number.as_str(), ". ")
            },
        };
        let line = make_led_line(lead, &items[i].content);
        proof {
            lemma_shown_push(out@, line);
            assert(items_of(items@)[i as int] == runs_of(items@[i as int].content@));
            assert(line@ == want[i as int]);
            assert((before + want.take(i as int)).push(line@) =~= before + want.take(i + 1));
        }
        out.push(line);
        i = i + 1;
    }
    assert(want.take(i as int) =~= want);
}

fn push_line(out: &mut Vec<PreviewLine>, line: PreviewLine)
    ensures
        shown(final(out)@) == shown(old(out)@) + seq![line@],
{
    proof {
        lemma_shown_push(out@, line);
        assert(shown(out@).push(line@) =~= shown(out@) + seq![line@]);
    }
    out.push(line);
}

fn push_block_lines(block: &Block, out: &mut Vec<PreviewLine>)
    ensures
        shown(final(out)@) == shown(old(out)@) + piece_lines(block@),
{
    match block {
        Block::Paragraph(inlines) => push_line(
            out,
            PreviewLine::Spans(inline_spans(inlines, TextStyle::plain())),
        ),
        Block::Heading1(inlines) => push_line(
            out,
            PreviewLine::Spans(
                inline_spans(inlines, TextStyle { bold: true, ..TextStyle::plain() }),
            ),
        ),
        Block::Heading2(inlines) => push_line(
            out,
            PreviewLine::Spans(
                inline_spans(inlines, TextStyle { bold: true, ..TextStyle::plain() }),
            ),
        ),
        Block::Heading3(inlines) => push_line(
            out,
            PreviewLine::Spans(
                inline_spans(inlines, TextStyle { bold: true, ..TextStyle::plain() }),
            ),
        ),
        Block::Quote(inlines) => push_line(out, make_led_line(owned("> "), inlines)),
        Block::CodeBlock(code) => push_code_lines(code.as_str(), out),
        Block::BulletList(items) => push_item_lines(ListKind::Bullet, items, out),
        Block::NumberedList(items) => push_item_lines(ListKind::Numbered, items, out),
    }
}

fn push_rich_lines(document: &RichDocument, out: &mut Vec<PreviewLine>)
    ensures
        shown(final(out)@) == shown(old(out)@) + rich_lines(document@),
{
    let ghost before = shown(out@);
    let mut i: usize = 0;
    assert(before + Seq::<ShownLine>::empty() =~= before);
    while i < document.blocks.len()
        invariant
            i <= document.blocks@.len(),
            shown(out@) == before + rich_lines_upto(document@, i as nat),
        decreases document.blocks@.len() - i,
    {
        assert(document@[i as int] == document.blocks@[i as int]@);
        push_block_lines(&document.blocks[i], out);
        proof {
            assert(before + rich_lines_upto(document@, i as nat) + piece_lines(document@[i as int])
                =~= before + (rich_lines_upto(document@, i as nat) + piece_lines(
                document@[i as int],
            )));
        }
        i = i + 1;
    }
}

/// The lines of a document.
pub fn rich_preview_lines(document: &RichDocument) -> (r: Vec<PreviewLine>)
    ensures
        shown(r@) == rich_lines(document@),
{
    let mut out: Vec<PreviewLine> = Vec::new();
    assert(shown(out@) =~= Seq::<ShownLine>::empty());
    push_rich_lines(document, &mut out);
    assert(Seq::<ShownLine>::empty() + rich_lines(document@) =~= rich_lines(document@));
    out
}

// ---------------------------------------------------------------------------
// A note
// ---------------------------------------------------------------------------

pub open spec fn truth_text(b: bool) -> Seq<char> {
    if b {
        "true"@
    } else {
        "false"@
    }
}

pub fn truth(b: bool) -> (r: &'static str)
    ensures
        r@ == truth_text(b),
{
    if b {
        "true"
    } else {
        "false"
    }
}

/// The name that an attachment is shown under.
pub open spec fn attachment_name(a: AttachmentSummary) -> Seq<char> {
    if a.display_name@.len() == 0 {
        "Attachment "@ + a.id@
    } else {
        a.display_name@
    }
}

pub fn attachment_display_name(attachment: &AttachmentSummary) -> (r: String)
    ensures
        r@ == attachment_name(*attachment),
{
    if attachment.display_name.as_str().is_empty() {
        cat("Attachment ", attachment.id.as_str())
    } else {
        attachment.display_name.clone()
    }
}

pub open spec fn lock_text(note: Note) -> Seq<char> {
    if note.summary.password_protected {
        "[locked] Password protected"@
    } else {
        "Unlocked"@
    }
}

/// The lines on top of a preview.
pub open spec fn note_head(note: Note) -> Seq<ShownLine> {
    let s = note.summary;
    seq![
        ShownLine::Spans(
            seq![Span { content: s.name@, style: TextStyle { bold: true, ..plain_style() } }],
        ),
        ShownLine::Plain("Folder: "@ + s.folder_id@ + " | Account: "@ + note.account_id@),
        ShownLine::Plain("Created: "@ + s.creation_date@),
        ShownLine::Plain("Modified: "@ + s.modification_date@),
        ShownLine::Plain(
            "Shared: "@ + truth_text(s.shared) + " | "@ + lock_text(note) + " | Attachments: "@
                + text::decimal(s.attachment_count as nat),
        ),
        ShownLine::Plain(""@),
    ]
}

/// The lines of the body: its rich text without the title, or its plain text where the
/// body could not be read.
pub open spec fn note_body(note: Note) -> Seq<ShownLine> {
    match note.body {
        Ok(doc) => rich_lines(without_title(doc@, note.summary.name@)),
        Err(_) => seq![ShownLine::Plain(note.plaintext@)],
    }
}

pub open spec fn attachment_line(a: AttachmentSummary, metadata: bool) -> ShownLine {
    if metadata {
        ShownLine::Plain(
            "• "@ + attachment_name(a) + " ["@ + a.kind_label@ + "] — preview "@ + a.preview_label@,
        )
    } else {
        ShownLine::Plain("• "@ + attachment_name(a))
    }
}

/// The lines of the attachments, where there are any.
pub open spec fn note_attachments(note: Note, metadata: bool) -> Seq<ShownLine> {
    if note.attachments@.len() == 0 {
        seq![]
    } else {
        seq![
            ShownLine::Plain(""@),
            ShownLine::Spans(
                seq![
                    Span {
                        content: "Attachments"@,
                        style: TextStyle { bold: true, ..plain_style() },
                    },
                ],
            ),
        ] + Seq::new(
            note.attachments@.len(),
            |i: int| attachment_line(note.attachments@[i], metadata),
        )
    }
}

/// The preview of a note.
pub open spec fn preview_lines(note: Note, metadata: bool) -> Seq<ShownLine> {
    note_head(note) + note_body(note) + note_attachments(note, metadata)
}

fn bold_line(content: String) -> (r: PreviewLine)
    ensures
        r@ == ShownLine::Spans(
            seq![Span { content: content@, style: TextStyle { bold: true, ..plain_style() } }],
        ),
{
    let mut spans: Vec<StyledSpan> = Vec::new();
    spans.push(StyledSpan { content, style: TextStyle { bold: true, ..TextStyle::plain() } });
    assert(spans_of(spans@) =~= seq![
        Span { content: content@, style: TextStyle { bold: true, ..plain_style() } },
    ]);
    PreviewLine::Spans(spans)
}

fn push_head(note: &Note, out: &mut Vec<PreviewLine>)
    ensures
        shown(final(out)@) == shown(old(out)@) + note_head(*note),
{
    let ghost before = shown(out@);
    let s = &note.summary;
    push_line(out, bold_line(s.name.clone()));
    let folder = cat3("Folder: ", s.folder_id.as_str(), " | Account: ");
    push_line(out, PreviewLine::Plain(cat(folder.as_str(), note.account_id.as_str())));
    push_line(out, PreviewLine::Plain(cat("Created: ", s.creation_date.as_str())));
    push_line(out, PreviewLine::Plain(cat("Modified: ", s.modification_date.as_str())));
    let lock = if s.password_protected {
        "[locked] Password protected"
    } else {
        "Unlocked"
    };
    let shared = cat3("Shared: ", truth(s.shared), " | ");
    let locked = cat3(shared.as_str(), lock, " | Attachments: ");
    let count = decimal_text(s.attachment_count as u64);
    push_line(out, PreviewLine::Plain(cat(locked.as_str(), count.as_str())));
    push_line(out, PreviewLine::Plain(owned("")));
    assert(shown(out@) =~= before + note_head(*note));
}

fn push_attachments(note: &Note, metadata: bool, out: &mut Vec<PreviewLine>)
    ensures
        shown(final(out)@) == shown(old(out)@) + note_attachments(*note, metadata),
{
    let ghost before = shown(out@);
    if note.attachments.len() == 0 {
        assert(before + note_attachments(*note, metadata) =~= before);
        return;
    }
    push_line(out, PreviewLine::Plain(owned("")));
    push_line(out, bold_line(owned("Attachments")));
    let ghost want = note_attachments(*note, metadata);
    assert(shown(out@) =~= before + want.take(2));
    let mut i: usize = 0;
    while i < note.attachments.len()
        invariant
            i <= note.attachments@.len(),
            note.attachments@.len() > 0,
            want == note_attachments(*note, metadata),
            shown(out@) == before + want.take(i + 2),
        decreases note.attachments@.len() - i,
    {
        let a = &note.attachments[i];
        let name = attachment_display_name(a);
        let shown_name = cat("• ", name.as_str());
        let line = if metadata {
            let kind = cat3(shown_name.as_str(), " [", a.kind_label.as_str());
            cat3(kind.as_str(), "] — preview ", a.preview_label.as_str())
        } else {
            shown_name
        };
        let line = PreviewLine::Plain(line);
        proof {
            assert(line@ == attachment_line(note.attachments@[i as int], metadata));
            assert(want[i + 2] == line@);
            assert(want.take(i + 3) =~= want.take(i + 2) + seq![line@]);
            assert(before + want.take(i + 2) + seq![line@] =~= before + (want.take(i + 2) + seq![
                line@,
            ]));
        }
        push_line(out, line);
        i = i + 1;
    }
    assert(want.take(i + 2) =~= want);
}

/// The preview of a note.
pub fn preview_text(note: &Note, show_attachment_metadata: bool) -> (r: Vec<PreviewLine>)
    ensures
        shown(r@) == preview_lines(*note, show_attachment_metadata),
{
    let mut out: Vec<PreviewLine> = Vec::new();
    assert(shown(out@) =~= Seq::<ShownLine>::empty());
    push_head(note, &mut out);
    match &note.body {
        Ok(body) => {
            let mut document = body.clone();
            strip_notes_title_block(&mut document, note.summary.name.as_str());
            push_rich_lines(&document, &mut out);
        },
        Err(_) => push_line(&mut out, PreviewLine::Plain(note.plaintext.clone())),
    }
    push_attachments(note, show_attachment_metadata, &mut out);
    assert(Seq::<ShownLine>::empty() + note_head(*note) + note_body(*note) + note_attachments(
        *note,
        show_attachment_metadata,
    ) =~= preview_lines(*note, show_attachment_metadata));
    out
}

/// The last line that a preview can be scrolled to.
pub open spec fn scroll_limit(lines: nat) -> u16 {
    if lines == 0 {
        0
    } else if lines - 1 > u16::MAX {
        u16::MAX
    } else {
        (lines - 1) as u16
    }
}

} // verus!
