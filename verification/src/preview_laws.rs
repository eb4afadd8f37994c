//! What the preview shows of a note.

use vstd::prelude::*;

use crate::document::{LineForm, ListKind, Mark, Piece, Run};
use crate::edit::without_title;
use crate::model::Note;
use crate::preview::{
    attachment_line, attachment_name, item_lead, led_line, note_attachments, note_body, note_head,
    piece_lines, plain_style, preview_lines, rich_lines, rich_lines_upto, run_spans, runs_spans,
    ShownLine, Span, TextStyle,
};
use crate::rich_text_laws::{glyph, run_glyphs, runs_glyphs, text_glyphs, Glyph, Wrap};
use crate::text;

verus! {

// ---------------------------------------------------------------------------
// Styles
// ---------------------------------------------------------------------------

/// A character as it is shown.
#[verifier::ext_equal]
pub ghost struct ShownChar {
    pub ch: char,
    pub style: TextStyle,
}

pub open spec fn shown_char(ch: char, style: TextStyle) -> ShownChar {
    ShownChar { ch, style }
}

/// The characters of pieces of text, one after the other.
pub open spec fn shown_chars(spans: Seq<Span>) -> Seq<ShownChar>
    decreases spans.len(),
{
    if spans.len() == 0 {
        seq![]
    } else {
        shown_chars(spans.drop_last()) + Seq::new(
            spans.last().content.len(),
            |i: int| shown_char(spans.last().content[i], spans.last().style),
        )
    }
}

/// Whether a character stands in a style.
pub open spec fn stands_in(g: Glyph, mark: Mark) -> bool {
    g.wraps.contains(Wrap::Style(mark))
}

/// Whether a character stands in a link.
pub open spec fn is_linked(g: Glyph) -> bool {
    exists|k: int| 0 <= k < g.wraps.len() && (#[trigger] g.wraps[k]) is Link
}

/// Whether a style is that of a character: it has each style that the character stands
/// in, a link is underlined, and what was there before stays.
pub open spec fn style_fits(style: TextStyle, g: Glyph, outer: TextStyle) -> bool {
    &&& style.bold <==> outer.bold || stands_in(g, Mark::Bold)
    &&& style.italic <==> outer.italic || stands_in(g, Mark::Italic)
    &&& style.underlined <==> outer.underlined || stands_in(g, Mark::Underline) || is_linked(g)
    &&& style.crossed_out <==> outer.crossed_out || stands_in(g, Mark::Strikethrough)
}

/// Whether characters are shown as they stand in a line.
pub open spec fn shown_right(all: Seq<ShownChar>, line: Seq<Glyph>, outer: TextStyle) -> bool {
    &&& all.len() == line.len()
    &&& forall|i: int|
        0 <= i < line.len() ==> (#[trigger] all[i]).ch == line[i].ch && style_fits(
            all[i].style,
            line[i],
            outer,
        )
}

proof fn lemma_shown_chars_add(a: Seq<Span>, b: Seq<Span>)
    ensures
        shown_chars(a + b) == shown_chars(a) + shown_chars(b),
    decreases b.len(),
{
    if b.len() == 0 {
        assert(a + b =~= a);
        assert(shown_chars(a) + shown_chars(b) =~= shown_chars(a));
    } else {
        lemma_shown_chars_add(a, b.drop_last());
        assert((a + b).drop_last() =~= a + b.drop_last());
        assert((a + b).last() == b.last());
        assert(shown_chars(a + b) =~= shown_chars(a) + shown_chars(b));
    }
}

/// The style that a group has, from the styles around it and its own.
pub open spec fn style_within(style: TextStyle, w: Wrap) -> TextStyle {
    TextStyle {
        bold: style.bold || w == Wrap::Style(Mark::Bold),
        italic: style.italic || w == Wrap::Style(Mark::Italic),
        underlined: style.underlined || w == Wrap::Style(Mark::Underline) || w is Link,
        crossed_out: style.crossed_out || w == Wrap::Style(Mark::Strikethrough),
    }
}

/// What characters stand in is what the group stands in, and what is around it.
proof fn lemma_style_steps(inner: Seq<Glyph>, full: Seq<Glyph>, w: Wrap, style: TextStyle, all: Seq<
    ShownChar,
>)
    requires
        shown_right(all, inner, style_within(style, w)),
        full.len() == inner.len(),
        forall|i: int|
            0 <= i < inner.len() ==> #[trigger] full[i] == glyph(
                inner[i].ch,
                seq![w] + inner[i].wraps,
            ),
    ensures
        shown_right(all, full, style),
{
    assert forall|i: int| 0 <= i < full.len() implies (#[trigger] all[i]).ch == full[i].ch
        && style_fits(all[i].style, full[i], style) by {
        let g = inner[i];
        let h = full[i];
        assert(h == glyph(g.ch, seq![w] + g.wraps));
        assert(h.wraps[0] == w);
        assert forall|mark: Mark| #[trigger] stands_in(h, mark) <==> (w == Wrap::Style(mark)
            || stands_in(g, mark)) by {
            let x = Wrap::Style(mark);
            if g.wraps.contains(x) {
                let k = choose|k: int| 0 <= k < g.wraps.len() && g.wraps[k] == x;
                assert(h.wraps[k + 1] == x);
            }
            if h.wraps.contains(x) {
                let k = choose|k: int| 0 <= k < h.wraps.len() && h.wraps[k] == x;
                if k > 0 {
                    assert(g.wraps[k - 1] == x);
                }
            }
        }
        assert(is_linked(h) <==> (w is Link || is_linked(g))) by {
            if is_linked(g) {
                let k = choose|k: int| 0 <= k < g.wraps.len() && (#[trigger] g.wraps[k]) is Link;
                assert(h.wraps[k + 1] is Link);
            }
            if is_linked(h) {
                let k = choose|k: int| 0 <= k < h.wraps.len() && (#[trigger] h.wraps[k]) is Link;
                if k > 0 {
                    assert(g.wraps[k - 1] is Link);
                }
            }
        }
        assert(stands_in(h, Mark::Bold) <==> (w == Wrap::Style(Mark::Bold) || stands_in(
            g,
            Mark::Bold,
        )));
        assert(stands_in(h, Mark::Italic) <==> (w == Wrap::Style(Mark::Italic) || stands_in(
            g,
            Mark::Italic,
        )));
        assert(stands_in(h, Mark::Underline) <==> (w == Wrap::Style(Mark::Underline) || stands_in(
            g,
            Mark::Underline,
        )));
        assert(stands_in(h, Mark::Strikethrough) <==> (w == Wrap::Style(Mark::Strikethrough)
            || stands_in(g, Mark::Strikethrough)));
    }
}

proof fn lemma_run_shown(r: Run, style: TextStyle)
    ensures
        shown_right(shown_chars(run_spans(r, style)), run_glyphs(r, seq![]), style),
    decreases r,
{
    match r {
        Run::Text(s) => {
            let spans = run_spans(r, style);
            reveal_with_fuel(shown_chars, 2);
            assert(spans.drop_last() =~= Seq::<Span>::empty());
            assert(spans.last() == (Span { content: s, style }));
            let all = shown_chars(spans);
            let line = run_glyphs(r, seq![]);
            assert(line == text_glyphs(s, seq![]));
            assert forall|i: int| 0 <= i < line.len() implies (#[trigger] all[i]).ch == line[i].ch
                && style_fits(all[i].style, line[i], style) by {
                assert(all[i] == shown_char(s[i], style));
                assert(line[i] == glyph(s[i], seq![]));
            }
        },
        Run::Styled(mark, c) => {
            let w = Wrap::Style(mark);
            let inner = style_within(style, w);
            lemma_line_shown(c, inner);
            assert(Seq::<Wrap>::empty().push(w) =~= seq![w]);
            crate::rich_text_laws::lemma_wrapped_line(c, w);
            assert(run_spans(r, style) == runs_spans(c, inner));
            lemma_style_steps(
                runs_glyphs(c, seq![]),
                run_glyphs(r, seq![]),
                w,
                style,
                shown_chars(run_spans(r, style)),
            );
        },
        Run::Link(c, href) => {
            let w = Wrap::Link(href);
            let inner = style_within(style, w);
            lemma_line_shown(c, inner);
            assert(Seq::<Wrap>::empty().push(w) =~= seq![w]);
            crate::rich_text_laws::lemma_wrapped_line(c, w);
            assert(run_spans(r, style) == runs_spans(c, inner));
            lemma_style_steps(
                runs_glyphs(c, seq![]),
                run_glyphs(r, seq![]),
                w,
                style,
                shown_chars(run_spans(r, style)),
            );
        },
    }
}

proof fn lemma_line_shown(s: Seq<Run>, style: TextStyle)
    ensures
        shown_right(shown_chars(runs_spans(s, style)), runs_glyphs(s, seq![]), style),
    decreases s,
{
    if s.len() > 0 {
        assert(decreases_to!(s => s[0]));
        let a = run_spans(s[0], style);
        let b = runs_spans(s.drop_first(), style);
        lemma_run_shown(s[0], style);
        lemma_line_shown(s.drop_first(), style);
        lemma_shown_chars_add(a, b);
        let x = shown_chars(a);
        let y = shown_chars(b);
        let g = run_glyphs(s[0], seq![]);
        let h = runs_glyphs(s.drop_first(), seq![]);
        assert forall|i: int| 0 <= i < (g + h).len() implies (#[trigger] (x + y)[i]).ch == (g
            + h)[i].ch && style_fits((x + y)[i].style, (g + h)[i], style) by {
            if i < x.len() {
                assert((x + y)[i] == x[i]);
            } else {
                assert((x + y)[i] == y[i - x.len()]);
            }
        }
    }
}

/// Every character of a line is shown, in order and once, in the styles that it stands in
/// and in no other; a link is underlined.
pub proof fn law_characters_are_shown_in_their_styles(runs: Seq<Run>, style: TextStyle)
    ensures
        shown_right(shown_chars(runs_spans(runs, style)), runs_glyphs(runs, seq![]), style),
{
    lemma_line_shown(runs, style);
}

// ---------------------------------------------------------------------------
// Lines
// ---------------------------------------------------------------------------

/// Whether a line is shown as a text of its own without any style, followed by the
/// characters of `runs` in their styles.
pub open spec fn led_by(line: ShownLine, lead: Seq<char>, runs: Seq<Run>) -> bool {
    &&& line is Spans
    &&& line->Spans_0.len() > 0
    &&& line->Spans_0[0] == (Span { content: lead, style: plain_style() })
    &&& shown_right(
        shown_chars(line->Spans_0.drop_first()),
        runs_glyphs(runs, seq![]),
        plain_style(),
    )
}

proof fn lemma_led_line(lead: Seq<char>, runs: Seq<Run>)
    ensures
        led_by(led_line(lead, runs), lead, runs),
{
    let line = led_line(lead, runs);
    assert(line->Spans_0.drop_first() =~= runs_spans(runs, plain_style()));
    lemma_line_shown(runs, plain_style());
}

/// The items of a numbered list are shown one line each, in order, each behind its number
/// and a full stop; the numbers count on by one from one.
pub proof fn law_numbered_items_count_from_one(items: Seq<Seq<Run>>, i: int)
    requires
        0 <= i < items.len(),
    ensures
        piece_lines(Piece::List(ListKind::Numbered, items)).len() == items.len(),
        ({
            let line = piece_lines(Piece::List(ListKind::Numbered, items))[i];
            let lead = line->Spans_0[0].content;
            let digits = lead.take(lead.len() - 2);
            &&& led_by(line, lead, items[i])
            &&& lead.len() > 2
            &&& lead[lead.len() - 2] == '.'
            &&& lead[lead.len() - 1] == ' '
            &&& text::all_digits(digits)
            &&& text::digits_value(digits) == i + 1
        }),
{
    reveal_strlit(". ");
    let lead = item_lead(ListKind::Numbered, i);
    lemma_led_line(lead, items[i]);
    text::lemma_decimal_value((i + 1) as nat);
    assert(lead.take(lead.len() - 2) =~= text::decimal((i + 1) as nat));
}

/// The items of a bulleted list are shown one line each, in order, each behind a bullet.
pub proof fn law_bulleted_items_have_bullets(items: Seq<Seq<Run>>, i: int)
    requires
        0 <= i < items.len(),
    ensures
        piece_lines(Piece::List(ListKind::Bullet, items)).len() == items.len(),
        led_by(piece_lines(Piece::List(ListKind::Bullet, items))[i], seq!['•', ' '], items[i]),
{
    reveal_strlit("• ");
    assert("• "@ =~= seq!['•', ' ']);
    lemma_led_line("• "@, items[i]);
}

/// A quote is one line behind a mark. A paragraph is one line, with the styles of its
/// characters; a heading is one line, all of it bold besides.
pub proof fn law_lines_are_shown_by_their_form(form: LineForm, runs: Seq<Run>)
    ensures
        piece_lines(Piece::Line(form, runs)).len() == 1,
        ({
            let line = piece_lines(Piece::Line(form, runs))[0];
            let all = shown_chars(line->Spans_0);
            &&& form is Quote ==> led_by(line, seq!['>', ' '], runs)
            &&& form is Paragraph ==> line is Spans && shown_right(
                all,
                runs_glyphs(runs, seq![]),
                plain_style(),
            )
            &&& (form is Heading1 || form is Heading2 || form is Heading3) ==> line is Spans
                && shown_right(
                all,
                runs_glyphs(runs, seq![]),
                TextStyle { bold: true, ..plain_style() },
            )
        }),
{
    reveal_strlit("> ");
    assert("> "@ =~= seq!['>', ' ']);
    lemma_led_line("> "@, runs);
    lemma_line_shown(runs, plain_style());
    lemma_line_shown(runs, TextStyle { bold: true, ..plain_style() });
}

/// Code is shown line by line, each behind four spaces, and otherwise as it is.
pub proof fn law_code_is_shown_as_it_is(s: Seq<char>, i: int)
    requires
        0 <= i < text::lines(s).len(),
    ensures
        piece_lines(Piece::Code(s)).len() == text::lines(s).len(),
        ({
            let line = piece_lines(Piece::Code(s))[i];
            &&& line is Plain
            &&& line->Plain_0.take(4) == seq![' ', ' ', ' ', ' ']
            &&& line->Plain_0.skip(4) == text::lines(s)[i]
        }),
{
    reveal_strlit("    ");
    let line = piece_lines(Piece::Code(s))[i];
    assert("    "@ =~= seq![' ', ' ', ' ', ' ']);
    assert(line->Plain_0.take(4) =~= seq![' ', ' ', ' ', ' ']);
    assert(line->Plain_0.skip(4) =~= text::lines(s)[i]);
}

proof fn lemma_rich_lines_prefix(a: Seq<Piece>, b: Seq<Piece>, n: nat)
    requires
        n <= a.len() <= b.len(),
        forall|k: int| 0 <= k < n ==> a[k] == b[k],
    ensures
        rich_lines_upto(a, n) == rich_lines_upto(b, n),
    decreases n,
{
    if n > 0 {
        lemma_rich_lines_prefix(a, b, (n - 1) as nat);
    }
}

/// A document is shown block by block: what is shown of it is what is shown of its
/// blocks but the last, followed by the lines of the last. Nothing is shown of nothing.
pub proof fn law_blocks_are_shown_in_order(doc: Seq<Piece>, p: Piece)
    ensures
        rich_lines(doc.push(p)) == rich_lines(doc) + piece_lines(p),
        rich_lines(Seq::<Piece>::empty()).len() == 0,
{
    lemma_rich_lines_prefix(doc, doc.push(p), doc.len());
}

// ---------------------------------------------------------------------------
// A note
// ---------------------------------------------------------------------------

/// The title is left out of a body just where the first block is a paragraph that holds
/// nothing but the title, without any style. Nothing else is left out.
pub proof fn law_only_the_repeated_title_is_left_out(doc: Seq<Piece>, title: Seq<char>)
    ensures
        ({
            let repeats = doc.len() > 0 && doc[0] is Line && doc[0]->Line_0 is Paragraph
                && doc[0]->Line_1.len() == 1 && doc[0]->Line_1[0] == Run::Text(title);
            &&& repeats ==> without_title(doc, title) == doc.skip(1)
            &&& !repeats ==> without_title(doc, title) == doc
        }),
{
    if doc.len() > 0 {
        assert(doc.drop_first() =~= doc.skip(1));
        if doc[0] is Line && doc[0]->Line_1.len() == 1 && doc[0]->Line_1[0] == Run::Text(title) {
            assert(doc[0]->Line_1 =~= seq![Run::Text(title)]);
        }
    }
}

/// A text ends in another.
pub open spec fn ends_in(s: Seq<char>, end: Seq<char>) -> bool {
    end.len() <= s.len() && s.skip(s.len() - end.len()) == end
}

/// The preview begins with the name of the note in bold, its account and its dates, and
/// the number of its attachments.
pub proof fn law_preview_begins_with_the_note(note: Note, metadata: bool)
    ensures
        ({
            let all = preview_lines(note, metadata);
            &&& all.len() >= 6
            &&& all[0] is Spans && all[0]->Spans_0.len() == 1 && all[0]->Spans_0[0].content
                == note.summary.name@ && all[0]->Spans_0[0].style.bold
            &&& all[1] is Plain && ends_in(all[1]->Plain_0, note.account_id@) && text::occurs(
                all[1]->Plain_0,
                note.summary.folder_id@,
            )
            &&& all[2] == ShownLine::Plain("Created: "@ + note.summary.creation_date@)
            &&& all[3] == ShownLine::Plain("Modified: "@ + note.summary.modification_date@)
            &&& all[4] is Plain && ends_in(
                all[4]->Plain_0,
                text::decimal(note.summary.attachment_count as nat),
            ) && (text::occurs(all[4]->Plain_0, "[locked] Password protected"@)
                <== note.summary.password_protected)
        }),
{
    let all = preview_lines(note, metadata);
    let head = note_head(note);
    assert(forall|i: int| 0 <= i < 6 ==> all[i] == head[i]);
    let s = note.summary;
    let one = all[1]->Plain_0;
    assert(one.skip(one.len() - note.account_id@.len()) =~= note.account_id@);
    let k = "Folder: "@.len() as int;
    assert(one.subrange(k, k + s.folder_id@.len()) =~= s.folder_id@);
    let four = all[4]->Plain_0;
    let count = text::decimal(s.attachment_count as nat);
    assert(four.skip(four.len() - count.len()) =~= count);
    if s.password_protected {
        let shared = "Shared: "@ + crate::preview::truth_text(s.shared) + " | "@;
        let lock = "[locked] Password protected"@;
        let m = shared.len() as int;
        assert(four.subrange(m, m + lock.len()) =~= lock);
    }
}

/// Behind its head the preview shows the body: its blocks where it could be read, else its
/// plain text. Behind the body stands one line for each attachment, with its name.
pub proof fn law_preview_shows_body_and_attachments(note: Note, metadata: bool, i: int)
    ensures
        ({
            let all = preview_lines(note, metadata);
            let body = match note.body {
                Ok(doc) => rich_lines(without_title(doc@, note.summary.name@)),
                Err(_) => seq![ShownLine::Plain(note.plaintext@)],
            };
            let n = note.attachments@.len();
            &&& all.subrange(6, 6 + body.len() as int) == body
            &&& n == 0 ==> all.len() == 6 + body.len()
            &&& n > 0 ==> all.len() == 6 + body.len() + 2 + n
            &&& 0 <= i < n ==> ({
                let line = all[6 + body.len() + 2 + i];
                &&& line is Plain
                &&& text::occurs(line->Plain_0, attachment_name(note.attachments@[i]))
                &&& metadata ==> text::occurs(line->Plain_0, note.attachments@[i].kind_label@)
                    && ends_in(line->Plain_0, note.attachments@[i].preview_label@)
                &&& !metadata ==> ends_in(line->Plain_0, attachment_name(note.attachments@[i]))
            })
        }),
{
    let all = preview_lines(note, metadata);
    let body = note_body(note);
    assert(all.subrange(6, 6 + body.len() as int) =~= body);
    if 0 <= i < note.attachments@.len() {
        let a = note.attachments@[i];
        let name = attachment_name(a);
        let extra = note_attachments(note, metadata);
        assert(all[6 + body.len() + 2 + i] == extra[2 + i]);
        assert(extra[2 + i] == attachment_line(a, metadata));
        let line = all[6 + body.len() + 2 + i]->Plain_0;
        let k = "• "@.len() as int;
        assert(line.subrange(k, k + name.len()) =~= name);
        if metadata {
            let m = k + name.len() + " ["@.len();
            assert(line.subrange(m, m + a.kind_label@.len()) =~= a.kind_label@);
            assert(line.skip(line.len() - a.preview_label@.len()) =~= a.preview_label@);
        } else {
            assert(line.skip(line.len() - name.len()) =~= name);
        }
    }
}

/// An attachment is shown under its name, or under its id where it has none.
pub proof fn law_attachment_without_a_name_shows_its_id(note: Note, i: int)
    requires
        0 <= i < note.attachments@.len(),
    ensures
        ({
            let a = note.attachments@[i];
            &&& a.display_name@.len() > 0 ==> attachment_name(a) == a.display_name@
            &&& a.display_name@.len() == 0 ==> ends_in(attachment_name(a), a.id@)
        }),
{
    let a = note.attachments@[i];
    let name = "Attachment "@ + a.id@;
    assert(name.skip(name.len() - a.id@.len()) =~= a.id@);
}

} // verus!
