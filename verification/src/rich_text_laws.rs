//! What editing does to the characters of a line, their styles and their links.

use vstd::prelude::*;

use crate::document::{
    delete_run, delete_runs, insert_run, insert_runs, plain_runs, run_text, runs_text, Mark, Piece,
    Run,
};
use crate::editor::{
    content_at, content_delete, content_insert, content_runs, content_text, editable,
    lemma_with_content, style_mark, text_at, toggled, valid_spot, with_content, with_runs, Content,
    InlineStyle, Spot,
};
use crate::editor_laws::kind_at;

verus! {

/// What a character stands in: a style or a link.
pub ghost enum Wrap {
    Style(Mark),
    Link(Seq<char>),
}

/// A character with all that it stands in, from the outside in.
#[verifier::ext_equal]
pub ghost struct Glyph {
    pub ch: char,
    pub wraps: Seq<Wrap>,
}

pub open spec fn glyph(ch: char, wraps: Seq<Wrap>) -> Glyph {
    Glyph { ch, wraps }
}

/// The characters of a text that stands in `around`.
pub open spec fn text_glyphs(s: Seq<char>, around: Seq<Wrap>) -> Seq<Glyph> {
    Seq::new(s.len(), |i: int| glyph(s[i], around))
}

/// The characters of a run that stands in `around`.
pub open spec fn run_glyphs(r: Run, around: Seq<Wrap>) -> Seq<Glyph>
    decreases r,
{
    match r {
        Run::Text(s) => text_glyphs(s, around),
        Run::Styled(mark, c) => runs_glyphs(c, around.push(Wrap::Style(mark))),
        Run::Link(c, href) => runs_glyphs(c, around.push(Wrap::Link(href))),
    }
}

/// The characters of a line of runs that stands in `around`.
pub open spec fn runs_glyphs(s: Seq<Run>, around: Seq<Wrap>) -> Seq<Glyph>
    decreases s,
{
    if s.len() == 0 {
        seq![]
    } else {
        run_glyphs(s[0], around) + runs_glyphs(s.drop_first(), around)
    }
}

/// The characters of a content.
pub open spec fn glyphs(c: Content) -> Seq<Glyph> {
    match c {
        Content::Runs(runs) => runs_glyphs(runs, seq![]),
        Content::Code(s) => text_glyphs(s, seq![]),
    }
}

/// The characters at a target.
pub open spec fn glyphs_at(doc: Seq<Piece>, t: Spot) -> Seq<Glyph> {
    glyphs(content_at(doc, t))
}

/// What the first text of a run stands in, also where that text is empty.
pub open spec fn run_leading(r: Run, around: Seq<Wrap>) -> Seq<Wrap>
    decreases r,
{
    match r {
        Run::Text(_) => around,
        Run::Styled(mark, c) => leading_wraps(c, around.push(Wrap::Style(mark))),
        Run::Link(c, href) => leading_wraps(c, around.push(Wrap::Link(href))),
    }
}

/// What the first text of a line stands in, also where that text is empty.
pub open spec fn leading_wraps(s: Seq<Run>, around: Seq<Wrap>) -> Seq<Wrap>
    decreases s,
{
    if s.len() == 0 {
        around
    } else {
        run_leading(s[0], around)
    }
}

/// What the first text of a content stands in.
pub open spec fn content_leading(c: Content) -> Seq<Wrap> {
    match c {
        Content::Runs(runs) => leading_wraps(runs, seq![]),
        Content::Code(_) => seq![],
    }
}

proof fn lemma_run_glyphs_text(r: Run, around: Seq<Wrap>)
    ensures
        run_glyphs(r, around).len() == run_text(r).len(),
        forall|i: int|
            0 <= i < run_text(r).len() ==> (#[trigger] run_glyphs(r, around)[i]).ch == run_text(r)[i],
    decreases r,
{
    match r {
        Run::Text(_) => {},
        Run::Styled(mark, c) => lemma_runs_glyphs_text(c, around.push(Wrap::Style(mark))),
        Run::Link(c, href) => lemma_runs_glyphs_text(c, around.push(Wrap::Link(href))),
    }
}

proof fn lemma_runs_glyphs_text(s: Seq<Run>, around: Seq<Wrap>)
    ensures
        runs_glyphs(s, around).len() == runs_text(s).len(),
        forall|i: int|
            0 <= i < runs_text(s).len() ==> (#[trigger] runs_glyphs(s, around)[i]).ch == runs_text(
                s,
            )[i],
    decreases s,
{
    if s.len() > 0 {
        assert(decreases_to!(s => s[0]));
        lemma_run_glyphs_text(s[0], around);
        lemma_runs_glyphs_text(s.drop_first(), around);
    }
}

/// The characters of a content are those of its text, in order.
pub proof fn law_characters_are_the_text(c: Content)
    ensures
        glyphs(c).len() == content_text(c).len(),
        forall|i: int|
            0 <= i < content_text(c).len() ==> (#[trigger] glyphs(c)[i]).ch == content_text(c)[i],
{
    if c is Runs {
        lemma_runs_glyphs_text(c->Runs_0, seq![]);
    }
}

// ---------------------------------------------------------------------------
// Deleting a character
// ---------------------------------------------------------------------------

proof fn lemma_delete_run(r: Run, at: nat, around: Seq<Wrap>)
    requires
        at < run_text(r).len(),
    ensures
        run_glyphs(delete_run(r, at), around) == run_glyphs(r, around).remove(at as int),
    decreases r,
{
    match r {
        Run::Text(s) => {
            assert(run_glyphs(delete_run(r, at), around) =~= run_glyphs(r, around).remove(
                at as int,
            ));
        },
        Run::Styled(mark, c) => lemma_delete_runs(c, at, around.push(Wrap::Style(mark))),
        Run::Link(c, href) => lemma_delete_runs(c, at, around.push(Wrap::Link(href))),
    }
}

proof fn lemma_delete_runs(s: Seq<Run>, at: nat, around: Seq<Wrap>)
    requires
        at < runs_text(s).len(),
    ensures
        runs_glyphs(delete_runs(s, at), around) == runs_glyphs(s, around).remove(at as int),
    decreases s,
{
    assert(decreases_to!(s => s[0]));
    let rest = s.drop_first();
    let n = run_text(s[0]).len();
    let a = run_glyphs(s[0], around);
    let b = runs_glyphs(rest, around);
    lemma_run_glyphs_text(s[0], around);
    lemma_runs_glyphs_text(rest, around);
    let new = delete_runs(s, at);
    if at < n {
        lemma_delete_run(s[0], at, around);
        assert(new.drop_first() =~= rest);
        assert(a.remove(at as int) + b =~= (a + b).remove(at as int));
    } else {
        lemma_delete_runs(rest, (at - n) as nat, around);
        assert(new[0] == s[0]);
        assert(new.drop_first() =~= delete_runs(rest, (at - n) as nat));
        assert(a + b.remove(at - n) =~= (a + b).remove(at as int));
    }
}

/// Deleting a character removes that character alone: every other one stays, in its
/// order, under the same styles and the same link addresses as before.
pub proof fn law_deleting_removes_one_character(c: Content, at: nat)
    requires
        at < content_text(c).len(),
    ensures
        glyphs(content_delete(c, at)) == glyphs(c).remove(at as int),
        content_delete(c, at) is Runs <==> c is Runs,
{
    match c {
        Content::Runs(runs) => lemma_delete_runs(runs, at, seq![]),
        Content::Code(s) => {
            assert(glyphs(content_delete(c, at)) =~= glyphs(c).remove(at as int));
        },
    }
}

/// Deleting a character at a target changes the characters of that target alone, and not
/// its kind.
pub proof fn law_deleting_at_a_target(doc: Seq<Piece>, t: Spot, at: nat)
    requires
        editable(doc),
        valid_spot(doc, t),
        at < text_at(doc, t).len(),
    ensures
        ({
            let next = with_content(doc, t, content_delete(content_at(doc, t), at));
            &&& next.len() == doc.len()
            &&& valid_spot(next, t)
            &&& kind_at(next, t) == kind_at(doc, t)
            &&& glyphs_at(next, t) == glyphs_at(doc, t).remove(at as int)
            &&& forall|other: Spot|
                #![trigger glyphs_at(next, other)]
                other != t && valid_spot(doc, other) ==> valid_spot(next, other) && kind_at(
                    next,
                    other,
                ) == kind_at(doc, other) && content_at(next, other) == content_at(doc, other)
        }),
{
    law_deleting_removes_one_character(content_at(doc, t), at);
    lemma_with_content(doc, t, content_delete(content_at(doc, t), at));
}

// ---------------------------------------------------------------------------
// Typing a character
// ---------------------------------------------------------------------------

/// What a character stands in that is typed before the one at `at`: all that the one
/// before it stands in. At the start it joins the first text.
pub open spec fn typed_wraps(old: Seq<Glyph>, leading: Seq<Wrap>, at: nat) -> Seq<Wrap> {
    if at == 0 {
        leading
    } else {
        old[at - 1].wraps
    }
}

proof fn lemma_insert_run(r: Run, at: nat, ch: char, around: Seq<Wrap>)
    requires
        at <= run_text(r).len(),
    ensures
        run_glyphs(insert_run(r, at, ch), around) == run_glyphs(r, around).insert(
            at as int,
            glyph(ch, typed_wraps(run_glyphs(r, around), run_leading(r, around), at)),
        ),
    decreases r,
{
    match r {
        Run::Text(s) => {
            let old = run_glyphs(r, around);
            assert(typed_wraps(old, run_leading(r, around), at) == around);
            assert(run_glyphs(insert_run(r, at, ch), around) =~= old.insert(
                at as int,
                glyph(ch, around),
            ));
        },
        Run::Styled(mark, c) => lemma_insert_runs(c, at, ch, around.push(Wrap::Style(mark))),
        Run::Link(c, href) => lemma_insert_runs(c, at, ch, around.push(Wrap::Link(href))),
    }
}

proof fn lemma_insert_runs(s: Seq<Run>, at: nat, ch: char, around: Seq<Wrap>)
    requires
        at <= runs_text(s).len(),
    ensures
        runs_glyphs(insert_runs(s, at, ch), around) == runs_glyphs(s, around).insert(
            at as int,
            glyph(ch, typed_wraps(runs_glyphs(s, around), leading_wraps(s, around), at)),
        ),
    decreases s,
{
    let old = runs_glyphs(s, around);
    let new = insert_runs(s, at, ch);
    if s.len() == 0 {
        reveal_with_fuel(runs_glyphs, 2);
        assert(new.drop_first() =~= Seq::<Run>::empty());
        assert(runs_glyphs(new, around) =~= old.insert(0, glyph(ch, around)));
    } else {
        assert(decreases_to!(s => s[0]));
        let rest = s.drop_first();
        let n = run_text(s[0]).len();
        let a = run_glyphs(s[0], around);
        let b = runs_glyphs(rest, around);
        lemma_run_glyphs_text(s[0], around);
        lemma_runs_glyphs_text(rest, around);
        if at <= n {
            lemma_insert_run(s[0], at, ch, around);
            assert(new.drop_first() =~= rest);
            let g = glyph(ch, typed_wraps(a, run_leading(s[0], around), at));
            assert(a.insert(at as int, g) + b =~= (a + b).insert(at as int, g));
        } else {
            let k = (at - n) as nat;
            lemma_insert_runs(rest, k, ch, around);
            assert(new[0] == s[0]);
            assert(new.drop_first() =~= insert_runs(rest, k, ch));
            let g = glyph(ch, typed_wraps(b, leading_wraps(rest, around), k));
            assert(a + b.insert(k as int, g) =~= (a + b).insert(at as int, g));
        }
    }
}

/// Typing a character adds that character alone: every other one stays, in its order,
/// under the same styles and link addresses. The new one goes on with those of the
/// character before it; at the start of a line it joins the first text.
pub proof fn law_typing_adds_one_character(c: Content, at: nat, ch: char)
    requires
        at <= content_text(c).len(),
    ensures
        glyphs(content_insert(c, at, ch)) == glyphs(c).insert(
            at as int,
            glyph(ch, if at == 0 {
                    content_leading(c)
                } else {
                    glyphs(c)[at - 1].wraps
                }),
        ),
        content_insert(c, at, ch) is Runs <==> c is Runs,
{
    law_characters_are_the_text(c);
    match c {
        Content::Runs(runs) => lemma_insert_runs(runs, at, ch, seq![]),
        Content::Code(s) => {
            assert(glyphs(content_insert(c, at, ch)) =~= glyphs(c).insert(
                at as int,
                glyph(ch, seq![]),
            ));
        },
    }
}

/// Typing a character at a target changes the characters of that target alone, and not
/// its kind.
pub proof fn law_typing_at_a_target(doc: Seq<Piece>, t: Spot, at: nat, ch: char)
    requires
        editable(doc),
        valid_spot(doc, t),
        at <= text_at(doc, t).len(),
    ensures
        ({
            let next = with_content(doc, t, content_insert(content_at(doc, t), at, ch));
            &&& next.len() == doc.len()
            &&& valid_spot(next, t)
            &&& kind_at(next, t) == kind_at(doc, t)
            &&& glyphs_at(next, t).remove(at as int) == glyphs_at(doc, t)
            &&& glyphs_at(next, t)[at as int].ch == ch
            &&& at > 0 ==> glyphs_at(next, t)[at as int].wraps == glyphs_at(doc, t)[at - 1].wraps
            &&& forall|other: Spot|
                #![trigger glyphs_at(next, other)]
                other != t && valid_spot(doc, other) ==> valid_spot(next, other) && kind_at(
                    next,
                    other,
                ) == kind_at(doc, other) && content_at(next, other) == content_at(doc, other)
        }),
{
    let c = content_at(doc, t);
    law_typing_adds_one_character(c, at, ch);
    law_characters_are_the_text(c);
    lemma_with_content(doc, t, content_insert(c, at, ch));
    let next = with_content(doc, t, content_insert(c, at, ch));
    assert(glyphs_at(next, t).remove(at as int) =~= glyphs_at(doc, t));
}

/// Deleting a character that was just typed leaves all others as they were before it, with
/// their styles and links.
pub proof fn law_deleting_undoes_typing(c: Content, at: nat, ch: char)
    requires
        at <= content_text(c).len(),
    ensures
        glyphs(content_delete(content_insert(c, at, ch), at)) == glyphs(c),
{
    law_typing_adds_one_character(c, at, ch);
    law_characters_are_the_text(c);
    law_characters_are_the_text(content_insert(c, at, ch));
    law_deleting_removes_one_character(content_insert(c, at, ch), at);
    assert(glyphs(content_delete(content_insert(c, at, ch), at)) =~= glyphs(c));
}

// ---------------------------------------------------------------------------
// Styles and links
// ---------------------------------------------------------------------------

proof fn lemma_around(r: Run, outer: Seq<Wrap>, around: Seq<Wrap>)
    ensures
        run_glyphs(r, outer + around).len() == run_glyphs(r, around).len(),
        forall|i: int|
            0 <= i < run_glyphs(r, around).len() ==> #[trigger] run_glyphs(r, outer + around)[i]
                == (Glyph {
                wraps: outer + run_glyphs(r, around)[i].wraps,
                ..run_glyphs(r, around)[i]
            }),
    decreases r,
{
    match r {
        Run::Text(_) => {},
        Run::Styled(mark, c) => {
            let w = Wrap::Style(mark);
            assert((outer + around).push(w) =~= outer + around.push(w));
            lemma_around_line(c, outer, around.push(w));
        },
        Run::Link(c, href) => {
            let w = Wrap::Link(href);
            assert((outer + around).push(w) =~= outer + around.push(w));
            lemma_around_line(c, outer, around.push(w));
        },
    }
}

proof fn lemma_around_line(s: Seq<Run>, outer: Seq<Wrap>, around: Seq<Wrap>)
    ensures
        runs_glyphs(s, outer + around).len() == runs_glyphs(s, around).len(),
        forall|i: int|
            0 <= i < runs_glyphs(s, around).len() ==> #[trigger] runs_glyphs(s, outer + around)[i]
                == (Glyph {
                wraps: outer + runs_glyphs(s, around)[i].wraps,
                ..runs_glyphs(s, around)[i]
            }),
    decreases s,
{
    if s.len() > 0 {
        assert(decreases_to!(s => s[0]));
        lemma_around(s[0], outer, around);
        lemma_around_line(s.drop_first(), outer, around);
    }
}

/// Characters with one more thing around them all.
pub open spec fn wrapped(w: Wrap, all: Seq<Glyph>) -> Seq<Glyph> {
    Seq::new(all.len(), |i: int| glyph(all[i].ch, seq![w] + all[i].wraps))
}

pub proof fn lemma_wrapped_line(s: Seq<Run>, w: Wrap)
    ensures
        runs_glyphs(s, seq![w]) == wrapped(w, runs_glyphs(s, seq![])),
{
    lemma_around_line(s, seq![w], seq![]);
    assert(seq![w] + Seq::<Wrap>::empty() =~= seq![w]);
    assert(runs_glyphs(s, seq![w]) =~= wrapped(w, runs_glyphs(s, seq![])));
}

proof fn lemma_one_run(r: Run, around: Seq<Wrap>)
    ensures
        runs_glyphs(seq![r], around) == run_glyphs(r, around),
{
    reveal_with_fuel(runs_glyphs, 2);
    assert(seq![r].drop_first() =~= Seq::<Run>::empty());
    assert(run_glyphs(r, around) + Seq::<Glyph>::empty() =~= run_glyphs(r, around));
}

/// Whether a line stands in one group of a style as a whole.
pub open spec fn wholly_in(runs: Seq<Run>, mark: Mark) -> bool {
    runs.len() == 1 && runs[0] is Styled && runs[0]->Styled_0 == mark
}

/// Putting a style on a line puts it on every character and changes nothing else; where
/// the whole line stands in that style already, the style is taken off every character,
/// and nothing else.
pub proof fn law_style_covers_the_line(runs: Seq<Run>, mark: Mark)
    ensures
        !wholly_in(runs, mark) ==> runs_glyphs(toggled(runs, mark), seq![]) == wrapped(
            Wrap::Style(mark),
            runs_glyphs(runs, seq![]),
        ),
        wholly_in(runs, mark) ==> runs_glyphs(runs, seq![]) == wrapped(
            Wrap::Style(mark),
            runs_glyphs(toggled(runs, mark), seq![]),
        ),
{
    let w = Wrap::Style(mark);
    assert(Seq::<Wrap>::empty().push(w) =~= seq![w]);
    if wholly_in(runs, mark) {
        assert(runs =~= seq![runs[0]]);
        lemma_one_run(runs[0], seq![]);
        lemma_wrapped_line(runs[0]->Styled_1, w);
    } else {
        lemma_one_run(Run::Styled(mark, runs), seq![]);
        lemma_wrapped_line(runs, w);
    }
}

/// Each style of the editor is the mark of its name.
pub proof fn law_styles_are_their_marks(style: InlineStyle)
    ensures
        style is Bold <==> style_mark(style) is Bold,
        style is Italic <==> style_mark(style) is Italic,
        style is Underline <==> style_mark(style) is Underline,
{
}

/// A link covers every character of its line with its address, and changes nothing else.
pub proof fn law_link_covers_the_line(runs: Seq<Run>, href: Seq<char>)
    ensures
        runs_glyphs(seq![Run::Link(runs, href)], seq![]) == wrapped(
            Wrap::Link(href),
            runs_glyphs(runs, seq![]),
        ),
{
    let w = Wrap::Link(href);
    assert(Seq::<Wrap>::empty().push(w) =~= seq![w]);
    lemma_one_run(Run::Link(runs, href), seq![]);
    lemma_wrapped_line(runs, w);
}

/// A line that becomes code keeps its characters and loses their styles and links; code
/// that becomes a line keeps its characters, which stand in nothing.
pub proof fn law_code_is_bare_text(c: Content)
    ensures
        glyphs(Content::Code(content_text(c))).len() == glyphs(c).len(),
        forall|i: int|
            0 <= i < glyphs(c).len() ==> #[trigger] glyphs(Content::Code(content_text(c)))[i] == (
            glyph(glyphs(c)[i].ch, seq![])),
        c is Code ==> glyphs(Content::Runs(content_runs(c))) == glyphs(c),
        c is Runs ==> Content::Runs(content_runs(c)) == c,
{
    law_characters_are_the_text(c);
    if c is Code {
        let s = c->Code_0;
        if s.len() == 0 {
            assert(glyphs(Content::Runs(plain_runs(s))) =~= glyphs(c));
        } else {
            lemma_one_run(Run::Text(s), seq![]);
        }
    }
}

/// Putting other runs at a target changes that target alone, and not its kind.
pub proof fn law_runs_are_put_at_one_target(doc: Seq<Piece>, t: Spot, runs: Seq<Run>)
    requires
        editable(doc),
        valid_spot(doc, t),
        content_at(doc, t) is Runs,
    ensures
        ({
            let next = with_runs(doc, t, runs);
            &&& next.len() == doc.len()
            &&& valid_spot(next, t)
            &&& kind_at(next, t) == kind_at(doc, t)
            &&& content_at(next, t) == Content::Runs(runs)
            &&& forall|other: Spot|
                #![trigger content_at(next, other)]
                other != t && valid_spot(doc, other) ==> valid_spot(next, other) && kind_at(
                    next,
                    other,
                ) == kind_at(doc, other) && content_at(next, other) == content_at(doc, other)
        }),
{
    lemma_with_content(doc, t, Content::Runs(runs));
}

} // verus!
