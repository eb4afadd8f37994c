//! Laws of the editor's commands: what each does to the edit, and what is refused because
//! the notes service cannot keep it.

use vstd::prelude::*;

use crate::app::AppModel;
use crate::document::{ListKind, Piece};
use crate::edit::{
    cursor_at_edge, cursor_stepped, field_switched, line_added, mixed_boundaries, mixed_upto,
    rubbed_out, scrolled, struck_out, styled, target_converted, target_removed, target_stepped,
    typed, EditModel,
};
use crate::editing::{
    edit_commanded, inserted, kind_converted, link_asked, style_toggled, EditCommand,
};
use crate::editor::{converted, valid_spot, InlineStyle, TargetKind};
use crate::keyboard::pressed;
use crate::keys::{KeyCode, KeyEvent};
use crate::model::{BackendCapabilities, RichFeature};
use crate::workflow::{PopupModel, Step};

verus! {

/// Whether the notes service keeps a kind of line; plain paragraphs it always keeps.
pub open spec fn keeps_kind(c: BackendCapabilities, kind: TargetKind) -> bool {
    match kind {
        TargetKind::Paragraph => true,
        TargetKind::Heading1 => c.heading1,
        TargetKind::Heading2 => c.heading2,
        TargetKind::Heading3 => c.heading3,
        TargetKind::Bullet => c.bullet_list,
        TargetKind::Numbered => c.numbered_list,
        TargetKind::Quote => c.quote,
        TargetKind::Code => c.code,
    }
}

/// Whether the notes service keeps a style.
pub open spec fn keeps_style(c: BackendCapabilities, style: InlineStyle) -> bool {
    match style {
        InlineStyle::Bold => c.bold,
        InlineStyle::Italic => c.italic,
        InlineStyle::Underline => c.underline,
    }
}

/// Whether a list stands at a position with a list of the other kind behind it.
pub open spec fn meets_other_list(doc: Seq<Piece>, b: int) -> bool {
    match (doc[b], doc[b + 1]) {
        (Piece::List(ListKind::Bullet, _), Piece::List(ListKind::Numbered, _)) => true,
        (Piece::List(ListKind::Numbered, _), Piece::List(ListKind::Bullet, _)) => true,
        _ => false,
    }
}

/// The positions where a list meets one of the other kind.
pub open spec fn meetings(doc: Seq<Piece>) -> Seq<int> {
    let n = if doc.len() > 0 {
        (doc.len() - 1) as nat
    } else {
        0
    };
    Seq::new(n, |b: int| b).filter(|b: int| meets_other_list(doc, b))
}

proof fn lemma_meetings(doc: Seq<Piece>, n: nat)
    requires
        n <= doc.len(),
    ensures
        n > 0 ==> Seq::new((n - 1) as nat, |b: int| b).filter(
            |b: int| meets_other_list(doc, b),
        ).len() == mixed_upto(doc, n),
    decreases n,
{
    reveal(Seq::filter);
    let fits = |b: int| meets_other_list(doc, b);
    if n >= 2 {
        lemma_meetings(doc, (n - 1) as nat);
        let all = Seq::new((n - 1) as nat, |b: int| b);
        assert(all.drop_last() =~= Seq::new((n - 2) as nat, |b: int| b));
        assert(all.last() == n - 2);
    } else if n == 1 {
        assert(Seq::new(0, |b: int| b) =~= Seq::<int>::empty());
    }
}

/// How often lists of different kinds meet is the number of places where they do.
pub proof fn law_meetings_are_counted(doc: Seq<Piece>)
    ensures
        mixed_boundaries(doc) == meetings(doc).len(),
{
    lemma_meetings(doc, doc.len());
    if doc.len() == 0 {
        assert(Seq::new(0, |b: int| b) =~= Seq::<int>::empty());
        reveal(Seq::filter);
    }
}

/// Whether a command was refused: the edit stays as it is, and one step will tell which
/// part of rich text cannot be kept.
pub open spec fn refused(v: AppModel, next: AppModel, feature: RichFeature) -> bool {
    next == (AppModel { steps: v.steps.push(Step::RefuseFeature(feature)), ..v })
}

/// A line becomes another kind where the notes service keeps it, and where no more lists of
/// different kinds meet than before or the service keeps such lists. Else it is refused.
pub proof fn law_kinds_that_can_be_kept(v: AppModel, e: EditModel, kind: TargetKind)
    requires
        v.edit == Some(e),
        e.field is Body,
        valid_spot(e.document, e.target),
    ensures
        ({
            let next = edit_commanded(v, e, EditCommand::Convert(kind));
            let c = v.prefs.capabilities;
            let after = converted(e.document, e.target, kind).0;
            let mixes = meetings(after).len() > meetings(e.document).len();
            &&& keeps_kind(c, kind) && (!mixes || c.mixed_adjacent_list_types) ==> next.edit
                == Some(target_converted(e, kind)) && next.steps == v.steps
            &&& keeps_kind(c, kind) && mixes && !c.mixed_adjacent_list_types ==> refused(
                v,
                next,
                RichFeature::MixedAdjacentListTypes,
            )
            &&& !keeps_kind(c, kind) ==> match kind {
                TargetKind::Paragraph => true,
                TargetKind::Heading1 => refused(v, next, RichFeature::Heading1),
                TargetKind::Heading2 => refused(v, next, RichFeature::Heading2),
                TargetKind::Heading3 => refused(v, next, RichFeature::Heading3),
                TargetKind::Bullet => refused(v, next, RichFeature::BulletList),
                TargetKind::Numbered => refused(v, next, RichFeature::NumberedList),
                TargetKind::Quote => refused(v, next, RichFeature::Quote),
                TargetKind::Code => refused(v, next, RichFeature::Code),
            }
        }),
{
    reveal(edit_commanded);
    reveal(kind_converted);
    law_meetings_are_counted(e.document);
    law_meetings_are_counted(converted(e.document, e.target, kind).0);
}

/// A style is put on where the notes service keeps it; else it is refused. A link is asked
/// for at the current line, with the start of an address, where the service keeps links.
pub proof fn law_styles_that_can_be_kept(v: AppModel, e: EditModel, style: InlineStyle)
    requires
        v.edit == Some(e),
        e.field is Body,
    ensures
        ({
            let next = edit_commanded(v, e, EditCommand::Toggle(style));
            let c = v.prefs.capabilities;
            &&& keeps_style(c, style) ==> next.edit == Some(styled(e, style)) && next.steps
                == v.steps
            &&& !keeps_style(c, style) ==> match style {
                InlineStyle::Bold => refused(v, next, RichFeature::Bold),
                InlineStyle::Italic => refused(v, next, RichFeature::Italic),
                InlineStyle::Underline => refused(v, next, RichFeature::Underline),
            }
        }),
        ({
            let next = edit_commanded(v, e, EditCommand::OpenLink);
            &&& !v.prefs.capabilities.hyperlink ==> refused(v, next, RichFeature::Hyperlink)
            &&& v.prefs.capabilities.hyperlink ==> next.edit == v.edit && (
            next.popup matches Some(PopupModel::Link { target, url }) && target
                == crate::edit::target_at(e.target) && crate::text::starts_with(url, "http"@))
        }),
{
    reveal(edit_commanded);
    reveal(style_toggled);
    reveal(link_asked);
    reveal_strlit("https://");
    reveal_strlit("http");
    assert("https://"@.take(4) =~= "http"@);
}

/// In the title nothing is styled, linked or made another kind.
pub proof fn law_title_stays_plain(
    v: AppModel,
    e: EditModel,
    style: InlineStyle,
    kind: TargetKind,
)
    requires
        v.edit == Some(e),
        e.field is Title,
    ensures
        edit_commanded(v, e, EditCommand::Toggle(style)) == v,
        edit_commanded(v, e, EditCommand::OpenLink) == v,
        edit_commanded(v, e, EditCommand::Convert(kind)) == v,
{
    reveal(edit_commanded);
    reveal(style_toggled);
    reveal(link_asked);
    reveal(kind_converted);
}

/// The other commands change the edit as they say: they type, take away, go on and back,
/// scroll, add and remove lines.
pub proof fn law_commands_change_the_edit(v: AppModel, e: EditModel, c: char, back: bool, end: bool)
    requires
        v.edit == Some(e),
    ensures
        edit_commanded(v, e, EditCommand::Type(c)).edit == Some(typed(e, seq![c])),
        edit_commanded(v, e, EditCommand::BreakTitle).edit == Some(typed(e, seq!['\n'])),
        edit_commanded(v, e, EditCommand::Backspace).edit == Some(rubbed_out(e)),
        edit_commanded(v, e, EditCommand::Delete).edit == Some(struck_out(e)),
        edit_commanded(v, e, EditCommand::AddLine).edit == Some(line_added(e)),
        edit_commanded(v, e, EditCommand::DeleteTarget).edit == Some(target_removed(e)),
        edit_commanded(v, e, EditCommand::SwitchField).edit == Some(field_switched(e)),
        edit_commanded(v, e, EditCommand::MoveTarget { back }).edit == Some(
            target_stepped(e, back),
        ),
        edit_commanded(v, e, EditCommand::MoveCursor { back }).edit == Some(
            cursor_stepped(e, back),
        ),
        edit_commanded(v, e, EditCommand::CursorEdge { end }).edit == Some(cursor_at_edge(e, end)),
        edit_commanded(v, e, EditCommand::Scroll { back }).edit == Some(scrolled(e, back, 10)),
        edit_commanded(v, e, EditCommand::Nothing) == v,
{
    reveal(edit_commanded);
    reveal_strlit("\n");
    assert("\n"@ =~= seq!['\n']);
}

/// A command whose line is not there is told as an error; the edit stays.
pub proof fn law_missing_line_is_told(v: AppModel, e: EditModel, c: char)
    requires
        v.edit == Some(e),
        e.field is Body,
    ensures
        valid_spot(e.document, e.target) ==> edit_commanded(v, e, EditCommand::Type(c)).status
            == v.status,
        !valid_spot(e.document, e.target) ==> {
            &&& edit_commanded(v, e, EditCommand::Type(c)).status.is_error
            &&& edit_commanded(v, e, EditCommand::Type(c)).edit == v.edit
            &&& edit_commanded(v, e, EditCommand::Backspace).status.is_error
            &&& edit_commanded(v, e, EditCommand::Delete).status.is_error
            &&& edit_commanded(v, e, EditCommand::DeleteTarget).status.is_error
            &&& edit_commanded(v, e, EditCommand::DeleteTarget).edit == v.edit
        },
{
    reveal(edit_commanded);
}

/// Each key of the editor does its command to the edit, and then what was edited is kept as
/// a draft. While a change is under way no key does anything but tell so.
pub proof fn law_keys_edit_and_keep_a_draft(v: AppModel, e: EditModel, key: KeyEvent, c: char)
    requires
        v.edit == Some(e),
        v.shown.mode is Insert,
        v.popup is None,
        !v.shown.show_help,
        v.background.periodic_refresh is Idle,
    ensures
        v.background.update_running ==> pressed(v, key).1 is None && pressed(v, key).0.edit == v.edit
            && pressed(v, key).0.orders == v.orders && pressed(v, key).0.steps == v.steps,
        !v.background.update_running && key.code == KeyCode::Char(c) && !key.modifiers.control
            && !key.modifiers.alt ==> pressed(v, key).0.edit == Some(typed(e, seq![c])) && pressed(
            v,
            key,
        ).0.steps == v.steps.push(Step::PersistRecovery),
        !v.background.update_running && key.code is Backspace ==> pressed(v, key).0.edit == Some(
            rubbed_out(e),
        ) && pressed(v, key).0.steps == v.steps.push(Step::PersistRecovery),
        !v.background.update_running && key.code is Enter && e.field is Body ==> pressed(
            v,
            key,
        ).0.edit == Some(line_added(e)),
        !v.background.update_running && key.code is Enter && e.field is Title ==> pressed(
            v,
            key,
        ).0.edit == Some(typed(e, seq!['\n'])),
{
    reveal(pressed);
    reveal(inserted);
    reveal(edit_commanded);
    reveal_strlit("\n");
    assert("\n"@ =~= seq!['\n']);
}

} // verus!
