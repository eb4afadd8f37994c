//! Editing a note: beginning, the keys of the editor, and saving.

use std::sync::Arc;

use vstd::prelude::*;

use crate::app::{
    complain, first_do, first_do2, first_do5, refused_offline, say, shown_folder, visible_ids,
    with_error, App, AppModel, DataModel, Shown,
};
use crate::browsing::{ask, go_on, researched};
use crate::edit::{
    body_opened, can_follow, can_style, conversion_mixes, cursor_at_edge, cursor_stepped,
    field_switched, kind_feature, line_added, linked, open_body, rubbed_out, scrolled, struck_out,
    styled, target_converted, target_kind_feature, target_removed, target_stepped, target_there,
    typed, EditField, EditModel, EditSession,
};
use crate::editor::{
    blank_line, first_spot, valid_spot, EditorDocument, EditorError, EditorTarget, InlineStyle,
    TargetKind,
};
use crate::folders::{updating, with_popup};
use crate::jobs::UpdateJob;
use crate::keys::{KeyCode, KeyEvent};
use crate::model::{
    find_summary, summary_at, supports, Editability, FolderId, Note, NoteId, NoteSummary,
    NotesError, RichFeature,
};
use crate::text::{cat, join, joined, owned, texts};
use crate::workflow::{
    AppMode, Await, Effect, Message, Popup, PopupModel, Problem, SaveMode, Step, UpdateModel,
};

verus! {

// ---------------------------------------------------------------------------
// Beginning
// ---------------------------------------------------------------------------

/// The edit of a note that does not exist yet.
pub open spec fn new_edit(folder_id: FolderId) -> EditModel {
    EditModel {
        note_id: None,
        folder_id,
        original_title: ""@,
        original_body_html: ""@,
        original_plaintext: ""@,
        base_modification_date: None,
        title: ""@,
        document: seq![blank_line()],
        original: seq![blank_line()],
        target: first_spot(seq![blank_line()]),
        dirty: false,
        is_new: true,
        field: EditField::Title,
        cursor: 0,
        viewport: 0,
    }
}

/// The edit of a note, whose body was read as `body`.
pub open spec fn note_edit(note: Note, body: Seq<crate::document::Piece>) -> EditModel {
    let document = body_opened(body, note.summary.name@);
    EditModel {
        note_id: Some(note.summary.id),
        folder_id: note.summary.folder_id,
        original_title: note.summary.name@,
        original_body_html: note.body_html@,
        original_plaintext: note.plaintext@,
        base_modification_date: Some(note.summary.modification_date),
        title: note.summary.name@,
        document,
        original: document,
        target: first_spot(document),
        dirty: false,
        is_new: false,
        field: EditField::Body,
        cursor: 0,
        viewport: 0,
    }
}

/// The client with an edit under way.
pub open spec fn inserting(v: AppModel, e: EditModel) -> AppModel {
    AppModel { edit: Some(e), shown: Shown { mode: AppMode::Insert, ..v.shown }, ..v }
}

#[verifier::opaque]
pub open spec fn new_note_begun(v: AppModel) -> AppModel {
    if !(v.shown.data_source is Live) {
        refused_offline(v)
    } else {
        match shown_folder(v) {
            Some(folder_id) => inserting(v, new_edit(folder_id)),
            None => complain(v, "ERROR: select a folder before creating a note"@),
        }
    }
}

/// The client with a note opened for editing. One that cannot be written back without
/// loss is refused, with its reasons behind `refusal`.
#[verifier::opaque]
pub open spec fn note_opened(v: AppModel, note: Note, refusal: Seq<char>) -> AppModel {
    match note.editability {
        Editability::ReadOnlyUnsupported { reasons } => complain(
            v,
            refusal + join(texts(reasons@), "; "@),
        ),
        _ => match note.body {
            Ok(body) => inserting(v, note_edit(note, body@)),
            Err(e) => complain(v, "ERROR: "@ + e@),
        },
    }
}

#[verifier::opaque]
pub open spec fn edit_begun(v: AppModel) -> AppModel {
    if !(v.shown.data_source is Live) {
        refused_offline(v)
    } else {
        match v.shown.selected_note {
            Some(note) => note_opened(
                v,
                *note,
                "ERROR: Editing disabled to prevent data loss: "@,
            ),
            None => v,
        }
    }
}

impl App {
    pub fn begin_new(&mut self)
        ensures
            final(self)@ == new_note_begun(old(self)@),
            old(self).wf() ==> final(self).wf(),
    {
        proof {
            reveal(new_note_begun);
        }
        if !self.require_live_backend() {
            return;
        }
        let folder_id = match self.selected_folder_id() {
            Some(id) => id.clone(),
            None => {
                self.complain(owned("ERROR: select a folder before creating a note"));
                return;
            },
        };
        let document = EditorDocument::empty();
        let current_target = document.first_target();
        let original = EditorDocument::empty().document;
        self.edit = Some(
            EditSession {
                note_id: None,
                folder_id,
                original_title: owned(""),
                original_body_html: owned(""),
                original_plaintext: owned(""),
                base_modification_date: None,
                title_buffer: owned(""),
                document,
                original,
                current_target,
                dirty: false,
                is_new: true,
                field: EditField::Title,
                cursor: 0,
                viewport: 0,
            },
        );
        self.shown.mode = AppMode::Insert;
    }

    fn open_note(&mut self, note: &Note, refusal: &str)
        ensures
            final(self)@ == note_opened(old(self)@, *note, refusal@),
            old(self).wf() ==> final(self).wf(),
    {
        proof {
            reveal(note_opened);
        }
        if let Editability::ReadOnlyUnsupported { reasons } = &note.editability {
            let reasons = joined(reasons, "; ");
            self.complain(cat(refusal, reasons.as_str()));
            return;
        }
        match &note.body {
            Ok(body) => self.open_edit(note, open_body(body, note.summary.name.as_str())),
            Err(e) => self.complain(cat("ERROR: ", e.as_str())),
        }
    }

    fn open_edit(&mut self, note: &Note, document: EditorDocument)
        requires
            document.wf(),
            note.body is Ok,
            document@ == body_opened(note.body->Ok_0@, note.summary.name@),
        ensures
            old(self).wf() ==> final(self).wf(),
            final(self)@ == inserting(old(self)@, note_edit(*note, note.body->Ok_0@)),
    {
        let current_target = document.first_target();
        let original = document.document.clone();
        self.edit = Some(
            EditSession {
                note_id: Some(note.summary.id.clone()),
                folder_id: note.summary.folder_id.clone(),
                original_title: note.summary.name.clone(),
                original_body_html: note.body_html.clone(),
                original_plaintext: note.plaintext.clone(),
                base_modification_date: Some(note.summary.modification_date.clone()),
                title_buffer: note.summary.name.clone(),
                document,
                original,
                current_target,
                dirty: false,
                is_new: false,
                field: EditField::Body,
                cursor: 0,
                viewport: 0,
            },
        );
        self.shown.mode = AppMode::Insert;
    }

    pub fn begin_edit(&mut self)
        ensures
            final(self)@ == edit_begun(old(self)@),
            old(self).wf() ==> final(self).wf(),
    {
        proof {
            reveal(edit_begun);
        }
        if !self.require_live_backend() {
            return;
        }
        let note = match &self.shown.selected_note {
            Some(note) => note.clone(),
            None => return,
        };
        self.open_note(&note, "ERROR: Editing disabled to prevent data loss: ");
    }

    /// Opens what a note has become meanwhile.
    pub fn reopen_remote(&mut self, note: &Note)
        ensures
            final(self)@ == note_opened(
                old(self)@,
                *note,
                "ERROR: Remote note is now read-only: "@,
            ),
            old(self).wf() ==> final(self).wf(),
    {
        proof {
            reveal(note_opened);
        }
        self.open_note(note, "ERROR: Remote note is now read-only: ");
    }
}

// ---------------------------------------------------------------------------
// The keys of the editor
// ---------------------------------------------------------------------------

/// What a key means in the editor.
#[derive(Clone, Copy, Debug, PartialEq, Eq, Structural)]
pub enum EditCommand {
    Leave,
    Save,
    Cancel,
    Toggle(InlineStyle),
    OpenLink,
    DeleteTarget,
    Convert(TargetKind),
    MoveTarget { back: bool },
    SwitchField,
    Backspace,
    Delete,
    AddLine,
    Type(char),
    BreakTitle,
    MoveCursor { back: bool },
    Scroll { back: bool },
    CursorEdge { end: bool },
    Nothing,
}

/// What a character means with the control key held down.
pub open spec fn control_command(c: char) -> Option<EditCommand> {
    if c == 's' {
        Some(EditCommand::Save)
    } else if c == 'c' {
        Some(EditCommand::Cancel)
    } else if c == 'b' {
        Some(EditCommand::Toggle(InlineStyle::Bold))
    } else if c == 'i' {
        Some(EditCommand::Toggle(InlineStyle::Italic))
    } else if c == 'u' {
        Some(EditCommand::Toggle(InlineStyle::Underline))
    } else if c == 'k' {
        Some(EditCommand::OpenLink)
    } else if c == 'd' {
        Some(EditCommand::DeleteTarget)
    } else {
        None
    }
}

/// What a character means with the alt key held down.
pub open spec fn alt_command(c: char) -> Option<EditCommand> {
    if c == 'i' {
        Some(EditCommand::Toggle(InlineStyle::Italic))
    } else if c == '1' {
        Some(EditCommand::Convert(TargetKind::Heading1))
    } else if c == '2' {
        Some(EditCommand::Convert(TargetKind::Heading2))
    } else if c == '3' {
        Some(EditCommand::Convert(TargetKind::Heading3))
    } else if c == 'p' {
        Some(EditCommand::Convert(TargetKind::Paragraph))
    } else if c == 'b' {
        Some(EditCommand::Convert(TargetKind::Bullet))
    } else if c == 'n' {
        Some(EditCommand::Convert(TargetKind::Numbered))
    } else if c == 'q' {
        Some(EditCommand::Convert(TargetKind::Quote))
    } else if c == 'c' {
        Some(EditCommand::Convert(TargetKind::Code))
    } else if c == 'j' {
        Some(EditCommand::MoveTarget { back: false })
    } else if c == 'k' {
        Some(EditCommand::MoveTarget { back: true })
    } else {
        None
    }
}

/// What a key means in the editor. Control goes before alt, and a character that means
/// nothing else is typed, but for one with control.
pub open spec fn command_of(key: KeyEvent, in_body: bool) -> EditCommand {
    match key.code {
        KeyCode::Char(c) => {
            if key.modifiers.control && control_command(c) is Some {
                control_command(c)->0
            } else if key.modifiers.alt && alt_command(c) is Some {
                alt_command(c)->0
            } else if !key.modifiers.control {
                EditCommand::Type(c)
            } else {
                EditCommand::Nothing
            }
        },
        KeyCode::Esc => EditCommand::Leave,
        KeyCode::Tab => EditCommand::SwitchField,
        KeyCode::Backspace => EditCommand::Backspace,
        KeyCode::Delete => EditCommand::Delete,
        KeyCode::Enter => if in_body {
            EditCommand::AddLine
        } else {
            EditCommand::BreakTitle
        },
        KeyCode::Left => EditCommand::MoveCursor { back: true },
        KeyCode::Up => EditCommand::MoveCursor { back: true },
        KeyCode::Right => EditCommand::MoveCursor { back: false },
        KeyCode::Down => EditCommand::MoveCursor { back: false },
        KeyCode::PageUp => EditCommand::Scroll { back: true },
        KeyCode::PageDown => EditCommand::Scroll { back: false },
        KeyCode::Home => EditCommand::CursorEdge { end: false },
        KeyCode::End => EditCommand::CursorEdge { end: true },
        _ => EditCommand::Nothing,
    }
}

/// The part of rich text that a style is.
pub open spec fn style_feature(style: InlineStyle) -> RichFeature {
    match style {
        InlineStyle::Bold => RichFeature::Bold,
        InlineStyle::Italic => RichFeature::Italic,
        InlineStyle::Underline => RichFeature::Underline,
    }
}

fn find_style_feature(style: InlineStyle) -> (r: RichFeature)
    ensures
        r == style_feature(style),
{
    match style {
        InlineStyle::Bold => RichFeature::Bold,
        InlineStyle::Italic => RichFeature::Italic,
        InlineStyle::Underline => RichFeature::Underline,
    }
}

fn find_control_command(c: char) -> (r: Option<EditCommand>)
    ensures
        r == control_command(c),
{
    match c {
        's' => Some(EditCommand::Save),
        'c' => Some(EditCommand::Cancel),
        'b' => Some(EditCommand::Toggle(InlineStyle::Bold)),
        'i' => Some(EditCommand::Toggle(InlineStyle::Italic)),
        'u' => Some(EditCommand::Toggle(InlineStyle::Underline)),
        'k' => Some(EditCommand::OpenLink),
        'd' => Some(EditCommand::DeleteTarget),
        _ => None,
    }
}

fn find_alt_command(c: char) -> (r: Option<EditCommand>)
    ensures
        r == alt_command(c),
{
    match c {
        'i' => Some(EditCommand::Toggle(InlineStyle::Italic)),
        '1' => Some(EditCommand::Convert(TargetKind::Heading1)),
        '2' => Some(EditCommand::Convert(TargetKind::Heading2)),
        '3' => Some(EditCommand::Convert(TargetKind::Heading3)),
        'p' => Some(EditCommand::Convert(TargetKind::Paragraph)),
        'b' => Some(EditCommand::Convert(TargetKind::Bullet)),
        'n' => Some(EditCommand::Convert(TargetKind::Numbered)),
        'q' => Some(EditCommand::Convert(TargetKind::Quote)),
        'c' => Some(EditCommand::Convert(TargetKind::Code)),
        'j' => Some(EditCommand::MoveTarget { back: false }),
        'k' => Some(EditCommand::MoveTarget { back: true }),
        _ => None,
    }
}

/// What a key means in the editor.
pub fn edit_command(key: KeyEvent, in_body: bool) -> (r: EditCommand)
    ensures
        r == command_of(key, in_body),
{
    match key.code {
        KeyCode::Char(c) => {
            if key.modifiers.control {
                if let Some(command) = find_control_command(c) {
                    return command;
                }
            }
            if key.modifiers.alt {
                if let Some(command) = find_alt_command(c) {
                    return command;
                }
            }
            if !key.modifiers.control {
                EditCommand::Type(c)
            } else {
                EditCommand::Nothing
            }
        },
        KeyCode::Esc => EditCommand::Leave,
        KeyCode::Tab => EditCommand::SwitchField,
        KeyCode::Backspace => EditCommand::Backspace,
        KeyCode::Delete => EditCommand::Delete,
        KeyCode::Enter => if in_body {
            EditCommand::AddLine
        } else {
            EditCommand::BreakTitle
        },
        KeyCode::Left => EditCommand::MoveCursor { back: true },
        KeyCode::Up => EditCommand::MoveCursor { back: true },
        KeyCode::Right => EditCommand::MoveCursor { back: false },
        KeyCode::Down => EditCommand::MoveCursor { back: false },
        KeyCode::PageUp => EditCommand::Scroll { back: true },
        KeyCode::PageDown => EditCommand::Scroll { back: false },
        KeyCode::Home => EditCommand::CursorEdge { end: false },
        KeyCode::End => EditCommand::CursorEdge { end: true },
        _ => EditCommand::Nothing,
    }
}

/// The client with an edit that has gone on; where it could not, it says so.
pub open spec fn edited(v: AppModel, e: EditModel, fine: bool) -> AppModel {
    let next = AppModel { edit: Some(e), ..v };
    if fine {
        next
    } else {
        complain(next, "ERROR: "@ + EditorError::InvalidTarget.spec_message())
    }
}

/// The client with a part of rich text refused that the notes service cannot keep.
pub open spec fn feature_refused(v: AppModel, feature: RichFeature) -> AppModel {
    first_do(v, Step::RefuseFeature(feature))
}

/// Whether the body of a note is being edited.
pub open spec fn in_body(v: AppModel) -> bool {
    v.edit matches Some(e) && e.field is Body
}

#[verifier::opaque]
pub open spec fn style_toggled(v: AppModel, e: EditModel, style: InlineStyle) -> AppModel {
    if e.field is Title {
        v
    } else if !supports(v.prefs.capabilities, style_feature(style)) {
        feature_refused(v, style_feature(style))
    } else {
        edited(v, styled(e, style), can_style(e.document, e.target))
    }
}

#[verifier::opaque]
pub open spec fn link_asked(v: AppModel, e: EditModel) -> AppModel {
    if e.field is Title {
        v
    } else if !supports(v.prefs.capabilities, RichFeature::Hyperlink) {
        feature_refused(v, RichFeature::Hyperlink)
    } else {
        with_popup(
            v,
            PopupModel::Link { target: crate::edit::target_at(e.target), url: "https://"@ },
        )
    }
}

#[verifier::opaque]
pub open spec fn kind_converted(v: AppModel, e: EditModel, kind: TargetKind) -> AppModel {
    if e.field is Title {
        v
    } else if kind_feature(kind) matches Some(f) && !supports(v.prefs.capabilities, f) {
        feature_refused(v, kind_feature(kind)->0)
    } else if !valid_spot(e.document, e.target) {
        edited(v, e, false)
    } else if conversion_mixes(e, kind) && !supports(
        v.prefs.capabilities,
        RichFeature::MixedAdjacentListTypes,
    ) {
        feature_refused(v, RichFeature::MixedAdjacentListTypes)
    } else {
        edited(v, target_converted(e, kind), true)
    }
}

/// The client with a command of the editor carried out that changes the edit alone.
#[verifier::opaque]
pub open spec fn edit_commanded(v: AppModel, e: EditModel, command: EditCommand) -> AppModel {
    match command {
        EditCommand::Toggle(style) => style_toggled(v, e, style),
        EditCommand::OpenLink => link_asked(v, e),
        EditCommand::Convert(kind) => kind_converted(v, e, kind),
        EditCommand::DeleteTarget => edited(v, target_removed(e), target_there(e)),
        EditCommand::MoveTarget { back } => edited(v, target_stepped(e, back), true),
        EditCommand::SwitchField => edited(v, field_switched(e), target_there(field_switched(e))),
        EditCommand::Backspace => edited(v, rubbed_out(e), target_there(e)),
        EditCommand::Delete => edited(v, struck_out(e), target_there(e)),
        EditCommand::AddLine => edited(v, line_added(e), can_follow(e.document, e.target)),
        EditCommand::BreakTitle => edited(v, typed(e, "\n"@), target_there(e)),
        EditCommand::Type(c) => edited(v, typed(e, seq![c]), target_there(e)),
        EditCommand::MoveCursor { back } => edited(v, cursor_stepped(e, back), target_there(e)),
        EditCommand::Scroll { back } => edited(v, scrolled(e, back, 10), true),
        EditCommand::CursorEdge { end } => edited(
            v,
            cursor_at_edge(e, end),
            !end || target_there(e),
        ),
        _ => v,
    }
}

/// The client with its edit given up.
pub open spec fn edit_cancelled(v: AppModel) -> AppModel {
    first_do2(
        AppModel { edit: None, shown: Shown { mode: AppMode::Normal, ..v.shown }, ..v },
        Step::ClearRecovery,
        Step::Say(Message::EditCancelled),
    )
}

/// A key in the editor. What was edited is kept as a draft afterwards.
#[verifier::opaque]
pub open spec fn inserted(v: AppModel, key: KeyEvent) -> (AppModel, Option<Effect>) {
    if v.background.update_running {
        go_on(say(v, "Saving…"@))
    } else {
        let next = first_do(v, Step::PersistRecovery);
        match command_of(key, in_body(v)) {
            EditCommand::Leave => go_on(AppModel {
                shown: Shown { mode: AppMode::Normal, ..next.shown },
                ..next
            }),
            EditCommand::Save => saving(next, false),
            EditCommand::Cancel => go_on(edit_cancelled(next)),
            command => match v.edit {
                Some(e) => go_on(edit_commanded(next, e, command)),
                None => go_on(next),
            },
        }
    }
}

impl App {
    fn editing_body(&self) -> (r: bool)
        ensures
            r == in_body(self@),
    {
        match &self.edit {
            Some(edit) => match edit.field {
                EditField::Body => true,
                EditField::Title => false,
            },
            None => false,
        }
    }

    /// Puts the edit back, and tells where it could not go on.
    fn put_edit(&mut self, edit: EditSession, result: Result<(), EditorError>)
        requires
            edit.wf(),
        ensures
            old(self).wf() ==> final(self).wf(),
            final(self)@ == edited(old(self)@, edit@, result is Ok),
    {
        self.edit = Some(edit);
        if let Err(e) = result {
            let text = e.message();
            self.complain(cat("ERROR: ", text.as_str()));
        }
    }

    fn toggle_inline(&mut self, edit: EditSession, style: InlineStyle)
        requires
            old(self).edit is None,
            edit.wf(),
        ensures
            old(self).wf() ==> final(self).wf(),
            final(self)@ == style_toggled(
                AppModel { edit: Some(edit@), ..old(self)@ },
                edit@,
                style,
            ),
    {
        proof {
            reveal(style_toggled);
        }
        let mut edit = edit;
        let body = match edit.field {
            EditField::Body => true,
            EditField::Title => false,
        };
        if !body {
            self.edit = Some(edit);
            return;
        }
        let feature = find_style_feature(style);
        if !self.prefs.capabilities.supports(feature) {
            self.edit = Some(edit);
            self.first_do(Step::RefuseFeature(feature));
            return;
        }
        let result = edit.toggle_inline(style);
        self.put_edit(edit, result);
    }

    fn open_link_popup(&mut self, edit: EditSession)
        requires
            old(self).edit is None,
            edit.wf(),
        ensures
            old(self).wf() ==> final(self).wf(),
            final(self)@ == link_asked(AppModel { edit: Some(edit@), ..old(self)@ }, edit@),
    {
        proof {
            reveal(link_asked);
        }
        let body = match edit.field {
            EditField::Body => true,
            EditField::Title => false,
        };
        let target = edit.current_target;
        proof {
            crate::edit::lemma_target_at(target);
        }
        self.edit = Some(edit);
        if !body {
            return;
        }
        if !self.prefs.capabilities.supports(RichFeature::Hyperlink) {
            self.first_do(Step::RefuseFeature(RichFeature::Hyperlink));
            return;
        }
        self.open_popup(Popup::Link { target, url: owned("https://") });
    }

    fn convert_current(&mut self, edit: EditSession, kind: TargetKind)
        requires
            old(self).edit is None,
            edit.wf(),
        ensures
            old(self).wf() ==> final(self).wf(),
            final(self)@ == kind_converted(
                AppModel { edit: Some(edit@), ..old(self)@ },
                edit@,
                kind,
            ),
    {
        proof {
            reveal(kind_converted);
        }
        let mut edit = edit;
        let body = match edit.field {
            EditField::Body => true,
            EditField::Title => false,
        };
        if !body {
            self.edit = Some(edit);
            return;
        }
        if let Some(feature) = target_kind_feature(kind) {
            if !self.prefs.capabilities.supports(feature) {
                self.edit = Some(edit);
                self.first_do(Step::RefuseFeature(feature));
                return;
            }
        }
        let mixed = self.prefs.capabilities.supports(RichFeature::MixedAdjacentListTypes);
        match edit.convert(kind, mixed) {
            Ok(refused) => {
                self.put_edit(edit, Ok(()));
                if refused {
                    self.first_do(Step::RefuseFeature(RichFeature::MixedAdjacentListTypes));
                }
            },
            Err(e) => self.put_edit(edit, Err(e)),
        }
    }

    /// Carries out a command of the editor that changes the edit alone.
    fn command_edit(&mut self, edit: EditSession, command: EditCommand)
        requires
            old(self).edit is None,
            edit.wf(),
        ensures
            old(self).wf() ==> final(self).wf(),
            final(self)@ == edit_commanded(
                AppModel { edit: Some(edit@), ..old(self)@ },
                edit@,
                command,
            ),
    {
        proof {
            reveal(edit_commanded);
        }
        let mut edit = edit;
        match command {
            EditCommand::Toggle(style) => self.toggle_inline(edit, style),
            EditCommand::OpenLink => self.open_link_popup(edit),
            EditCommand::Convert(kind) => self.convert_current(edit, kind),
            EditCommand::DeleteTarget => {
                let result = edit.delete_visual_target();
                self.put_edit(edit, result);
            },
            EditCommand::MoveTarget { back } => {
                let result = edit.move_target(back);
                self.put_edit(edit, result);
            },
            EditCommand::SwitchField => {
                let result = edit.switch_field();
                self.put_edit(edit, result);
            },
            EditCommand::Backspace => {
                let result = edit.backspace();
                self.put_edit(edit, result);
            },
            EditCommand::Delete => {
                let result = edit.delete();
                self.put_edit(edit, result);
            },
            EditCommand::AddLine => {
                let result = edit.insert_target_after();
                self.put_edit(edit, result);
            },
            EditCommand::BreakTitle => {
                proof {
                    reveal_strlit("\n");
                }
                let result = edit.insert_text("\n");
                self.put_edit(edit, result);
            },
            EditCommand::Type(c) => {
                let mut text = String::new();
                text.push(c);
                assert(text@ =~= seq![c]);
                let result = edit.insert_text(text.as_str());
                self.put_edit(edit, result);
            },
            EditCommand::MoveCursor { back } => {
                let result = edit.cursor_move(back);
                self.put_edit(edit, result);
            },
            EditCommand::Scroll { back } => {
                edit.scroll(back, 10);
                self.put_edit(edit, Ok(()));
            },
            EditCommand::CursorEdge { end } => {
                let result = edit.cursor_edge(end);
                self.put_edit(edit, result);
            },
            _ => {
                self.edit = Some(edit);
            },
        }
    }

    /// Sets the link that the user typed.
    pub fn set_link(&mut self, target: EditorTarget, url: String)
        requires
            old(self).wf(),
        ensures
            final(self).wf(),
            final(self)@ == link_set(old(self)@, target, url@),
    {
        proof {
            reveal(link_set);
        }
        let mut taken: Option<EditSession> = None;
        std::mem::swap(&mut taken, &mut self.edit);
        if let Some(edit) = taken {
            let mut edit = edit;
            let result = edit.set_link(target, url);
            self.put_edit(edit, result);
        }
    }

    pub fn handle_insert(&mut self, key: KeyEvent) -> (r: Option<Effect>)
        requires
            old(self).wf(),
        ensures
            final(self).wf(),
            (final(self)@, r) == inserted(old(self)@, key),
    {
        proof {
            reveal(inserted);
        }
        if self.background.update_running {
            self.say(owned("Saving…"));
            return None;
        }
        let command = edit_command(key, self.editing_body());
        self.first_do(Step::PersistRecovery);
        match command {
            EditCommand::Leave => {
                self.shown.mode = AppMode::Normal;
                None
            },
            EditCommand::Save => self.save_edit(false),
            EditCommand::Cancel => {
                self.edit = None;
                self.shown.mode = AppMode::Normal;
                self.first_do2(Step::ClearRecovery, Step::Say(Message::EditCancelled));
                None
            },
            _ => {
                let mut taken: Option<EditSession> = None;
                std::mem::swap(&mut taken, &mut self.edit);
                match taken {
                    Some(edit) => self.command_edit(edit, command),
                    None => {},
                }
                None
            },
        }
    }
}

/// The client with a link set in its edit.
#[verifier::opaque]
pub open spec fn link_set(v: AppModel, target: EditorTarget, url: Seq<char>) -> AppModel {
    match v.edit {
        Some(e) => edited(v, linked(e, target@, url), can_style(e.document, target@)),
        None => v,
    }
}

// ---------------------------------------------------------------------------
// Saving
// ---------------------------------------------------------------------------

/// How an edit is saved.
pub open spec fn save_mode(e: EditModel, overwrite: bool) -> SaveMode {
    if e.is_new {
        if overwrite {
            SaveMode::CreateNow
        } else {
            SaveMode::Create
        }
    } else {
        if overwrite {
            SaveMode::Overwrite
        } else {
            SaveMode::Update
        }
    }
}

/// The edit is to be saved: first the notes service is asked whether it can keep all of
/// it.
#[verifier::opaque]
pub open spec fn saving(v: AppModel, overwrite: bool) -> (AppModel, Option<Effect>) {
    if v.background.update_running {
        go_on(v)
    } else if !(v.shown.data_source is Live) {
        go_on(refused_offline(v))
    } else {
        match v.edit {
            Some(e) => ask(
                v,
                Await::DocumentChecked { mode: save_mode(e, overwrite) },
                Effect::CheckDocument,
            ),
            None => go_on(v),
        }
    }
}

/// The id of the note that is edited.
pub open spec fn edited_id(e: EditModel) -> Seq<char> {
    match e.note_id {
        Some(id) => id@,
        None => "missing"@,
    }
}

/// What is done in the background to save an edit.
pub open spec fn save_job(e: EditModel, mode: SaveMode) -> UpdateModel {
    match mode {
        SaveMode::Update => UpdateModel::SaveNote {
            id: edited_id(e),
            title: e.title,
            document: e.document,
            base_date: e.base_modification_date,
            checked: false,
        },
        SaveMode::Overwrite => UpdateModel::OverwriteNote {
            id: edited_id(e),
            title: e.title,
            document: e.document,
        },
        _ => UpdateModel::CreateNote {
            folder_id: e.folder_id,
            title: e.title,
            document: e.document,
        },
    }
}

/// The edit was looked at. Where the notes service cannot keep all of it, nothing is
/// saved.
#[verifier::opaque]
pub open spec fn document_checked(
    v: AppModel,
    mode: SaveMode,
    features: Vec<RichFeature>,
) -> (AppModel, Option<Effect>) {
    match v.edit {
        None => go_on(v),
        Some(e) => if features@.len() > 0 {
            go_on(first_do(v, Step::Report(Problem::UnsupportedRichContent { features })))
        } else if mode is CreateNow {
            ask(v, Await::NoteCreated, Effect::CreateNote)
        } else {
            go_on(updating(v, save_job(e, mode), "Saving…"@))
        },
    }
}

/// The list with a note as it was saved: in its place, or at the end where it is new in
/// the folder that is shown.
pub open spec fn saved_in(
    notes: Seq<NoteSummary>,
    shown: Option<FolderId>,
    summary: NoteSummary,
) -> Seq<NoteSummary> {
    let k = summary_at(notes, summary.id@);
    if k < notes.len() {
        notes.update(k as int, summary)
    } else if shown is Some && shown->0@ == summary.folder_id@ {
        notes.push(summary)
    } else {
        notes
    }
}

/// The client with a saved note in its list. What a search shows is found anew.
#[verifier::opaque]
pub open spec fn saved_applied(v: AppModel, note: Note) -> AppModel {
    researched(AppModel {
        data: DataModel { notes: saved_in(v.data.notes, shown_folder(v), note.summary), ..v.data },
        ..v
    })
}

/// The client with a saved note on the screen, where the list shows it.
#[verifier::opaque]
pub open spec fn saved_selected(v: AppModel, note: Arc<Note>) -> AppModel {
    let ids = visible_ids(v);
    let at = crate::navigation::first_index(ids, |x: NoteId| x@ == note.summary.id@);
    if at < ids.len() {
        AppModel {
            shown: Shown {
                selected_note_index: at as usize,
                selected_note: Some(note),
                cached_preview_state: None,
                preview_scroll: 0,
                ..v.shown
            },
            ..v
        }
    } else {
        v
    }
}

/// A note was saved: the edit is over, the list shows what was saved, and then it is
/// kept.
#[verifier::opaque]
pub open spec fn note_saved(v: AppModel, note: Arc<Note>) -> AppModel {
    let next = saved_applied(
        AppModel {
            data: DataModel { rows: v.data.rows.remove(note.summary.folder_id@), ..v.data },
            edit: None,
            shown: Shown { mode: AppMode::Normal, ..v.shown },
            ..v
        },
        *note,
    );
    first_do5(
        saved_selected(next, note),
        Step::KeepNote(note),
        Step::Snapshot,
        Step::Conclude(Message::Saved),
        Step::PersistSession,
        Step::ClearRecovery,
    )
}

#[verifier::opaque]
pub open spec fn note_created(v: AppModel, result: Result<Arc<Note>, NotesError>) -> AppModel {
    match result {
        Ok(note) => note_saved(v, note),
        Err(e) => with_error(v, e.message),
    }
}

impl App {
    pub fn save_edit(&mut self, overwrite: bool) -> (r: Option<Effect>)
        ensures
            (final(self)@, r) == saving(old(self)@, overwrite),
            old(self).wf() ==> final(self).wf(),
    {
        proof {
            reveal(saving);
        }
        if self.background.update_running {
            return None;
        }
        if !self.require_live_backend() {
            return None;
        }
        let mode = match &self.edit {
            None => return None,
            Some(edit) => if edit.is_new {
                if overwrite {
                    SaveMode::CreateNow
                } else {
                    SaveMode::Create
                }
            } else {
                if overwrite {
                    SaveMode::Overwrite
                } else {
                    SaveMode::Update
                }
            },
        };
        self.ask(Await::DocumentChecked { mode }, Effect::CheckDocument)
    }

    /// Goes on with saving, now that it is known what the notes service cannot keep.
    pub fn end_document_check(&mut self, mode: SaveMode, features: Vec<RichFeature>) -> (r: Option<
        Effect,
    >)
        ensures
            (final(self)@, r) == document_checked(old(self)@, mode, features),
            old(self).wf() ==> final(self).wf(),
    {
        proof {
            reveal(document_checked);
        }
        let job = match &self.edit {
            None => return None,
            Some(edit) => {
                let id = match &edit.note_id {
                    Some(id) => id.clone(),
                    None => NoteId::new("missing"),
                };
                let title = edit.title_buffer.clone();
                let document = edit.document.document.clone();
                match mode {
                    SaveMode::Update => UpdateJob::SaveNote {
                        id,
                        title,
                        document,
                        base_date: match &edit.base_modification_date {
                            Some(date) => Some(date.clone()),
                            None => None,
                        },
                        checked: false,
                    },
                    SaveMode::Overwrite => UpdateJob::OverwriteNote { id, title, document },
                    _ => UpdateJob::CreateNote {
                        folder_id: edit.folder_id.clone(),
                        title,
                        document,
                    },
                }
            },
        };
        if features.len() > 0 {
            self.first_do(Step::Report(Problem::UnsupportedRichContent { features }));
            return None;
        }
        if let SaveMode::CreateNow = mode {
            return self.ask(Await::NoteCreated, Effect::CreateNote);
        }
        self.update(job, owned("Saving…"));
        None
    }

    fn apply_saved_note_to_runtime(&mut self, note: &Note)
        ensures
            final(self)@ == saved_applied(old(self)@, *note),
            old(self).wf() ==> final(self).wf(),
    {
        proof {
            reveal(saved_applied);
        }
        match find_summary(&self.data.notes, &note.summary.id) {
            Some(k) => {
                self.data.notes.set(k, note.summary.clone());
            },
            None => {
                let here = match self.selected_folder_id() {
                    Some(id) => id.same(&note.summary.folder_id),
                    None => false,
                };
                if here {
                    self.data.notes.push(note.summary.clone());
                }
            },
        }
        self.recompute_search();
    }

    fn select_saved_note(&mut self, note: Arc<Note>)
        ensures
            final(self)@ == saved_selected(old(self)@, note),
            old(self).wf() ==> final(self).wf(),
    {
        proof {
            reveal(saved_selected);
        }
        let ids = self.visible_note_ids();
        if let Some(at) = crate::app::find_id(&ids, &note.summary.id) {
            self.shown.selected_note_index = at;
            self.shown.selected_note = Some(note);
            self.shown.cached_preview_state = None;
            self.shown.preview_scroll = 0;
        }
    }

    pub fn finish_saved(&mut self, note: Arc<Note>)
        ensures
            final(self)@ == note_saved(old(self)@, note),
            old(self).wf() ==> final(self).wf(),
    {
        proof {
            reveal(note_saved);
        }
        self.data.rows.remove(&note.summary.folder_id);
        self.edit = None;
        self.shown.mode = AppMode::Normal;
        self.apply_saved_note_to_runtime(&note);
        self.select_saved_note(note.clone());
        self.first_do5(
            Step::KeepNote(note),
            Step::Snapshot,
            Step::Conclude(Message::Saved),
            Step::PersistSession,
            Step::ClearRecovery,
        );
    }

    pub fn end_create(&mut self, result: Result<Arc<Note>, NotesError>)
        ensures
            final(self)@ == note_created(old(self)@, result),
            old(self).wf() ==> final(self).wf(),
    {
        proof {
            reveal(note_created);
        }
        match result {
            Ok(note) => self.finish_saved(note),
            Err(e) => self.set_error(e.message),
        }
    }
}

} // verus!
