//! Laws of the keyboard: what each key does while notes are browsed and while one is edited.

use std::sync::Arc;

use vstd::prelude::*;

use crate::app::AppModel;
use crate::document::{LineForm, Piece};
use crate::editing::{
    command_of, document_checked, edit_begun, edit_commanded, inserted, new_note_begun, note_opened,
    saving, style_toggled, EditCommand,
};
use crate::editor::{InlineStyle, TargetKind};
use crate::folders::{
    child_form_opened, folder_deletion_offered, folder_form_opened, rename_form_opened,
    reparent_begun, reparent_form_opened,
};
use crate::keyboard::{browsed, pressed};
use crate::keys::{KeyCode, KeyEvent};
use crate::model::{AccountId, Folder, FolderId, Note, RichFeature};
use crate::navigation::{reparent_targets, NavigationItem};
use crate::notes::{attachments_opened, deletion_offered, move_begun};
use crate::popups::{conflict_pressed, discard_pressed, form_pressed, link_pressed, popup_pressed};
use crate::settings::settings_opened;
use crate::workflow::{
    Await, Effect, Focus, OrderModel, PendingAction, PopupModel, Problem, Step, UpdateModel,
};

verus! {

/// Whether notes are browsed: nothing is open over them, and neither an edit, a refresh nor
/// a change is under way.
pub open spec fn browsing(v: AppModel) -> bool {
    &&& v.popup is None
    &&& !v.shown.show_help
    &&& v.shown.mode is Normal
    &&& v.edit is None
    &&& !(v.search is Editing)
    &&& v.background.periodic_refresh is Idle
    &&& !v.background.update_running
}

/// Whether the line that is selected in the tree is a folder.
pub open spec fn folder_selected(
    v: AppModel,
    account_id: AccountId,
    id: FolderId,
    name: String,
    depth: usize,
) -> bool {
    &&& v.shown.selected_navigation < v.data.navigation.len()
    &&& v.data.navigation[v.shown.selected_navigation as int] == (NavigationItem::Folder {
        id,
        account_id,
        name,
        depth,
    })
}

// ---------------------------------------------------------------------------
// Panes, help, search and the end
// ---------------------------------------------------------------------------

/// Tab, right and `l` go to the next pane, with shift, left or `h` to the one before: from
/// the tree to the notes to the preview, and round again.
pub proof fn law_keys_change_the_pane(v: AppModel, key: KeyEvent)
    requires
        browsing(v),
    ensures
        ({
            let on = key.code is Tab || key.code is Right || key.code == KeyCode::Char('l');
            let back = key.code is BackTab || key.code is Left || key.code == KeyCode::Char('h');
            let next = pressed(v, key).0;
            &&& on ==> match v.shown.focus {
                Focus::Navigation => next.shown.focus is Notes,
                Focus::Notes => next.shown.focus is Preview,
                Focus::Preview => next.shown.focus is Navigation,
            }
            &&& back ==> match v.shown.focus {
                Focus::Navigation => next.shown.focus is Preview,
                Focus::Notes => next.shown.focus is Navigation,
                Focus::Preview => next.shown.focus is Notes,
            }
            &&& on || back ==> next.data == v.data && next.orders == v.orders && next.popup is None
                && next.steps == v.steps.push(Step::PersistSession)
        }),
{
    reveal(pressed);
    reveal(browsed);
    reveal(crate::browsing::focused);
}

/// `q` ends the client, `?` opens the help and `/` the search line. None of them changes
/// anything else.
pub proof fn law_keys_that_open_and_close(v: AppModel, key: KeyEvent)
    requires
        browsing(v),
    ensures
        ({
            let next = pressed(v, key).0;
            &&& key.code == KeyCode::Char('q') ==> next.shown.should_quit
                && next.background.pending_intent is None && next.search == v.search
            &&& key.code == KeyCode::Char('?') ==> next.shown.show_help && next.search == v.search
            &&& key.code == KeyCode::Char('/') ==> next.search is Editing
            &&& key.code == KeyCode::Char('?') || key.code == KeyCode::Char('/')
                ==> next.shown.should_quit == v.shown.should_quit
            &&& key.code == KeyCode::Char('q') || key.code == KeyCode::Char('?') || key.code
                == KeyCode::Char('/') ==> next.data == v.data && next.orders == v.orders
                && next.popup is None && next.edit is None && next.steps == v.steps
        }),
{
    reveal(pressed);
    reveal(browsed);
    reveal(crate::browsing::search_opened);
}

/// The help closes by `?` and by escape, and no other key does anything while it is open.
pub proof fn law_help_closes(v: AppModel, key: KeyEvent)
    requires
        v.shown.show_help,
        v.popup is None,
        v.background.periodic_refresh is Idle,
    ensures
        ({
            let next = pressed(v, key).0;
            &&& key.code is Esc || key.code == KeyCode::Char('?') ==> !next.shown.show_help
            &&& !(key.code is Esc) && key.code != KeyCode::Char('?') ==> next == v
            &&& next.data == v.data && next.orders == v.orders && next.edit == v.edit
        }),
{
    reveal(pressed);
}

/// Enter shows the notes of the line that is selected in the tree, or the note that is
/// selected in the list.
pub proof fn law_enter_shows_the_selection(v: AppModel, key: KeyEvent)
    requires
        browsing(v),
        key.code is Enter,
    ensures
        v.shown.focus is Navigation ==> pressed(v, key).0.steps == v.steps.push(
            Step::LoadNotes { persist: true, browse: true },
        ),
        v.shown.focus is Notes ==> pressed(v, key).0.steps == v.steps.push(
            Step::LoadSelected { persist: true },
        ),
        v.shown.focus is Preview ==> pressed(v, key).0 == v,
{
    reveal(pressed);
    reveal(browsed);
    reveal(crate::browsing::activated);
}

/// `j` and down go one on in the pane with the focus, `k` and up one back; `g` and home go
/// to the first, `G` and end to the last.
pub proof fn law_keys_move_the_selection(v: AppModel, key: KeyEvent)
    requires
        browsing(v),
    ensures
        key.code is Down || key.code == KeyCode::Char('j') ==> pressed(v, key).0
            == crate::browsing::stepped(v, false),
        key.code is Up || key.code == KeyCode::Char('k') ==> pressed(v, key).0
            == crate::browsing::stepped(v, true),
        key.code is Home || key.code == KeyCode::Char('g') ==> pressed(v, key).0
            == crate::browsing::to_edge(v, false),
        key.code is End || key.code == KeyCode::Char('G') ==> pressed(v, key).0
            == crate::browsing::to_edge(v, true),
{
    reveal(pressed);
    reveal(browsed);
}

/// Page down and `d` with control scroll the preview by ten lines, page up and `u` with
/// control back; the first line and the largest number are the ends.
pub proof fn law_keys_scroll_the_preview(v: AppModel, key: KeyEvent)
    requires
        browsing(v),
    ensures
        ({
            let down = key.code is PageDown || key.code == KeyCode::Char('d')
                && key.modifiers.control;
            let up = key.code is PageUp || key.code == KeyCode::Char('u') && key.modifiers.control;
            let at = v.shown.preview_scroll;
            let next = pressed(v, key).0.shown.preview_scroll;
            &&& down && at + 10 <= u16::MAX ==> next == at + 10
            &&& down && at + 10 > u16::MAX ==> next == u16::MAX
            &&& up && at >= 10 ==> next == at - 10
            &&& up && at < 10 ==> next == 0
            &&& down || up ==> pressed(v, key).0.data == v.data
                && pressed(v, key).0.shown.selected_note == v.shown.selected_note
        }),
{
    reveal(pressed);
    reveal(browsed);
    reveal(crate::browsing::preview_scrolled);
}

// ---------------------------------------------------------------------------
// Forms
// ---------------------------------------------------------------------------

/// With a folder selected in the tree of a live client, the keys for it open the forms for
/// that folder: for a new folder in its account, for one within it, for another name, for
/// another place and for its deletion.
pub proof fn law_forms_open_for_the_selected_folder(
    v: AppModel,
    key: KeyEvent,
    account_id: AccountId,
    id: FolderId,
    name: String,
    depth: usize,
)
    requires
        browsing(v),
        v.shown.data_source is Live,
        folder_selected(v, account_id, id, name, depth),
        v.shown.focus is Navigation,
    ensures
        ({
            let next = pressed(v, key).0;
            &&& key.code == KeyCode::Char('N') ==> (
            next.popup matches Some(PopupModel::CreateFolder { account_id: a, name: n, cursor })
                && a == account_id && n.len() == 0 && cursor == 0)
            &&& key.code == KeyCode::Char('C') ==> (
            next.popup matches Some(
                PopupModel::CreateChildFolder {
                    account_id: a,
                    parent_folder_id,
                    parent_folder_name,
                    name: n,
                    cursor,
                },
            ) && a == account_id && parent_folder_id == id && parent_folder_name == name && n.len()
                == 0 && cursor == 0)
            &&& key.code == KeyCode::Char('R') ==> (
            next.popup matches Some(
                PopupModel::RenameFolder { account_id: a, folder_id, original_name, name: n, cursor },
            ) && a == account_id && folder_id == id && original_name == name && n == name@ && (
            name@.len() <= usize::MAX ==> cursor == name@.len()))
            &&& key.code == KeyCode::Char('D') && v.shown.selected_note is None ==> (
            next.popup matches Some(
                PopupModel::DeleteFolder { account_id: a, folder_id, folder_name },
            ) && a == account_id && folder_id == id && folder_name == name)
            &&& key.code == KeyCode::Char('N') || key.code == KeyCode::Char('C') || key.code
                == KeyCode::Char('R') || key.code == KeyCode::Char('M') || (key.code
                == KeyCode::Char('D') && v.shown.selected_note is None) ==> next.orders == v.orders
                && next.steps == v.steps && next.data == v.data
        }),
{
    reveal(pressed);
    reveal(browsed);
    reveal(folder_form_opened);
    reveal(child_form_opened);
    reveal(rename_form_opened);
    reveal(folder_deletion_offered);
    reveal(reparent_begun);
    reveal(reparent_form_opened);
    reveal_strlit("");
}

/// The form for another place is that of the selected folder: it knows where the folder
/// lies, and offers the places that there are for it.
pub proof fn law_move_form_knows_the_folder(
    v: AppModel,
    key: KeyEvent,
    account_id: AccountId,
    id: FolderId,
    name: String,
    depth: usize,
    k: int,
)
    requires
        browsing(v),
        v.shown.data_source is Live,
        folder_selected(v, account_id, id, name, depth),
        v.shown.focus is Navigation,
        key.code == KeyCode::Char('M'),
        0 <= k < v.data.folders.len(),
        v.data.folders[k].id@ == id@,
        v.data.folders[k].account_id@ == account_id@,
        forall|i: int|
            0 <= i < k ==> (#[trigger] v.data.folders[i]).id@ != id@
                || v.data.folders[i].account_id@ != account_id@,
    ensures
        pressed(v, key).0.popup matches Some(
            PopupModel::ReparentFolder {
                account_id: a,
                folder_id,
                source_folder_name,
                original_parent,
                destinations,
                ..
            },
        ) && {
            &&& a == account_id
            &&& folder_id == id
            &&& source_folder_name == name
            &&& original_parent == v.data.folders[k].parent
            &&& destinations == reparent_targets(
                v.data.folders,
                v.data.navigation,
                account_id@,
                id@,
            )
        },
{
    reveal(pressed);
    reveal(browsed);
    reveal(reparent_begun);
    reveal(reparent_form_opened);
    let fits = |f: Folder| f.id@ == id@ && f.account_id@ == account_id@;
    assert forall|i: int| 0 <= i < k implies !fits(#[trigger] v.data.folders[i]) by {}
    crate::navigation::lemma_first_index(v.data.folders, fits, k);
}

/// With a note on the screen of a live client, the keys for it open the list of folders to
/// move it to, the question whether to delete it, the list of its attachments, and the
/// editor.
pub proof fn law_keys_for_the_note_on_the_screen(v: AppModel, key: KeyEvent, note: Arc<Note>)
    requires
        browsing(v),
        v.shown.data_source is Live,
        v.shown.selected_note == Some(note),
        !note.summary.password_protected,
    ensures
        ({
            let next = pressed(v, key).0;
            &&& key.code == KeyCode::Char('m') ==> next.popup == Some(
                (PopupModel::Move { selected: 0 }),
            )
            &&& key.code == KeyCode::Char('D') && v.prefs.capabilities.delete ==> next.popup
                == Some(PopupModel::DeleteConfirm(note))
            &&& key.code == KeyCode::Char('D') && !v.prefs.capabilities.delete ==> next.popup
                is None && next.status.is_error
            &&& key.code == KeyCode::Char('a') && note.attachments@.len() > 0 ==> next.popup
                == Some((PopupModel::Attachments { selected: 0 }))
            &&& key.code == KeyCode::Char('a') && note.attachments@.len() == 0 ==> next.popup
                is None
            &&& key.code == KeyCode::Char('m') || key.code == KeyCode::Char('D') && !(v.shown.focus
                is Navigation && v.shown.selected_note is None) || key.code == KeyCode::Char('a')
                ==> next.orders == v.orders && next.data == v.data && next.steps == v.steps
        }),
{
    reveal(pressed);
    reveal(browsed);
    reveal(move_begun);
    reveal(deletion_offered);
    reveal(attachments_opened);
}

// ---------------------------------------------------------------------------
// Editing
// ---------------------------------------------------------------------------

/// The key for it opens the note on the screen in the editor: its own name, body and date,
/// with nothing changed yet. A note that cannot be kept whole is refused.
pub proof fn law_note_is_edited_as_it_is(v: AppModel, key: KeyEvent, note: Arc<Note>)
    requires
        browsing(v),
        v.shown.data_source is Live,
        v.shown.selected_note == Some(note),
        key.code == KeyCode::Char('e'),
    ensures
        ({
            let next = pressed(v, key).0;
            &&& note.editability is ReadOnlyUnsupported || note.body is Err ==> next.edit is None
                && next.shown.mode is Normal && next.status.is_error
            &&& !(note.editability is ReadOnlyUnsupported) && note.body is Ok ==> {
                &&& next.shown.mode is Insert
                &&& next.edit matches Some(e) && {
                    &&& e.title == note.summary.name@
                    &&& e.note_id == Some(note.summary.id)
                    &&& e.folder_id == note.summary.folder_id
                    &&& e.base_modification_date == Some(note.summary.modification_date)
                    &&& e.document == crate::edit::body_opened(note.body->Ok_0@, note.summary.name@)
                    &&& e.original == e.document
                    &&& e.original_title == note.summary.name@
                    &&& e.original_body_html == note.body_html@
                    &&& e.original_plaintext == note.plaintext@
                    &&& !e.is_new
                    &&& !e.dirty
                    &&& e.field is Body
                    &&& e.cursor == 0
                }
            }
        }),
{
    reveal(pressed);
    reveal(browsed);
    reveal(edit_begun);
    reveal(note_opened);
}

/// The key for it begins a new, empty note in the folder that is selected.
pub proof fn law_new_note_is_empty(
    v: AppModel,
    key: KeyEvent,
    account_id: AccountId,
    id: FolderId,
    name: String,
    depth: usize,
)
    requires
        browsing(v),
        v.shown.data_source is Live,
        folder_selected(v, account_id, id, name, depth),
        key.code == KeyCode::Char('n'),
    ensures
        ({
            let next = pressed(v, key).0;
            &&& next.shown.mode is Insert
            &&& next.edit matches Some(e) && {
                &&& e.folder_id == id
                &&& e.is_new
                &&& !e.dirty
                &&& e.note_id is None
                &&& e.base_modification_date is None
                &&& e.title.len() == 0
                &&& e.original_title.len() == 0
                &&& e.document == seq![Piece::Line(LineForm::Paragraph, Seq::empty())]
                &&& e.field is Title
            }
        }),
{
    reveal(pressed);
    reveal(browsed);
    reveal(new_note_begun);
    reveal_strlit("");
}

/// Without control and alt, a character is typed in the editor. With control, a character
/// that means nothing is not typed.
pub proof fn law_characters_are_typed(key: KeyEvent, in_body: bool, c: char)
    requires
        key.code == KeyCode::Char(c),
    ensures
        !key.modifiers.control && !key.modifiers.alt ==> command_of(key, in_body)
            == EditCommand::Type(c),
        key.modifiers.control ==> !(command_of(key, in_body) is Type),
{
}

/// With control: `s` saves, `c` cancels, `b`, `i` and `u` make bold, italic and underlined,
/// `k` asks for a link, `d` takes the line.
pub proof fn law_control_keys(key: KeyEvent, in_body: bool)
    requires
        key.modifiers.control,
    ensures
        key.code == KeyCode::Char('s') ==> command_of(key, in_body) is Save,
        key.code == KeyCode::Char('c') ==> command_of(key, in_body) is Cancel,
        key.code == KeyCode::Char('b') ==> command_of(key, in_body) == EditCommand::Toggle(
            InlineStyle::Bold,
        ),
        key.code == KeyCode::Char('i') ==> command_of(key, in_body) == EditCommand::Toggle(
            InlineStyle::Italic,
        ),
        key.code == KeyCode::Char('u') ==> command_of(key, in_body) == EditCommand::Toggle(
            InlineStyle::Underline,
        ),
        key.code == KeyCode::Char('k') ==> command_of(key, in_body) is OpenLink,
        key.code == KeyCode::Char('d') ==> command_of(key, in_body) is DeleteTarget,
{
}

/// With alt: the digits one to three make headings, `p` a paragraph, `b` and `n` items of
/// lists, `q` a quote, `c` code; `j` and `k` go to the next line and the one before.
pub proof fn law_alt_keys(key: KeyEvent, in_body: bool)
    requires
        key.modifiers.alt,
        !key.modifiers.control,
    ensures
        key.code == KeyCode::Char('1') ==> command_of(key, in_body) == EditCommand::Convert(
            TargetKind::Heading1,
        ),
        key.code == KeyCode::Char('2') ==> command_of(key, in_body) == EditCommand::Convert(
            TargetKind::Heading2,
        ),
        key.code == KeyCode::Char('3') ==> command_of(key, in_body) == EditCommand::Convert(
            TargetKind::Heading3,
        ),
        key.code == KeyCode::Char('p') ==> command_of(key, in_body) == EditCommand::Convert(
            TargetKind::Paragraph,
        ),
        key.code == KeyCode::Char('b') ==> command_of(key, in_body) == EditCommand::Convert(
            TargetKind::Bullet,
        ),
        key.code == KeyCode::Char('n') ==> command_of(key, in_body) == EditCommand::Convert(
            TargetKind::Numbered,
        ),
        key.code == KeyCode::Char('q') ==> command_of(key, in_body) == EditCommand::Convert(
            TargetKind::Quote,
        ),
        key.code == KeyCode::Char('c') ==> command_of(key, in_body) == EditCommand::Convert(
            TargetKind::Code,
        ),
        key.code == KeyCode::Char('i') ==> command_of(key, in_body) == EditCommand::Toggle(
            InlineStyle::Italic,
        ),
        key.code == KeyCode::Char('j') ==> command_of(key, in_body) == (EditCommand::MoveTarget {
            back: false,
        }),
        key.code == KeyCode::Char('k') ==> command_of(key, in_body) == (EditCommand::MoveTarget {
            back: true,
        }),
{
}

/// The other keys of the editor.
pub proof fn law_editing_keys(key: KeyEvent, in_body: bool)
    ensures
        key.code is Esc ==> command_of(key, in_body) is Leave,
        key.code is Tab ==> command_of(key, in_body) is SwitchField,
        key.code is Backspace ==> command_of(key, in_body) is Backspace,
        key.code is Delete ==> command_of(key, in_body) is Delete,
        key.code is Enter && in_body ==> command_of(key, in_body) is AddLine,
        key.code is Enter && !in_body ==> command_of(key, in_body) is BreakTitle,
        key.code is Left || key.code is Up ==> command_of(key, in_body) == (
        EditCommand::MoveCursor { back: true }),
        key.code is Right || key.code is Down ==> command_of(key, in_body) == (
        EditCommand::MoveCursor { back: false }),
        key.code is PageUp ==> command_of(key, in_body) == (EditCommand::Scroll { back: true }),
        key.code is PageDown ==> command_of(key, in_body) == (EditCommand::Scroll { back: false }),
        key.code is Home ==> command_of(key, in_body) == (EditCommand::CursorEdge { end: false }),
        key.code is End ==> command_of(key, in_body) == (EditCommand::CursorEdge { end: true }),
{
}

/// A style, a link or a form of line that the notes service cannot keep is refused, and
/// leaves the edit as it is.
pub proof fn law_unsupported_style_is_refused(
    v: AppModel,
    e: crate::edit::EditModel,
    style: InlineStyle,
)
    requires
        v.edit == Some(e),
        e.field is Body,
        match style {
            InlineStyle::Bold => !crate::model::supports(v.prefs.capabilities, RichFeature::Bold),
            InlineStyle::Italic => !crate::model::supports(
                v.prefs.capabilities,
                RichFeature::Italic,
            ),
            InlineStyle::Underline => !crate::model::supports(
                v.prefs.capabilities,
                RichFeature::Underline,
            ),
        },
    ensures
        ({
            let next = edit_commanded(v, e, EditCommand::Toggle(style));
            &&& next.edit == v.edit
            &&& next.steps.len() == v.steps.len() + 1
            &&& next.steps.last() matches Step::RefuseFeature(feature) && match style {
                InlineStyle::Bold => feature is Bold,
                InlineStyle::Italic => feature is Italic,
                InlineStyle::Underline => feature is Underline,
            }
        }),
{
    reveal(edit_commanded);
    reveal(style_toggled);
}

// ---------------------------------------------------------------------------
// Saving
// ---------------------------------------------------------------------------

/// An edit that is saved is ordered as it stands: a new note in its folder, one that exists
/// with the date that it was opened with. Before that the notes service looks at all of it.
pub proof fn law_edit_is_saved_as_it_stands(
    v: AppModel,
    e: crate::edit::EditModel,
    key: KeyEvent,
    features: Vec<RichFeature>,
)
    requires
        v.edit == Some(e),
        v.shown.mode is Insert,
        v.popup is None,
        !v.shown.show_help,
        v.shown.data_source is Live,
        !v.background.update_running,
        v.background.periodic_refresh is Idle,
        key.code == KeyCode::Char('s'),
        key.modifiers.control,
        features@.len() == 0,
    ensures
        ({
            let (asked, effect) = pressed(v, key);
            &&& effect == Some(Effect::CheckDocument)
            &&& asked.orders == v.orders
            &&& asked.edit == v.edit
            &&& asked.background.awaiting matches Some(Await::DocumentChecked { mode }) && {
                let next = document_checked(asked, mode, features).0;
                &&& next.orders.len() == v.orders.len() + 1
                &&& next.orders.last() matches OrderModel::Update(job) && {
                    &&& e.is_new ==> job == (UpdateModel::CreateNote {
                        folder_id: e.folder_id,
                        title: e.title,
                        document: e.document,
                    })
                    &&& !e.is_new && e.note_id is Some ==> job == (UpdateModel::SaveNote {
                        id: e.note_id->0@,
                        title: e.title,
                        document: e.document,
                        base_date: e.base_modification_date,
                        checked: false,
                    })
                }
                &&& next.background.update_running
                &&& next.edit == v.edit
            }
        }),
{
    reveal(pressed);
    reveal(inserted);
    reveal(saving);
    reveal(document_checked);
}

/// Where a note has changed meanwhile, `o` orders it to be written over with the edit as it
/// stands, whatever its date; `c` and escape go back to the edit.
pub proof fn law_conflict_is_written_over_on_demand(
    v: AppModel,
    e: crate::edit::EditModel,
    remote: Arc<Note>,
    key: KeyEvent,
    features: Vec<RichFeature>,
)
    requires
        v.edit == Some(e),
        !e.is_new,
        e.note_id is Some,
        v.popup == Some(PopupModel::Conflict(remote)),
        v.shown.data_source is Live,
        !v.background.update_running,
        features@.len() == 0,
    ensures
        ({
            let (asked, effect) = popup_pressed(v, key);
            &&& key.code == KeyCode::Char('o') ==> {
                &&& effect == Some(Effect::CheckDocument)
                &&& asked.popup is None
                &&& asked.background.awaiting matches Some(Await::DocumentChecked { mode })
                    && document_checked(asked, mode, features).0.orders == v.orders.push(
                    OrderModel::Update(
                        UpdateModel::OverwriteNote {
                            id: e.note_id->0@,
                            title: e.title,
                            document: e.document,
                        },
                    ),
                )
            }
            &&& key.code == KeyCode::Char('c') || key.code is Esc ==> effect is None
                && asked.popup is None && asked.edit == v.edit && asked.orders == v.orders
            &&& key.code == KeyCode::Char('r') && !(remote.editability is ReadOnlyUnsupported)
                && remote.body is Ok ==> (asked.edit matches Some(n) && n.title
                == remote.summary.name@ && n.base_modification_date == Some(
                remote.summary.modification_date,
            ) && !n.dirty && asked.popup is None && asked.orders == v.orders)
        }),
{
    reveal(popup_pressed);
    reveal(form_pressed);
    reveal(conflict_pressed);
    reveal(saving);
    reveal(document_checked);
    reveal(note_opened);
    assert(key.code == KeyCode::Char('o') ==> key.code != KeyCode::Char('r'));
}

/// Unsaved changes go only by a yes: then the edit is over and its draft is removed, before
/// what was asked for goes on. Anything but a yes keeps them.
pub proof fn law_changes_are_discarded_on_demand(
    v: AppModel,
    action: PendingAction,
    key: KeyEvent,
)
    requires
        v.popup == Some((PopupModel::Discard { action })),
        v.edit is Some,
    ensures
        ({
            let next = popup_pressed(v, key).0;
            &&& key.code == KeyCode::Char('y') ==> {
                &&& next.edit is None
                &&& next.shown.mode is Normal
                &&& next.popup is None
                &&& next.steps.len() >= 2
                &&& next.steps[next.steps.len() - 1] is ClearRecovery
                &&& match action {
                    PendingAction::Quit => next.steps[next.steps.len() - 2] is Quit,
                    PendingAction::Key(k) => next.steps[next.steps.len() - 2] == Step::Press(k),
                }
            }
            &&& key.code != KeyCode::Char('y') ==> next.edit == v.edit
            &&& key.code == KeyCode::Char('n') || key.code is Esc ==> next.shown.mode is Insert
                && next.popup is None
            &&& key.code != KeyCode::Char('y') && key.code != KeyCode::Char('n') && !(key.code
                is Esc) ==> next.popup == v.popup
        }),
{
    reveal(popup_pressed);
    reveal(form_pressed);
    reveal(discard_pressed);
}

/// The address of a link is typed at its end, and set with enter at the line that it was
/// asked for.
pub proof fn law_link_address_is_typed(
    v: AppModel,
    target: crate::editor::EditorTarget,
    url: Seq<char>,
    key: KeyEvent,
    c: char,
)
    requires
        v.popup == Some((PopupModel::Link { target, url })),
    ensures
        ({
            let next = popup_pressed(v, key).0;
            &&& key.code == KeyCode::Char(c) ==> next.popup == Some(
                (PopupModel::Link { target, url: url.push(c) }),
            )
            &&& key.code is Backspace && url.len() > 0 ==> next.popup == Some(
                (PopupModel::Link { target, url: url.drop_last() }),
            )
            &&& key.code is Backspace && url.len() == 0 ==> next.popup == v.popup
            &&& key.code is Esc ==> next.popup is None && next.edit == v.edit
            &&& key.code is Enter && v.edit is Some ==> next.popup is None && next.edit == Some(
                crate::edit::linked(v.edit->0, target@, url),
            )
        }),
{
    reveal(popup_pressed);
    reveal(form_pressed);
    reveal(link_pressed);
    reveal(crate::editing::link_set);
}

// ---------------------------------------------------------------------------
// Refusals
// ---------------------------------------------------------------------------

/// The attachments of a note that is locked are not shown: the problem is put into words
/// instead.
pub proof fn law_locked_note_keeps_its_attachments(v: AppModel, key: KeyEvent, note: Arc<Note>)
    requires
        browsing(v),
        v.shown.data_source is Live,
        v.shown.selected_note == Some(note),
        note.summary.password_protected,
        key.code == KeyCode::Char('a'),
    ensures
        pressed(v, key).0.popup is None,
        pressed(v, key).0.steps.len() == v.steps.len() + 1,
        pressed(v, key).0.steps.last() matches Step::Report(Problem::ProtectedNote { id }) && id
            == note.summary.id,
        pressed(v, key).0.orders == v.orders,
{
    reveal(pressed);
    reveal(browsed);
    reveal(attachments_opened);
}

/// Where an account is selected, a new folder is for that account; but no folder within it,
/// no other name and no deletion is offered, and no new note is begun.
pub proof fn law_keys_on_an_account(
    v: AppModel,
    key: KeyEvent,
    account_id: AccountId,
    name: String,
)
    requires
        browsing(v),
        v.shown.data_source is Live,
        v.shown.focus is Navigation,
        v.shown.selected_note is None,
        v.shown.selected_navigation < v.data.navigation.len(),
        v.data.navigation[v.shown.selected_navigation as int] == (NavigationItem::Account {
            id: account_id,
            name,
        }),
    ensures
        ({
            let next = pressed(v, key).0;
            &&& key.code == KeyCode::Char('N') ==> (
            next.popup matches Some(PopupModel::CreateFolder { account_id: a, name: n, cursor })
                && a == account_id && n.len() == 0 && cursor == 0)
            &&& key.code == KeyCode::Char('C') || key.code == KeyCode::Char('R') || key.code
                == KeyCode::Char('M') || key.code == KeyCode::Char('D') || key.code
                == KeyCode::Char('n') ==> next.popup is None && next.edit is None
                && next.status.is_error && next.orders == v.orders
        }),
{
    reveal(pressed);
    reveal(browsed);
    reveal(folder_form_opened);
    reveal(child_form_opened);
    reveal(rename_form_opened);
    reveal(reparent_begun);
    reveal(folder_deletion_offered);
    reveal(new_note_begun);
    reveal_strlit("");
}

/// A note that cannot be kept whole is refused with every reason for it.
pub proof fn law_refusal_tells_the_reasons(
    v: AppModel,
    note: Note,
    refusal: Seq<char>,
    reasons: Vec<String>,
)
    requires
        note.editability == (crate::model::Editability::ReadOnlyUnsupported { reasons }),
    ensures
        note_opened(v, note, refusal).edit == v.edit,
        note_opened(v, note, refusal).status.is_error,
        note_opened(v, note, refusal).status.text == refusal + crate::text::join(
            crate::text::texts(reasons@),
            "; "@,
        ),
{
    reveal(note_opened);
}

/// Nothing is saved while a change is under way, nor away from the notes service; an edit
/// of a new note that is to be written over the other is created at once.
pub proof fn law_saving_needs_the_service(
    v: AppModel,
    e: crate::edit::EditModel,
    overwrite: bool,
    features: Vec<RichFeature>,
)
    requires
        v.edit == Some(e),
    ensures
        v.background.update_running ==> saving(v, overwrite) == (v, None::<Effect>),
        !v.background.update_running && !(v.shown.data_source is Live) ==> {
            &&& saving(v, overwrite).1 is None
            &&& saving(v, overwrite).0.status.is_error
            &&& saving(v, overwrite).0.edit == v.edit
            &&& saving(v, overwrite).0.orders == v.orders
        },
        !v.background.update_running && v.shown.data_source is Live ==> {
            &&& saving(v, overwrite).1 == Some(Effect::CheckDocument)
            &&& saving(v, overwrite).0.background.awaiting matches Some(
                Await::DocumentChecked { mode },
            ) && {
                &&& e.is_new && overwrite && features@.len() == 0 ==> document_checked(
                    saving(v, overwrite).0,
                    mode,
                    features,
                ).1 == Some(Effect::CreateNote)
                &&& features@.len() > 0 ==> {
                    let next = document_checked(saving(v, overwrite).0, mode, features).0;
                    &&& next.orders == v.orders
                    &&& next.edit == v.edit
                    &&& next.steps.last() matches Step::Report(
                        Problem::UnsupportedRichContent { features: f },
                    ) && f == features
                }
            }
        },
{
    reveal(saving);
    reveal(document_checked);
}

/// The settings open over browsed notes, and at no other time.
pub proof fn law_settings_open_over_notes(v: AppModel)
    ensures
        !v.background.update_running && v.edit is None && v.popup is None && !v.shown.show_help
            ==> (settings_opened(v).popup matches Some(PopupModel::Settings(s)) && s
            == crate::settings::settings_begun(v.prefs)),
        v.background.update_running || v.edit is Some || v.popup is Some || v.shown.show_help
            ==> settings_opened(v).popup == v.popup,
        settings_opened(v).data == v.data,
        settings_opened(v).orders == v.orders,
{
    reveal(settings_opened);
}

} // verus!
