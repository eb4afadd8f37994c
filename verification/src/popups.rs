//! Keys in popups.

use std::sync::Arc;

use vstd::prelude::*;

use crate::app::{first_do, first_do2, App, AppModel, KeptModel, Shown};
use crate::browsing::go_on;
use crate::document::{delete_from_text, insert_into_text};
use crate::edit::{cursor_after, cursor_within, typed_into, without_char};
use crate::editing::{link_set, note_opened, saving};
use crate::editor::EditorTarget;
use crate::folders::{
    child_creating, folder_creating, folder_deleting, folder_renaming, folder_reparenting,
    with_popup,
};
use crate::keys::{KeyCode, KeyEvent};
use crate::model::{AccountId, FolderId, FolderParent, Note};
use crate::navigation::{
    move_index, moved_index, FolderReparentTarget, NavigationItem,
};
use crate::notes::{
    attachment_exporting, attachment_previewing, note_deleting, note_moving,
};
use crate::returning::recovery_restored;
use crate::settings::settings_pressed;
use crate::text::{pop_char, shortened};
use crate::workflow::{
    AppMode, Effect, PendingAction, Popup, PopupModel, RecoveredDraft, Step,
};

verus! {

// ---------------------------------------------------------------------------
// Names
// ---------------------------------------------------------------------------

/// A name and its cursor after a key. Where the cursor cannot be moved, characters are
/// only typed and rubbed out.
pub open spec fn name_typed(name: Seq<char>, cursor: usize, key: KeyEvent, moves: bool) -> (
    Seq<char>,
    usize,
) {
    match key.code {
        KeyCode::Backspace => if cursor > 0 {
            (without_char(name, cursor - 1), (cursor - 1) as usize)
        } else {
            (name, cursor)
        },
        KeyCode::Delete => if moves {
            (without_char(name, cursor as int), cursor)
        } else {
            (name, cursor)
        },
        KeyCode::Left => if moves && cursor > 0 {
            (name, (cursor - 1) as usize)
        } else {
            (name, cursor)
        },
        KeyCode::Right => if moves {
            (name, cursor_within(cursor_after(cursor), name.len()))
        } else {
            (name, cursor)
        },
        KeyCode::Char(c) => if !key.modifiers.control {
            (typed_into(name, cursor, c), cursor_after(cursor))
        } else {
            (name, cursor)
        },
        _ => (name, cursor),
    }
}

fn edit_name(name: &mut String, cursor: usize, key: KeyEvent, moves: bool) -> (r: usize)
    ensures
        (final(name)@, r) == name_typed(old(name)@, cursor, key, moves),
{
    match key.code {
        KeyCode::Backspace => {
            if cursor > 0 {
                delete_from_text(name, cursor - 1);
                cursor - 1
            } else {
                cursor
            }
        },
        KeyCode::Delete => {
            if moves {
                delete_from_text(name, cursor);
            }
            cursor
        },
        KeyCode::Left => {
            if moves && cursor > 0 {
                cursor - 1
            } else {
                cursor
            }
        },
        KeyCode::Right => {
            if moves {
                let next = cursor.saturating_add(1);
                let len = name.as_str().unicode_len();
                if next <= len {
                    next
                } else {
                    len
                }
            } else {
                cursor
            }
        },
        KeyCode::Char(c) => {
            if !key.modifiers.control {
                insert_into_text(name, cursor, c);
                cursor.saturating_add(1)
            } else {
                cursor
            }
        },
        _ => cursor,
    }
}

// ---------------------------------------------------------------------------
// Folders
// ---------------------------------------------------------------------------

#[verifier::opaque]
pub open spec fn create_pressed(
    v: AppModel,
    account_id: AccountId,
    name: Seq<char>,
    cursor: usize,
    key: KeyEvent,
) -> AppModel {
    match key.code {
        KeyCode::Esc => v,
        KeyCode::Enter => folder_creating(v, account_id, name, cursor),
        _ => {
            let (name, cursor) = name_typed(name, cursor, key, true);
            with_popup(v, PopupModel::CreateFolder { account_id, name, cursor })
        },
    }
}

#[verifier::opaque]
pub open spec fn child_pressed(
    v: AppModel,
    account_id: AccountId,
    parent_folder_id: FolderId,
    parent_folder_name: String,
    name: Seq<char>,
    cursor: usize,
    key: KeyEvent,
) -> AppModel {
    match key.code {
        KeyCode::Esc => v,
        KeyCode::Enter => child_creating(
            v,
            account_id,
            parent_folder_id,
            parent_folder_name,
            name,
            cursor,
        ),
        _ => {
            let (name, cursor) = name_typed(name, cursor, key, true);
            with_popup(
                v,
                PopupModel::CreateChildFolder {
                    account_id,
                    parent_folder_id,
                    parent_folder_name,
                    name,
                    cursor,
                },
            )
        },
    }
}

#[verifier::opaque]
pub open spec fn rename_pressed(
    v: AppModel,
    account_id: AccountId,
    folder_id: FolderId,
    original_name: String,
    name: Seq<char>,
    cursor: usize,
    key: KeyEvent,
) -> AppModel {
    match key.code {
        KeyCode::Esc => v,
        KeyCode::Enter => folder_renaming(v, account_id, folder_id, original_name, name, cursor),
        _ => {
            let (name, cursor) = name_typed(name, cursor, key, false);
            with_popup(
                v,
                PopupModel::RenameFolder { account_id, folder_id, original_name, name, cursor },
            )
        },
    }
}

/// How far a key moves in a list: one on, one back, or not at all.
pub open spec fn key_step(key: KeyEvent) -> int {
    match key.code {
        KeyCode::Down => 1,
        KeyCode::Up => -1,
        KeyCode::Char(c) => if c == 'j' {
            1
        } else if c == 'k' {
            -1
        } else {
            0
        },
        _ => 0,
    }
}

/// The place in a list after a key.
pub open spec fn place_after(at: usize, length: nat, key: KeyEvent) -> usize {
    if key_step(key) == 0 {
        at
    } else {
        moved_index(at as int, length as int, key_step(key)) as usize
    }
}

fn next_place(at: usize, length: usize, key: KeyEvent) -> (r: usize)
    ensures
        r == place_after(at, length as nat, key),
{
    match key.code {
        KeyCode::Down | KeyCode::Char('j') => move_index(at, length, 1),
        KeyCode::Up | KeyCode::Char('k') => move_index(at, length, -1),
        _ => at,
    }
}

#[verifier::opaque]
pub open spec fn reparent_pressed(
    v: AppModel,
    account_id: AccountId,
    folder_id: FolderId,
    source_folder_name: String,
    original_parent: FolderParent,
    destinations: Seq<FolderReparentTarget>,
    selected: usize,
    key: KeyEvent,
) -> AppModel {
    match key.code {
        KeyCode::Esc => v,
        KeyCode::Enter => folder_reparenting(
            v,
            account_id,
            folder_id,
            source_folder_name,
            original_parent,
            destinations,
            selected,
        ),
        _ => with_popup(
            v,
            PopupModel::ReparentFolder {
                account_id,
                folder_id,
                source_folder_name,
                original_parent,
                destinations,
                selected_destination: place_after(selected, destinations.len(), key),
            },
        ),
    }
}

/// What is answered with a key: yes, no, or nothing.
pub open spec fn answer_of(key: KeyEvent) -> Option<bool> {
    match key.code {
        KeyCode::Esc => Some(false),
        KeyCode::Char(c) => if c == 'y' || c == 'Y' {
            Some(true)
        } else if c == 'n' || c == 'N' {
            Some(false)
        } else {
            None
        },
        _ => None,
    }
}

fn find_answer(key: KeyEvent) -> (r: Option<bool>)
    ensures
        r == answer_of(key),
{
    match key.code {
        KeyCode::Esc => Some(false),
        KeyCode::Char('y') | KeyCode::Char('Y') => Some(true),
        KeyCode::Char('n') | KeyCode::Char('N') => Some(false),
        _ => None,
    }
}

#[verifier::opaque]
pub open spec fn folder_deletion_pressed(
    v: AppModel,
    account_id: AccountId,
    folder_id: FolderId,
    folder_name: String,
    key: KeyEvent,
) -> AppModel {
    match answer_of(key) {
        Some(true) => folder_deleting(v, account_id, folder_id, folder_name),
        Some(false) => v,
        None => with_popup(v, PopupModel::DeleteFolder { account_id, folder_id, folder_name }),
    }
}

impl App {
    fn press_create(&mut self, account_id: AccountId, name: String, cursor: usize, key: KeyEvent)
        ensures
            final(self)@ == create_pressed(old(self)@, account_id, name@, cursor, key),
            old(self).wf() ==> final(self).wf(),
    {
        proof {
            reveal(create_pressed);
        }
        let mut name = name;
        match key.code {
            KeyCode::Esc => {},
            KeyCode::Enter => self.start_create_folder_worker(account_id, name, cursor),
            _ => {
                let cursor = edit_name(&mut name, cursor, key, true);
                self.open_popup(Popup::CreateFolder { account_id, name, cursor });
            },
        }
    }

    fn press_child(
        &mut self,
        account_id: AccountId,
        parent_folder_id: FolderId,
        parent_folder_name: String,
        name: String,
        cursor: usize,
        key: KeyEvent,
    )
        ensures
            final(self)@ == child_pressed(
                old(self)@,
                account_id,
                parent_folder_id,
                parent_folder_name,
                name@,
                cursor,
                key,
            ),
            old(self).wf() ==> final(self).wf(),
    {
        proof {
            reveal(child_pressed);
        }
        let mut name = name;
        match key.code {
            KeyCode::Esc => {},
            KeyCode::Enter => self.start_create_child_folder_worker(
                account_id,
                parent_folder_id,
                parent_folder_name,
                name,
                cursor,
            ),
            _ => {
                let cursor = edit_name(&mut name, cursor, key, true);
                self.open_popup(
                    Popup::CreateChildFolder {
                        account_id,
                        parent_folder_id,
                        parent_folder_name,
                        name,
                        cursor,
                    },
                );
            },
        }
    }

    fn press_rename(
        &mut self,
        account_id: AccountId,
        folder_id: FolderId,
        original_name: String,
        name: String,
        cursor: usize,
        key: KeyEvent,
    )
        ensures
            final(self)@ == rename_pressed(
                old(self)@,
                account_id,
                folder_id,
                original_name,
                name@,
                cursor,
                key,
            ),
            old(self).wf() ==> final(self).wf(),
    {
        proof {
            reveal(rename_pressed);
        }
        let mut name = name;
        match key.code {
            KeyCode::Esc => {},
            KeyCode::Enter => self.start_rename_folder_worker(
                account_id,
                folder_id,
                original_name,
                name,
                cursor,
            ),
            _ => {
                let cursor = edit_name(&mut name, cursor, key, false);
                self.open_popup(
                    Popup::RenameFolder { account_id, folder_id, original_name, name, cursor },
                );
            },
        }
    }

    fn press_reparent(
        &mut self,
        account_id: AccountId,
        folder_id: FolderId,
        source_folder_name: String,
        original_parent: FolderParent,
        destinations: Vec<FolderReparentTarget>,
        selected: usize,
        key: KeyEvent,
    )
        ensures
            final(self)@ == reparent_pressed(
                old(self)@,
                account_id,
                folder_id,
                source_folder_name,
                original_parent,
                destinations@,
                selected,
                key,
            ),
            old(self).wf() ==> final(self).wf(),
    {
        proof {
            reveal(reparent_pressed);
        }
        match key.code {
            KeyCode::Esc => {},
            KeyCode::Enter => self.start_reparent_folder_worker(
                account_id,
                folder_id,
                source_folder_name,
                original_parent,
                destinations,
                selected,
            ),
            _ => {
                let selected_destination = next_place(selected, destinations.len(), key);
                self.open_popup(
                    Popup::ReparentFolder {
                        account_id,
                        folder_id,
                        source_folder_name,
                        original_parent,
                        destinations,
                        selected_destination,
                    },
                );
            },
        }
    }

    fn press_folder_deletion(
        &mut self,
        account_id: AccountId,
        folder_id: FolderId,
        folder_name: String,
        key: KeyEvent,
    )
        ensures
            final(self)@ == folder_deletion_pressed(
                old(self)@,
                account_id,
                folder_id,
                folder_name,
                key,
            ),
            old(self).wf() ==> final(self).wf(),
    {
        proof {
            reveal(folder_deletion_pressed);
        }
        match find_answer(key) {
            Some(true) => self.delete_folder_confirmed(account_id, folder_id, folder_name),
            Some(false) => {},
            None => self.open_popup(Popup::DeleteFolder { account_id, folder_id, folder_name }),
        }
    }
}

// ---------------------------------------------------------------------------
// Notes
// ---------------------------------------------------------------------------

/// The folders among the first `n` lines of the tree.
pub open spec fn folders_upto(navigation: Seq<NavigationItem>, n: nat) -> Seq<(FolderId, String)>
    decreases n,
{
    if n == 0 {
        seq![]
    } else {
        let before = folders_upto(navigation, (n - 1) as nat);
        match navigation[n - 1] {
            NavigationItem::Folder { id, name, .. } => before.push((id, name)),
            _ => before,
        }
    }
}

/// The folders that a note can be moved to, in the order of the tree.
pub open spec fn move_targets(navigation: Seq<NavigationItem>) -> Seq<(FolderId, String)> {
    folders_upto(navigation, navigation.len())
}

/// The folders that a note can be moved to, in the order of the tree.
pub fn list_move_targets(navigation: &Vec<NavigationItem>) -> (r: Vec<(FolderId, String)>)
    ensures
        r@ == move_targets(navigation@),
{
    let mut out: Vec<(FolderId, String)> = Vec::new();
    let mut i: usize = 0;
    while i < navigation.len()
        invariant
            i <= navigation@.len(),
            out@ == folders_upto(navigation@, i as nat),
        decreases navigation@.len() - i,
    {
        if let NavigationItem::Folder { id, name, .. } = &navigation[i] {
            out.push((id.clone(), name.clone()));
        }
        i = i + 1;
    }
    out
}

#[verifier::opaque]
pub open spec fn move_pressed(v: AppModel, selected: usize, key: KeyEvent) -> AppModel {
    let targets = move_targets(v.data.navigation);
    match key.code {
        KeyCode::Esc => v,
        KeyCode::Enter => if v.shown.selected_note is Some && selected < targets.len() {
            let note = v.shown.selected_note->0;
            let (folder, name) = targets[selected as int];
            note_moving(v, note.summary.id, folder, note.summary.modification_date, name)
        } else {
            v
        },
        _ => with_popup(
            v,
            PopupModel::Move { selected: place_after(selected, targets.len(), key) },
        ),
    }
}

/// How many attachments the note on the screen has.
pub open spec fn attachment_total(v: AppModel) -> nat {
    match v.shown.selected_note {
        Some(note) => note.attachments@.len(),
        None => 0,
    }
}

/// A key in the list of attachments, whose popup stays but for one key.
#[verifier::opaque]
pub open spec fn attachments_pressed(v: AppModel, selected: usize, key: KeyEvent) -> AppModel {
    let popup = PopupModel::Attachments {
        selected: place_after(selected, attachment_total(v), key),
    };
    let next = first_do(v, Step::PersistRecovery);
    match key.code {
        KeyCode::Esc => v,
        KeyCode::Enter => with_popup(attachment_previewing(next, selected), popup),
        KeyCode::Char(c) => if c == 'x' {
            with_popup(attachment_exporting(next, selected), popup)
        } else {
            with_popup(next, popup)
        },
        _ => with_popup(next, popup),
    }
}

#[verifier::opaque]
pub open spec fn deletion_pressed(v: AppModel, note: Arc<Note>, key: KeyEvent) -> AppModel {
    match answer_of(key) {
        Some(true) => note_deleting(v, *note),
        Some(false) => v,
        None => with_popup(v, PopupModel::DeleteConfirm(note)),
    }
}

impl App {
    fn press_move(&mut self, selected: usize, key: KeyEvent)
        ensures
            final(self)@ == move_pressed(old(self)@, selected, key),
            old(self).wf() ==> final(self).wf(),
    {
        proof {
            reveal(move_pressed);
        }
        let mut targets = list_move_targets(&self.data.navigation);
        match key.code {
            KeyCode::Esc => {},
            KeyCode::Enter => {
                if selected < targets.len() {
                    let note = match &self.shown.selected_note {
                        Some(note) => note.clone(),
                        None => return,
                    };
                    let (folder, name) = targets.remove(selected);
                    self.start_move_worker(
                        note.summary.id.clone(),
                        folder,
                        note.summary.modification_date.clone(),
                        name,
                    );
                }
            },
            _ => {
                let selected = next_place(selected, targets.len(), key);
                self.open_popup(Popup::Move { selected });
            },
        }
    }

    fn press_attachments(&mut self, selected: usize, key: KeyEvent)
        ensures
            final(self)@ == attachments_pressed(old(self)@, selected, key),
            old(self).wf() ==> final(self).wf(),
    {
        proof {
            reveal(attachments_pressed);
        }
        if let KeyCode::Esc = key.code {
            return;
        }
        let count: usize = match &self.shown.selected_note {
            Some(note) => note.attachments.len(),
            None => 0,
        };
        self.first_do(Step::PersistRecovery);
        match key.code {
            KeyCode::Enter => self.preview_attachment(selected),
            KeyCode::Char('x') => self.export_attachment(selected),
            _ => {},
        }
        let selected = next_place(selected, count, key);
        self.open_popup(Popup::Attachments { selected });
    }

    fn press_deletion(&mut self, note: Arc<Note>, key: KeyEvent)
        ensures
            final(self)@ == deletion_pressed(old(self)@, note, key),
            old(self).wf() ==> final(self).wf(),
    {
        proof {
            reveal(deletion_pressed);
        }
        match find_answer(key) {
            Some(true) => self.delete_note_confirmed(&note),
            Some(false) => {},
            None => self.open_popup(Popup::DeleteConfirm(note)),
        }
    }
}

// ---------------------------------------------------------------------------
// Edits
// ---------------------------------------------------------------------------

#[verifier::opaque]
pub open spec fn recovery_pressed(
    v: AppModel,
    draft: Arc<RecoveredDraft>,
    recoverable: bool,
    key: KeyEvent,
) -> AppModel {
    let popup = PopupModel::DraftRecovery { draft, recoverable };
    match key.code {
        KeyCode::Esc => AppModel { kept: KeptModel { pending_draft: Some(draft), ..v.kept }, ..v },
        KeyCode::Char(c) => if c == 'r' && recoverable {
            recovery_restored(v, *draft)
        } else if c == 'd' {
            first_do(v, Step::ClearRecovery)
        } else {
            with_popup(v, popup)
        },
        _ => with_popup(v, popup),
    }
}

#[verifier::opaque]
pub open spec fn conflict_pressed(v: AppModel, remote: Arc<Note>, key: KeyEvent) -> (
    AppModel,
    Option<Effect>,
) {
    match key.code {
        KeyCode::Esc => go_on(v),
        KeyCode::Char(c) => if c == 'r' {
            go_on(note_opened(v, *remote, "ERROR: Remote note is now read-only: "@))
        } else if c == 'o' {
            saving(v, true)
        } else if c == 'c' {
            go_on(v)
        } else {
            go_on(with_popup(v, PopupModel::Conflict(remote)))
        },
        _ => go_on(with_popup(v, PopupModel::Conflict(remote))),
    }
}

/// What is done once unsaved changes are discarded.
pub open spec fn discard_step(action: PendingAction) -> Step {
    match action {
        PendingAction::Quit => Step::Quit,
        PendingAction::Key(key) => Step::Press(key),
    }
}

#[verifier::opaque]
pub open spec fn discard_pressed(v: AppModel, action: PendingAction, key: KeyEvent) -> AppModel {
    match key.code {
        KeyCode::Esc => AppModel { shown: Shown { mode: AppMode::Insert, ..v.shown }, ..v },
        KeyCode::Char(c) => if c == 'y' {
            first_do2(
                AppModel { edit: None, shown: Shown { mode: AppMode::Normal, ..v.shown }, ..v },
                Step::ClearRecovery,
                discard_step(action),
            )
        } else if c == 'n' {
            AppModel { shown: Shown { mode: AppMode::Insert, ..v.shown }, ..v }
        } else {
            with_popup(v, PopupModel::Discard { action })
        },
        _ => with_popup(v, PopupModel::Discard { action }),
    }
}

#[verifier::opaque]
pub open spec fn link_pressed(
    v: AppModel,
    target: EditorTarget,
    url: Seq<char>,
    key: KeyEvent,
) -> AppModel {
    match key.code {
        KeyCode::Esc => v,
        KeyCode::Enter => link_set(v, target, url),
        KeyCode::Backspace => with_popup(v, PopupModel::Link { target, url: shortened(url) }),
        KeyCode::Char(c) => with_popup(v, PopupModel::Link { target, url: url.push(c) }),
        _ => with_popup(v, PopupModel::Link { target, url }),
    }
}

impl App {
    fn press_recovery(&mut self, draft: Arc<RecoveredDraft>, recoverable: bool, key: KeyEvent)
        ensures
            final(self)@ == recovery_pressed(old(self)@, draft, recoverable, key),
            old(self).wf() ==> final(self).wf(),
    {
        proof {
            reveal(recovery_pressed);
        }
        match key.code {
            KeyCode::Esc => {
                self.kept.pending_draft = Some(draft);
                return;
            },
            KeyCode::Char('r') => {
                if recoverable {
                    self.restore_editor_recovery(&draft);
                    return;
                }
            },
            KeyCode::Char('d') => {
                self.first_do(Step::ClearRecovery);
                return;
            },
            _ => {},
        }
        self.open_popup(Popup::DraftRecovery { draft, recoverable });
    }

    fn press_conflict(&mut self, remote: Arc<Note>, key: KeyEvent) -> (r: Option<Effect>)
        ensures
            (final(self)@, r) == conflict_pressed(old(self)@, remote, key),
            old(self).wf() ==> final(self).wf(),
    {
        proof {
            reveal(conflict_pressed);
        }
        match key.code {
            KeyCode::Char('r') => {
                self.reopen_remote(&remote);
                None
            },
            KeyCode::Char('o') => self.save_edit(true),
            KeyCode::Char('c') | KeyCode::Esc => None,
            _ => {
                self.open_popup(Popup::Conflict(remote));
                None
            },
        }
    }

    fn press_discard(&mut self, action: PendingAction, key: KeyEvent)
        ensures
            final(self)@ == discard_pressed(old(self)@, action, key),
            old(self).wf() ==> final(self).wf(),
    {
        proof {
            reveal(discard_pressed);
        }
        match key.code {
            KeyCode::Char('y') => {
                self.edit = None;
                self.shown.mode = AppMode::Normal;
                let next = match action {
                    PendingAction::Quit => Step::Quit,
                    PendingAction::Key(key) => Step::Press(key),
                };
                self.first_do2(Step::ClearRecovery, next);
            },
            KeyCode::Char('n') | KeyCode::Esc => {
                self.shown.mode = AppMode::Insert;
            },
            _ => self.open_popup(Popup::Discard { action }),
        }
    }

    fn press_link(&mut self, target: EditorTarget, url: String, key: KeyEvent)
        requires
            old(self).wf(),
        ensures
            final(self).wf(),
            final(self)@ == link_pressed(old(self)@, target, url@, key),
    {
        proof {
            reveal(link_pressed);
        }
        let mut url = url;
        match key.code {
            KeyCode::Esc => {},
            KeyCode::Enter => self.set_link(target, url),
            KeyCode::Backspace => {
                pop_char(&mut url);
                self.open_popup(Popup::Link { target, url });
            },
            KeyCode::Char(c) => {
                url.push(c);
                self.open_popup(Popup::Link { target, url });
            },
            _ => self.open_popup(Popup::Link { target, url }),
        }
    }
}

// ---------------------------------------------------------------------------
// All popups
// ---------------------------------------------------------------------------

/// A key in a popup that was taken from the screen, other than the list of attachments
/// and the settings.
#[verifier::opaque]
pub open spec fn form_pressed(v: AppModel, popup: PopupModel, key: KeyEvent) -> (
    AppModel,
    Option<Effect>,
) {
    match popup {
        PopupModel::CreateFolder { account_id, name, cursor } => go_on(
            create_pressed(v, account_id, name, cursor, key),
        ),
        PopupModel::CreateChildFolder {
            account_id,
            parent_folder_id,
            parent_folder_name,
            name,
            cursor,
        } => go_on(
            child_pressed(
                v,
                account_id,
                parent_folder_id,
                parent_folder_name,
                name,
                cursor,
                key,
            ),
        ),
        PopupModel::RenameFolder { account_id, folder_id, original_name, name, cursor } => go_on(
            rename_pressed(v, account_id, folder_id, original_name, name, cursor, key),
        ),
        PopupModel::ReparentFolder {
            account_id,
            folder_id,
            source_folder_name,
            original_parent,
            destinations,
            selected_destination,
        } => go_on(
            reparent_pressed(
                v,
                account_id,
                folder_id,
                source_folder_name,
                original_parent,
                destinations,
                selected_destination,
                key,
            ),
        ),
        PopupModel::DeleteFolder { account_id, folder_id, folder_name } => go_on(
            folder_deletion_pressed(v, account_id, folder_id, folder_name, key),
        ),
        PopupModel::Conflict(remote) => conflict_pressed(v, remote, key),
        PopupModel::Move { selected } => go_on(move_pressed(v, selected, key)),
        PopupModel::Discard { action } => go_on(discard_pressed(v, action, key)),
        PopupModel::Link { target, url } => go_on(link_pressed(v, target, url, key)),
        PopupModel::DeleteConfirm(note) => go_on(deletion_pressed(v, note, key)),
        PopupModel::DraftRecovery { draft, recoverable } => go_on(
            recovery_pressed(v, draft, recoverable, key),
        ),
        _ => go_on(v),
    }
}

/// A key while a popup is open. The popup goes, unless the key leaves or changes it; then
/// what is edited is kept as a draft.
#[verifier::opaque]
pub open spec fn popup_pressed(v: AppModel, key: KeyEvent) -> (AppModel, Option<Effect>) {
    let next = AppModel { popup: None, ..v };
    match v.popup {
        Some(PopupModel::Settings(s)) => settings_pressed(next, s, key),
        Some(PopupModel::Attachments { selected }) => go_on(
            attachments_pressed(next, selected, key),
        ),
        Some(popup) => form_pressed(first_do(next, Step::PersistRecovery), popup, key),
        None => go_on(first_do(next, Step::PersistRecovery)),
    }
}

impl App {
    fn press_form(&mut self, popup: Popup, key: KeyEvent) -> (r: Option<Effect>)
        requires
            old(self).wf(),
            !(popup is Settings) && !(popup is Attachments),
        ensures
            final(self).wf(),
            (final(self)@, r) == form_pressed(old(self)@, popup@, key),
    {
        proof {
            reveal(form_pressed);
        }
        match popup {
            Popup::CreateFolder { account_id, name, cursor } => self.press_create(
                account_id,
                name,
                cursor,
                key,
            ),
            Popup::CreateChildFolder {
                account_id,
                parent_folder_id,
                parent_folder_name,
                name,
                cursor,
            } => self.press_child(
                account_id,
                parent_folder_id,
                parent_folder_name,
                name,
                cursor,
                key,
            ),
            Popup::RenameFolder { account_id, folder_id, original_name, name, cursor } =>
                self.press_rename(account_id, folder_id, original_name, name, cursor, key),
            Popup::ReparentFolder {
                account_id,
                folder_id,
                source_folder_name,
                original_parent,
                destinations,
                selected_destination,
            } => self.press_reparent(
                account_id,
                folder_id,
                source_folder_name,
                original_parent,
                destinations,
                selected_destination,
                key,
            ),
            Popup::DeleteFolder { account_id, folder_id, folder_name } =>
                self.press_folder_deletion(account_id, folder_id, folder_name, key),
            Popup::Conflict(remote) => return self.press_conflict(remote, key),
            Popup::Move { selected } => self.press_move(selected, key),
            Popup::Discard { action } => self.press_discard(action, key),
            Popup::Link { target, url } => self.press_link(target, url, key),
            Popup::DeleteConfirm(note) => self.press_deletion(note, key),
            Popup::DraftRecovery { draft, recoverable } => self.press_recovery(
                draft,
                recoverable,
                key,
            ),
            _ => {},
        }
        None
    }

    pub fn handle_popup(&mut self, key: KeyEvent) -> (r: Option<Effect>)
        requires
            old(self).wf(),
        ensures
            final(self).wf(),
            (final(self)@, r) == popup_pressed(old(self)@, key),
    {
        proof {
            reveal(popup_pressed);
        }
        let mut taken: Option<Popup> = None;
        std::mem::swap(&mut taken, &mut self.popup);
        match taken {
            Some(Popup::Settings(settings)) => self.press_settings(settings, key),
            Some(Popup::Attachments { selected }) => {
                self.press_attachments(selected, key);
                None
            },
            Some(popup) => {
                self.first_do(Step::PersistRecovery);
                self.press_form(popup, key)
            },
            None => {
                self.first_do(Step::PersistRecovery);
                None
            },
        }
    }
}

} // verus!
