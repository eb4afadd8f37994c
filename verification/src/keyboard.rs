//! Keys, outside popups and the editor.

use vstd::prelude::*;

use crate::app::{first_do, first_do2, say, visible_note, App, AppModel, Background, Shown};
use crate::browsing::{
    activated, focused, go_on, preview_scrolled, search_cleared, search_opened, search_typed,
    stepped, to_edge,
};
use crate::editing::{edit_begun, inserted, new_note_begun};
use crate::folders::{
    child_form_opened, folder_deletion_offered, folder_form_opened, queued_child_form_opened,
    rename_form_opened, reparent_begun, reparent_form_opened, with_popup,
};
use crate::keys::{KeyCode, KeyEvent};
use crate::notes::{attachments_opened, deletion_offered, move_begun};
use crate::popups::popup_pressed;
use crate::refreshing::{intent_of, intent_queued, key_waits, manual_refresh};
use crate::settings::settings_opened;
use crate::text::owned;
use crate::workflow::{
    focus_after, focus_before, AppMode, Effect, Focus, PendingAction, PendingForegroundIntent,
    Popup, PopupModel, Search, SearchState, Step,
};

verus! {

// ---------------------------------------------------------------------------
// What a key means
// ---------------------------------------------------------------------------

/// What a key means while notes are browsed.
#[derive(Clone, Copy, Debug, PartialEq, Eq, Structural)]
pub enum BrowseCommand {
    Search,
    ClearSearch,
    Quit,
    Edit,
    NewNote,
    NewFolder,
    NewSubfolder,
    MoveFolder,
    RenameFolder,
    MoveNote,
    DeleteFolder,
    DeleteNote,
    Attachments,
    Settings,
    Help,
    NextPane,
    PreviousPane,
    Refresh,
    Activate,
    Step { back: bool },
    Edge { last: bool },
    Scroll { back: bool },
    Nothing,
}

/// What a character means while notes are browsed. Folders are moved, filled and deleted
/// from the tree alone, and deleted only where no note is on the screen.
pub open spec fn char_command(c: char, control: bool, in_tree: bool, note_shown: bool) ->
    BrowseCommand {
    match c {
        '/' => BrowseCommand::Search,
        'q' => BrowseCommand::Quit,
        'e' => BrowseCommand::Edit,
        'n' => BrowseCommand::NewNote,
        'N' => BrowseCommand::NewFolder,
        'C' => if in_tree {
            BrowseCommand::NewSubfolder
        } else {
            BrowseCommand::Nothing
        },
        'M' => if in_tree {
            BrowseCommand::MoveFolder
        } else {
            BrowseCommand::Nothing
        },
        'R' => BrowseCommand::RenameFolder,
        'm' => BrowseCommand::MoveNote,
        'D' => if in_tree && !note_shown {
            BrowseCommand::DeleteFolder
        } else {
            BrowseCommand::DeleteNote
        },
        'a' => BrowseCommand::Attachments,
        ',' => BrowseCommand::Settings,
        '?' => BrowseCommand::Help,
        'h' => BrowseCommand::PreviousPane,
        'l' => BrowseCommand::NextPane,
        'r' => BrowseCommand::Refresh,
        'j' => BrowseCommand::Step { back: false },
        'k' => BrowseCommand::Step { back: true },
        'g' => BrowseCommand::Edge { last: false },
        'G' => BrowseCommand::Edge { last: true },
        'd' => if control {
            BrowseCommand::Scroll { back: false }
        } else {
            BrowseCommand::Nothing
        },
        'u' => if control {
            BrowseCommand::Scroll { back: true }
        } else {
            BrowseCommand::Nothing
        },
        _ => BrowseCommand::Nothing,
    }
}

/// What a key means while notes are browsed.
pub open spec fn browse_command(v: AppModel, key: KeyEvent) -> BrowseCommand {
    match key.code {
        KeyCode::Char(c) => char_command(
            c,
            key.modifiers.control,
            v.shown.focus is Navigation,
            v.shown.selected_note is Some,
        ),
        KeyCode::Esc => if v.search is Active {
            BrowseCommand::ClearSearch
        } else {
            BrowseCommand::Nothing
        },
        KeyCode::Tab => BrowseCommand::NextPane,
        KeyCode::BackTab => BrowseCommand::PreviousPane,
        KeyCode::Left => BrowseCommand::PreviousPane,
        KeyCode::Right => BrowseCommand::NextPane,
        KeyCode::Enter => BrowseCommand::Activate,
        KeyCode::Down => BrowseCommand::Step { back: false },
        KeyCode::Up => BrowseCommand::Step { back: true },
        KeyCode::Home => BrowseCommand::Edge { last: false },
        KeyCode::End => BrowseCommand::Edge { last: true },
        KeyCode::PageDown => BrowseCommand::Scroll { back: false },
        KeyCode::PageUp => BrowseCommand::Scroll { back: true },
        _ => BrowseCommand::Nothing,
    }
}

fn find_char_command(c: char, control: bool, in_tree: bool, note_shown: bool) -> (r: BrowseCommand)
    ensures
        r == char_command(c, control, in_tree, note_shown),
{
    match c {
        '/' => BrowseCommand::Search,
        'q' => BrowseCommand::Quit,
        'e' => BrowseCommand::Edit,
        'n' => BrowseCommand::NewNote,
        'N' => BrowseCommand::NewFolder,
        'C' => if in_tree {
            BrowseCommand::NewSubfolder
        } else {
            BrowseCommand::Nothing
        },
        'M' => if in_tree {
            BrowseCommand::MoveFolder
        } else {
            BrowseCommand::Nothing
        },
        'R' => BrowseCommand::RenameFolder,
        'm' => BrowseCommand::MoveNote,
        'D' => if in_tree && !note_shown {
            BrowseCommand::DeleteFolder
        } else {
            BrowseCommand::DeleteNote
        },
        'a' => BrowseCommand::Attachments,
        ',' => BrowseCommand::Settings,
        '?' => BrowseCommand::Help,
        'h' => BrowseCommand::PreviousPane,
        'l' => BrowseCommand::NextPane,
        'r' => BrowseCommand::Refresh,
        'j' => BrowseCommand::Step { back: false },
        'k' => BrowseCommand::Step { back: true },
        'g' => BrowseCommand::Edge { last: false },
        'G' => BrowseCommand::Edge { last: true },
        'd' => if control {
            BrowseCommand::Scroll { back: false }
        } else {
            BrowseCommand::Nothing
        },
        'u' => if control {
            BrowseCommand::Scroll { back: true }
        } else {
            BrowseCommand::Nothing
        },
        _ => BrowseCommand::Nothing,
    }
}

/// The client with a command carried out while notes are browsed.
#[verifier::opaque]
pub open spec fn browsed(v: AppModel, command: BrowseCommand) -> AppModel {
    match command {
        BrowseCommand::Search => search_opened(v),
        BrowseCommand::ClearSearch => search_cleared(v),
        BrowseCommand::Quit => AppModel {
            background: Background { pending_intent: None, ..v.background },
            shown: Shown { should_quit: true, ..v.shown },
            ..v
        },
        BrowseCommand::Edit => edit_begun(v),
        BrowseCommand::NewNote => new_note_begun(v),
        BrowseCommand::NewFolder => folder_form_opened(v),
        BrowseCommand::NewSubfolder => child_form_opened(v),
        BrowseCommand::MoveFolder => reparent_begun(v),
        BrowseCommand::RenameFolder => rename_form_opened(v),
        BrowseCommand::MoveNote => move_begun(v),
        BrowseCommand::DeleteFolder => folder_deletion_offered(v),
        BrowseCommand::DeleteNote => deletion_offered(v),
        BrowseCommand::Attachments => attachments_opened(v),
        BrowseCommand::Settings => settings_opened(v),
        BrowseCommand::Help => AppModel { shown: Shown { show_help: true, ..v.shown }, ..v },
        BrowseCommand::NextPane => focused(v, focus_after(v.shown.focus)),
        BrowseCommand::PreviousPane => focused(v, focus_before(v.shown.focus)),
        BrowseCommand::Refresh => manual_refresh(v),
        BrowseCommand::Activate => activated(v),
        BrowseCommand::Step { back } => stepped(v, back),
        BrowseCommand::Edge { last } => to_edge(v, last),
        BrowseCommand::Scroll { back } => preview_scrolled(v, back, 10),
        BrowseCommand::Nothing => v,
    }
}

/// Whether a key would leave an edit.
pub open spec fn leaves_edit(key: KeyEvent) -> bool {
    match key.code {
        KeyCode::Char(c) => c == 'q' || c == 'j' || c == 'k',
        KeyCode::Up => true,
        KeyCode::Down => true,
        KeyCode::Left => true,
        KeyCode::Right => true,
        KeyCode::Tab => true,
        _ => false,
    }
}

/// What is done once unsaved changes are discarded.
pub open spec fn action_of(key: KeyEvent) -> PendingAction {
    if key.code == KeyCode::Char('q') {
        PendingAction::Quit
    } else {
        PendingAction::Key(key)
    }
}

/// Whether there are changes that were not saved.
pub open spec fn unsaved(v: AppModel) -> bool {
    v.edit matches Some(e) && e.dirty
}

/// A key. While a refresh is under way, what needs the notes service waits. Then it goes
/// to the popup, the help, the editor or the search that is open. A key that would leave
/// unsaved changes is asked about; any other is a command.
#[verifier::opaque]
pub open spec fn pressed(v: AppModel, key: KeyEvent) -> (AppModel, Option<Effect>) {
    if key_waits(v, key) {
        go_on(intent_queued(v, intent_of(v, key)->0))
    } else if v.popup is Some {
        popup_pressed(v, key)
    } else if v.shown.show_help {
        if key.code is Esc || key.code == KeyCode::Char('?') {
            go_on(AppModel { shown: Shown { show_help: false, ..v.shown }, ..v })
        } else {
            go_on(v)
        }
    } else if v.shown.mode is Insert {
        inserted(v, key)
    } else if v.search is Editing {
        go_on(search_typed(v, key))
    } else if unsaved(v) && leaves_edit(key) {
        go_on(with_popup(v, PopupModel::Discard { action: action_of(key) }))
    } else {
        go_on(browsed(v, browse_command(v, key)))
    }
}

impl App {
    fn find_browse_command(&self, key: KeyEvent) -> (r: BrowseCommand)
        ensures
            r == browse_command(self@, key),
    {
        let in_tree = match self.shown.focus {
            Focus::Navigation => true,
            _ => false,
        };
        match key.code {
            KeyCode::Char(c) => find_char_command(
                c,
                key.modifiers.control,
                in_tree,
                self.shown.selected_note.is_some(),
            ),
            KeyCode::Esc => match self.search {
                SearchState::Active(_) => BrowseCommand::ClearSearch,
                _ => BrowseCommand::Nothing,
            },
            KeyCode::Tab => BrowseCommand::NextPane,
            KeyCode::BackTab => BrowseCommand::PreviousPane,
            KeyCode::Left => BrowseCommand::PreviousPane,
            KeyCode::Right => BrowseCommand::NextPane,
            KeyCode::Enter => BrowseCommand::Activate,
            KeyCode::Down => BrowseCommand::Step { back: false },
            KeyCode::Up => BrowseCommand::Step { back: true },
            KeyCode::Home => BrowseCommand::Edge { last: false },
            KeyCode::End => BrowseCommand::Edge { last: true },
            KeyCode::PageDown => BrowseCommand::Scroll { back: false },
            KeyCode::PageUp => BrowseCommand::Scroll { back: true },
            _ => BrowseCommand::Nothing,
        }
    }

    fn browse(&mut self, command: BrowseCommand)
        ensures
            final(self)@ == browsed(old(self)@, command),
            old(self).wf() ==> final(self).wf(),
    {
        proof {
            reveal(browsed);
        }
        match command {
            BrowseCommand::Search => self.begin_search(),
            BrowseCommand::ClearSearch => self.clear_search(),
            BrowseCommand::Quit => {
                self.background.pending_intent = None;
                self.shown.should_quit = true;
            },
            BrowseCommand::Edit => self.begin_edit(),
            BrowseCommand::NewNote => self.begin_new(),
            BrowseCommand::NewFolder => self.begin_create_folder(),
            BrowseCommand::NewSubfolder => self.begin_create_child_folder(),
            BrowseCommand::MoveFolder => self.begin_reparent_folder(),
            BrowseCommand::RenameFolder => self.begin_rename_folder(),
            BrowseCommand::MoveNote => self.begin_move(),
            BrowseCommand::DeleteFolder => self.begin_delete_folder(),
            BrowseCommand::DeleteNote => self.begin_delete_note(),
            BrowseCommand::Attachments => self.begin_attachments(),
            BrowseCommand::Settings => self.begin_settings(),
            BrowseCommand::Help => {
                self.shown.show_help = true;
            },
            BrowseCommand::NextPane => self.set_browsing_focus(self.shown.focus.next()),
            BrowseCommand::PreviousPane => self.set_browsing_focus(self.shown.focus.previous()),
            BrowseCommand::Refresh => self.start_manual_refresh(),
            BrowseCommand::Activate => self.activate_selection(),
            BrowseCommand::Step { back } => self.move_selection(back),
            BrowseCommand::Edge { last } => self.move_to_edge(last),
            BrowseCommand::Scroll { back } => self.scroll_preview(back, 10),
            BrowseCommand::Nothing => {},
        }
    }

    fn would_leave_changes(&self, key: KeyEvent) -> (r: bool)
        ensures
            r == (unsaved(self@) && leaves_edit(key)),
    {
        let dirty = match &self.edit {
            Some(edit) => edit.dirty,
            None => false,
        };
        dirty && match key.code {
            KeyCode::Char(c) => c == 'q' || c == 'j' || c == 'k',
            KeyCode::Up | KeyCode::Down | KeyCode::Left | KeyCode::Right | KeyCode::Tab => true,
            _ => false,
        }
    }

    pub fn handle_key(&mut self, key: KeyEvent) -> (r: Option<Effect>)
        requires
            old(self).wf(),
        ensures
            final(self).wf(),
            (final(self)@, r) == pressed(old(self)@, key),
    {
        proof {
            reveal(pressed);
        }
        if self.queue_foreground_intent_while_refreshing(key) {
            return None;
        }
        if self.popup.is_some() {
            return self.handle_popup(key);
        }
        if self.shown.show_help {
            match key.code {
                KeyCode::Esc | KeyCode::Char('?') => {
                    self.shown.show_help = false;
                },
                _ => {},
            }
            return None;
        }
        if let AppMode::Insert = self.shown.mode {
            return self.handle_insert(key);
        }
        if let SearchState::Editing { .. } = self.search {
            self.handle_search_input(key);
            return None;
        }
        if self.would_leave_changes(key) {
            let action = match key.code {
                KeyCode::Char('q') => PendingAction::Quit,
                _ => PendingAction::Key(key),
            };
            self.open_popup(Popup::Discard { action });
            return None;
        }
        let command = self.find_browse_command(key);
        self.browse(command);
        None
    }
}

// ---------------------------------------------------------------------------
// What waited for a refresh
// ---------------------------------------------------------------------------

/// What the user asked for is begun, where its note is there.
#[verifier::opaque]
pub open spec fn begun_for(v: AppModel, intent: PendingForegroundIntent) -> AppModel {
    if v.shown.selected_note is None {
        say(v, "Pending action cancelled: selected note is unavailable"@)
    } else {
        match intent {
            PendingForegroundIntent::BeginEdit => edit_begun(v),
            PendingForegroundIntent::BeginMove => move_begun(v),
            PendingForegroundIntent::BeginDelete => deletion_offered(v),
            PendingForegroundIntent::BeginAttachments => attachments_opened(v),
            _ => v,
        }
    }
}

/// What the user asked for is begun once the selected note is on the screen.
#[verifier::opaque]
pub open spec fn note_awaited(v: AppModel, intent: PendingForegroundIntent) -> AppModel {
    match visible_note(v, v.shown.selected_note_index as int) {
        None => say(v, "Pending action cancelled: no note is selected"@),
        Some(summary) => if v.shown.selected_note matches Some(note) && note.summary.id@ == summary.id@ {
            first_do(v, Step::Begin(intent))
        } else {
            first_do2(v, Step::LoadSelected { persist: true }, Step::Begin(intent))
        },
    }
}

/// What the user asked for while a refresh was under way.
#[verifier::opaque]
pub open spec fn foreground_run(v: AppModel) -> AppModel {
    match v.background.pending_intent {
        None => v,
        Some(intent) => {
            let next = AppModel {
                background: Background { pending_intent: None, ..v.background },
                ..v
            };
            match intent {
                PendingForegroundIntent::ManualRefresh => manual_refresh(next),
                PendingForegroundIntent::BeginNew => new_note_begun(next),
                PendingForegroundIntent::BeginCreateFolder => folder_form_opened(next),
                PendingForegroundIntent::BeginCreateChildFolder {
                    account_id,
                    parent_folder_id,
                    parent_folder_name,
                } => queued_child_form_opened(
                    next,
                    account_id,
                    parent_folder_id,
                    parent_folder_name,
                ),
                PendingForegroundIntent::BeginReparentFolder {
                    account_id,
                    folder_id,
                    folder_name,
                } => reparent_form_opened(next, account_id, folder_id, folder_name),
                PendingForegroundIntent::BeginDeleteFolder => folder_deletion_offered(next),
                PendingForegroundIntent::ActivateSelection => activated(next),
                other => note_awaited(next, other),
            }
        },
    }
}

impl App {
    pub fn begin_intent(&mut self, intent: PendingForegroundIntent)
        ensures
            final(self)@ == begun_for(old(self)@, intent),
            old(self).wf() ==> final(self).wf(),
    {
        proof {
            reveal(begun_for);
        }
        if self.shown.selected_note.is_none() {
            self.say(owned("Pending action cancelled: selected note is unavailable"));
            return;
        }
        match intent {
            PendingForegroundIntent::BeginEdit => self.begin_edit(),
            PendingForegroundIntent::BeginMove => self.begin_move(),
            PendingForegroundIntent::BeginDelete => self.begin_delete_note(),
            PendingForegroundIntent::BeginAttachments => self.begin_attachments(),
            _ => {},
        }
    }

    fn reload_current_selection_for_foreground(&mut self, intent: PendingForegroundIntent)
        ensures
            final(self)@ == note_awaited(old(self)@, intent),
            old(self).wf() ==> final(self).wf(),
    {
        proof {
            reveal(note_awaited);
        }
        let there = match self.visible_note(self.shown.selected_note_index) {
            None => {
                self.say(owned("Pending action cancelled: no note is selected"));
                return;
            },
            Some(summary) => match &self.shown.selected_note {
                Some(note) => note.summary.id.same(&summary.id),
                None => false,
            },
        };
        if there {
            self.first_do(Step::Begin(intent));
        } else {
            self.first_do2(Step::LoadSelected { persist: true }, Step::Begin(intent));
        }
    }

    pub fn run_pending_foreground_intent(&mut self)
        ensures
            final(self)@ == foreground_run(old(self)@),
            old(self).wf() ==> final(self).wf(),
    {
        proof {
            reveal(foreground_run);
        }
        let mut taken: Option<PendingForegroundIntent> = None;
        std::mem::swap(&mut taken, &mut self.background.pending_intent);
        match taken {
            None => {},
            Some(intent) => match intent {
                PendingForegroundIntent::ManualRefresh => self.start_manual_refresh(),
                PendingForegroundIntent::BeginNew => self.begin_new(),
                PendingForegroundIntent::BeginCreateFolder => self.begin_create_folder(),
                PendingForegroundIntent::BeginCreateChildFolder {
                    account_id,
                    parent_folder_id,
                    parent_folder_name,
                } => self.open_queued_create_child_folder(
                    account_id,
                    parent_folder_id,
                    parent_folder_name,
                ),
                PendingForegroundIntent::BeginReparentFolder {
                    account_id,
                    folder_id,
                    folder_name,
                } => self.open_reparent_folder_popup(account_id, folder_id, folder_name),
                PendingForegroundIntent::BeginDeleteFolder => self.begin_delete_folder(),
                PendingForegroundIntent::ActivateSelection => self.activate_selection(),
                other => self.reload_current_selection_for_foreground(other),
            },
        }
    }
}

} // verus!
