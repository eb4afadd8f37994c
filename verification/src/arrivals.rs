//! What arrives from the background.

use std::sync::Arc;

use vstd::prelude::*;

use crate::app::{
    chosen_id, complain, first_do, reselected, say, shown_context, with_error, App, AppModel,
    Background, DataModel, Shown,
};
use crate::browsing::{ask, count_text, go_on, researched};
use crate::editing::note_saved;
use crate::folders::{
    child_created, folder_change_told, folder_created, folder_deleted, with_popup,
};
use crate::jobs::{NavigationWorkerResult, UpdateWorkerResult};
use crate::model::{Note, NotesError, NotesPage};
use crate::navigation::context_is;
use crate::notes::{note_deleted, note_moved};
use crate::text::{cat, cat3, decimal_text, owned};
use crate::workflow::{
    Arrivals, Await, Effect, Message, NavigationArrival, Popup, PopupModel, Step,
};

verus! {

// ---------------------------------------------------------------------------
// What was read for the selection
// ---------------------------------------------------------------------------

/// The note that is selected was read: it is shown, and stored in the cache.
#[verifier::opaque]
pub open spec fn preview_arrived(v: AppModel, result: Result<Arc<Note>, NotesError>) -> (
    AppModel,
    Option<Effect>,
) {
    match result {
        Ok(note) => {
            let next = AppModel { shown: Shown { selected_note: Some(note), ..v.shown }, ..v };
            if v.prefs.has_cache {
                ask(next, Await::NoteStored, Effect::StoreNote(note))
            } else {
                go_on(next)
            }
        },
        Err(e) => go_on(with_error(v, e.message)),
    }
}

/// The notes of the selected line were read.
#[verifier::opaque]
pub open spec fn folder_arrived(v: AppModel, result: Result<NotesPage, NotesError>) -> AppModel {
    match result {
        Ok(page) => {
            let next = say(AppModel {
                data: DataModel { notes: page.items@, ..v.data },
                ..v
            }, count_text(page.total));
            first_do(
                reselected(researched(next), chosen_id(v)),
                Step::LoadSelected { persist: true },
            )
        },
        Err(e) => with_error(v, e.message),
    }
}

/// Whether what was read is what is wanted: the latest that was asked for, and still the
/// selection.
pub open spec fn still_wanted(v: AppModel, result: NavigationWorkerResult) -> bool {
    match result {
        NavigationWorkerResult::Preview { id, generation, .. } => generation
            == v.background.navigation_generation && (chosen_id(v) matches Some(x) && x@ == id@),
        NavigationWorkerResult::Folder { context, generation, .. } => generation
            == v.background.navigation_generation && (shown_context(v) matches Some(x) && context_is(
            x,
            context,
        )),
    }
}

/// Something was read for the selection. What is no longer wanted is dropped. Then comes
/// what has been asked for meanwhile.
#[verifier::opaque]
pub open spec fn navigation_arrived(v: AppModel, arrival: NavigationArrival) -> (
    AppModel,
    Option<Effect>,
) {
    if !v.background.navigation_running {
        go_on(v)
    } else {
        let next = first_do(
            AppModel { background: Background { navigation_running: false, ..v.background }, ..v },
            Step::StartNavigation,
        );
        match arrival {
            NavigationArrival::Lost => go_on(next),
            NavigationArrival::Result(result) => if !still_wanted(v, result) {
                go_on(next)
            } else {
                match result {
                    NavigationWorkerResult::Preview { result, .. } => preview_arrived(
                        next,
                        result,
                    ),
                    NavigationWorkerResult::Folder { result, .. } => go_on(
                        folder_arrived(next, result),
                    ),
                }
            },
        }
    }
}

impl App {
    fn show_arrived_preview(&mut self, result: Result<Arc<Note>, NotesError>) -> (r: Option<Effect>)
        ensures
            (final(self)@, r) == preview_arrived(old(self)@, result),
            old(self).wf() ==> final(self).wf(),
    {
        proof {
            reveal(preview_arrived);
        }
        match result {
            Ok(note) => {
                self.shown.selected_note = Some(note.clone());
                if self.prefs.has_cache {
                    return self.ask(Await::NoteStored, Effect::StoreNote(note));
                }
            },
            Err(e) => self.set_error(e.message),
        }
        None
    }

    fn show_arrived_folder(&mut self, result: Result<NotesPage, NotesError>)
        ensures
            final(self)@ == folder_arrived(old(self)@, result),
            old(self).wf() ==> final(self).wf(),
    {
        proof {
            reveal(folder_arrived);
        }
        match result {
            Ok(page) => {
                let preferred = self.selected_note_id();
                let total = decimal_text(page.total as u64);
                self.data.notes = page.items;
                self.say(cat(total.as_str(), " notes"));
                self.recompute_search();
                self.restore_visible_selection(&preferred);
                self.first_do(Step::LoadSelected { persist: true });
            },
            Err(e) => self.set_error(e.message),
        }
    }

    fn still_wants(&self, result: &NavigationWorkerResult) -> (r: bool)
        ensures
            r == still_wanted(self@, *result),
    {
        match result {
            NavigationWorkerResult::Preview { id, generation, .. } => {
                *generation == self.background.navigation_generation && match self.selected_note_id() {
                    Some(x) => x.same(id),
                    None => false,
                }
            },
            NavigationWorkerResult::Folder { context, generation, .. } => {
                *generation == self.background.navigation_generation && match self.refresh_context() {
                    Some(x) => x.same(context),
                    None => false,
                }
            },
        }
    }

    pub fn end_navigation(&mut self, arrival: NavigationArrival) -> (r: Option<Effect>)
        ensures
            (final(self)@, r) == navigation_arrived(old(self)@, arrival),
            old(self).wf() ==> final(self).wf(),
    {
        proof {
            reveal(navigation_arrived);
        }
        if !self.background.navigation_running {
            return None;
        }
        match arrival {
            NavigationArrival::Lost => {
                self.background.navigation_running = false;
                self.first_do(Step::StartNavigation);
                None
            },
            NavigationArrival::Result(result) => {
                let wanted = self.still_wants(&result);
                self.background.navigation_running = false;
                self.first_do(Step::StartNavigation);
                if !wanted {
                    return None;
                }
                match result {
                    NavigationWorkerResult::Preview { result, .. } => self.show_arrived_preview(
                        result,
                    ),
                    NavigationWorkerResult::Folder { result, .. } => {
                        self.show_arrived_folder(result);
                        None
                    },
                }
            },
        }
    }
}

// ---------------------------------------------------------------------------
// What became of a change
// ---------------------------------------------------------------------------

/// A form is open again after its change failed.
pub open spec fn form_failed(v: AppModel, popup: PopupModel, error: NotesError) -> AppModel {
    with_error(with_popup(v, popup), error.message)
}

/// What became of a change, once no change is under way.
#[verifier::opaque]
pub open spec fn change_told(v: AppModel, result: UpdateWorkerResult) -> (
    AppModel,
    Option<Effect>,
) {
    match result {
        UpdateWorkerResult::Saved(note) => go_on(note_saved(v, note)),
        UpdateWorkerResult::FolderCreated(folder) => folder_created(v, folder),
        UpdateWorkerResult::ChildFolderCreated(folder) => go_on(child_created(v, folder)),
        UpdateWorkerResult::FolderRenamed(folder) => go_on(
            folder_change_told(v, folder, Message::RenamedFolder(folder.name)),
        ),
        UpdateWorkerResult::FolderReparented(folder) => go_on(
            folder_change_told(v, folder, Message::MovedFolder(folder.name)),
        ),
        UpdateWorkerResult::FolderDeleted(deleted) => go_on(folder_deleted(v, deleted)),
        UpdateWorkerResult::FolderDeleteFailed(error) => go_on(with_error(v, error.message)),
        UpdateWorkerResult::FolderRenameFailed {
            account_id,
            folder_id,
            original_name,
            name,
            cursor,
            error,
        } => go_on(
            form_failed(
                v,
                PopupModel::RenameFolder {
                    account_id,
                    folder_id,
                    original_name,
                    name: name@,
                    cursor,
                },
                error,
            ),
        ),
        UpdateWorkerResult::FolderReparentFailed {
            account_id,
            folder_id,
            source_folder_name,
            original_parent,
            destinations,
            selected_destination,
            error,
        } => go_on(
            form_failed(
                v,
                PopupModel::ReparentFolder {
                    account_id,
                    folder_id,
                    source_folder_name,
                    original_parent,
                    destinations: destinations@,
                    selected_destination,
                },
                error,
            ),
        ),
        UpdateWorkerResult::FolderCreateFailed { account_id, name, cursor, error } => go_on(
            form_failed(
                v,
                PopupModel::CreateFolder { account_id, name: name@, cursor },
                error,
            ),
        ),
        UpdateWorkerResult::ChildFolderCreateFailed {
            account_id,
            parent_folder_id,
            parent_folder_name,
            name,
            cursor,
            error,
        } => go_on(
            form_failed(
                v,
                PopupModel::CreateChildFolder {
                    account_id,
                    parent_folder_id,
                    parent_folder_name,
                    name: name@,
                    cursor,
                },
                error,
            ),
        ),
        UpdateWorkerResult::Moved { note, destination_name } => go_on(
            note_moved(v, note, destination_name),
        ),
        UpdateWorkerResult::Deleted { note_id, previous_index } => go_on(
            note_deleted(v, note_id, previous_index),
        ),
        UpdateWorkerResult::AttachmentPreviewed { name } => go_on(
            say(
                v,
                "Opened "@ + name@
                    + " in Notes.app; close the preview there before returning"@,
            ),
        ),
        UpdateWorkerResult::AttachmentExported { destination } => go_on(
            say(v, "Exported copy to "@ + destination@),
        ),
        UpdateWorkerResult::Conflict(remote) => go_on(
            with_popup(v, PopupModel::Conflict(remote)),
        ),
        UpdateWorkerResult::Failed(error) => go_on(with_error(v, error.message)),
        UpdateWorkerResult::Panicked => go_on(
            complain(v, "Save worker ended unexpectedly"@),
        ),
    }
}

/// A change came to an end; another can be begun.
#[verifier::opaque]
pub open spec fn update_arrived(v: AppModel, result: UpdateWorkerResult) -> (
    AppModel,
    Option<Effect>,
) {
    if !v.background.update_running {
        go_on(v)
    } else {
        change_told(AppModel {
            background: Background { update_running: false, ..v.background },
            ..v
        }, result)
    }
}

impl App {
    fn fail_form(&mut self, popup: Popup, error: NotesError)
        requires
            !(popup is Settings),
        ensures
            final(self)@ == form_failed(old(self)@, popup@, error),
            old(self).wf() ==> final(self).wf(),
    {
        self.open_popup(popup);
        self.set_error(error.message);
    }

    fn tell_change(&mut self, result: UpdateWorkerResult) -> (r: Option<Effect>)
        ensures
            (final(self)@, r) == change_told(old(self)@, result),
            old(self).wf() ==> final(self).wf(),
    {
        proof {
            reveal(change_told);
        }
        match result {
            UpdateWorkerResult::Saved(note) => self.finish_saved(note),
            UpdateWorkerResult::FolderCreated(folder) => return self.finish_folder_created(folder),
            UpdateWorkerResult::ChildFolderCreated(folder) => self.finish_child_folder_created(
                folder,
            ),
            UpdateWorkerResult::FolderRenamed(folder) => self.finish_folder_renamed(folder),
            UpdateWorkerResult::FolderReparented(folder) => self.finish_folder_reparented(folder),
            UpdateWorkerResult::FolderDeleted(deleted) => self.finish_folder_deleted(deleted),
            UpdateWorkerResult::FolderDeleteFailed(error) => self.set_error(error.message),
            UpdateWorkerResult::FolderRenameFailed {
                account_id,
                folder_id,
                original_name,
                name,
                cursor,
                error,
            } => self.fail_form(
                Popup::RenameFolder { account_id, folder_id, original_name, name, cursor },
                error,
            ),
            UpdateWorkerResult::FolderReparentFailed {
                account_id,
                folder_id,
                source_folder_name,
                original_parent,
                destinations,
                selected_destination,
                error,
            } => self.fail_form(
                Popup::ReparentFolder {
                    account_id,
                    folder_id,
                    source_folder_name,
                    original_parent,
                    destinations,
                    selected_destination,
                },
                error,
            ),
            UpdateWorkerResult::FolderCreateFailed { account_id, name, cursor, error } =>
                self.fail_form(Popup::CreateFolder { account_id, name, cursor }, error),
            UpdateWorkerResult::ChildFolderCreateFailed {
                account_id,
                parent_folder_id,
                parent_folder_name,
                name,
                cursor,
                error,
            } => self.fail_form(
                Popup::CreateChildFolder {
                    account_id,
                    parent_folder_id,
                    parent_folder_name,
                    name,
                    cursor,
                },
                error,
            ),
            UpdateWorkerResult::Moved { note, destination_name } => self.finish_moved(
                note,
                destination_name,
            ),
            UpdateWorkerResult::Deleted { note_id, previous_index } => self.finish_deleted(
                note_id,
                previous_index,
            ),
            UpdateWorkerResult::AttachmentPreviewed { name } => self.say(
                cat3(
                    "Opened ",
                    name.as_str(),
                    " in Notes.app; close the preview there before returning",
                ),
            ),
            UpdateWorkerResult::AttachmentExported { destination } => self.say(
                cat("Exported copy to ", destination.as_str()),
            ),
            UpdateWorkerResult::Conflict(remote) => self.open_popup(Popup::Conflict(remote)),
            UpdateWorkerResult::Failed(error) => self.set_error(error.message),
            UpdateWorkerResult::Panicked => self.complain(owned("Save worker ended unexpectedly")),
        }
        None
    }

    pub fn end_update(&mut self, result: UpdateWorkerResult) -> (r: Option<Effect>)
        ensures
            (final(self)@, r) == update_arrived(old(self)@, result),
            old(self).wf() ==> final(self).wf(),
    {
        proof {
            reveal(update_arrived);
        }
        if !self.background.update_running {
            return None;
        }
        self.background.update_running = false;
        self.tell_change(result)
    }
}

// ---------------------------------------------------------------------------
// All arrivals
// ---------------------------------------------------------------------------

/// The client with what has arrived: first what was read for the selection, then what
/// became of a change, then what a refresh came to.
#[verifier::opaque]
pub open spec fn polled(v: AppModel, arrivals: Arrivals) -> AppModel {
    let w = match arrivals.refresh {
        Some(r) => first_do(v, Step::RefreshArrived(r)),
        None => v,
    };
    let x = match arrivals.update {
        Some(r) => first_do(w, Step::UpdateArrived(r)),
        None => w,
    };
    match arrivals.navigation {
        Some(a) => first_do(x, Step::NavigationArrived(a)),
        None => x,
    }
}

impl App {
    pub fn poll_periodic_refresh(&mut self, arrivals: Arrivals)
        ensures
            final(self)@ == polled(old(self)@, arrivals),
            old(self).wf() ==> final(self).wf(),
    {
        proof {
            reveal(polled);
        }
        if let Some(r) = arrivals.refresh {
            self.first_do(Step::RefreshArrived(r));
        }
        if let Some(r) = arrivals.update {
            self.first_do(Step::UpdateArrived(r));
        }
        if let Some(a) = arrivals.navigation {
            self.first_do(Step::NavigationArrived(a));
        }
    }
}

} // verus!
