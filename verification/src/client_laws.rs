//! Laws of the client: what keys, time, folders, attachments and files leave as it is.

use std::sync::Arc;

use vstd::prelude::*;

use crate::app::{reselected, selected_item, shown_context, visible_ids, AppModel, Background};
use crate::arrivals::{change_told, update_arrived};
use crate::browsing::{
    at_note, notes_loading, notes_replaced, refresh_outdated, refreshing, researched, rows_shown,
    search_entered, search_typed, searching, stepped, to_edge,
};
use crate::folders::{
    child_created, folder_changed, folder_deleted, folder_deleting, remaining_upto, updating,
    without_upto,
};
use crate::jobs::UpdateWorkerResult;
use crate::keyboard::pressed;
use crate::keys::{KeyCode, KeyEvent};
use crate::model::{AccountId, CachedState, DeletedFolder, Folder, FolderId, Note};
use crate::navigation::{first_index, NavigationItem};
use crate::notes::{attachment_at, attachment_exporting, attachment_previewing, note_deleting};
use crate::popups::{deletion_pressed, folder_deletion_pressed, recovery_pressed};
use crate::refreshing::{
    at_rest, at_time, cache_loaded, cached_notes, cached_tree, interval_passed, key_waits,
    refresh_started,
};
use crate::returning::{
    context_restored, draft_applies, draft_offered, draft_written, recovery_clearing,
    recovery_persisting, search_restored, session_persisting, session_written,
};
use crate::workflow::{Effect, PopupModel, RecoveredDraft, RefreshOrigin, UpdateModel};

verus! {

// ---------------------------------------------------------------------------
// Starting
// ---------------------------------------------------------------------------

/// A draft that was found is only offered: nothing is edited, changed or asked for until
/// the user wants it.
pub proof fn law_draft_is_only_offered(v: AppModel)
    ensures
        draft_offered(v).edit == v.edit,
        draft_offered(v).data == v.data,
        draft_offered(v).shown == v.shown,
        draft_offered(v).kept == v.kept,
        draft_offered(v).orders == v.orders,
        draft_offered(v).steps == v.steps,
        v.kept.pending_draft matches Some(found) ==> (draft_offered(v).popup matches Some(
            PopupModel::DraftRecovery { draft, recoverable },
        ) && draft == found && recoverable == draft_applies(v, found.draft)),
{
    reveal(draft_offered);
}

/// A draft whose note or folder is not there cannot be restored, and no key but the one
/// for it throws the draft away.
pub proof fn law_draft_without_a_place_stays(v: AppModel, draft: Arc<RecoveredDraft>, key: KeyEvent)
    requires
        key.code != KeyCode::Char('d'),
    ensures
        recovery_pressed(v, draft, false, key).edit == v.edit,
        recovery_pressed(v, draft, false, key).steps == v.steps,
        recovery_pressed(v, draft, false, key).orders == v.orders,
{
    reveal(recovery_pressed);
}

/// What the cache lists is shown as it is listed, and does not count as fresh.
pub proof fn law_cached_data_is_not_fresh(v: AppModel, state: CachedState)
    ensures
        cache_loaded(v, state).shown.data_source is Cached,
        cache_loaded(v, state).data.accounts == state.accounts@,
        cache_loaded(v, state).data.folders == state.folders@,
        cache_loaded(v, state).data.notes == state.notes@,
{
    reveal(cache_loaded);
    reveal(cached_notes);
    reveal(cached_tree);
    reveal(context_restored);
    reveal(search_restored);
    reveal(searching);
    reveal(researched);
    reveal(reselected);
}

// ---------------------------------------------------------------------------
// Refreshing
// ---------------------------------------------------------------------------

/// The beginning of a refresh leaves everything on the screen but the message as it is.
pub proof fn law_refresh_begins_unseen(v: AppModel, now: u128, origin: RefreshOrigin)
    ensures
        refresh_started(v, now, origin).data == v.data,
        refresh_started(v, now, origin).shown == v.shown,
        refresh_started(v, now, origin).search == v.search,
        refresh_started(v, now, origin).edit == v.edit,
        refresh_started(v, now, origin).popup == v.popup,
        refresh_started(v, now, origin).kept == v.kept,
        refresh_started(v, now, origin).steps == v.steps,
{
    reveal(refresh_started);
}

/// A refresh that is due while something is open or under way stays due, however often
/// the time is told, and the interval does not begin anew.
pub proof fn law_due_refresh_waits(v: AppModel, now: u128)
    requires
        v.prefs.auto_refresh,
        v.background.refresh_due || interval_passed(v, now),
        refreshing(v) || v.background.update_running || !at_rest(v),
    ensures
        at_time(v, now).background.refresh_due,
        at_time(v, now).background.last_refresh_attempt == v.background.last_refresh_attempt,
        at_time(v, now).orders == v.orders,
{
    reveal(at_time);
}

/// A refresh that is due begins as soon as nothing is open or under way, once.
pub proof fn law_due_refresh_begins(v: AppModel, now: u128)
    requires
        v.prefs.auto_refresh,
        v.background.refresh_due || interval_passed(v, now),
        !refreshing(v),
        !v.background.update_running,
        at_rest(v),
        shown_context(v) is Some,
    ensures
        refreshing(at_time(v, now)),
        at_time(v, now).orders.len() == v.orders.len() + 1,
        at_time(at_time(v, now), now).orders == at_time(v, now).orders,
{
    reveal(at_time);
    reveal(refresh_started);
}

// ---------------------------------------------------------------------------
// Browsing
// ---------------------------------------------------------------------------

/// Going through the list of notes stays inside the list.
pub proof fn law_selection_stays_in_the_list(v: AppModel, back: bool, last: bool)
    requires
        v.shown.focus is Notes,
        v.shown.selected_note_index < visible_ids(v).len() <= usize::MAX,
    ensures
        stepped(v, back).shown.selected_note_index < visible_ids(v).len(),
        to_edge(v, last).shown.selected_note_index < visible_ids(v).len(),
        visible_ids(stepped(v, back)) == visible_ids(v),
        visible_ids(to_edge(v, last)) == visible_ids(v),
{
    reveal(stepped);
    reveal(to_edge);
    reveal(at_note);
    reveal(refresh_outdated);
}

/// Typing a search changes no data and no edit, and asks the notes service for nothing.
pub proof fn law_search_is_local(v: AppModel, key: KeyEvent)
    requires
        v.search is Editing,
        v.popup is None,
        !v.shown.show_help,
        v.shown.mode is Normal,
        !key_waits(v, key),
    ensures
        pressed(v, key).1 is None,
        pressed(v, key).0.orders == v.orders,
        pressed(v, key).0.data == v.data,
        pressed(v, key).0.edit == v.edit,
        pressed(v, key).0.popup is None,
{
    reveal(pressed);
    reveal(search_typed);
    reveal(search_entered);
    reveal(searching);
    reveal(researched);
    reveal(reselected);
}

/// A folder that was seen before is shown as it was, without waiting for anything.
pub proof fn law_rows_are_shown_at_once(v: AppModel, id: FolderId)
    requires
        selected_item(v) matches Some(NavigationItem::Folder { id: line, .. }) && line == id,
        v.shown.data_source is Live,
        v.prefs.has_cache,
        v.data.rows.dom().contains(id@),
    ensures
        notes_loading(v, true, true).1 is None,
        notes_loading(v, true, true).0.data.notes == v.data.rows[id@],
{
    reveal(notes_loading);
    reveal(rows_shown);
    reveal(notes_replaced);
    reveal(researched);
    reveal(reselected);
}

// ---------------------------------------------------------------------------
// Changes
// ---------------------------------------------------------------------------

/// A change that was ordered changes nothing on the screen but the message, until its
/// result is there.
pub proof fn law_ordered_change_waits(v: AppModel, job: UpdateModel, text: Seq<char>)
    ensures
        updating(v, job, text).data == v.data,
        updating(v, job, text).shown == v.shown,
        updating(v, job, text).search == v.search,
        updating(v, job, text).edit == v.edit,
        updating(v, job, text).kept == v.kept,
        updating(v, job, text).steps == v.steps,
        updating(v, job, text).background.update_running,
{
}

/// The form that was sent for a change that failed.
pub open spec fn form_sent(result: UpdateWorkerResult) -> Option<PopupModel> {
    match result {
        UpdateWorkerResult::FolderCreateFailed { account_id, name, cursor, .. } => Some(
            PopupModel::CreateFolder { account_id, name: name@, cursor },
        ),
        UpdateWorkerResult::ChildFolderCreateFailed {
            account_id,
            parent_folder_id,
            parent_folder_name,
            name,
            cursor,
            ..
        } => Some(
            PopupModel::CreateChildFolder {
                account_id,
                parent_folder_id,
                parent_folder_name,
                name: name@,
                cursor,
            },
        ),
        UpdateWorkerResult::FolderRenameFailed {
            account_id,
            folder_id,
            original_name,
            name,
            cursor,
            ..
        } => Some(
            PopupModel::RenameFolder { account_id, folder_id, original_name, name: name@, cursor },
        ),
        UpdateWorkerResult::FolderReparentFailed {
            account_id,
            folder_id,
            source_folder_name,
            original_parent,
            destinations,
            selected_destination,
            ..
        } => Some(
            PopupModel::ReparentFolder {
                account_id,
                folder_id,
                source_folder_name,
                original_parent,
                destinations: destinations@,
                selected_destination,
            },
        ),
        _ => None,
    }
}

/// A form whose change failed is open again, as it was sent.
pub proof fn law_failed_form_is_kept(v: AppModel, result: UpdateWorkerResult)
    requires
        v.background.update_running,
        form_sent(result) is Some,
    ensures
        update_arrived(v, result).0.popup == form_sent(result),
{
    reveal(update_arrived);
    reveal(change_told);
}

/// Only a yes deletes: any other key orders no change, and changes no data.
pub proof fn law_only_yes_deletes(
    v: AppModel,
    note: Arc<Note>,
    account_id: AccountId,
    folder_id: FolderId,
    folder_name: String,
    key: KeyEvent,
)
    requires
        key.code != KeyCode::Char('y'),
        key.code != KeyCode::Char('Y'),
    ensures
        deletion_pressed(v, note, key).orders == v.orders,
        deletion_pressed(v, note, key).data == v.data,
        folder_deletion_pressed(v, account_id, folder_id, folder_name, key).orders == v.orders,
        folder_deletion_pressed(v, account_id, folder_id, folder_name, key).data == v.data,
{
    reveal(deletion_pressed);
    reveal(folder_deletion_pressed);
}

/// A yes orders one deletion, of the note or the folder that was asked about, unless a
/// change is under way.
pub proof fn law_yes_deletes_once(
    v: AppModel,
    note: Arc<Note>,
    account_id: AccountId,
    folder_id: FolderId,
    folder_name: String,
    key: KeyEvent,
)
    requires
        key.code == KeyCode::Char('y') || key.code == KeyCode::Char('Y'),
        !v.background.update_running,
        v.shown.data_source is Live,
    ensures
        deletion_pressed(v, note, key).orders == v.orders.push(
            crate::workflow::OrderModel::Update(
                UpdateModel::DeleteNote {
                    id: note.summary.id,
                    expected_modification_date: note.summary.modification_date,
                    previous_index: v.shown.selected_note_index,
                },
            ),
        ),
        folder_deletion_pressed(v, account_id, folder_id, folder_name, key).orders
            == v.orders.push(
            crate::workflow::OrderModel::Update(UpdateModel::DeleteFolder { account_id, folder_id }),
        ),
{
    reveal(deletion_pressed);
    reveal(note_deleting);
    reveal(folder_deletion_pressed);
    reveal(folder_deleting);
}

/// An attachment that cannot be previewed, or exported, is not asked for.
pub proof fn law_unavailable_attachment_is_not_asked_for(v: AppModel, selected: usize)
    ensures
        attachment_at(v, selected) matches Some((_, a)) ==> (a.preview_status is Unavailable
            ==> attachment_previewing(v, selected).orders == v.orders),
        attachment_at(v, selected) matches Some((_, a)) ==> (a.export_status is Unavailable
            ==> attachment_exporting(v, selected).orders == v.orders),
{
    reveal(attachment_previewing);
    reveal(attachment_exporting);
}

// ---------------------------------------------------------------------------
// Folders
// ---------------------------------------------------------------------------

/// A folder that was renamed or moved is found by its id: folders with other ids stay as
/// they are, whatever their names, and so do the notes, the search and what is shown of
/// a note.
pub proof fn law_folder_change_keeps_the_others(v: AppModel, folder: Folder)
    ensures
        ({
            let next = folder_changed(v, folder);
            &&& next.data.folders.len() == v.data.folders.len()
            &&& forall|i: int|
                0 <= i < v.data.folders.len() && v.data.folders[i].id@ != folder.id@
                    ==> #[trigger] next.data.folders[i] == v.data.folders[i]
            &&& next.data.notes == v.data.notes
            &&& next.search == v.search
            &&& next.shown.selected_note == v.shown.selected_note
            &&& next.shown.selected_note_index == v.shown.selected_note_index
            &&& next.shown.preview_scroll == v.shown.preview_scroll
            &&& next.shown.focus == v.shown.focus
        }),
{
    reveal(folder_changed);
    let same = |f: Folder| f.id@ == folder.id@ && f.account_id@ == folder.account_id@;
    let k = first_index(v.data.folders, same);
    if k < v.data.folders.len() {
        crate::navigation::lemma_first_index_fits(v.data.folders, same);
        assert(same(v.data.folders[k as int]));
    }
}

proof fn lemma_remaining(folders: Seq<Folder>, deleted: DeletedFolder, n: nat)
    requires
        n <= folders.len(),
    ensures
        forall|i: int|
            0 <= i < remaining_upto(folders, deleted, n).len() ==> !((
            #[trigger] remaining_upto(folders, deleted, n)[i]).id@ == deleted.folder_id@
                && remaining_upto(folders, deleted, n)[i].account_id@ == deleted.account_id@),
        forall|i: int|
            0 <= i < n && !(folders[i].id@ == deleted.folder_id@ && folders[i].account_id@
                == deleted.account_id@) ==> remaining_upto(folders, deleted, n).contains(
                #[trigger] folders[i],
            ),
    decreases n,
{
    if n > 0 {
        lemma_remaining(folders, deleted, (n - 1) as nat);
        let before = remaining_upto(folders, deleted, (n - 1) as nat);
        let after = remaining_upto(folders, deleted, n);
        assert forall|i: int|
            0 <= i < n && !(folders[i].id@ == deleted.folder_id@ && folders[i].account_id@
                == deleted.account_id@) implies after.contains(#[trigger] folders[i]) by {
            if i == n - 1 {
                assert(after.last() == folders[i]);
            } else {
                let k = choose|k: int| 0 <= k < before.len() && before[k] == folders[i];
                assert(after[k] == folders[i]);
            }
        }
    }
}

/// A folder that was deleted is gone from the list, and no other folder is.
pub proof fn law_deleted_folder_is_gone(v: AppModel, deleted: DeletedFolder)
    ensures
        forall|i: int|
            0 <= i < folder_deleted(v, deleted).data.folders.len() ==> !((
            #[trigger] folder_deleted(v, deleted).data.folders[i]).id@ == deleted.folder_id@
                && folder_deleted(v, deleted).data.folders[i].account_id@ == deleted.account_id@),
        forall|i: int|
            0 <= i < v.data.folders.len() && !(v.data.folders[i].id@ == deleted.folder_id@
                && v.data.folders[i].account_id@ == deleted.account_id@) ==> folder_deleted(
                v,
                deleted,
            ).data.folders.contains(#[trigger] v.data.folders[i]),
{
    reveal(folder_deleted);
    lemma_remaining(v.data.folders, deleted, v.data.folders.len());
}

proof fn lemma_without(folders: Seq<Folder>, id: Seq<char>, n: nat)
    requires
        n <= folders.len(),
    ensures
        forall|i: int|
            0 <= i < n && folders[i].id@ != id ==> without_upto(folders, id, n).contains(
                #[trigger] folders[i],
            ),
    decreases n,
{
    if n > 0 {
        lemma_without(folders, id, (n - 1) as nat);
        let before = without_upto(folders, id, (n - 1) as nat);
        let after = without_upto(folders, id, n);
        assert forall|i: int| 0 <= i < n && folders[i].id@ != id implies after.contains(
            #[trigger] folders[i],
        ) by {
            if i == n - 1 {
                assert(after.last() == folders[i]);
            } else {
                let k = choose|k: int| 0 <= k < before.len() && before[k] == folders[i];
                assert(after[k] == folders[i]);
            }
        }
    }
}

/// A folder that was created in another is in the list as the notes service has it, and
/// the folders with other ids stay in it.
pub proof fn law_created_subfolder_is_listed(v: AppModel, folder: Folder)
    ensures
        child_created(v, folder).data.folders.contains(folder),
        forall|i: int|
            0 <= i < v.data.folders.len() && v.data.folders[i].id@ != folder.id@ ==> child_created(
                v,
                folder,
            ).data.folders.contains(#[trigger] v.data.folders[i]),
{
    reveal(child_created);
    let kept = without_upto(v.data.folders, folder.id@, v.data.folders.len());
    lemma_without(v.data.folders, folder.id@, v.data.folders.len());
    let all = child_created(v, folder).data.folders;
    assert(all == kept.push(folder));
    assert(all.last() == folder);
    assert forall|i: int|
        0 <= i < v.data.folders.len() && v.data.folders[i].id@ != folder.id@ implies all.contains(
        #[trigger] v.data.folders[i],
    ) by {
        let k = choose|k: int| 0 <= k < kept.len() && kept[k] == v.data.folders[i];
        assert(all[k] == v.data.folders[i]);
    }
}

// ---------------------------------------------------------------------------
// Files
// ---------------------------------------------------------------------------

/// A session that was written is not written again as long as it is the same.
pub proof fn law_session_is_written_once(v: AppModel)
    requires
        session_persisting(v).1 is Some,
    ensures
        session_persisting(v).1 == Some(Effect::WriteSession),
        session_persisting(
            session_written(
                AppModel {
                    background: Background { awaiting: None, ..session_persisting(v).0.background },
                    ..session_persisting(v).0
                },
                Ok(()),
            ),
        ).1 is None,
{
    reveal(session_persisting);
    reveal(session_written);
}

/// A draft that was written is not written again as long as the edit is the same.
pub proof fn law_draft_is_written_once(v: AppModel)
    requires
        recovery_persisting(v).1 == Some(Effect::WriteDraft),
    ensures
        recovery_persisting(
            draft_written(
                AppModel {
                    background: Background { awaiting: None, ..recovery_persisting(v).0.background },
                    ..recovery_persisting(v).0
                },
                Ok(()),
            ),
        ).1 is None,
{
    reveal(recovery_persisting);
    reveal(recovery_clearing);
    reveal(draft_written);
}

/// An edit without changes leaves no draft behind.
pub proof fn law_clean_edit_leaves_no_draft(v: AppModel)
    requires
        v.edit matches Some(e) && !e.dirty,
    ensures
        recovery_persisting(v).1 != Some(Effect::WriteDraft),
        recovery_persisting(v).0.kept.last_draft is None,
        v.prefs.keeps_draft ==> recovery_persisting(v).1 == Some(Effect::RemoveDraft),
{
    reveal(recovery_persisting);
    reveal(recovery_clearing);
}

} // verus!
