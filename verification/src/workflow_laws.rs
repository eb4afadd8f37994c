//! Laws of what goes on: keys that wait for a refresh, edits that are left, and what
//! becomes of the screen when a change or a refresh has come to its end.

use std::sync::Arc;

use vstd::prelude::*;

use crate::app::{chosen_id, reselected, selected_item, visible_note, AppModel};
use crate::arrivals::{change_told, update_arrived};
use crate::browsing::{at_line, at_note, refresh_outdated, researched, search_entered, searching};
use crate::editing::{
    edit_begun, inserted, new_note_begun, note_saved, saved_applied, saved_selected,
};
use crate::folder_laws::is_line_of;
use crate::folders::{
    child_created, folder_change_told, folder_changed, folder_created, folder_deleted,
    folder_deletion_offered, folder_form_opened, queued_child_form_opened, reparent_form_opened,
};
use crate::jobs::{LiveRefreshRead, UpdateWorkerResult, WorkerRefreshResult};
use crate::keyboard::{begun_for, foreground_run, note_awaited, pressed};
use crate::keys::{KeyCode, KeyEvent};
use crate::model::{
    lemma_summary_at, summary_at, AccountId, DeletedFolder, Folder, FolderId, Note, NoteId,
    NoteSummary,
};
use crate::navigation::{
    default_line, lemma_first_index_fits, tree, wanted, NavigationItem, RefreshContext, Wanted,
};
use crate::notes::{attachments_opened, deletion_offered, move_begun, note_deleted, note_moved};
use crate::refreshing::{
    intent_queued, live_applied, live_notes, live_shown, live_tree, manual_refresh,
    refresh_arrived, view_restored,
};
use crate::returning::{focus_returned, note_of_session, scroll_restored, search_restored};
use crate::session::SessionState;
use crate::text::occurs;
use crate::workflow::{
    Effect, Message, OrderModel, PendingAction, PendingForegroundIntent, PeriodicRefreshState,
    PopupModel, Step,
};

verus! {

// ---------------------------------------------------------------------------
// Keys that wait for a refresh
// ---------------------------------------------------------------------------

/// Whether a key waits as a wish: the refresh is told to end, and nothing else happens.
pub open spec fn waits_as(v: AppModel, next: AppModel, wish: PendingForegroundIntent) -> bool {
    &&& next.background.pending_intent == Some(wish)
    &&& next.orders == v.orders.push(OrderModel::CancelRefresh)
    &&& next.background.periodic_refresh matches PeriodicRefreshState::InFlight {
        origin,
        generation,
        cancel_requested,
    }
    &&& cancel_requested
    &&& v.background.periodic_refresh->origin == origin
    &&& v.background.periodic_refresh->generation == generation
    &&& next.data == v.data
    &&& next.shown == v.shown
    &&& next.popup == v.popup
    &&& next.edit == v.edit
    &&& next.steps == v.steps
}

/// While a refresh is under way, the keys for a refresh, a new note, a new folder, an edit, a
/// move, a deletion and attachments wait until it has ended. Enter waits too, but for the
/// preview.
pub proof fn law_keys_wait_for_the_refresh(v: AppModel, key: KeyEvent)
    requires
        v.background.periodic_refresh is InFlight,
    ensures
        ({
            let next = pressed(v, key).0;
            &&& key.code == KeyCode::Char('r') ==> waits_as(
                v,
                next,
                PendingForegroundIntent::ManualRefresh,
            )
            &&& key.code == KeyCode::Char('n') ==> waits_as(
                v,
                next,
                PendingForegroundIntent::BeginNew,
            )
            &&& key.code == KeyCode::Char('N') ==> waits_as(
                v,
                next,
                PendingForegroundIntent::BeginCreateFolder,
            )
            &&& key.code == KeyCode::Char('e') ==> waits_as(
                v,
                next,
                PendingForegroundIntent::BeginEdit,
            )
            &&& key.code == KeyCode::Char('m') ==> waits_as(
                v,
                next,
                PendingForegroundIntent::BeginMove,
            )
            &&& key.code == KeyCode::Char('a') ==> waits_as(
                v,
                next,
                PendingForegroundIntent::BeginAttachments,
            )
            &&& key.code == KeyCode::Char('D') && v.shown.focus is Navigation
                && v.shown.selected_note is None ==> waits_as(
                v,
                next,
                PendingForegroundIntent::BeginDeleteFolder,
            )
            &&& key.code == KeyCode::Char('D') && !(v.shown.focus is Navigation
                && v.shown.selected_note is None) ==> waits_as(
                v,
                next,
                PendingForegroundIntent::BeginDelete,
            )
            &&& key.code is Enter && !(v.shown.focus is Preview) ==> waits_as(
                v,
                next,
                PendingForegroundIntent::ActivateSelection,
            )
        }),
{
    reveal(pressed);
    reveal(intent_queued);
}

/// While a refresh is under way, the keys for a folder within the selected one and for
/// another place wait in the tree, and keep which folder they are for.
pub proof fn law_folder_keys_wait_for_the_refresh(
    v: AppModel,
    key: KeyEvent,
    account_id: AccountId,
    id: FolderId,
    name: String,
    depth: usize,
)
    requires
        v.background.periodic_refresh is InFlight,
        crate::keyboard_laws::folder_selected(v, account_id, id, name, depth),
        v.shown.focus is Navigation,
    ensures
        key.code == KeyCode::Char('C') ==> waits_as(
            v,
            pressed(v, key).0,
            PendingForegroundIntent::BeginCreateChildFolder {
                account_id,
                parent_folder_id: id,
                parent_folder_name: name,
            },
        ),
        key.code == KeyCode::Char('M') ==> waits_as(
            v,
            pressed(v, key).0,
            PendingForegroundIntent::BeginReparentFolder {
                account_id,
                folder_id: id,
                folder_name: name,
            },
        ),
{
    reveal(pressed);
    reveal(intent_queued);
}

/// What waited is done once the refresh has ended, and no longer waits then: what it is for
/// is done as if its key had been pressed now.
pub proof fn law_waiting_wish_is_done(v: AppModel)
    ensures
        ({
            let free = AppModel {
                background: crate::app::Background { pending_intent: None, ..v.background },
                ..v
            };
            &&& v.background.pending_intent is None ==> foreground_run(v) == v
            &&& v.background.pending_intent == Some(PendingForegroundIntent::ManualRefresh)
                ==> foreground_run(v) == manual_refresh(free)
            &&& v.background.pending_intent == Some(PendingForegroundIntent::BeginNew)
                ==> foreground_run(v) == new_note_begun(free)
            &&& v.background.pending_intent == Some(PendingForegroundIntent::BeginCreateFolder)
                ==> foreground_run(v) == folder_form_opened(free)
            &&& v.background.pending_intent == Some(PendingForegroundIntent::BeginDeleteFolder)
                ==> foreground_run(v) == folder_deletion_offered(free)
            &&& v.background.pending_intent == Some(PendingForegroundIntent::ActivateSelection)
                ==> foreground_run(v) == crate::browsing::activated(free)
            &&& v.background.pending_intent matches Some(
                PendingForegroundIntent::BeginReparentFolder { account_id, folder_id, folder_name },
            ) ==> foreground_run(v) == reparent_form_opened(
                free,
                account_id,
                folder_id,
                folder_name,
            )
        }),
{
    reveal(foreground_run);
}

/// A wish for the note that is selected begins once that note is on the screen: at once
/// where it is, else after it has been shown. Without a selected note nothing begins.
pub proof fn law_wish_for_a_note_awaits_it(
    v: AppModel,
    intent: PendingForegroundIntent,
    summary: NoteSummary,
)
    requires
        intent is BeginEdit || intent is BeginMove || intent is BeginDelete || intent
            is BeginAttachments,
        v.background.pending_intent == Some(intent),
    ensures
        ({
            let next = foreground_run(v);
            let there = visible_note(v, v.shown.selected_note_index as int);
            let shown = v.shown.selected_note matches Some(note) && note.summary.id@
                == summary.id@;
            &&& there == Some(summary) && shown ==> next.steps == v.steps.push(Step::Begin(intent))
            &&& there == Some(summary) && !shown ==> next.steps == v.steps.push(
                Step::Begin(intent),
            ).push(Step::LoadSelected { persist: true })
            &&& there is None ==> next.steps == v.steps
            &&& next.background.pending_intent is None
            &&& next.data == v.data
            &&& next.orders == v.orders
        }),
{
    reveal(foreground_run);
    reveal(note_awaited);
}

/// A wish for a note begins what it is for, where a note is on the screen; else it is told
/// that there is none.
pub proof fn law_wish_for_a_note_begins(v: AppModel)
    ensures
        v.shown.selected_note is Some ==> {
            &&& begun_for(v, PendingForegroundIntent::BeginEdit) == edit_begun(v)
            &&& begun_for(v, PendingForegroundIntent::BeginMove) == move_begun(v)
            &&& begun_for(v, PendingForegroundIntent::BeginDelete) == deletion_offered(v)
            &&& begun_for(v, PendingForegroundIntent::BeginAttachments) == attachments_opened(v)
        },
        v.shown.selected_note is None ==> {
            let next = begun_for(v, PendingForegroundIntent::BeginEdit);
            &&& next.edit == v.edit
            &&& next.popup == v.popup
            &&& next.data == v.data
            &&& next.orders == v.orders
        },
{
    reveal(begun_for);
}

/// A wish for a folder within another opens its form where that folder still has a line in
/// its account, and is given up where it has not.
pub proof fn law_wish_for_a_subfolder_needs_its_parent(
    v: AppModel,
    account_id: AccountId,
    parent: FolderId,
    name: String,
)
    requires
        v.background.pending_intent == Some(
            (PendingForegroundIntent::BeginCreateChildFolder {
                account_id,
                parent_folder_id: parent,
                parent_folder_name: name,
            }),
        ),
    ensures
        ({
            let next = foreground_run(v);
            let there = exists|i: int|
                0 <= i < v.data.navigation.len() && crate::folder_laws::is_folder_line(
                    #[trigger] v.data.navigation[i],
                    account_id@,
                    parent@,
                );
            &&& there ==> (next.popup matches Some(
                PopupModel::CreateChildFolder {
                    account_id: a,
                    parent_folder_id,
                    parent_folder_name,
                    name: n,
                    cursor,
                },
            ) && a == account_id && parent_folder_id == parent && parent_folder_name == name
                && n.len() == 0 && cursor == 0)
            &&& !there ==> next.popup == v.popup
            &&& next.background.pending_intent is None
        }),
{
    reveal(foreground_run);
    reveal(queued_child_form_opened);
    reveal_strlit("");
    let fits = |item: NavigationItem| wanted(Wanted::FolderIn(&account_id, &parent), item);
    lemma_first_index_fits(v.data.navigation, fits);
    assert forall|i: int| 0 <= i < v.data.navigation.len() implies fits(
        #[trigger] v.data.navigation[i],
    ) == crate::folder_laws::is_folder_line(v.data.navigation[i], account_id@, parent@) by {}
}

// ---------------------------------------------------------------------------
// The selection while a refresh is under way
// ---------------------------------------------------------------------------

/// Going to another line or another note while a refresh is under way makes that refresh
/// outdated, and another one due. Without one, what is selected is shown.
pub proof fn law_moving_on_outdates_the_refresh(v: AppModel, at: usize)
    ensures
        v.background.periodic_refresh is InFlight ==> {
            &&& at_line(v, at).background.refresh_due
            &&& at_line(v, at).background.refresh_generation != v.background.refresh_generation
            &&& at_note(v, at).background.refresh_due
            &&& at_note(v, at).background.refresh_generation != v.background.refresh_generation
            &&& at_line(v, at).steps == v.steps
            &&& at_note(v, at).steps == v.steps
        },
        v.background.periodic_refresh is Idle ==> {
            &&& at_line(v, at).background == v.background
            &&& at_note(v, at).background == v.background
            &&& at_line(v, at).steps == v.steps.push(
                Step::LoadNotes { persist: true, browse: true },
            )
            &&& at_note(v, at).steps == v.steps.push(Step::PersistSession).push(
                Step::LoadSelected { persist: true },
            )
        },
        at_line(v, at).shown.selected_navigation == at,
        at_line(v, at).search is Inactive,
        at_note(v, at).shown.selected_note_index == at,
        at_note(v, at).search == v.search,
        at_line(v, at).orders == v.orders,
        at_note(v, at).orders == v.orders,
{
    reveal(at_line);
    reveal(at_note);
    reveal(refresh_outdated);
    assert(v.background.refresh_generation.wrapping_add(1) != v.background.refresh_generation);
}

/// A search that is confirmed is kept with the session; away from the notes service the note
/// that it selects is shown too.
pub proof fn law_confirmed_search_goes_on(v: AppModel, input: Seq<char>)
    requires
        input.len() > 0,
    ensures
        v.shown.data_source is Live ==> search_entered(v, input).steps == v.steps.push(
            Step::PersistSession,
        ),
        !(v.shown.data_source is Live) ==> search_entered(v, input).steps == v.steps.push(
            Step::PersistSession,
        ).push(Step::LoadSelected { persist: true }),
{
    reveal(search_entered);
    reveal(searching);
    reveal(researched);
    reveal(reselected);
}

// ---------------------------------------------------------------------------
// What a refresh leaves
// ---------------------------------------------------------------------------

/// After a refresh the line of what was read is selected. Where it has none, the line at the
/// same place is, or the last where there are fewer; and the first folder where there were no
/// lines before.
pub proof fn law_refresh_selects_what_was_read(v: AppModel, read: LiveRefreshRead)
    requires
        tree(read.accounts@, read.folders@).len() <= usize::MAX,
    ensures
        ({
            let next = live_applied(v, read);
            let items = tree(read.accounts@, read.folders@);
            let at = next.shown.selected_navigation;
            let before = v.shown.selected_navigation;
            let there = exists|i: int| 0 <= i < items.len() && is_line_of(#[trigger] items[i], read.context);
            &&& there ==> at < items.len() && is_line_of(items[at as int], read.context)
            &&& !there && v.data.navigation.len() > 0 && before < items.len() ==> at == before
            &&& !there && v.data.navigation.len() > 0 && 0 < items.len() <= before ==> at
                == items.len() - 1
            &&& !there && v.data.navigation.len() == 0 ==> at == default_line(items)
        }),
{
    reveal(live_applied);
    reveal(live_tree);
    reveal(live_notes);
    reveal(search_restored);
    reveal(searching);
    reveal(researched);
    reveal(reselected);
    reveal(scroll_restored);
    reveal(focus_returned);
    let items = tree(read.accounts@, read.folders@);
    crate::folder_laws::law_line_is_its_own(items, read.context);
}

/// The notes that a refresh read of a folder are kept for it, and those of the other folders
/// stay; what it read of an account is not kept for a folder.
pub proof fn law_refresh_keeps_the_notes_of_the_folder(
    v: AppModel,
    read: LiveRefreshRead,
    other: Seq<char>,
)
    ensures
        ({
            let rows = live_applied(v, read).data.rows;
            &&& read.context matches RefreshContext::Folder(id) ==> {
                &&& rows.dom().contains(id@) && rows[id@] == read.notes@
                &&& other != id@ ==> rows.dom().contains(other) == v.data.rows.dom().contains(other)
                &&& other != id@ && rows.dom().contains(other) ==> rows[other]
                    == v.data.rows[other]
            }
            &&& read.context is Account ==> rows == v.data.rows
        }),
{
    reveal(live_applied);
    reveal(live_tree);
    reveal(live_notes);
    reveal(search_restored);
    reveal(searching);
    reveal(researched);
    reveal(reselected);
    reveal(scroll_restored);
    reveal(focus_returned);
}

/// After a refresh the note that was read is on the screen and selected, where the list
/// shows it.
pub proof fn law_refresh_shows_the_note_that_was_read(
    v: AppModel,
    read: LiveRefreshRead,
    note: Arc<Note>,
    k: int,
)
    requires
        read.selected_note == Some(note),
        v.search is Inactive,
        v.kept.pending_session is None,
        0 <= k < read.notes@.len() <= usize::MAX,
        read.notes@[k].id@ == note.summary.id@,
        forall|i: int| 0 <= i < k ==> (#[trigger] read.notes@[i]).id@ != note.summary.id@,
    ensures
        live_applied(v, read).shown.selected_note == Some(note),
        live_applied(v, read).shown.selected_note_index == k,
        live_applied(v, read).shown.focus == v.shown.focus,
{
    reveal(live_applied);
    reveal(live_tree);
    reveal(live_notes);
    reveal(search_restored);
    reveal(searching);
    reveal(researched);
    reveal(reselected);
    reveal(scroll_restored);
    reveal(focus_returned);
    let mid = live_notes(live_tree(v, read), read);
    let ids = crate::app::visible_ids(mid);
    let wish = note.summary.id;
    let fits = |x: NoteId| x@ == wish@;
    assert forall|i: int| 0 <= i < k implies !fits(#[trigger] ids[i]) by {
        assert(ids[i] == read.notes@[i].id);
    }
    assert(ids[k] == read.notes@[k].id);
    crate::navigation::lemma_first_index(ids, fits, k);
    lemma_summary_at(read.notes@, note.summary.id@);
    let at = summary_at(read.notes@, ids[k]@) as int;
    assert(read.notes@[k].id@ == ids[k]@);
    lemma_summary_at(read.notes@, ids[k]@);
    if at > k {
        assert(read.notes@[k].id@ != ids[k]@);
    }
}

/// Where no note was read, a refresh selects the note that was selected before, where it is
/// still listed.
pub proof fn law_refresh_keeps_the_selected_note(v: AppModel, read: LiveRefreshRead, k: int)
    requires
        read.selected_note is None,
        v.search is Inactive,
        v.kept.pending_session is None,
        v.shown.selected_note is Some,
        0 <= k < read.notes@.len() <= usize::MAX,
        read.notes@[k].id@ == v.shown.selected_note->0.summary.id@,
        forall|i: int|
            0 <= i < k ==> (#[trigger] read.notes@[i]).id@
                != v.shown.selected_note->0.summary.id@,
    ensures
        live_applied(v, read).shown.selected_note_index == k,
{
    reveal(live_applied);
    reveal(live_tree);
    reveal(live_notes);
    reveal(search_restored);
    reveal(searching);
    reveal(researched);
    reveal(reselected);
    reveal(scroll_restored);
    reveal(focus_returned);
    let mid = live_notes(live_tree(v, read), read);
    let ids = crate::app::visible_ids(mid);
    let wish = v.shown.selected_note->0.summary.id;
    let fits = |x: NoteId| x@ == wish@;
    assert forall|i: int| 0 <= i < k implies !fits(#[trigger] ids[i]) by {
        assert(ids[i] == read.notes@[i].id);
    }
    assert(ids[k] == read.notes@[k].id);
    crate::navigation::lemma_first_index(ids, fits, k);
}

/// A refresh that has ended is no longer under way, and what waited for it comes next. Only
/// the latest is used; one that was cancelled, or was lost, changes no data and is told of.
pub proof fn law_refresh_ends(v: AppModel, result: WorkerRefreshResult)
    requires
        v.background.periodic_refresh is InFlight,
    ensures
        ({
            let next = refresh_arrived(v, result);
            &&& next.background.periodic_refresh is Idle
            &&& next.steps.len() > v.steps.len()
            &&& next.steps[v.steps.len() as int] is RunForeground
            &&& next.background.pending_intent == v.background.pending_intent
            &&& next.orders == v.orders
            &&& !(result is Finished) ==> next.data == v.data && next.shown == v.shown
            &&& result matches WorkerRefreshResult::Panicked { generation } ==> (generation
                == v.background.refresh_generation ==> next.status.is_error)
            &&& result matches WorkerRefreshResult::Cancelled { generation } ==> (generation
                == v.background.refresh_generation ==> !next.status.is_error)
        }),
{
    reveal(refresh_arrived);
    reveal(live_shown);
    reveal(live_applied);
    reveal(live_tree);
    reveal(live_notes);
    reveal(search_restored);
    reveal(searching);
    reveal(researched);
    reveal(reselected);
    reveal(scroll_restored);
    reveal(focus_returned);
}

/// The view goes back to the session's scroll position and pane, and the session is written
/// again where that pane had nothing to show.
pub proof fn law_view_comes_back(v: AppModel, session: SessionState)
    requires
        v.kept.pending_session == Some(session),
    ensures
        ({
            let next = view_restored(v);
            let bare = session.focus == Some(crate::session::SessionFocus::Preview) && chosen_id(v)
                is None;
            &&& next.shown.preview_scroll == scroll_restored(v).shown.preview_scroll
            &&& next.shown.focus == focus_returned(v).shown.focus
            &&& bare ==> next.steps == v.steps.push(Step::PersistSession)
            &&& !bare ==> next.steps == v.steps
            &&& next.data == v.data
        }),
{
    reveal(view_restored);
    reveal(scroll_restored);
    reveal(focus_returned);
    let mid = scroll_restored(v);
    assert(chosen_id(mid) == chosen_id(v));
}

/// The note of the session is the one to select just where its account and folder are those
/// of the selected line.
pub proof fn law_note_of_the_session_belongs_to_its_folder(
    v: AppModel,
    session: SessionState,
    account_id: AccountId,
    id: FolderId,
    name: String,
    depth: usize,
)
    requires
        v.kept.pending_session == Some(session),
        crate::keyboard_laws::folder_selected(v, account_id, id, name, depth),
    ensures
        ({
            let same = (session.account_id matches Some(a) && a@ == account_id@) && (
            session.folder_id matches Some(f) && f@ == id@);
            &&& same ==> note_of_session(v) == session.note_id
            &&& !same ==> note_of_session(v) is None
        }),
{
    assert(selected_item(v) == Some(v.data.navigation[v.shown.selected_navigation as int]));
}

// ---------------------------------------------------------------------------
// Leaving an edit
// ---------------------------------------------------------------------------

/// With unsaved changes and no editor open, the keys that would lose them are asked about
/// first, and what they were for is remembered. Other keys are not asked about.
pub proof fn law_unsaved_changes_are_asked_about_by_key(
    v: AppModel,
    e: crate::edit::EditModel,
    key: KeyEvent,
)
    requires
        v.edit == Some(e),
        e.dirty,
        v.popup is None,
        !v.shown.show_help,
        v.shown.mode is Normal,
        !(v.search is Editing),
        v.background.periodic_refresh is Idle,
    ensures
        ({
            let leaves = key.code == KeyCode::Char('q') || key.code == KeyCode::Char('j')
                || key.code == KeyCode::Char('k') || key.code is Up || key.code is Down || key.code
                is Left || key.code is Right || key.code is Tab;
            let next = pressed(v, key).0;
            &&& leaves ==> (next.popup matches Some(PopupModel::Discard { action }) && {
                &&& key.code == KeyCode::Char('q') ==> action == PendingAction::Quit
                &&& key.code != KeyCode::Char('q') ==> action == PendingAction::Key(key)
            })
            &&& leaves ==> next.edit == v.edit && next.data == v.data && next.shown == v.shown
                && next.steps == v.steps && next.orders == v.orders
        }),
{
    reveal(pressed);
}

/// The key for it gives an edit up: the edit is over, its draft is removed, and that is told.
/// Escape only leaves the editor.
pub proof fn law_edit_is_given_up(v: AppModel, key: KeyEvent)
    requires
        v.shown.mode is Insert,
        v.edit is Some,
        v.popup is None,
        !v.shown.show_help,
        !v.background.update_running,
        v.background.periodic_refresh is Idle,
    ensures
        ({
            let next = pressed(v, key).0;
            &&& key.code == KeyCode::Char('c') && key.modifiers.control ==> {
                &&& next.edit is None
                &&& next.shown.mode is Normal
                &&& next.steps.len() >= v.steps.len() + 2
                &&& next.steps.last() is ClearRecovery
                &&& next.steps[next.steps.len() - 2] == Step::Say(Message::EditCancelled)
                &&& next.orders == v.orders
            }
            &&& key.code is Esc ==> {
                &&& next.edit == v.edit
                &&& next.shown.mode is Normal
                &&& next.steps == v.steps.push(Step::PersistRecovery)
                &&& next.orders == v.orders
            }
        }),
{
    reveal(pressed);
    reveal(inserted);
}

// ---------------------------------------------------------------------------
// What a change leaves
// ---------------------------------------------------------------------------

/// A note that was saved ends its edit. The notes of its folder are read anew, and then the
/// note is kept, the list is kept, the session is written and the draft goes, in this order.
pub proof fn law_saved_note_ends_the_edit(v: AppModel, note: Arc<Note>)
    requires
        v.background.update_running,
    ensures
        ({
            let next = update_arrived(v, UpdateWorkerResult::Saved(note)).0;
            &&& next.edit is None
            &&& next.shown.mode is Normal
            &&& !next.data.rows.dom().contains(note.summary.folder_id@)
            &&& next.data.rows == v.data.rows.remove(note.summary.folder_id@)
            &&& next.steps == v.steps + seq![
                Step::ClearRecovery,
                Step::PersistSession,
                Step::Conclude(Message::Saved),
                Step::Snapshot,
                Step::KeepNote(note),
            ]
            &&& !next.background.update_running
            &&& next.orders == v.orders
        }),
{
    reveal(update_arrived);
    reveal(change_told);
    reveal(note_saved);
    reveal(saved_applied);
    reveal(saved_selected);
    reveal(researched);
    reveal(searching);
    reveal(reselected);
    let next = update_arrived(v, UpdateWorkerResult::Saved(note)).0;
    assert(next.steps =~= v.steps + seq![
        Step::ClearRecovery,
        Step::PersistSession,
        Step::Conclude(Message::Saved),
        Step::Snapshot,
        Step::KeepNote(note),
    ]);
}

/// A saved note is in the list in its place, with what it has become; a new one is at the
/// end of the list of its folder. It is on the screen.
pub proof fn law_saved_note_is_on_the_screen(v: AppModel, note: Arc<Note>, k: int)
    requires
        v.background.update_running,
        v.search is Inactive,
        0 <= k < v.data.notes.len() <= usize::MAX,
        v.data.notes[k].id@ == note.summary.id@,
        forall|i: int| 0 <= i < k ==> (#[trigger] v.data.notes[i]).id@ != note.summary.id@,
    ensures
        ({
            let next = update_arrived(v, UpdateWorkerResult::Saved(note)).0;
            &&& next.data.notes == v.data.notes.update(k, note.summary)
            &&& next.shown.selected_note == Some(note)
            &&& next.shown.selected_note_index == k
            &&& next.shown.preview_scroll == 0
        }),
{
    reveal(update_arrived);
    reveal(change_told);
    reveal(note_saved);
    reveal(saved_applied);
    reveal(saved_selected);
    reveal(researched);
    reveal(searching);
    reveal(reselected);
    let notes = v.data.notes;
    lemma_summary_at(notes, note.summary.id@);
    let at = summary_at(notes, note.summary.id@) as int;
    if at < k {
        assert(notes[at].id@ != note.summary.id@);
    }
    if at > k {
        assert(notes[k].id@ != note.summary.id@);
    }
    let after = update_arrived(v, UpdateWorkerResult::Saved(note)).0.data.notes;
    assert(after == notes.update(k, note.summary));
    let ids = Seq::new(after.len(), |i: int| after[i].id);
    let fits = |x: NoteId| x@ == note.summary.id@;
    assert forall|i: int| 0 <= i < k implies !fits(#[trigger] ids[i]) by {
        assert(notes[i].id@ != note.summary.id@);
    }
    crate::navigation::lemma_first_index(ids, fits, k);
}

/// A note that is new in the folder that is shown comes at the end of its list.
pub proof fn law_new_note_comes_last(
    v: AppModel,
    note: Arc<Note>,
    account_id: AccountId,
    id: FolderId,
    name: String,
    depth: usize,
)
    requires
        v.background.update_running,
        v.search is Inactive,
        crate::keyboard_laws::folder_selected(v, account_id, id, name, depth),
        forall|i: int|
            0 <= i < v.data.notes.len() ==> (#[trigger] v.data.notes[i]).id@ != note.summary.id@,
        v.data.notes.len() < usize::MAX,
    ensures
        ({
            let next = update_arrived(v, UpdateWorkerResult::Saved(note)).0;
            &&& id@ == note.summary.folder_id@ ==> next.data.notes == v.data.notes.push(note.summary)
            &&& id@ != note.summary.folder_id@ ==> next.data.notes == v.data.notes
            &&& id@ == note.summary.folder_id@ ==> next.shown.selected_note == Some(note)
                && next.shown.selected_note_index == v.data.notes.len()
        }),
{
    reveal(update_arrived);
    reveal(change_told);
    reveal(note_saved);
    reveal(saved_applied);
    reveal(saved_selected);
    reveal(researched);
    reveal(searching);
    reveal(reselected);
    let notes = v.data.notes;
    lemma_summary_at(notes, note.summary.id@);
    let at = summary_at(notes, note.summary.id@) as int;
    if at < notes.len() {
        assert(notes[at].id@ != note.summary.id@);
    }
    assert(selected_item(v) == Some(v.data.navigation[v.shown.selected_navigation as int]));
    let after = update_arrived(v, UpdateWorkerResult::Saved(note)).0.data.notes;
    if id@ == note.summary.folder_id@ {
        assert(after == notes.push(note.summary));
        let ids = Seq::new(after.len(), |i: int| after[i].id);
        let fits = |x: NoteId| x@ == note.summary.id@;
        assert forall|i: int| 0 <= i < notes.len() implies !fits(#[trigger] ids[i]) by {
            assert(after[i] == notes[i]);
        }
        crate::navigation::lemma_first_index(ids, fits, notes.len() as int);
    }
}

/// The notes of the folder that is shown are read anew after a move or a deletion; after a
/// move also those of the folder that the note went to. Then the note is kept, or forgotten,
/// and what was done is told.
pub proof fn law_moved_and_deleted_notes(
    v: AppModel,
    note: Arc<Note>,
    destination_name: String,
    note_id: NoteId,
    previous_index: usize,
    account_id: AccountId,
    id: FolderId,
    name: String,
    depth: usize,
)
    requires
        v.background.update_running,
        crate::keyboard_laws::folder_selected(v, account_id, id, name, depth),
    ensures
        ({
            let moved = update_arrived(
                v,
                UpdateWorkerResult::Moved { note, destination_name },
            ).0;
            let gone = update_arrived(
                v,
                UpdateWorkerResult::Deleted { note_id, previous_index },
            ).0;
            &&& moved.data.rows == v.data.rows.remove(id@).remove(note.summary.folder_id@)
            &&& gone.data.rows == v.data.rows.remove(id@)
            &&& moved.steps == v.steps + seq![
                Step::PersistSession,
                Step::Conclude(Message::MovedTo(destination_name)),
                Step::Snapshot,
                Step::KeepNote(note),
                Step::LoadNotes { persist: false, browse: false },
            ]
            &&& gone.steps == v.steps + seq![
                Step::PersistSession,
                Step::Conclude(Message::MovedToDeleted),
                Step::Snapshot,
                Step::ForgetNote(note_id),
                Step::Reselect(previous_index),
                Step::LoadNotes { persist: false, browse: false },
            ]
        }),
{
    reveal(update_arrived);
    reveal(change_told);
    reveal(note_moved);
    reveal(note_deleted);
    let moved = update_arrived(v, UpdateWorkerResult::Moved { note, destination_name }).0;
    let gone = update_arrived(v, UpdateWorkerResult::Deleted { note_id, previous_index }).0;
    assert(selected_item(v) == Some(v.data.navigation[v.shown.selected_navigation as int]));
    assert(moved.steps =~= v.steps + seq![
        Step::PersistSession,
        Step::Conclude(Message::MovedTo(destination_name)),
        Step::Snapshot,
        Step::KeepNote(note),
        Step::LoadNotes { persist: false, browse: false },
    ]);
    assert(gone.steps =~= v.steps + seq![
        Step::PersistSession,
        Step::Conclude(Message::MovedToDeleted),
        Step::Snapshot,
        Step::ForgetNote(note_id),
        Step::Reselect(previous_index),
        Step::LoadNotes { persist: false, browse: false },
    ]);
}

/// A note that has changed meanwhile opens the question what to do about it, with the edit
/// kept; an attachment that was opened or copied is only told of.
pub proof fn law_other_results_are_told(
    v: AppModel,
    remote: Arc<Note>,
    name: String,
    destination: String,
)
    requires
        v.background.update_running,
    ensures
        ({
            let conflict = update_arrived(v, UpdateWorkerResult::Conflict(remote)).0;
            let opened = update_arrived(v, UpdateWorkerResult::AttachmentPreviewed { name }).0;
            let copied = update_arrived(
                v,
                UpdateWorkerResult::AttachmentExported { destination },
            ).0;
            let lost = update_arrived(v, UpdateWorkerResult::Panicked).0;
            &&& conflict.popup == Some(PopupModel::Conflict(remote))
            &&& conflict.edit == v.edit
            &&& conflict.data == v.data
            &&& opened.popup == v.popup
            &&& occurs(opened.status.text, name@)
            &&& opened.data == v.data
            &&& copied.popup == v.popup
            &&& occurs(copied.status.text, destination@)
            &&& copied.data == v.data
            &&& lost.status.is_error
            &&& lost.edit == v.edit
            &&& lost.data == v.data
        }),
{
    reveal(update_arrived);
    reveal(change_told);
    let opened = update_arrived(v, UpdateWorkerResult::AttachmentPreviewed { name }).0;
    let copied = update_arrived(v, UpdateWorkerResult::AttachmentExported { destination }).0;
    let n = "Opened "@.len() as int;
    assert(opened.status.text.subrange(n, n + name@.len()) =~= name@);
    let m = "Exported copy to "@.len() as int;
    assert(copied.status.text.subrange(m, m + destination@.len()) =~= destination@);
}

/// A folder that was deleted is no longer known with its notes; then the notes of the line
/// that is selected are shown, and what is kept is kept anew.
pub proof fn law_deleted_folder_is_forgotten(v: AppModel, deleted: DeletedFolder)
    requires
        v.background.update_running,
    ensures
        ({
            let next = update_arrived(v, UpdateWorkerResult::FolderDeleted(deleted)).0;
            &&& next.data.rows == v.data.rows.remove(deleted.folder_id@)
            &&& next.steps == v.steps + seq![
                Step::PersistSession,
                Step::PrefixWarning(Message::DeletedFolder),
                Step::Snapshot,
                Step::Say(Message::DeletedFolder),
                Step::LoadNotes { persist: false, browse: false },
            ]
            &&& next.shown.preview_scroll == 0
            &&& next.data.navigation == tree(next.data.accounts, next.data.folders)
        }),
{
    reveal(update_arrived);
    reveal(change_told);
    reveal(folder_deleted);
    let next = update_arrived(v, UpdateWorkerResult::FolderDeleted(deleted)).0;
    assert(next.steps =~= v.steps + seq![
        Step::PersistSession,
        Step::PrefixWarning(Message::DeletedFolder),
        Step::Snapshot,
        Step::Say(Message::DeletedFolder),
        Step::LoadNotes { persist: false, browse: false },
    ]);
}

/// A folder that was renamed or moved keeps its line selected in the tree that it makes, and
/// its new name is told.
pub proof fn law_changed_folder_is_selected(v: AppModel, folder: Folder)
    requires
        v.background.update_running,
        folder_changed(v, folder).data.navigation.len() <= usize::MAX,
    ensures
        ({
            let renamed = update_arrived(v, UpdateWorkerResult::FolderRenamed(folder)).0;
            let moved = update_arrived(v, UpdateWorkerResult::FolderReparented(folder)).0;
            let items = renamed.data.navigation;
            &&& items == tree(v.data.accounts, renamed.data.folders)
            &&& moved.data == renamed.data
            &&& moved.shown == renamed.shown
            &&& (exists|i: int|
                0 <= i < items.len() && crate::folder_laws::is_folder_line(
                    #[trigger] items[i],
                    folder.account_id@,
                    folder.id@,
                )) ==> {
                &&& renamed.shown.selected_navigation < items.len()
                &&& crate::folder_laws::is_folder_line(
                    items[renamed.shown.selected_navigation as int],
                    folder.account_id@,
                    folder.id@,
                )
            }
            &&& occurs(renamed.status.text, folder.name@)
            &&& occurs(moved.status.text, folder.name@)
            &&& renamed.steps == v.steps.push(
                Step::PrefixWarning(Message::RenamedFolder(folder.name)),
            ).push(Step::Snapshot)
            &&& moved.steps == v.steps.push(
                Step::PrefixWarning(Message::MovedFolder(folder.name)),
            ).push(Step::Snapshot)
        }),
{
    reveal(update_arrived);
    reveal(change_told);
    reveal(folder_change_told);
    reveal(folder_changed);
    let renamed = update_arrived(v, UpdateWorkerResult::FolderRenamed(folder)).0;
    let moved = update_arrived(v, UpdateWorkerResult::FolderReparented(folder)).0;
    let items = renamed.data.navigation;
    let fits = |item: NavigationItem|
        wanted(Wanted::FolderIn(&folder.account_id, &folder.id), item);
    lemma_first_index_fits(items, fits);
    assert forall|i: int| 0 <= i < items.len() implies fits(#[trigger] items[i])
        == crate::folder_laws::is_folder_line(items[i], folder.account_id@, folder.id@) by {}
    let name = folder.name@;
    let n = "Renamed folder to "@.len() as int;
    assert(renamed.status.text.subrange(n, n + name.len()) =~= name);
    let m = "Moved folder “"@.len() as int;
    assert(moved.status.text.subrange(m, m + name.len()) =~= name);
}

/// A folder that was created at the top of its account has that account's folders read
/// anew; one within another is added, selected and told of.
pub proof fn law_created_folders(v: AppModel, folder: Folder)
    requires
        v.background.update_running,
        child_created(v, folder).data.navigation.len() <= usize::MAX,
    ensures
        ({
            let (top, effect) = update_arrived(v, UpdateWorkerResult::FolderCreated(folder));
            let child = update_arrived(v, UpdateWorkerResult::ChildFolderCreated(folder)).0;
            let items = child.data.navigation;
            &&& effect == Some(Effect::Folders(folder.account_id))
            &&& top.data.rows == v.data.rows.remove(folder.id@)
            &&& child.data.folders.last() == folder
            &&& items == tree(v.data.accounts, child.data.folders)
            &&& (exists|i: int|
                0 <= i < items.len() && is_line_of(
                    #[trigger] items[i],
                    RefreshContext::Folder(folder.id),
                )) ==> {
                &&& child.shown.selected_navigation < items.len()
                &&& is_line_of(
                    items[child.shown.selected_navigation as int],
                    RefreshContext::Folder(folder.id),
                )
                &&& child.shown.focus is Navigation
                &&& child.search is Inactive
                &&& child.steps == v.steps + seq![
                    Step::PersistSession,
                    Step::Snapshot,
                    Step::Say(Message::CreatedSubfolder(folder.name)),
                    Step::LoadNotes { persist: true, browse: false },
                ]
            }
        }),
{
    reveal(update_arrived);
    reveal(change_told);
    reveal(folder_created);
    reveal(child_created);
    let child = update_arrived(v, UpdateWorkerResult::ChildFolderCreated(folder)).0;
    let items = child.data.navigation;
    let fits = |item: NavigationItem| wanted(Wanted::Folder(&folder.id), item);
    lemma_first_index_fits(items, fits);
    assert forall|i: int| 0 <= i < items.len() implies fits(#[trigger] items[i]) == is_line_of(
        items[i],
        RefreshContext::Folder(folder.id),
    ) by {}
    assert(child.steps.len() == v.steps.len() + 4 ==> child.steps =~= v.steps + seq![
        Step::PersistSession,
        Step::Snapshot,
        Step::Say(Message::CreatedSubfolder(folder.name)),
        Step::LoadNotes { persist: true, browse: false },
    ]);
}

// ---------------------------------------------------------------------------
// What is not found
// ---------------------------------------------------------------------------

/// A folder that has no line in the tree that it makes is not selected: after its creation
/// that is told as an error, and after another change the selection stays.
pub proof fn law_folder_without_a_line_is_not_selected(v: AppModel, folder: Folder)
    requires
        v.background.update_running,
        forall|i: int|
            0 <= i < child_created(v, folder).data.navigation.len() ==> !is_line_of(
                #[trigger] child_created(v, folder).data.navigation[i],
                RefreshContext::Folder(folder.id),
            ),
    ensures
        ({
            let child = update_arrived(v, UpdateWorkerResult::ChildFolderCreated(folder)).0;
            &&& child.shown == v.shown
            &&& child.status.is_error
            &&& child.steps == v.steps
        }),
{
    reveal(update_arrived);
    reveal(change_told);
    reveal(child_created);
    let items = child_created(v, folder).data.navigation;
    let fits = |item: NavigationItem| wanted(Wanted::Folder(&folder.id), item);
    lemma_first_index_fits(items, fits);
    assert forall|i: int| 0 <= i < items.len() implies !fits(#[trigger] items[i]) by {
        assert(!is_line_of(items[i], RefreshContext::Folder(folder.id)));
    }
}

/// A folder that was renamed or moved but has no line of its own leaves the selection where
/// it was.
pub proof fn law_changed_folder_without_a_line(v: AppModel, folder: Folder)
    requires
        v.background.update_running,
        forall|i: int|
            0 <= i < folder_changed(v, folder).data.navigation.len()
                ==> !crate::folder_laws::is_folder_line(
                #[trigger] folder_changed(v, folder).data.navigation[i],
                folder.account_id@,
                folder.id@,
            ),
    ensures
        update_arrived(v, UpdateWorkerResult::FolderRenamed(folder)).0.shown == v.shown,
{
    reveal(update_arrived);
    reveal(change_told);
    reveal(folder_change_told);
    reveal(folder_changed);
    let items = folder_changed(v, folder).data.navigation;
    let fits = |item: NavigationItem|
        wanted(Wanted::FolderIn(&folder.account_id, &folder.id), item);
    lemma_first_index_fits(items, fits);
    assert forall|i: int| 0 <= i < items.len() implies !fits(#[trigger] items[i]) by {
        assert(!crate::folder_laws::is_folder_line(items[i], folder.account_id@, folder.id@));
    }
}

/// A folder that is not listed opens no form for another place.
pub proof fn law_unlisted_folder_is_not_moved(
    v: AppModel,
    account_id: AccountId,
    id: FolderId,
    name: String,
)
    requires
        forall|i: int|
            0 <= i < v.data.folders.len() ==> (#[trigger] v.data.folders[i]).id@ != id@
                || v.data.folders[i].account_id@ != account_id@,
    ensures
        reparent_form_opened(v, account_id, id, name).popup == v.popup,
        reparent_form_opened(v, account_id, id, name).data == v.data,
        reparent_form_opened(v, account_id, id, name).orders == v.orders,
{
    reveal(reparent_form_opened);
    let fits = |f: Folder| f.id@ == id@ && f.account_id@ == account_id@;
    lemma_first_index_fits(v.data.folders, fits);
    assert forall|i: int| 0 <= i < v.data.folders.len() implies !fits(
        #[trigger] v.data.folders[i],
    ) by {}
}

/// A saved note that the list does not show is not selected.
pub proof fn law_saved_note_out_of_the_list(v: AppModel, note: Arc<Note>)
    requires
        forall|i: int|
            0 <= i < crate::app::visible_ids(v).len() ==> (#[trigger] crate::app::visible_ids(
                v,
            )[i])@ != note.summary.id@,
    ensures
        saved_selected(v, note) == v,
{
    reveal(saved_selected);
    let ids = crate::app::visible_ids(v);
    let fits = |x: NoteId| x@ == note.summary.id@;
    lemma_first_index_fits(ids, fits);
    assert forall|i: int| 0 <= i < ids.len() implies !fits(#[trigger] ids[i]) by {}
}

/// A refresh that is no longer the latest tells nothing when it ends.
pub proof fn law_outdated_refresh_tells_nothing(v: AppModel, generation: u64)
    requires
        v.background.periodic_refresh is InFlight,
        generation != v.background.refresh_generation,
    ensures
        refresh_arrived(v, WorkerRefreshResult::Panicked { generation }).status == v.status,
        refresh_arrived(v, WorkerRefreshResult::Cancelled { generation }).status == v.status,
{
    reveal(refresh_arrived);
}

// ---------------------------------------------------------------------------
// Reading for the selection
// ---------------------------------------------------------------------------

/// A request for the selection is begun where none is under way: it gets a number of its
/// own, and nothing waits any more. While one is under way the latest request waits.
pub proof fn law_one_reading_at_a_time(
    v: AppModel,
    request: crate::jobs::NavigationRequest,
)
    ensures
        ({
            let next = crate::browsing::requested(v, request);
            &&& !v.background.navigation_running ==> {
                &&& next.background.navigation_running
                &&& next.background.pending_navigation is None
                &&& next.orders.len() == v.orders.len() + 1
                &&& next.orders.last() matches OrderModel::Navigate(job) && job.request == request
                    && job.generation == next.background.navigation_generation
                &&& next.background.navigation_generation != v.background.navigation_generation
            }
            &&& v.background.navigation_running ==> {
                &&& next.background.navigation_running
                &&& next.background.pending_navigation == Some(request)
                &&& next.orders == v.orders
                &&& next.background.navigation_generation == v.background.navigation_generation
            }
            &&& next.data == v.data
            &&& next.shown == v.shown
        }),
{
    reveal(crate::browsing::requested);
    reveal(crate::browsing::navigation_started);
    assert(v.background.navigation_generation.wrapping_add(1)
        != v.background.navigation_generation);
}

/// A cached note that is shown by a live client is read again in the background.
pub proof fn law_cached_note_is_read_again(
    v: AppModel,
    id: NoteId,
    note: Arc<Note>,
)
    requires
        !v.background.navigation_running,
    ensures
        v.shown.data_source is Live ==> (crate::browsing::cached_note_shown(
            v,
            id,
            Ok(Some(note)),
        ).orders.last() matches OrderModel::Navigate(job) && job.request
            == crate::jobs::NavigationRequest::Preview(id)),
        v.shown.data_source is Live ==> (crate::browsing::cached_note_shown(
            v,
            id,
            Ok(None),
        ).orders.last() matches OrderModel::Navigate(job) && job.request
            == crate::jobs::NavigationRequest::Preview(id)),
        !(v.shown.data_source is Live) ==> crate::browsing::cached_note_shown(
            v,
            id,
            Ok(Some(note)),
        ).orders == v.orders,
{
    reveal(crate::browsing::cached_note_shown);
    reveal(crate::browsing::requested);
    reveal(crate::browsing::navigation_started);
}

/// A folder that the cache lists nothing for is read in the background.
pub proof fn law_uncached_folder_is_read(
    v: AppModel,
    state: crate::model::CachedState,
    account_id: AccountId,
    id: FolderId,
    name: String,
    depth: usize,
)
    requires
        crate::keyboard_laws::folder_selected(v, account_id, id, name, depth),
        !v.background.navigation_running,
        forall|k: int|
            0 <= k < state.notes@.len() ==> (#[trigger] state.notes@[k]).folder_id@ != id@,
    ensures
        ({
            let next = crate::browsing::cache_browsed(v, Ok(state));
            &&& next.orders.last() matches OrderModel::Navigate(job) && job.request
                == crate::jobs::NavigationRequest::Folder(RefreshContext::Folder(id))
            &&& next.data == v.data
        }),
{
    reveal(crate::browsing::cache_browsed);
    reveal(crate::browsing::folder_followed);
    reveal(crate::browsing::requested);
    reveal(crate::browsing::navigation_started);
    lemma_none_listed(state.notes@, id@, state.notes@.len());
    assert(selected_item(v) == Some(v.data.navigation[v.shown.selected_navigation as int]));
}

proof fn lemma_none_listed(notes: Seq<NoteSummary>, folder: Seq<char>, n: nat)
    requires
        n <= notes.len(),
        forall|k: int| 0 <= k < notes.len() ==> (#[trigger] notes[k]).folder_id@ != folder,
    ensures
        crate::browsing::notes_in_upto(notes, folder, n).len() == 0,
    decreases n,
{
    if n > 0 {
        lemma_none_listed(notes, folder, (n - 1) as nat);
    }
}

// ---------------------------------------------------------------------------
// What follows a reading
// ---------------------------------------------------------------------------

/// After a refresh the note on the screen is stored and the list is kept, and before that
/// the session is written where its pane had nothing to show. The session has then been
/// returned to.
pub proof fn law_refresh_is_kept(v: AppModel, read: LiveRefreshRead)
    ensures
        ({
            let next = live_applied(v, read);
            let n = v.steps.len() as int;
            &&& next.steps.len() >= n + 2
            &&& next.steps.take(n) == v.steps
            &&& next.steps[n] is SnapshotUnlessError
            &&& next.steps[n + 1] is StoreSelected
            &&& next.steps.len() > n + 2 ==> next.steps.len() == n + 3 && next.steps[n + 2]
                is PersistSession
            &&& v.kept.pending_session is None ==> next.steps.len() == n + 2
            &&& next.kept.pending_session is None
            &&& next.shown.cached_preview_state is None
        }),
{
    reveal(live_applied);
    reveal(live_tree);
    reveal(live_notes);
    reveal(search_restored);
    reveal(searching);
    reveal(researched);
    reveal(reselected);
    reveal(scroll_restored);
    reveal(focus_returned);
    assert(live_applied(v, read).steps.take(v.steps.len() as int) =~= v.steps);
}

/// What the cache lists is shown with the session's line selected; then the selected note is
/// shown and the view goes back to where it was. No note counts as shown before that.
pub proof fn law_cached_data_is_returned_to(v: AppModel, state: crate::model::CachedState)
    ensures
        ({
            let next = crate::refreshing::cache_loaded(v, state);
            let items = tree(state.accounts@, state.folders@);
            &&& next.data.navigation == items
            &&& next.shown.selected_navigation == (match v.kept.pending_session {
                Some(session) => match crate::navigation::session_line(
                    state.accounts@,
                    items,
                    session,
                ) {
                    Some(line) => line,
                    None => default_line(items),
                },
                None => default_line(items),
            })
            &&& next.shown.selected_note is None
            &&& next.steps == v.steps.push(Step::RestoreView).push(
                Step::LoadSelected { persist: true },
            )
            &&& !next.status.is_error
            &&& next.data.rows == crate::rows::rows_by_folder(state.notes@)
        }),
{
    reveal(crate::refreshing::cache_loaded);
    reveal(crate::refreshing::cached_notes);
    reveal(crate::refreshing::cached_tree);
    reveal(crate::returning::context_restored);
    reveal(search_restored);
    reveal(searching);
    reveal(researched);
    reveal(reselected);
}

/// Without a line to show, the list is empty and no note is on the screen.
pub proof fn law_nothing_to_list(v: AppModel, persist: bool, browse: bool)
    requires
        v.shown.selected_navigation >= v.data.navigation.len(),
    ensures
        crate::browsing::notes_loading(v, persist, browse).1 is None,
        crate::browsing::notes_loading(v, persist, browse).0.data.notes.len() == 0,
        crate::browsing::notes_loading(v, persist, browse).0.shown.selected_note is None,
        crate::browsing::notes_loading(v, persist, browse).0.data.folders == v.data.folders,
{
    reveal(crate::browsing::notes_loading);
}

/// An error of the notes service is told with its words. Where the data comes from the cache,
/// the client remembers that the service cannot be reached, and why.
pub proof fn law_service_error_is_told(v: AppModel, message: String)
    ensures
        ({
            let next = crate::app::with_error(v, message);
            &&& next.status.is_error
            &&& occurs(next.status.text, message@)
            &&& v.shown.data_source is Live ==> next.shown == v.shown
            &&& !(v.shown.data_source is Live) ==> next.shown.data_source == (
            crate::workflow::DataSourceState::CachedBackendUnavailable { message })
            &&& next.data == v.data
            &&& next.edit == v.edit
            &&& next.orders == v.orders
        }),
{
    let next = crate::app::with_error(v, message);
    let n = next.status.text.len() - message@.len();
    assert(next.status.text.subrange(n, n + message@.len()) =~= message@);
}

} // verus!
