//! What holds of the client as a whole.

use std::sync::Arc;

use vstd::prelude::*;

use crate::app::{first_do, reselected, AppModel, Background};
use crate::arrivals::{
    change_told, folder_arrived, navigation_arrived, preview_arrived, still_wanted,
    update_arrived,
};
use crate::browsing::{
    activated, at_line, at_note, focused, folder_followed, navigation_started, notes_loading,
    notes_replaced, only_note, preview_scrolled, refresh_outdated, refreshing, requested,
    researched, rows_shown, search_cleared, search_entered, search_opened, search_typed, searching,
    selected_loading, stepped, store_reported, to_edge,
};
use crate::editing::{
    document_checked, edit_begun, edit_commanded, inserted, kind_converted, link_asked, link_set,
    new_note_begun, note_opened, note_saved, saved_applied, saved_selected, saving, style_toggled,
};
use crate::folders::{
    child_created, child_creating, child_form_opened, folder_change_told, folder_changed,
    folder_created, folder_creating, folder_deleted, folder_deleting, folder_deletion_offered,
    folder_form_opened, folder_renaming, folder_reparenting, queued_child_form_opened,
    rename_form_opened, reparent_begun, reparent_form_opened,
};
use crate::jobs::{NavigationRequest, NavigationWorkerResult, UpdateWorkerResult, WorkerRefreshResult};
use crate::keyboard::{
    begun_for, browse_command, browsed, foreground_run, leaves_edit, note_awaited, pressed,
    unsaved, BrowseCommand,
};
use crate::keys::{KeyCode, KeyEvent};
use crate::model::{summary_at, Note};
use crate::notes::{
    attachment_copying, attachment_exporting, attachment_opening, attachment_previewing,
    attachments_opened, deletion_offered, move_begun, note_deleted, note_deleting, note_moved,
    note_moving,
};
use crate::popups::{
    attachments_pressed, child_pressed, conflict_pressed, create_pressed, deletion_pressed,
    discard_pressed, folder_deletion_pressed, form_pressed, link_pressed, move_pressed,
    popup_pressed, recovery_pressed, rename_pressed, reparent_pressed,
};
use crate::refreshing::{
    at_time, bootstrapping, fine_snapshot_replacing, intent_of, live_applied, live_notes,
    live_shown, live_tree,
    intent_queued, interval_passed, key_waits, manual_refresh, refresh_arrived, refresh_asked,
    refresh_started, selected_storing, snapshot_replacing, view_restored,
};
use crate::returning::{
    draft_removed, draft_written, focus_returned, recovery_clearing, recovery_persisting, recovery_restored,
    scroll_restored, search_restored, session_persisting, session_written,
};
use crate::settings::{settings_opened, settings_pressed};
use crate::steps::{
    advanced, cache_answered, concluded, note_forgetting, note_keeping, replied, reselected_at,
    step_taken, warning_prefixed,
};
use crate::workflow::{
    Await, Effect, Focus, NavigationArrival, OrderModel, PendingForegroundIntent, PopupModel,
    Reply, Step,
};

verus! {

// ---------------------------------------------------------------------------
// Changes
// ---------------------------------------------------------------------------

/// Whether orders were only added to, and no change among those that were added.
pub open spec fn quiet(before: Seq<OrderModel>, after: Seq<OrderModel>) -> bool {
    &&& before.len() <= after.len()
    &&& forall|i: int| 0 <= i < before.len() ==> #[trigger] after[i] == before[i]
    &&& forall|i: int| before.len() <= i < after.len() ==> !(#[trigger] after[i] is Update)
}

/// Whether what follows a state orders no change, or the first while none is under way;
/// then one is under way.
pub open spec fn orderly(v: AppModel, next: AppModel) -> bool {
    quiet(v.orders, next.orders) || (!v.background.update_running
        && next.background.update_running)
}

/// Whether a popup asks for a change that is made from it.
pub open spec fn is_change_form(popup: PopupModel) -> bool {
    ||| popup is CreateFolder
    ||| popup is CreateChildFolder
    ||| popup is RenameFolder
    ||| popup is ReparentFolder
    ||| popup is DeleteFolder
    ||| popup is DeleteConfirm
    ||| popup is Move
}

/// Whether no popup is open that asks for a change.
pub open spec fn formless(v: AppModel) -> bool {
    !(v.popup matches Some(p) && is_change_form(p))
}

/// Whether no form opens where the data comes from the cache.
pub open spec fn opens_no_form(v: AppModel, next: AppModel) -> bool {
    !(v.shown.data_source is Live) && formless(v) ==> formless(next)
}

proof fn lemma_search_typed(v: AppModel, key: KeyEvent)
    ensures
        search_typed(v, key).orders == v.orders,
        opens_no_form(v, search_typed(v, key)),
        search_opened(v).orders == v.orders,
        opens_no_form(v, search_opened(v)),
        search_cleared(v).orders == v.orders,
        opens_no_form(v, search_cleared(v)),
{
    reveal(search_typed);
    reveal(search_entered);
    reveal(search_opened);
    reveal(search_cleared);
    reveal(searching);
    reveal(researched);
    reveal(reselected);
}

proof fn lemma_moving(v: AppModel, back: bool, lines: u16, focus: Focus)
    ensures
        stepped(v, back).orders == v.orders,
        opens_no_form(v, stepped(v, back)),
        to_edge(v, back).orders == v.orders,
        opens_no_form(v, to_edge(v, back)),
        preview_scrolled(v, back, lines).orders == v.orders,
        opens_no_form(v, preview_scrolled(v, back, lines)),
        activated(v).orders == v.orders,
        opens_no_form(v, activated(v)),
        focused(v, focus).orders == v.orders,
        opens_no_form(v, focused(v, focus)),
{
    reveal(stepped);
    reveal(to_edge);
    reveal(at_line);
    reveal(at_note);
    reveal(refresh_outdated);
    reveal(preview_scrolled);
    reveal(activated);
    reveal(focused);
}

proof fn lemma_forms(v: AppModel)
    ensures
        folder_form_opened(v).orders == v.orders,
        opens_no_form(v, folder_form_opened(v)),
        child_form_opened(v).orders == v.orders,
        opens_no_form(v, child_form_opened(v)),
        reparent_begun(v).orders == v.orders,
        opens_no_form(v, reparent_begun(v)),
        rename_form_opened(v).orders == v.orders,
        opens_no_form(v, rename_form_opened(v)),
        folder_deletion_offered(v).orders == v.orders,
        opens_no_form(v, folder_deletion_offered(v)),
{
    reveal(folder_form_opened);
    reveal(child_form_opened);
    reveal(reparent_begun);
    reveal(reparent_form_opened);
    reveal(rename_form_opened);
    reveal(folder_deletion_offered);
}

proof fn lemma_note_forms(v: AppModel)
    ensures
        edit_begun(v).orders == v.orders,
        opens_no_form(v, edit_begun(v)),
        new_note_begun(v).orders == v.orders,
        opens_no_form(v, new_note_begun(v)),
        move_begun(v).orders == v.orders,
        opens_no_form(v, move_begun(v)),
        deletion_offered(v).orders == v.orders,
        opens_no_form(v, deletion_offered(v)),
        attachments_opened(v).orders == v.orders,
        opens_no_form(v, attachments_opened(v)),
        settings_opened(v).orders == v.orders,
        opens_no_form(v, settings_opened(v)),
{
    reveal(edit_begun);
    reveal(note_opened);
    reveal(new_note_begun);
    reveal(move_begun);
    reveal(deletion_offered);
    reveal(attachments_opened);
    reveal(settings_opened);
}

proof fn lemma_manual_refresh(v: AppModel)
    ensures
        quiet(v.orders, manual_refresh(v).orders),
        opens_no_form(v, manual_refresh(v)),
{
    reveal(manual_refresh);
    reveal(refresh_started);
}

proof fn lemma_browsed(v: AppModel, command: BrowseCommand)
    ensures
        quiet(v.orders, browsed(v, command).orders),
        opens_no_form(v, browsed(v, command)),
{
    reveal(browsed);
    match command {
        BrowseCommand::Search => lemma_search_typed(v, arbitrary()),
        BrowseCommand::ClearSearch => lemma_search_typed(v, arbitrary()),
        BrowseCommand::Edit => lemma_note_forms(v),
        BrowseCommand::NewNote => lemma_note_forms(v),
        BrowseCommand::NewFolder => lemma_forms(v),
        BrowseCommand::NewSubfolder => lemma_forms(v),
        BrowseCommand::MoveFolder => lemma_forms(v),
        BrowseCommand::RenameFolder => lemma_forms(v),
        BrowseCommand::MoveNote => lemma_note_forms(v),
        BrowseCommand::DeleteFolder => lemma_forms(v),
        BrowseCommand::DeleteNote => lemma_note_forms(v),
        BrowseCommand::Attachments => lemma_note_forms(v),
        BrowseCommand::Settings => lemma_note_forms(v),
        BrowseCommand::NextPane => lemma_moving(
            v,
            true,
            0,
            crate::workflow::focus_after(v.shown.focus),
        ),
        BrowseCommand::PreviousPane => lemma_moving(
            v,
            true,
            0,
            crate::workflow::focus_before(v.shown.focus),
        ),
        BrowseCommand::Refresh => lemma_manual_refresh(v),
        BrowseCommand::Activate => lemma_moving(v, true, 0, Focus::Notes),
        BrowseCommand::Step { back } => lemma_moving(v, back, 0, Focus::Notes),
        BrowseCommand::Edge { last } => lemma_moving(v, last, 0, Focus::Notes),
        BrowseCommand::Scroll { back } => lemma_moving(v, back, 10, Focus::Notes),
        _ => {},
    }
}

proof fn lemma_saving(v: AppModel, overwrite: bool)
    ensures
        saving(v, overwrite).0.orders == v.orders,
        opens_no_form(v, saving(v, overwrite).0),
{
    reveal(saving);
}

proof fn lemma_edit_commanded(
    v: AppModel,
    e: crate::edit::EditModel,
    command: crate::editing::EditCommand,
)
    ensures
        edit_commanded(v, e, command).orders == v.orders,
        opens_no_form(v, edit_commanded(v, e, command)),
{
    reveal(edit_commanded);
    reveal(style_toggled);
    reveal(link_asked);
    reveal(kind_converted);
}

proof fn lemma_inserted(v: AppModel, key: KeyEvent)
    ensures
        inserted(v, key).0.orders == v.orders,
        opens_no_form(v, inserted(v, key).0),
{
    reveal(inserted);
    let next = first_do(v, Step::PersistRecovery);
    lemma_saving(next, false);
    if v.edit is Some {
        lemma_edit_commanded(
            next,
            v.edit->0,
            crate::editing::command_of(key, crate::editing::in_body(v)),
        );
    }
}

proof fn lemma_folder_forms_pressed(v: AppModel, popup: PopupModel, key: KeyEvent)
    requires
        popup is CreateFolder || popup is CreateChildFolder || popup is RenameFolder || popup
            is ReparentFolder || popup is DeleteFolder,
    ensures
        orderly(v, form_pressed(v, popup, key).0),
{
    reveal(form_pressed);
    reveal(create_pressed);
    reveal(folder_creating);
    reveal(child_pressed);
    reveal(child_creating);
    reveal(rename_pressed);
    reveal(folder_renaming);
    reveal(reparent_pressed);
    reveal(folder_reparenting);
    reveal(folder_deletion_pressed);
    reveal(folder_deleting);
}

proof fn lemma_note_forms_pressed(v: AppModel, popup: PopupModel, key: KeyEvent)
    requires
        popup is Move || popup is DeleteConfirm,
    ensures
        orderly(v, form_pressed(v, popup, key).0),
{
    reveal(form_pressed);
    reveal(move_pressed);
    reveal(note_moving);
    reveal(deletion_pressed);
    reveal(note_deleting);
}

proof fn lemma_edit_forms_pressed(v: AppModel, popup: PopupModel, key: KeyEvent)
    requires
        !is_change_form(popup),
    ensures
        form_pressed(v, popup, key).0.orders == v.orders,
        opens_no_form(v, form_pressed(v, popup, key).0),
{
    reveal(form_pressed);
    reveal(conflict_pressed);
    reveal(note_opened);
    reveal(saving);
    reveal(discard_pressed);
    reveal(link_pressed);
    reveal(link_set);
    reveal(recovery_pressed);
    reveal(recovery_restored);
}

proof fn lemma_attachments_pressed(v: AppModel, selected: usize, key: KeyEvent)
    ensures
        orderly(v, attachments_pressed(v, selected, key)),
        opens_no_form(v, attachments_pressed(v, selected, key)),
        !(v.shown.data_source is Live) ==> attachments_pressed(v, selected, key).orders
            == v.orders,
{
    reveal(attachments_pressed);
    reveal(attachment_previewing);
    reveal(attachment_exporting);
    reveal(attachment_opening);
    reveal(attachment_copying);
}

proof fn lemma_settings_pressed(v: AppModel, s: crate::workflow::Settings, key: KeyEvent)
    ensures
        settings_pressed(v, s, key).0.orders == v.orders,
        opens_no_form(v, settings_pressed(v, s, key).0),
{
    reveal(settings_pressed);
}

proof fn lemma_popup_pressed(v: AppModel, key: KeyEvent)
    ensures
        orderly(v, popup_pressed(v, key).0),
        !(v.shown.data_source is Live) && formless(v) ==> quiet(
            v.orders,
            popup_pressed(v, key).0.orders,
        ),
        opens_no_form(v, popup_pressed(v, key).0),
{
    reveal(popup_pressed);
    let next = AppModel { popup: None, ..v };
    match v.popup {
        Some(PopupModel::Settings(s)) => lemma_settings_pressed(next, s, key),
        Some(PopupModel::Attachments { selected }) => lemma_attachments_pressed(
            next,
            selected,
            key,
        ),
        Some(popup) => {
            let w = first_do(next, Step::PersistRecovery);
            if popup is Move || popup is DeleteConfirm {
                lemma_note_forms_pressed(w, popup, key);
            } else if is_change_form(popup) {
                lemma_folder_forms_pressed(w, popup, key);
            } else {
                lemma_edit_forms_pressed(w, popup, key);
            }
        },
        None => {},
    }
}

proof fn lemma_pressed(v: AppModel, key: KeyEvent)
    ensures
        orderly(v, pressed(v, key).0),
        !(v.shown.data_source is Live) && formless(v) ==> quiet(
            v.orders,
            pressed(v, key).0.orders,
        ),
        opens_no_form(v, pressed(v, key).0),
{
    reveal(pressed);
    if key_waits(v, key) {
        reveal(intent_queued);
    } else if v.popup is Some {
        lemma_popup_pressed(v, key);
    } else if v.shown.show_help {
    } else if v.shown.mode is Insert {
        lemma_inserted(v, key);
    } else if v.search is Editing {
        lemma_search_typed(v, key);
    } else if unsaved(v) && leaves_edit(key) {
    } else {
        lemma_browsed(v, browse_command(v, key));
    }
}

/// While a change is under way, no key begins another.
pub proof fn law_one_change_at_a_time(v: AppModel, key: KeyEvent)
    requires
        v.background.update_running,
    ensures
        quiet(v.orders, pressed(v, key).0.orders),
{
    lemma_pressed(v, key);
}

/// Where the data comes from the cache and no form is open that asks for a change, no key
/// begins a change, and none opens such a form.
pub proof fn law_cached_data_is_read_only(v: AppModel, key: KeyEvent)
    requires
        !(v.shown.data_source is Live),
        formless(v),
    ensures
        quiet(v.orders, pressed(v, key).0.orders),
        formless(pressed(v, key).0),
{
    lemma_pressed(v, key);
}

proof fn lemma_navigating(v: AppModel, request: NavigationRequest)
    ensures
        quiet(v.orders, navigation_started(v).orders),
        quiet(v.orders, requested(v, request).orders),
        quiet(v.orders, folder_followed(v).orders),
{
    reveal(navigation_started);
    reveal(requested);
    reveal(folder_followed);
}

proof fn lemma_loading(v: AppModel, persist: bool, browse: bool)
    ensures
        selected_loading(v, persist).0.orders == v.orders,
        notes_loading(v, persist, browse).0.orders == v.orders,
{
    reveal(selected_loading);
    reveal(only_note);
    reveal(notes_loading);
    reveal(rows_shown);
    reveal(notes_replaced);
    reveal(researched);
    reveal(reselected);
}

proof fn lemma_keeping(v: AppModel)
    ensures
        view_restored(v).orders == v.orders,
        session_persisting(v).0.orders == v.orders,
        selected_storing(v).0.orders == v.orders,
        snapshot_replacing(v).0.orders == v.orders,
        fine_snapshot_replacing(v).0.orders == v.orders,
        recovery_clearing(v).0.orders == v.orders,
        recovery_persisting(v).0.orders == v.orders,
        bootstrapping(v).0.orders == v.orders,
        refresh_asked(v).0.orders == v.orders,
{
    reveal(view_restored);
    reveal(scroll_restored);
    reveal(focus_returned);
    reveal(session_persisting);
    reveal(selected_storing);
    reveal(snapshot_replacing);
    reveal(fine_snapshot_replacing);
    reveal(recovery_clearing);
    reveal(recovery_persisting);
    reveal(bootstrapping);
    reveal(refresh_asked);
}

proof fn lemma_small_steps(v: AppModel, step: Step)
    requires
        step is KeepNote || step is ForgetNote || step is Conclude || step is PrefixWarning || step
            is Reselect,
    ensures
        step_taken(v, step).0.orders == v.orders,
{
    reveal(step_taken);
    reveal(note_keeping);
    reveal(note_forgetting);
    reveal(concluded);
    reveal(warning_prefixed);
    reveal(reselected_at);
}

proof fn lemma_begun_for(v: AppModel, intent: PendingForegroundIntent)
    ensures
        begun_for(v, intent).orders == v.orders,
{
    reveal(begun_for);
    lemma_note_forms(v);
}

proof fn lemma_foreground_run(v: AppModel)
    ensures
        quiet(v.orders, foreground_run(v).orders),
{
    reveal(foreground_run);
    let next = AppModel {
        background: Background { pending_intent: None, ..v.background },
        ..v
    };
    lemma_manual_refresh(next);
    lemma_note_forms(next);
    lemma_forms(next);
    lemma_moving(next, true, 0, Focus::Notes);
    reveal(queued_child_form_opened);
    reveal(reparent_form_opened);
    reveal(note_awaited);
}

proof fn lemma_navigation_arrived(v: AppModel, arrival: NavigationArrival)
    ensures
        navigation_arrived(v, arrival).0.orders == v.orders,
{
    reveal(navigation_arrived);
    reveal(preview_arrived);
    reveal(folder_arrived);
    reveal(researched);
    reveal(reselected);
}

proof fn lemma_change_told(v: AppModel, result: UpdateWorkerResult)
    ensures
        change_told(v, result).0.orders == v.orders,
{
    reveal(change_told);
    reveal(note_saved);
    reveal(saved_applied);
    reveal(saved_selected);
    reveal(researched);
    reveal(reselected);
    reveal(folder_created);
    reveal(child_created);
    reveal(folder_change_told);
    reveal(folder_changed);
    reveal(folder_deleted);
    reveal(note_moved);
    reveal(note_deleted);
}

proof fn lemma_refresh_arrived(v: AppModel, result: WorkerRefreshResult)
    ensures
        refresh_arrived(v, result).orders == v.orders,
{
    reveal(refresh_arrived);
    reveal(live_shown);
    reveal(live_applied);
    reveal(live_tree);
    reveal(live_notes);
    reveal(search_restored);
    reveal(searching);
    reveal(researched);
    reveal(reselected);
    reveal(scroll_restored);
    reveal(focus_returned);
}

/// A step of what is planned begins at most one change, and none while one is under way.
pub proof fn law_steps_keep_changes_apart(v: AppModel, step: Step)
    ensures
        orderly(v, step_taken(v, step).0),
        v.background.update_running ==> quiet(v.orders, step_taken(v, step).0.orders),
{
    match step {
        Step::LoadSelected { persist } => {
            reveal(step_taken);
            lemma_loading(v, persist, true);
        },
        Step::LoadNotes { persist, browse } => {
            reveal(step_taken);
            lemma_loading(v, persist, browse);
        },
        Step::FollowFolder => {
            reveal(step_taken);
            lemma_navigating(v, arbitrary());
        },
        Step::StartNavigation => {
            reveal(step_taken);
            lemma_navigating(v, arbitrary());
        },
        Step::Press(key) => {
            reveal(step_taken);
            lemma_pressed(v, key);
        },
        Step::Begin(intent) => {
            reveal(step_taken);
            lemma_begun_for(v, intent);
        },
        Step::RunForeground => {
            reveal(step_taken);
            lemma_foreground_run(v);
        },
        Step::NavigationArrived(arrival) => {
            reveal(step_taken);
            lemma_navigation_arrived(v, arrival);
        },
        Step::UpdateArrived(result) => {
            reveal(step_taken);
            reveal(update_arrived);
            lemma_change_told(
                AppModel {
                    background: Background { update_running: false, ..v.background },
                    ..v
                },
                result,
            );
        },
        Step::RefreshArrived(result) => {
            reveal(step_taken);
            lemma_refresh_arrived(v, result);
        },
        Step::KeepNote(_) => lemma_small_steps(v, step),
        Step::ForgetNote(_) => lemma_small_steps(v, step),
        Step::Conclude(_) => lemma_small_steps(v, step),
        Step::PrefixWarning(_) => lemma_small_steps(v, step),
        Step::Reselect(_) => lemma_small_steps(v, step),
        _ => {
            reveal(step_taken);
            lemma_keeping(v);
        },
    }
}

// ---------------------------------------------------------------------------
// The selection
// ---------------------------------------------------------------------------

/// While something is being read for the selection, only the latest wish is kept; nothing
/// is ordered for the others.
pub proof fn law_latest_wish_is_read(v: AppModel, a: NavigationRequest, b: NavigationRequest)
    requires
        v.background.navigation_running,
    ensures
        requested(requested(v, a), b) == requested(v, b),
        requested(v, b).background.pending_navigation == Some(b),
        requested(v, b).orders == v.orders,
{
    reveal(requested);
    reveal(navigation_started);
}

/// What was read for the selection, and is not what was asked for last or not what is
/// selected now, changes nothing on the screen.
pub proof fn law_outdated_reading_is_dropped(v: AppModel, result: NavigationWorkerResult)
    requires
        v.background.navigation_running,
        !still_wanted(v, result),
    ensures
        ({
            let (next, effect) = navigation_arrived(v, NavigationArrival::Result(result));
            &&& effect is None
            &&& next == first_do(
                AppModel {
                    background: Background { navigation_running: false, ..v.background },
                    ..v
                },
                Step::StartNavigation,
            )
        }),
{
    reveal(navigation_arrived);
}

/// A reading that another has overtaken is never wanted.
pub proof fn law_overtaken_reading_is_outdated(v: AppModel, result: NavigationWorkerResult)
    requires
        match result {
            NavigationWorkerResult::Preview { generation, .. } => generation
                != v.background.navigation_generation,
            NavigationWorkerResult::Folder { generation, .. } => generation
                != v.background.navigation_generation,
        },
    ensures
        !still_wanted(v, result),
{
}

// ---------------------------------------------------------------------------
// Refreshing
// ---------------------------------------------------------------------------

/// While a refresh is under way, time begins no other.
pub proof fn law_one_refresh_at_a_time(v: AppModel, now: u128)
    requires
        refreshing(v),
    ensures
        at_time(v, now).orders == v.orders,
        manual_refresh(v) == v,
{
    reveal(at_time);
    reveal(manual_refresh);
}

/// Before the interval has passed, and without a refresh that is due, time begins none.
/// Nor does it where refreshes are not wanted.
pub proof fn law_refresh_waits_for_its_interval(v: AppModel, now: u128)
    requires
        !v.prefs.auto_refresh || (!v.background.refresh_due && !interval_passed(v, now)),
    ensures
        at_time(v, now).orders == v.orders,
        at_time(v, now).background.refresh_due == false,
{
    reveal(at_time);
}

/// A refresh that was begun by time is not begun again at that time, and the interval
/// counts from there.
pub proof fn law_interval_counts_from_the_request(v: AppModel, now: u128)
    requires
        !refreshing(v),
        refreshing(at_time(v, now)),
    ensures
        at_time(v, now).background.last_refresh_attempt == now,
        !at_time(v, now).background.refresh_due,
        v.prefs.refresh_interval > 0 ==> !interval_passed(at_time(v, now), now),
{
    reveal(at_time);
    reveal(refresh_started);
}

/// What a refresh read that another has overtaken, or that was given up, changes nothing
/// that is on the screen or at hand.
pub proof fn law_overtaken_refresh_is_dropped(v: AppModel, result: WorkerRefreshResult)
    requires
        match result {
            WorkerRefreshResult::Finished { generation, .. } => generation
                != v.background.refresh_generation,
            WorkerRefreshResult::Cancelled { .. } => true,
            WorkerRefreshResult::Panicked { .. } => true,
        },
    ensures
        refresh_arrived(v, result).data == v.data,
        refresh_arrived(v, result).shown == v.shown,
        refresh_arrived(v, result).search == v.search,
        refresh_arrived(v, result).edit == v.edit,
        refresh_arrived(v, result).popup == v.popup,
{
    reveal(refresh_arrived);
}

/// A refresh that failed leaves the data at hand, the list and the selection as they are.
pub proof fn law_failed_refresh_keeps_data(v: AppModel, failure: crate::jobs::ReadFailure)
    ensures
        ({
            let next = live_shown(v, Err(failure));
            &&& next.data == v.data
            &&& next.search == v.search
            &&& next.edit == v.edit
            &&& next.kept == v.kept
            &&& next.shown.selected_note == v.shown.selected_note
            &&& next.shown.selected_note_index == v.shown.selected_note_index
            &&& next.shown.selected_navigation == v.shown.selected_navigation
            &&& next.shown.data_source is Live <==> v.shown.data_source is Live
        }),
{
    reveal(live_shown);
}

/// After a refresh that read everything, the data counts as fresh, and is what was read.
pub proof fn law_refresh_shows_what_it_read(v: AppModel, read: crate::jobs::LiveRefreshRead)
    ensures
        ({
            let next = live_applied(v, read);
            &&& next.shown.data_source is Live
            &&& next.data.accounts == read.accounts@
            &&& next.data.folders == read.folders@
            &&& next.data.notes == read.notes@
            &&& next.data.navigation == crate::navigation::tree(read.accounts@, read.folders@)
            &&& next.kept.pending_session is None
        }),
{
    reveal(live_applied);
    reveal(live_tree);
    reveal(live_notes);
    reveal(search_restored);
    reveal(searching);
    reveal(researched);
    reveal(reselected);
    reveal(scroll_restored);
    reveal(focus_returned);
}

/// A key that waits for a refresh does nothing but wait: it opens nothing and changes no
/// data. The latest such key counts.
pub proof fn law_waiting_key_only_waits(v: AppModel, key: KeyEvent)
    requires
        key_waits(v, key),
    ensures
        ({
            let (next, effect) = pressed(v, key);
            &&& effect is None
            &&& next.background.pending_intent == intent_of(v, key)
            &&& next.data == v.data
            &&& next.shown == v.shown
            &&& next.edit == v.edit
            &&& next.popup == v.popup
            &&& next.search == v.search
            &&& next.steps == v.steps
        }),
{
    reveal(pressed);
    reveal(intent_queued);
}

// ---------------------------------------------------------------------------
// What fails
// ---------------------------------------------------------------------------

/// Whether a change did not come about.
pub open spec fn failed_change(result: UpdateWorkerResult) -> bool {
    ||| result is FolderCreateFailed
    ||| result is ChildFolderCreateFailed
    ||| result is FolderRenameFailed
    ||| result is FolderReparentFailed
    ||| result is FolderDeleteFailed
    ||| result is Conflict
    ||| result is Failed
    ||| result is Panicked
}

/// A change that did not come about leaves accounts, folders, notes, the selection, the
/// search, the edit and the draft as they are, and another change can be begun.
pub proof fn law_failed_change_keeps_everything(v: AppModel, result: UpdateWorkerResult)
    requires
        v.background.update_running,
        failed_change(result),
    ensures
        ({
            let (next, effect) = update_arrived(v, result);
            &&& effect is None
            &&& next.data == v.data
            &&& next.edit == v.edit
            &&& next.search == v.search
            &&& next.kept == v.kept
            &&& next.shown.selected_note == v.shown.selected_note
            &&& next.shown.selected_note_index == v.shown.selected_note_index
            &&& next.shown.selected_navigation == v.shown.selected_navigation
            &&& next.steps == v.steps
            &&& next.orders == v.orders
            &&& !next.background.update_running
        }),
{
    reveal(update_arrived);
    reveal(change_told);
}

/// Whether a reply tells of trouble with the cache, the session or the draft.
pub open spec fn storing_failed(what: Await, reply: Reply) -> bool {
    &&& reply matches Reply::Done(done) && done is Err
    &&& !(what is ConfigEdited)
}

/// Trouble with storing a note, what the cache lists, the session or the draft is only
/// told: what was changed stays changed, nothing is tried again, and the data does not
/// count as less fresh.
pub proof fn law_storing_trouble_is_only_told(v: AppModel, what: Await, reply: Reply)
    requires
        storing_failed(what, reply),
    ensures
        ({
            let (next, effect) = replied(v, what, reply);
            &&& effect is None
            &&& next.data == v.data
            &&& next.shown == v.shown
            &&& next.edit == v.edit
            &&& next.popup == v.popup
            &&& next.search == v.search
            &&& next.steps == v.steps
            &&& next.orders == v.orders
            &&& next.kept.last_session == v.kept.last_session
            &&& next.kept.last_draft == v.kept.last_draft
        }),
{
    reveal(replied);
    reveal(session_written);
    reveal(draft_written);
    reveal(draft_removed);
    reveal(store_reported);
    reveal(cache_answered);
}

// ---------------------------------------------------------------------------
// Edits
// ---------------------------------------------------------------------------

/// A key that would leave unsaved changes is asked about first: the edit stays, and the
/// client does not quit.
pub proof fn law_unsaved_changes_are_asked_about(v: AppModel, key: KeyEvent)
    requires
        unsaved(v),
        leaves_edit(key),
        v.shown.mode is Normal,
        v.popup is None,
        !v.shown.show_help,
        !(v.search is Editing),
    ensures
        ({
            let next = pressed(v, key).0;
            &&& next.edit == v.edit
            &&& next.shown.should_quit == v.shown.should_quit
            &&& next.popup is Some && next.popup->0 is Discard
        }),
{
    reveal(pressed);
}

/// Unsaved changes that are kept leave the edit as it is, and the editor is open again.
pub proof fn law_kept_changes_stay(v: AppModel, action: crate::workflow::PendingAction, key: KeyEvent)
    requires
        key.code is Esc || key.code == KeyCode::Char('n'),
    ensures
        discard_pressed(v, action, key).edit == v.edit,
        discard_pressed(v, action, key).shown.mode is Insert,
        discard_pressed(v, action, key).popup == v.popup,
        discard_pressed(v, action, key).steps == v.steps,
{
    reveal(discard_pressed);
}

/// While a save is under way, keys in the editor change nothing.
pub proof fn law_editor_waits_for_a_save(v: AppModel, key: KeyEvent)
    requires
        v.background.update_running,
    ensures
        inserted(v, key).0.edit == v.edit,
        inserted(v, key).0.steps == v.steps,
        inserted(v, key).1 is None,
{
    reveal(inserted);
}

/// A document that the notes service cannot keep is not saved: no change is ordered, and
/// the edit stays.
pub proof fn law_lossy_document_is_not_saved(
    v: AppModel,
    mode: crate::workflow::SaveMode,
    features: Vec<crate::model::RichFeature>,
)
    requires
        features@.len() > 0,
    ensures
        ({
            let (next, effect) = document_checked(v, mode, features);
            &&& effect is None
            &&& next.orders == v.orders
            &&& next.edit == v.edit
            &&& next.data == v.data
            &&& !v.background.update_running ==> !next.background.update_running
        }),
{
    reveal(document_checked);
}

/// A note that was saved is in the list as it was saved, where it was there before or its
/// folder is the one that is shown; the edit is over.
pub proof fn law_saved_note_is_listed(v: AppModel, note: Arc<Note>)
    requires
        summary_at(v.data.notes, note.summary.id@) < v.data.notes.len() || (
        crate::app::shown_folder(v) matches Some(id) && id@ == note.summary.folder_id@),
    ensures
        note_saved(v, note).data.notes.contains(note.summary),
        note_saved(v, note).edit is None,
{
    reveal(note_saved);
    reveal(saved_applied);
    reveal(saved_selected);
    reveal(researched);
    reveal(reselected);
    let k = summary_at(v.data.notes, note.summary.id@);
    if k < v.data.notes.len() {
        assert(note_saved(v, note).data.notes[k as int] == note.summary);
    } else {
        assert(note_saved(v, note).data.notes.last() == note.summary);
    }
}

/// Escape closes any popup but the settings while an interval is typed. It orders no
/// change, and unless it keeps unsaved changes, it leaves the edit and the mode as they
/// are.
pub proof fn law_escape_closes_a_popup(v: AppModel, key: KeyEvent)
    requires
        key.code is Esc,
        v.popup is Some,
        !(v.popup->0 matches PopupModel::Settings(s) && s.interval_input is Some),
    ensures
        popup_pressed(v, key).0.popup is None,
        popup_pressed(v, key).0.orders == v.orders,
        popup_pressed(v, key).0.edit == v.edit,
        popup_pressed(v, key).0.data == v.data,
        !(v.popup->0 is Discard) ==> popup_pressed(v, key).0.shown == v.shown,
{
    reveal(popup_pressed);
    reveal(settings_pressed);
    reveal(attachments_pressed);
    reveal(form_pressed);
    reveal(create_pressed);
    reveal(child_pressed);
    reveal(rename_pressed);
    reveal(reparent_pressed);
    reveal(folder_deletion_pressed);
    reveal(conflict_pressed);
    reveal(move_pressed);
    reveal(discard_pressed);
    reveal(link_pressed);
    reveal(deletion_pressed);
    reveal(recovery_pressed);
}

// ---------------------------------------------------------------------------
// Replies
// ---------------------------------------------------------------------------

/// While a reply is awaited, nothing that is planned is done.
pub proof fn law_nothing_happens_before_the_reply(v: AppModel)
    requires
        v.background.awaiting is Some,
    ensures
        advanced(v) == (v, None::<Effect>),
{
    reveal(advanced);
}

} // verus!
