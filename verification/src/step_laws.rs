//! Laws of planned work: what each step asks for, and what the replies and the arrivals
//! change.

use std::sync::Arc;

use vstd::prelude::*;

use crate::app::{selected_item, visible_ids, visible_note, AppModel};
use crate::arrivals::{folder_arrived, navigation_arrived, polled, preview_arrived};
use crate::browsing::{
    cache_browsed, cached_note_shown, fetched_note_shown, navigation_started, notes_loading,
    notes_shown, only_note, requested, researched, selected_loading, store_reported,
};
use crate::jobs::{
    LiveRefreshRead, NavigationWorkerResult, UpdateWorkerResult, WorkerRefreshResult,
};
use crate::model::{
    CachedState, Folder, Note, NoteId, NoteSummary, NotesError, NotesPage,
};
use crate::navigation::{NavigationItem, RefreshContext};
use crate::refresh_laws::asking_for;
use crate::refreshing::{
    bootstrapped, bootstrapping, fine_snapshot_replacing, live_shown, refresh_asked, selected_storing,
    snapshot_replacing,
};
use crate::returning::{draft_removed, draft_written, session_written};
use crate::steps::{
    advanced, concluded, note_forgetting, note_keeping, replied, reselected_at, resumed, step_taken,
};
use crate::text::occurs;
use crate::workflow::{
    message_text, Arrivals, Await, CachedPreviewState, Effect, Message, NavigationArrival, Problem,
    Reply, Step,
};

verus! {

// ---------------------------------------------------------------------------
// Steps
// ---------------------------------------------------------------------------

/// Nothing is done while a reply is awaited or nothing is planned. Else the step that was
/// planned last is done first, and the others stay planned.
pub proof fn law_latest_step_comes_first(v: AppModel, steps: Seq<Step>, step: Step)
    ensures
        v.background.awaiting is Some || v.steps.len() == 0 ==> advanced(v) == (v, None::<Effect>),
        v.background.awaiting is None && v.steps == steps.push(step) ==> advanced(v) == step_taken(
            AppModel { steps, ..v },
            step,
        ),
{
    reveal(advanced);
    if v.steps == steps.push(step) {
        assert(steps.push(step).drop_last() =~= steps);
    }
}

/// The steps that store and forget ask the cache for just that, where there is one, and for
/// nothing where there is none.
pub proof fn law_cache_is_asked_to_keep(v: AppModel, note: Arc<Note>, id: NoteId)
    ensures
        v.prefs.has_cache ==> {
            &&& step_taken(v, Step::KeepNote(note)).1 == Some(Effect::StoreNote(note))
            &&& step_taken(v, Step::ForgetNote(id)).1 == Some(Effect::RemoveNote(id))
            &&& step_taken(v, Step::Snapshot).1 is Some
            &&& step_taken(v, Step::Snapshot).1->0 is ReplaceSnapshot
            &&& step_taken(v, Step::Bootstrap).1 is Some
            &&& step_taken(v, Step::Bootstrap).1->0 is LoadBootstrap
            &&& v.shown.selected_note matches Some(shown) ==> step_taken(v, Step::StoreSelected).1
                == Some(Effect::StoreNote(shown))
            &&& !v.status.is_error ==> step_taken(v, Step::SnapshotUnlessError) == step_taken(
                v,
                Step::Snapshot,
            )
            &&& v.status.is_error ==> step_taken(v, Step::SnapshotUnlessError).1 is None
        },
        !v.prefs.has_cache ==> {
            &&& step_taken(v, Step::KeepNote(note)).1 is None
            &&& step_taken(v, Step::ForgetNote(id)).1 is None
            &&& step_taken(v, Step::Snapshot).1 is None
            &&& step_taken(v, Step::Bootstrap).1 is None
            &&& step_taken(v, Step::StoreSelected).1 is None
        },
{
    reveal(step_taken);
    reveal(note_keeping);
    reveal(note_forgetting);
    reveal(snapshot_replacing);
    reveal(fine_snapshot_replacing);
    reveal(selected_storing);
    reveal(bootstrapping);
}

/// A step that says something only says it; one that ends the client only does that.
pub proof fn law_saying_changes_only_the_message(v: AppModel, message: Message)
    ensures
        step_taken(v, Step::Say(message)).1 is None,
        step_taken(v, Step::Say(message)).0.status.text == message_text(message),
        !step_taken(v, Step::Say(message)).0.status.is_error,
        step_taken(v, Step::Say(message)).0 == (AppModel {
            status: step_taken(v, Step::Say(message)).0.status,
            ..v
        }),
        step_taken(v, Step::Quit).1 is None,
        step_taken(v, Step::Quit).0.shown.should_quit,
        step_taken(v, Step::Quit).0.data == v.data,
        step_taken(v, Step::Quit).0.orders == v.orders,
{
    reveal(step_taken);
}

/// What was done is told, but for a warning of the cache, which is told instead.
pub proof fn law_warning_comes_before_the_message(v: AppModel, message: Message)
    ensures
        ({
            let next = step_taken(v, Step::Conclude(message)).0;
            &&& v.background.cache_warning matches Some(e) ==> occurs(next.status.text, e@)
                && next.background.cache_warning is None
            &&& v.background.cache_warning is None && !occurs(v.status.text, "cache warning"@)
                ==> next.status.text == message_text(message)
            &&& v.background.cache_warning is None && occurs(v.status.text, "cache warning"@)
                ==> next == v
            &&& next.data == v.data
            &&& next.orders == v.orders
            &&& next.steps == v.steps
        }),
{
    reveal(step_taken);
    reveal(concluded);
    if v.background.cache_warning is Some {
        let e = v.background.cache_warning->0@;
        let next = step_taken(v, Step::Conclude(message)).0;
        let n = "Live · cache warning: "@.len() as int;
        assert(next.status.text.subrange(n, n + e.len()) =~= e);
    }
}

/// What was done is told with the name that it was done to.
pub proof fn law_messages_name_what_was_done(name: String)
    ensures
        occurs(message_text(Message::MovedTo(name)), name@),
        occurs(message_text(Message::CreatedFolder(name)), name@),
        occurs(message_text(Message::CreatedSubfolder(name)), name@),
        occurs(message_text(Message::RenamedFolder(name)), name@),
        occurs(message_text(Message::MovedFolder(name)), name@),
{
    let n = "Moved to "@.len() as int;
    assert(message_text(Message::MovedTo(name)).subrange(n, n + name@.len()) =~= name@);
    let c = "Created folder: "@.len() as int;
    assert(message_text(Message::CreatedFolder(name)).subrange(c, c + name@.len()) =~= name@);
    let s = "Created subfolder: "@.len() as int;
    assert(message_text(Message::CreatedSubfolder(name)).subrange(s, s + name@.len()) =~= name@);
    let r = "Renamed folder to "@.len() as int;
    assert(message_text(Message::RenamedFolder(name)).subrange(r, r + name@.len()) =~= name@);
    let m = "Moved folder “"@.len() as int;
    assert(message_text(Message::MovedFolder(name)).subrange(m, m + name@.len()) =~= name@);
}

/// The note that took the place of a deleted one is selected, or the last where there is
/// none behind it, and is shown.
pub proof fn law_place_in_the_list_is_kept(v: AppModel, index: usize)
    ensures
        ({
            let next = step_taken(v, Step::Reselect(index)).0;
            let count = visible_ids(v).len();
            &&& index < count ==> next.shown.selected_note_index == index
            &&& 0 < count <= index && count <= usize::MAX ==> next.shown.selected_note_index
                == count - 1
            &&& count == 0 ==> next.shown.selected_note_index == 0
            &&& next.steps == v.steps.push(Step::LoadSelected { persist: false })
            &&& next.data == v.data
        }),
{
    reveal(step_taken);
    reveal(reselected_at);
}

/// The notes of the line that is selected in the tree are asked for: of the account, or of
/// the folder.
pub proof fn law_notes_of_the_line_are_asked_for(v: AppModel, persist: bool)
    requires
        v.shown.selected_navigation < v.data.navigation.len(),
    ensures
        step_taken(v, Step::LoadNotes { persist, browse: false }).1 == Some(
            Effect::Notes(
                asking_for(
                    match v.data.navigation[v.shown.selected_navigation as int] {
                        NavigationItem::Account { id, .. } => RefreshContext::Account(id),
                        NavigationItem::Folder { id, .. } => RefreshContext::Folder(id),
                    },
                ),
            ),
        ),
{
    reveal(step_taken);
    reveal(notes_loading);
    assert(selected_item(v) == Some(v.data.navigation[v.shown.selected_navigation as int]));
}

/// The note that is selected in the list is asked for: from the cache where there is one and
/// the note is to be kept there or nothing else is at hand, else from the notes service.
pub proof fn law_selected_note_is_asked_for(v: AppModel, persist: bool, summary: NoteSummary)
    requires
        visible_note(v, v.shown.selected_note_index as int) == Some(summary),
    ensures
        ({
            let (next, effect) = step_taken(v, Step::LoadSelected { persist });
            let live = v.shown.data_source is Live;
            &&& v.prefs.has_cache && (persist || !live) ==> effect == Some(
                Effect::LoadNote(summary.id),
            )
            &&& live && !(v.prefs.has_cache && persist) ==> effect == Some(
                Effect::GetNote(summary.id),
            )
            &&& !live && !v.prefs.has_cache ==> effect is None
            &&& next.shown.selected_note matches Some(note) ==> note.summary.id@ == summary.id@
                && v.shown.selected_note == Some(note)
            &&& next.data == v.data
            &&& next.orders == v.orders
        }),
{
    reveal(step_taken);
    reveal(selected_loading);
    reveal(only_note);
}

// ---------------------------------------------------------------------------
// Replies
// ---------------------------------------------------------------------------

/// The note that the cache has is shown from its beginning; what it does not have is not
/// made up.
pub proof fn law_cached_note_is_shown(v: AppModel, id: NoteId, note: Arc<Note>, e: String)
    requires
        v.background.awaiting == Some((Await::CachedNote { id })),
    ensures
        ({
            let found = resumed(v, Reply::Cached(Ok(Some(note)))).0;
            let missing = resumed(v, Reply::Cached(Ok(None))).0;
            let failed = resumed(v, Reply::Cached(Err(e))).0;
            &&& found.shown.selected_note == Some(note)
            &&& found.shown.preview_scroll == 0
            &&& missing.shown.selected_note == v.shown.selected_note
            &&& missing.shown.cached_preview_state == Some(CachedPreviewState::MissingFullNote)
            &&& failed.shown.cached_preview_state == Some(CachedPreviewState::ReadError(e))
            &&& found.background.awaiting is None
            &&& found.data == v.data
        }),
{
    reveal(resumed);
    reveal(replied);
    reveal(cached_note_shown);
    reveal(requested);
    reveal(navigation_started);
}

/// The note that the notes service has is shown from its beginning, and kept in the cache
/// where that was wanted.
pub proof fn law_fetched_note_is_shown(v: AppModel, persist: bool, note: Arc<Note>)
    requires
        v.background.awaiting == Some((Await::FetchedNote { persist })),
    ensures
        ({
            let (next, effect) = resumed(v, Reply::Note(Ok(note)));
            &&& next.shown.selected_note == Some(note)
            &&& next.shown.preview_scroll == 0
            &&& next.data == v.data
            &&& persist && v.prefs.has_cache ==> effect == Some(Effect::StoreNote(note))
            &&& !(persist && v.prefs.has_cache) ==> effect is None
        }),
{
    reveal(resumed);
    reveal(replied);
    reveal(fetched_note_shown);
}

/// The notes that were read are the list, all of them in their order, and their number is
/// told; then the selected one is shown.
pub proof fn law_loaded_notes_are_the_list(v: AppModel, persist: bool, page: NotesPage)
    requires
        v.background.awaiting == Some((Await::NotesLoaded { persist })),
    ensures
        ({
            let next = resumed(v, Reply::Notes(Ok(page))).0;
            &&& next.data.notes == page.items@
            &&& next.data.accounts == v.data.accounts
            &&& next.data.folders == v.data.folders
            &&& next.shown.selected_navigation == v.shown.selected_navigation
            &&& !next.status.is_error
            &&& crate::text::starts_with(
                next.status.text,
                crate::text::decimal(page.total as nat),
            )
            &&& next.steps.last() == (Step::LoadSelected { persist })
        }),
{
    reveal(resumed);
    reveal(replied);
    reveal(notes_shown);
    reveal(researched);
    reveal(crate::browsing::searching);
    reveal(crate::app::reselected);
    let next = resumed(v, Reply::Notes(Ok(page))).0;
    let d = crate::text::decimal(page.total as nat);
    assert(next.status.text.take(d.len() as int) =~= d);
}

/// What a refresh read is shown as it was read.
pub proof fn law_read_is_shown(v: AppModel, read: LiveRefreshRead)
    requires
        v.background.awaiting == Some(Await::LiveRead),
    ensures
        ({
            let next = resumed(v, Reply::Live(Ok(read))).0;
            &&& next.data.accounts == read.accounts@
            &&& next.data.folders == read.folders@
            &&& next.data.notes == read.notes@
            &&& next.data.navigation == crate::navigation::tree(read.accounts@, read.folders@)
            &&& next.shown.data_source is Live
            &&& next.kept.pending_session is None
            &&& next.orders == v.orders
        }),
{
    reveal(resumed);
    reveal(replied);
    reveal(live_shown);
    reveal(crate::refreshing::live_applied);
    reveal(crate::refreshing::live_tree);
    reveal(crate::refreshing::live_notes);
    reveal(crate::returning::search_restored);
    reveal(crate::browsing::searching);
    reveal(researched);
    reveal(crate::app::reselected);
    reveal(crate::returning::scroll_restored);
    reveal(crate::returning::focus_returned);
}

/// A problem is told in the words that it was given, as an error.
pub proof fn law_problem_is_told(v: AppModel, text: String)
    requires
        v.background.awaiting == Some(Await::ProblemWorded) || v.background.awaiting == Some(
            Await::FeatureNamed,
        ),
    ensures
        ({
            let next = resumed(v, Reply::Text(text)).0;
            &&& next.status.is_error
            &&& occurs(next.status.text, text@)
            &&& next.data == v.data
            &&& next.edit == v.edit
            &&& next.orders == v.orders
        }),
{
    reveal(resumed);
    reveal(replied);
    let next = resumed(v, Reply::Text(text)).0;
    if v.background.awaiting == Some(Await::FeatureNamed) {
        let n = "ERROR: "@.len() as int;
        assert(next.status.text.subrange(n, n + text@.len()) =~= text@);
    } else {
        let n = next.status.text.len() - text@.len();
        assert(next.status.text.subrange(n, n + text@.len()) =~= text@);
    }
}

/// What could not be written or stored is told, and changes nothing else that is shown.
pub proof fn law_trouble_with_files_is_told(v: AppModel, what: Await, e: String)
    requires
        v.background.awaiting == Some(what),
        what is SessionWritten || what is DraftWritten || what is DraftRemoved || what
            is NoteStored || what is SnapshotReplaced,
    ensures
        ({
            let next = resumed(v, Reply::Done(Err(e))).0;
            &&& occurs(next.status.text, e@)
            &&& next.data == v.data
            &&& next.shown == v.shown
            &&& next.edit == v.edit
            &&& next.orders == v.orders
            &&& next.kept.last_session == v.kept.last_session
            &&& next.kept.last_draft == v.kept.last_draft
        }),
{
    reveal(resumed);
    reveal(replied);
    reveal(session_written);
    reveal(draft_written);
    reveal(draft_removed);
    reveal(store_reported);
    let next = resumed(v, Reply::Done(Err(e))).0;
    let n = next.status.text.len() - e@.len();
    assert(next.status.text.subrange(n, n + e@.len()) =~= e@);
}

// ---------------------------------------------------------------------------
// Arrivals
// ---------------------------------------------------------------------------

/// What was read for the selection is taken first, then what became of a change, then what
/// a refresh came to; and nothing of it is left out.
pub proof fn law_arrivals_are_taken_in_order(
    v: AppModel,
    navigation: NavigationArrival,
    update: UpdateWorkerResult,
    refresh: WorkerRefreshResult,
)
    ensures
        polled(
            v,
            Arrivals {
                navigation: Some(navigation),
                update: Some(update),
                refresh: Some(refresh),
            },
        ).steps == v.steps + seq![
            Step::RefreshArrived(refresh),
            Step::UpdateArrived(update),
            Step::NavigationArrived(navigation),
        ],
        polled(v, Arrivals { navigation: Some(navigation), update: None, refresh: None }).steps
            == v.steps.push(Step::NavigationArrived(navigation)),
        polled(v, Arrivals { navigation: None, update: Some(update), refresh: None }).steps
            == v.steps.push(Step::UpdateArrived(update)),
        polled(v, Arrivals { navigation: None, update: None, refresh: Some(refresh) }).steps
            == v.steps.push(Step::RefreshArrived(refresh)),
        polled(v, Arrivals { navigation: None, update: None, refresh: None }) == v,
{
    reveal(polled);
    assert(v.steps.push(Step::RefreshArrived(refresh)).push(Step::UpdateArrived(update)).push(
        Step::NavigationArrived(navigation),
    ) =~= v.steps + seq![
        Step::RefreshArrived(refresh),
        Step::UpdateArrived(update),
        Step::NavigationArrived(navigation),
    ]);
}

/// The note that is selected is shown when it has been read for the latest request, and is
/// kept in the cache where there is one.
pub proof fn law_wanted_note_is_shown(v: AppModel, id: NoteId, note: Arc<Note>)
    requires
        v.background.navigation_running,
        crate::app::chosen_id(v) matches Some(chosen) && chosen@ == id@,
    ensures
        ({
            let (next, effect) = navigation_arrived(
                v,
                NavigationArrival::Result(
                    NavigationWorkerResult::Preview {
                        id,
                        generation: v.background.navigation_generation,
                        result: Ok(note),
                    },
                ),
            );
            &&& next.shown.selected_note == Some(note)
            &&& !next.background.navigation_running
            &&& next.data == v.data
            &&& v.prefs.has_cache ==> effect == Some(Effect::StoreNote(note))
            &&& !v.prefs.has_cache ==> effect is None
        }),
{
    reveal(navigation_arrived);
    reveal(preview_arrived);
}

/// The notes of the line that is selected are the list when they have been read for the
/// latest request.
pub proof fn law_wanted_notes_are_listed(v: AppModel, context: RefreshContext, page: NotesPage)
    requires
        v.background.navigation_running,
        v.shown.selected_navigation < v.data.navigation.len(),
        crate::folder_laws::is_line_of(
            v.data.navigation[v.shown.selected_navigation as int],
            context,
        ),
    ensures
        ({
            let next = navigation_arrived(
                v,
                NavigationArrival::Result(
                    NavigationWorkerResult::Folder {
                        context,
                        generation: v.background.navigation_generation,
                        result: Ok(page),
                    },
                ),
            ).0;
            &&& next.data.notes == page.items@
            &&& !next.background.navigation_running
            &&& next.steps.last() == (Step::LoadSelected { persist: true })
        }),
{
    reveal(navigation_arrived);
    reveal(folder_arrived);
    reveal(researched);
    reveal(crate::browsing::searching);
    reveal(crate::app::reselected);
    assert(selected_item(v) == Some(v.data.navigation[v.shown.selected_navigation as int]));
}

// ---------------------------------------------------------------------------
// The cache
// ---------------------------------------------------------------------------

/// What the cache lists is shown to begin with, where it lists anything. Where it could not
/// be read, that is told.
pub proof fn law_cache_is_shown_to_begin_with(v: AppModel, state: CachedState, e: String)
    requires
        v.background.awaiting == Some(Await::Bootstrapped),
    ensures
        ({
            let shown = resumed(v, Reply::Bootstrap(Ok(state))).0;
            let failed = resumed(v, Reply::Bootstrap(Err(e))).0;
            &&& state.accounts@.len() > 0 || state.folders@.len() > 0 || state.notes@.len() > 0 ==> {
                &&& shown.data.accounts == state.accounts@
                &&& shown.data.folders == state.folders@
                &&& shown.data.notes == state.notes@
                &&& shown.data.navigation == crate::navigation::tree(
                    state.accounts@,
                    state.folders@,
                )
                &&& shown.shown.data_source is Cached
            }
            &&& state.accounts@.len() == 0 && state.folders@.len() == 0 && state.notes@.len() == 0
                ==> shown.data == v.data && shown.shown == v.shown
            &&& failed.data == v.data
            &&& failed.status.is_error
            &&& occurs(failed.status.text, e@)
        }),
{
    reveal(resumed);
    reveal(replied);
    reveal(bootstrapped);
    reveal(crate::refreshing::cache_loaded);
    reveal(crate::refreshing::cached_notes);
    reveal(crate::refreshing::cached_tree);
    reveal(crate::returning::context_restored);
    reveal(crate::returning::search_restored);
    reveal(crate::browsing::searching);
    reveal(researched);
    reveal(crate::app::reselected);
    let failed = resumed(v, Reply::Bootstrap(Err(e))).0;
    let n = failed.status.text.len() - e@.len();
    assert(failed.status.text.subrange(n, n + e@.len()) =~= e@);
}

/// The notes that lie in a folder.
pub open spec fn lying_in(notes: Seq<NoteSummary>, folder: Seq<char>) -> Seq<NoteSummary> {
    notes.filter(|n: NoteSummary| n.folder_id@ == folder)
}

/// While browsing, a folder shows at once the notes that the cache lists for it, and is read
/// again in the background.
pub proof fn law_browsed_folder_shows_its_notes(
    v: AppModel,
    state: CachedState,
    account_id: crate::model::AccountId,
    id: crate::model::FolderId,
    name: String,
    depth: usize,
)
    requires
        v.background.awaiting == Some(Await::BrowsedCache),
        crate::keyboard_laws::folder_selected(v, account_id, id, name, depth),
        exists|k: int|
            0 <= k < state.notes@.len() && (#[trigger] state.notes@[k]).folder_id@ == id@,
    ensures
        ({
            let next = resumed(v, Reply::Bootstrap(Ok(state))).0;
            &&& next.data.notes == lying_in(state.notes@, id@)
            &&& next.steps.len() == v.steps.len() + 2
            &&& next.steps[v.steps.len() as int] is FollowFolder
            &&& next.steps.last() == (Step::LoadSelected { persist: true })
        }),
{
    reveal(resumed);
    reveal(replied);
    reveal(cache_browsed);
    reveal(crate::browsing::rows_shown);
    reveal(crate::browsing::notes_replaced);
    reveal(researched);
    reveal(crate::browsing::searching);
    reveal(crate::app::reselected);
    let notes = state.notes@;
    lemma_notes_in(notes, id@, notes.len());
    assert(notes.take(notes.len() as int) =~= notes);
    let k = choose|k: int| 0 <= k < notes.len() && (#[trigger] notes[k]).folder_id@ == id@;
    let folder = id@;
    notes.lemma_filter_contains(|n: NoteSummary| n.folder_id@ == folder, k);
    assert(lying_in(notes, folder).contains(notes[k]));
    assert(selected_item(v) == Some(v.data.navigation[v.shown.selected_navigation as int]));
}

proof fn lemma_notes_in(notes: Seq<NoteSummary>, folder: Seq<char>, n: nat)
    requires
        n <= notes.len(),
    ensures
        crate::browsing::notes_in_upto(notes, folder, n) == lying_in(
            notes.take(n as int),
            folder,
        ),
    decreases n,
{
    reveal(Seq::filter);
    if n > 0 {
        lemma_notes_in(notes, folder, (n - 1) as nat);
        assert(notes.take(n as int).drop_last() =~= notes.take(n - 1));
        assert(notes.take(n as int).last() == notes[n - 1]);
    } else {
        assert(notes.take(0) =~= Seq::<NoteSummary>::empty());
    }
}

/// A new note that was created at once ends its edit, is shown where the list shows its
/// folder, and is kept.
pub proof fn law_created_note_ends_the_edit(v: AppModel, note: Arc<Note>, e: NotesError)
    requires
        v.background.awaiting == Some(Await::NoteCreated),
    ensures
        ({
            let done = resumed(v, Reply::Note(Ok(note))).0;
            let failed = resumed(v, Reply::Note(Err(e))).0;
            &&& done.edit is None
            &&& done.shown.mode is Normal
            &&& done.steps.last() == Step::KeepNote(note)
            &&& failed.edit == v.edit
            &&& failed.shown.mode == v.shown.mode
            &&& failed.status.is_error
            &&& occurs(failed.status.text, e.message@)
        }),
{
    reveal(resumed);
    reveal(replied);
    reveal(crate::editing::note_created);
    reveal(crate::editing::note_saved);
    reveal(crate::editing::saved_applied);
    reveal(crate::editing::saved_selected);
    reveal(researched);
    reveal(crate::browsing::searching);
    reveal(crate::app::reselected);
    let failed = resumed(v, Reply::Note(Err(e))).0;
    let n = failed.status.text.len() - e.message@.len();
    assert(failed.status.text.subrange(n, n + e.message@.len()) =~= e.message@);
}

/// What the cache could not keep or forget is remembered, to be told; else nothing changes.
pub proof fn law_cache_trouble_is_remembered(v: AppModel, what: Await, e: String)
    requires
        v.background.awaiting == Some(what),
        what is NoteKept || what is NoteForgotten,
    ensures
        resumed(v, Reply::Done(Err(e))).0.background.cache_warning == Some(e),
        resumed(v, Reply::Done(Err(e))).0.data == v.data,
        resumed(v, Reply::Done(Err(e))).0.status == v.status,
        resumed(v, Reply::Done(Ok(()))).0.background.cache_warning == v.background.cache_warning,
        resumed(v, Reply::Done(Ok(()))).0.data == v.data,
        resumed(v, Reply::Done(Ok(()))).0.status == v.status,
{
    reveal(resumed);
    reveal(replied);
    reveal(crate::steps::cache_answered);
}

/// A draft is written where the edit has changes that it does not hold yet, and removed
/// where the edit has none; the session is written where it has changed. Neither is where
/// it is not kept.
pub proof fn law_drafts_and_sessions_are_written(v: AppModel, e: crate::edit::EditModel)
    requires
        v.edit == Some(e),
    ensures
        ({
            let (next, effect) = step_taken(v, Step::PersistRecovery);
            let draft = crate::returning::draft_for(v);
            &&& e.dirty && v.prefs.keeps_draft && draft is Some && v.kept.last_draft != draft
                ==> effect == Some(Effect::WriteDraft) && next.kept.writing_draft == draft
            &&& e.dirty && (!v.prefs.keeps_draft || draft is None || v.kept.last_draft == draft)
                ==> effect is None && next == v
            &&& !e.dirty && v.prefs.keeps_draft ==> effect == Some(Effect::RemoveDraft)
            &&& !e.dirty && !v.prefs.keeps_draft ==> effect is None
            &&& !e.dirty ==> next.kept.last_draft is None && next.kept.pending_draft is None
            &&& next.edit == v.edit
            &&& next.data == v.data
        }),
        ({
            let (next, effect) = step_taken(v, Step::PersistSession);
            let session = crate::returning::session_for(v);
            &&& v.prefs.keeps_session && session is Some && v.kept.last_session != session
                ==> effect == Some(Effect::WriteSession) && next.kept.writing_session == session
            &&& !v.prefs.keeps_session || session is None || v.kept.last_session == session
                ==> effect is None && next == v
        }),
        ({
            let (next, effect) = step_taken(v, Step::ClearRecovery);
            &&& v.prefs.keeps_draft ==> effect == Some(Effect::RemoveDraft)
            &&& !v.prefs.keeps_draft ==> effect is None
            &&& next.kept.last_draft is None && next.kept.pending_draft is None
            &&& next.edit == v.edit
        }),
{
    reveal(step_taken);
    reveal(crate::returning::recovery_persisting);
    reveal(crate::returning::recovery_clearing);
    reveal(crate::returning::session_persisting);
}

/// What was written counts as written, and is not written again until it changes.
pub proof fn law_written_counts(v: AppModel)
    ensures
        v.background.awaiting == Some(Await::SessionWritten) ==> {
            let next = resumed(v, Reply::Done(Ok(()))).0;
            &&& next.kept.last_session == v.kept.writing_session
            &&& next.kept.writing_session is None
            &&& next.status == v.status
        },
        v.background.awaiting == Some(Await::DraftWritten) ==> {
            let next = resumed(v, Reply::Done(Ok(()))).0;
            &&& next.kept.last_draft == v.kept.writing_draft
            &&& next.kept.writing_draft is None
            &&& next.kept.pending_draft is None
            &&& next.status == v.status
        },
{
    reveal(resumed);
    reveal(replied);
    reveal(session_written);
    reveal(draft_written);
}

/// The remaining steps hand on to what they are for: keys are pressed, wishes begun, what
/// has arrived is taken, and a problem or a refused part of rich text is put into words.
pub proof fn law_steps_hand_on(
    v: AppModel,
    key: crate::keys::KeyEvent,
    intent: crate::workflow::PendingForegroundIntent,
    problem: Problem,
    feature: crate::model::RichFeature,
    arrival: NavigationArrival,
    update: UpdateWorkerResult,
    refresh: WorkerRefreshResult,
)
    ensures
        step_taken(v, Step::Press(key)) == crate::keyboard::pressed(v, key),
        step_taken(v, Step::Begin(intent)).0 == crate::keyboard::begun_for(v, intent),
        step_taken(v, Step::RunForeground).0 == crate::keyboard::foreground_run(v),
        step_taken(v, Step::Report(problem)).1 == Some(Effect::Describe(problem)),
        step_taken(v, Step::RefuseFeature(feature)).1 == Some(Effect::NameFeature(feature)),
        step_taken(v, Step::NavigationArrived(arrival)) == navigation_arrived(v, arrival),
        step_taken(v, Step::UpdateArrived(update)) == crate::arrivals::update_arrived(v, update),
        step_taken(v, Step::RefreshArrived(refresh)).0 == crate::refreshing::refresh_arrived(
            v,
            refresh,
        ),
        step_taken(v, Step::RestoreView).0 == crate::refreshing::view_restored(v),
        step_taken(v, Step::StartNavigation).0 == navigation_started(v),
        step_taken(v, Step::FollowFolder).0 == crate::browsing::folder_followed(v),
        step_taken(v, Step::Refresh) == refresh_asked(v),
{
    reveal(step_taken);
}

/// A step that reads everything anew asks for what is shown, counts as the latest refresh,
/// and begins the interval again.
pub proof fn law_reading_anew_asks_for_what_is_shown(v: AppModel)
    requires
        v.shown.selected_navigation < v.data.navigation.len(),
    ensures
        ({
            let (next, effect) = step_taken(v, Step::Refresh);
            &&& effect matches Some(Effect::ReadLive(read)) && crate::refresh_laws::reads_selection(
                read,
                v,
            )
            &&& next.background.last_refresh_attempt == v.background.now
            &&& !next.background.refresh_due
            &&& next.background.refresh_generation != v.background.refresh_generation
            &&& next.data == v.data
        }),
{
    reveal(step_taken);
    reveal(refresh_asked);
    assert(v.background.refresh_generation.wrapping_add(1) != v.background.refresh_generation);
    assert(selected_item(v) == Some(v.data.navigation[v.shown.selected_navigation as int]));
}

/// A warning of the cache in the message gets what was done put in front of it; another
/// message stays.
pub proof fn law_done_is_put_before_a_warning(v: AppModel, message: Message)
    ensures
        ({
            let next = step_taken(v, Step::PrefixWarning(message)).0;
            let warned = crate::text::starts_with(v.status.text, "Live · cache warning:"@);
            &&& warned ==> crate::text::starts_with(next.status.text, message_text(message))
                && occurs(next.status.text, v.status.text)
            &&& !warned ==> next == v
        }),
{
    reveal(step_taken);
    reveal(crate::steps::warning_prefixed);
    let next = step_taken(v, Step::PrefixWarning(message)).0;
    if crate::text::starts_with(v.status.text, "Live · cache warning:"@) {
        let m = message_text(message);
        assert(next.status.text.take(m.len() as int) =~= m);
        let n = next.status.text.len() - v.status.text.len();
        assert(next.status.text.subrange(n, n + v.status.text.len()) =~= v.status.text);
    }
}

} // verus!
