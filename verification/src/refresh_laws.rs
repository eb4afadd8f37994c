//! Laws of refreshing: when a refresh begins, what it reads, and what it finds.

use std::sync::Arc;

use vstd::prelude::*;

use crate::app::{chosen_id, selected_item, AppModel};
use crate::jobs::{
    read_answered, read_begun, read_call, refresh_report, LiveRead, LiveStage, ReadCall, ReadFailure,
    ReadReply, ReadStep, WorkerRefreshResult,
};
use crate::keyboard::pressed;
use crate::keys::{KeyCode, KeyEvent};
use crate::model::{
    lemma_account_at, lemma_summary_at, summary_at, Account, AccountId, Folder, FolderId, Note,
    NoteId, NoteSummary, NotesError, NotesPage, NotesQuery,
};
use crate::navigation::{
    item_at, lemma_first_index_fits, tree, wanted, NavigationItem, RefreshContext, Wanted,
};
use crate::refreshing::{at_time, initial_refresh, manual_refresh, refresh_started};
use crate::session::SessionState;
use crate::workflow::{OrderModel, PeriodicRefreshState, RefreshOrigin};

verus! {

// ---------------------------------------------------------------------------
// When a refresh begins
// ---------------------------------------------------------------------------

/// Whether a read asks for the line that is selected in the tree, and for the note that is
/// selected beside it.
pub open spec fn reads_selection(read: LiveRead, v: AppModel) -> bool {
    &&& read.stage is Accounts
    &&& read.session == v.kept.pending_session
    &&& read.preferred == chosen_id(v)
    &&& match v.data.navigation[v.shown.selected_navigation as int] {
        NavigationItem::Account { id, .. } => read.context == Some(RefreshContext::Account(id)),
        NavigationItem::Folder { id, .. } => read.context == Some(RefreshContext::Folder(id)),
    }
}

/// Whether exactly one refresh was begun, for the selection, and nothing else was ordered
/// or changed.
pub open spec fn began_one_refresh(
    before: AppModel,
    after: AppModel,
    origin: RefreshOrigin,
) -> bool {
    &&& after.orders.len() == before.orders.len() + 1
    &&& after.orders.take(before.orders.len() as int) == before.orders
    &&& after.orders.last() matches OrderModel::Refresh(job) && {
        &&& reads_selection(job.read, before)
        &&& after.background.periodic_refresh == (PeriodicRefreshState::InFlight {
            origin,
            generation: job.generation,
            cancel_requested: false,
        })
        &&& after.background.refresh_generation == job.generation
        &&& job.generation != before.background.refresh_generation
    }
    &&& !after.background.refresh_due
    &&& !after.background.update_running
    &&& after.background.pending_intent == before.background.pending_intent
    &&& after.data == before.data
    &&& after.shown == before.shown
    &&& after.edit == before.edit
    &&& after.popup == before.popup
    &&& after.search == before.search
    &&& after.kept == before.kept
    &&& after.prefs == before.prefs
    &&& after.steps == before.steps
}

/// Once the interval has passed, or a refresh has been due since, time begins exactly one:
/// where refreshes come by themselves, neither a refresh nor a change is under way, nothing
/// is edited, no popup, help or search line is open, and a line of the tree is selected.
/// Which pane has the focus makes no difference.
pub proof fn law_time_begins_one_refresh(v: AppModel, now: u128)
    requires
        v.prefs.auto_refresh,
        v.background.refresh_due || now >= v.background.last_refresh_attempt
            + v.prefs.refresh_interval * 1_000_000_000,
        v.background.periodic_refresh is Idle,
        !v.background.update_running,
        v.shown.mode is Normal,
        v.edit is None,
        v.popup is None,
        !v.shown.show_help,
        !(v.search is Editing),
        v.shown.selected_navigation < v.data.navigation.len(),
    ensures
        began_one_refresh(v, at_time(v, now), RefreshOrigin::Automatic),
        at_time(v, now).background.last_refresh_attempt == now,
        at_time(v, now).background.now == now,
        at_time(at_time(v, now), now).orders == at_time(v, now).orders,
{
    reveal(at_time);
    reveal(refresh_started);
    lemma_next_generation(v.background.refresh_generation);
    let next = at_time(v, now);
    assert(next.orders.take(v.orders.len() as int) =~= v.orders);
    assert(selected_item(v) == Some(v.data.navigation[v.shown.selected_navigation as int]));
}

proof fn lemma_next_generation(g: u64)
    ensures
        g.wrapping_add(1) != g,
{
}

/// Time begins no refresh where refreshes do not come by themselves, none is due and the
/// interval has not passed, one is under way, a change is, something is edited, or a popup,
/// the help or the search line is open.
pub proof fn law_time_begins_no_other_refresh(v: AppModel, now: u128)
    requires
        ({
            ||| !v.prefs.auto_refresh
            ||| !v.background.refresh_due && now < v.background.last_refresh_attempt
                + v.prefs.refresh_interval * 1_000_000_000 && v.prefs.refresh_interval > 0
            ||| v.background.periodic_refresh is InFlight
            ||| v.background.update_running
            ||| v.shown.mode is Insert
            ||| v.edit is Some
            ||| v.popup is Some
            ||| v.shown.show_help
            ||| v.search is Editing
        }),
    ensures
        at_time(v, now).orders == v.orders,
        at_time(v, now).background.periodic_refresh == v.background.periodic_refresh,
        at_time(v, now).background.last_refresh_attempt == v.background.last_refresh_attempt,
        at_time(v, now).background.now == now,
        at_time(v, now).data == v.data,
        at_time(v, now).shown == v.shown,
        at_time(v, now).status == v.status,
{
    reveal(at_time);
    if !v.background.refresh_due && now < v.background.last_refresh_attempt
        + v.prefs.refresh_interval * 1_000_000_000 && v.prefs.refresh_interval > 0 {
        assert(v.prefs.refresh_interval * 1_000_000_000 > 0);
    }
}

/// A refresh that became due while it could not begin is not forgotten: it begins as soon
/// as nothing stands in its way, however little time has passed since.
pub proof fn law_due_refresh_is_not_forgotten(v: AppModel, now: u128)
    requires
        v.prefs.auto_refresh,
        now >= v.background.last_refresh_attempt + v.prefs.refresh_interval * 1_000_000_000,
        v.edit is Some || v.popup is Some || v.shown.show_help || v.background.update_running
            || v.search is Editing || v.shown.mode is Insert || v.background.periodic_refresh
            is InFlight,
    ensures
        at_time(v, now).background.refresh_due,
{
    reveal(at_time);
}

/// The key for it begins a refresh at once, whatever the interval and whichever pane has
/// the focus.
pub proof fn law_key_begins_a_refresh(v: AppModel, key: KeyEvent)
    requires
        key.code == KeyCode::Char('r'),
        v.background.periodic_refresh is Idle,
        !v.background.update_running,
        v.shown.mode is Normal,
        v.edit is None,
        v.popup is None,
        !v.shown.show_help,
        !(v.search is Editing),
        v.shown.selected_navigation < v.data.navigation.len(),
    ensures
        pressed(v, key).1 is None,
        began_one_refresh(v, pressed(v, key).0, RefreshOrigin::Manual),
        pressed(v, key).0.background.last_refresh_attempt == v.background.now,
{
    reveal(pressed);
    reveal(crate::keyboard::browsed);
    reveal(manual_refresh);
    reveal(refresh_started);
    lemma_next_generation(v.background.refresh_generation);
    let next = pressed(v, key).0;
    assert(next.orders.take(v.orders.len() as int) =~= v.orders);
    assert(selected_item(v) == Some(v.data.navigation[v.shown.selected_navigation as int]));
}

/// A client that starts begins a refresh of its own, but for one that is at work already.
pub proof fn law_start_begins_a_refresh(v: AppModel)
    requires
        v.shown.selected_navigation < v.data.navigation.len(),
    ensures
        v.background.periodic_refresh is Idle && !v.background.update_running ==> {
            &&& began_one_refresh(v, initial_refresh(v), RefreshOrigin::Startup)
            &&& initial_refresh(v).background.last_refresh_attempt == v.background.now
        },
        v.background.periodic_refresh is InFlight || v.background.update_running
            ==> initial_refresh(v) == v,
{
    reveal(initial_refresh);
    reveal(refresh_started);
    lemma_next_generation(v.background.refresh_generation);
    let next = initial_refresh(v);
    if v.background.periodic_refresh is Idle && !v.background.update_running {
        assert(next.orders.take(v.orders.len() as int) =~= v.orders);
    }
    assert(selected_item(v) == Some(v.data.navigation[v.shown.selected_navigation as int]));
}

// ---------------------------------------------------------------------------
// What a refresh reads
// ---------------------------------------------------------------------------

/// A refresh reads the accounts, then the folders, then the notes of one account or folder,
/// then one note, and asks for nothing else.
pub proof fn law_refresh_asks_in_order(
    context: Option<RefreshContext>,
    session: Option<SessionState>,
    preferred: Option<NoteId>,
    read: LiveRead,
    reply: ReadReply,
)
    ensures
        read_call(read_begun(context, session, preferred)) is Accounts,
        read_answered(read, reply) matches ReadStep::Again(next) ==> {
            &&& read_call(read) is Accounts ==> read_call(next) is Folders
            &&& read_call(read) is Folders ==> read_call(next) is Notes
            &&& read_call(read) is Notes ==> read_call(next) is Note
            &&& !(read_call(read) is Note)
            &&& next.context == read.context
            &&& next.session == read.session
            &&& next.preferred == read.preferred
        },
{
}

/// Where the service fails, the refresh ends, and tells why.
pub proof fn law_refresh_ends_with_the_failure(read: LiveRead, error: NotesError)
    ensures
        read_call(read) is Accounts ==> read_answered(read, ReadReply::Accounts(Err(error)))
            == ReadStep::Done(Err(ReadFailure::Service(error))),
        read_call(read) is Folders ==> read_answered(read, ReadReply::Folders(Err(error)))
            == ReadStep::Done(Err(ReadFailure::Service(error))),
        read_call(read) is Notes ==> read_answered(read, ReadReply::Notes(Err(error)))
            == ReadStep::Done(Err(ReadFailure::Service(error))),
        read_call(read) is Note ==> read_answered(read, ReadReply::Note(Err(error)))
            == ReadStep::Done(Err(ReadFailure::Service(error))),
{
}

/// What a refresh found is what the service listed for it: its accounts, its folders, the
/// notes of the account or folder that it had asked for, and the note that it had asked
/// for.
pub proof fn law_refresh_finds_what_was_listed(
    read: LiveRead,
    accounts: Vec<Account>,
    folders: Vec<Folder>,
    page: NotesPage,
    note: Arc<Note>,
)
    requires
        read.stage is Accounts,
    ensures
        ({
            let first = read_answered(read, ReadReply::Accounts(Ok(accounts)));
            &&& first matches ReadStep::Again(with_accounts) && {
                let second = read_answered(with_accounts, ReadReply::Folders(Ok(folders)));
                second matches ReadStep::Again(with_folders) ==> {
                    let third = read_answered(with_folders, ReadReply::Notes(Ok(page)));
                    &&& page.items@.len() == 0 ==> (third matches ReadStep::Done(Ok(found)) && {
                        &&& found.accounts == accounts
                        &&& found.folders == folders
                        &&& found.notes == page.items
                        &&& found.total == page.total
                        &&& found.selected_note is None
                        &&& read_call(with_folders) == ReadCall::Notes(asking_for(found.context))
                    })
                    &&& page.items@.len() > 0 ==> (third matches ReadStep::Again(with_notes)
                        && read_answered(with_notes, ReadReply::Note(Ok(note))) matches ReadStep::Done(
                        Ok(found),
                    ) && {
                        &&& found.accounts == accounts
                        &&& found.folders == folders
                        &&& found.notes == page.items
                        &&& found.total == page.total
                        &&& found.selected_note == Some(note)
                        &&& read_call(with_folders) == ReadCall::Notes(asking_for(found.context))
                    })
                }
            }
        }),
{
    let with_accounts = read_answered(read, ReadReply::Accounts(Ok(accounts)))->Again_0;
    assert(with_accounts.stage == (LiveStage::Folders { accounts }));
    let second = read_answered(with_accounts, ReadReply::Folders(Ok(folders)));
    if second is Again {
        let third = read_answered(second->Again_0, ReadReply::Notes(Ok(page)));
        if page.items@.len() > 0 {
            assert(third is Again);
        }
    }
}

/// The query for the notes of an account, or of a folder, and of nothing else.
pub open spec fn asking_for(context: RefreshContext) -> NotesQuery {
    NotesQuery {
        account_id: match context {
            RefreshContext::Account(id) => Some(id),
            RefreshContext::Folder(_) => None,
        },
        folder_id: match context {
            RefreshContext::Folder(id) => Some(id),
            RefreshContext::Account(_) => None,
        },
    }
}

/// Without a session, a refresh reads the account or folder that was shown. Where nothing
/// was shown, it reads the first folder of the tree, or the first account where there are no
/// folders, and finds nothing to show where there are no accounts either.
pub proof fn law_refresh_reads_what_was_shown(
    read: LiveRead,
    accounts: Vec<Account>,
    folders: Vec<Folder>,
)
    requires
        read.stage == (LiveStage::Folders { accounts }),
        read.session is None,
        tree(accounts@, folders@).len() <= usize::MAX,
    ensures
        ({
            let items = tree(accounts@, folders@);
            let next = read_answered(read, ReadReply::Folders(Ok(folders)));
            &&& read.context matches Some(context) ==> (next matches ReadStep::Again(r)
                && read_call(r) == ReadCall::Notes(asking_for(context)))
            &&& read.context is None && items.len() == 0 ==> next == ReadStep::Done(
                Err(ReadFailure::NothingToShow),
            )
            &&& read.context is None && items.len() > 0 ==> (next matches ReadStep::Again(r) && ({
                ||| exists|k: int|
                    0 <= k < items.len() && is_first_folder(items, k) && read_call(r)
                        == ReadCall::Notes(asking_for(RefreshContext::Folder(items[k]->Folder_id)))
                ||| (forall|k: int| 0 <= k < items.len() ==> (#[trigger] items[k]) is Account)
                    && read_call(r) == ReadCall::Notes(
                    asking_for(RefreshContext::Account(items[0]->Account_id)),
                )
            }))
        }),
{
    let items = tree(accounts@, folders@);
    let fits = |item: NavigationItem| wanted(Wanted::AnyFolder, item);
    lemma_first_index_fits(items, fits);
    let k = item_at(items, Wanted::AnyFolder) as int;
    let next = read_answered(read, ReadReply::Folders(Ok(folders)));
    if read.context is None && items.len() > 0 {
        if k < items.len() {
            assert(fits(items[k]));
            assert forall|i: int| 0 <= i < k implies (#[trigger] items[i]) is Account by {
                assert(!fits(items[i]));
            }
            assert(is_first_folder(items, k));
        } else {
            assert forall|i: int| 0 <= i < items.len() implies (#[trigger] items[i]) is Account by {
                assert(!fits(items[i]));
            }
        }
    }
}

/// Whether the line at a position is a folder, and none before it is.
pub open spec fn is_first_folder(items: Seq<NavigationItem>, k: int) -> bool {
    &&& items[k] is Folder
    &&& forall|i: int| 0 <= i < k ==> (#[trigger] items[i]) is Account
}

/// Whether an account is listed.
pub open spec fn lists_account(accounts: Seq<Account>, id: AccountId) -> bool {
    exists|k: int| 0 <= k < accounts.len() && (#[trigger] accounts[k]).id@ == id@
}

/// Whether a folder is listed in an account.
pub open spec fn lists_folder(folders: Seq<Folder>, account: AccountId, id: FolderId) -> bool {
    exists|k: int|
        0 <= k < folders.len() && (#[trigger] folders[k]).id@ == id@ && folders[k].account_id@
            == account@
}

/// With a session whose account is listed, a refresh reads its folder, where that is listed
/// in the account. A session whose account is gone is passed over.
pub proof fn law_refresh_follows_the_session(
    read: LiveRead,
    accounts: Vec<Account>,
    folders: Vec<Folder>,
    session: SessionState,
    account: AccountId,
    folder: FolderId,
)
    requires
        read.stage == (LiveStage::Folders { accounts }),
        read.session == Some(session),
        session.account_id == Some(account),
        session.folder_id == Some(folder),
    ensures
        ({
            let next = read_answered(read, ReadReply::Folders(Ok(folders)));
            &&& lists_account(accounts@, account) && lists_folder(folders@, account, folder) ==> (
            next matches ReadStep::Again(r) && r.stage->from_session && read_call(r)
                == ReadCall::Notes(asking_for(RefreshContext::Folder(folder))))
            &&& !lists_account(accounts@, account) && read.context is Some ==> (
            next matches ReadStep::Again(r) && !r.stage->from_session && read_call(r)
                == ReadCall::Notes(asking_for(read.context->0)))
        }),
{
    lemma_account_at(accounts@, account@);
}

/// A refresh opens the note that was selected, where it is among the notes that were
/// listed; else, or where none was selected and the session named none, the first of them.
pub proof fn law_refresh_opens_the_selected_note(
    read: LiveRead,
    page: NotesPage,
)
    requires
        read_call(read) is Notes,
    ensures
        ({
            let items = page.items@;
            let next = read_answered(read, ReadReply::Notes(Ok(page)));
            &&& items.len() > 0 ==> (next matches ReadStep::Again(r) && read_call(
                r,
            ) matches ReadCall::Note(id) && {
                &&& lists(items, id)
                &&& read.preferred matches Some(wish) ==> (lists(items, wish) ==> id == wish)
                &&& read.preferred matches Some(wish) ==> (!lists(items, wish) ==> id
                    == items[0].id)
                &&& read.preferred is None && read.session is None ==> id == items[0].id
                &&& read.preferred is None && read.stage->from_session ==> (
                read.session matches Some(s) ==> (s.note_id matches Some(wish) ==> (lists(
                    items,
                    wish,
                ) ==> id == wish)))
            })
            &&& items.len() == 0 ==> next is Done
        }),
{
    let items = page.items@;
    assert forall|wish: NoteId| lists(items, wish) == (summary_at(items, wish@)
        < items.len()) by {
        lemma_summary_at(items, wish@);
    }
    let next = read_answered(read, ReadReply::Notes(Ok(page)));
    if items.len() > 0 {
        assert(items[0].id@ == items[0].id@);
        assert(lists(items, items[0].id));
    }
}

/// Whether a note is in a list.
pub open spec fn lists(items: Seq<NoteSummary>, id: NoteId) -> bool {
    exists|k: int| 0 <= k < items.len() && (#[trigger] items[k]).id@ == id@
}

/// A refresh that was cancelled reports only that; any other reports what it came to. Both
/// carry the number that they were begun with.
pub proof fn law_refresh_reports_its_number(
    generation: u64,
    result: Result<crate::jobs::LiveRefreshRead, ReadFailure>,
)
    ensures
        ({
            let cancelled = result matches Err(ReadFailure::Service(e)) && e.cancelled;
            &&& cancelled ==> refresh_report(generation, result) == (
            WorkerRefreshResult::Cancelled { generation })
            &&& !cancelled ==> refresh_report(generation, result) == (
            WorkerRefreshResult::Finished { generation, result })
        }),
{
}

} // verus!
