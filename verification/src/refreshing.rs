//! Reading everything anew: from the cache at the start, from the notes service at once
//! or in the background.

use std::sync::Arc;

use vstd::prelude::*;

use crate::app::{
    chosen_id, complain, first_do, first_do2, first_do3, reselected, say, selected_item,
    shown_context, with_error, with_order, App, AppModel, Background, DataModel, KeptModel, Shown,
};
use crate::browsing::{ask, count_text, go_on, refreshing, researched};
use crate::jobs::{
    read_begun, LiveRead, LiveRefreshRead, ReadFailure, RefreshJob, WorkerRefreshResult,
};
use crate::keys::{KeyCode, KeyEvent};
use crate::model::{clone_summaries, CachedState, NoteId};
use crate::navigation::{
    build_navigation, context_line, default_line, default_navigation_index, find_context_line,
    tree, NavigationItem, RefreshContext,
};
use crate::returning::{
    context_restored, focus_returned, note_of_session, pane_is_bare, scroll_restored,
    search_restored,
};
use crate::rows::{rows_by_folder, RowCache};
use crate::text::{cat, decimal_text, owned};
use crate::workflow::{
    AppMode, Await, DataSourceState, Effect, Focus, Order, OrderModel, PendingForegroundIntent,
    PeriodicRefreshState, Problem, RefreshOrigin, SearchState, Step,
};

verus! {

// ---------------------------------------------------------------------------
// From the cache
// ---------------------------------------------------------------------------

#[verifier::opaque]
pub open spec fn bootstrapping(v: AppModel) -> (AppModel, Option<Effect>) {
    if v.prefs.has_cache {
        ask(v, Await::Bootstrapped, Effect::LoadBootstrap)
    } else {
        go_on(v)
    }
}

/// The client with the accounts and folders of the cache, at the line of the session.
#[verifier::opaque]
pub open spec fn cached_tree(v: AppModel, state: CachedState) -> AppModel {
    let items = tree(state.accounts@, state.folders@);
    context_restored(
        AppModel {
            data: DataModel {
                accounts: state.accounts@,
                folders: state.folders@,
                navigation: items,
                ..v.data
            },
            shown: Shown { selected_navigation: default_line(items), ..v.shown },
            ..v
        },
    )
}

/// The client with the notes of the cache, in the search of the session.
#[verifier::opaque]
pub open spec fn cached_notes(v: AppModel, state: CachedState) -> AppModel {
    let next = AppModel {
        data: DataModel { rows: rows_by_folder(state.notes@), notes: state.notes@, ..v.data },
        ..v
    };
    let mid = search_restored(next, next.kept.pending_session);
    reselected(mid, note_of_session(mid))
}

/// The client with what the cache lists. Nothing of it counts as fresh.
#[verifier::opaque]
pub open spec fn cache_loaded(v: AppModel, state: CachedState) -> AppModel {
    let next = cached_notes(cached_tree(v, state), state);
    first_do2(
        say(
            AppModel {
                shown: Shown {
                    selected_note: None,
                    cached_preview_state: None,
                    data_source: DataSourceState::Cached,
                    ..next.shown
                },
                ..next
            },
            "Cached data"@,
        ),
        Step::LoadSelected { persist: true },
        Step::RestoreView,
    )
}

/// What the cache lists, where it lists anything.
#[verifier::opaque]
pub open spec fn bootstrapped(v: AppModel, listed: Result<CachedState, String>) -> AppModel {
    match listed {
        Ok(state) => if state.accounts@.len() > 0 || state.folders@.len() > 0 || state.notes@.len()
            > 0 {
            cache_loaded(v, state)
        } else {
            v
        },
        Err(e) => complain(v, "Cache unavailable: "@ + e@),
    }
}

/// The client at the scroll position and the pane of the session.
#[verifier::opaque]
pub open spec fn view_restored(v: AppModel) -> AppModel {
    let next = scroll_restored(v);
    if pane_is_bare(next) {
        first_do(focus_returned(next), Step::PersistSession)
    } else {
        focus_returned(next)
    }
}

impl App {
    pub fn bootstrap_cache(&mut self)
        ensures
            final(self)@ == first_do(old(self)@, Step::Bootstrap),
            old(self).wf() ==> final(self).wf(),
    {
        self.first_do(Step::Bootstrap);
    }

    pub fn begin_bootstrap(&mut self) -> (r: Option<Effect>)
        ensures
            (final(self)@, r) == bootstrapping(old(self)@),
            old(self).wf() ==> final(self).wf(),
    {
        proof {
            reveal(bootstrapping);
        }
        if self.prefs.has_cache {
            self.ask(Await::Bootstrapped, Effect::LoadBootstrap)
        } else {
            None
        }
    }

    fn show_cached_tree(
        &mut self,
        accounts: Vec<crate::model::Account>,
        folders: Vec<crate::model::Folder>,
        state: Ghost<CachedState>,
    )
        requires
            accounts@ == state@.accounts@,
            folders@ == state@.folders@,
        ensures
            final(self)@ == cached_tree(old(self)@, state@),
            old(self).wf() ==> final(self).wf(),
    {
        proof {
            reveal(cached_tree);
        }
        self.data.accounts = accounts;
        self.data.folders = folders;
        self.data.navigation = build_navigation(&self.data.accounts, &self.data.folders);
        self.shown.selected_navigation = default_navigation_index(&self.data.navigation);
        self.restore_pending_session_context();
    }

    fn show_cached_notes(
        &mut self,
        notes: Vec<crate::model::NoteSummary>,
        state: Ghost<CachedState>,
    )
        requires
            notes@ == state@.notes@,
        ensures
            final(self)@ == cached_notes(old(self)@, state@),
            old(self).wf() ==> final(self).wf(),
    {
        proof {
            reveal(cached_notes);
        }
        self.data.rows = RowCache::from_notes(&notes);
        self.data.notes = notes;
        let session = match &self.kept.pending_session {
            Some(s) => Some(s.clone()),
            None => None,
        };
        self.restore_session_search(&session);
        let wish = self.session_note_for_current_context();
        self.restore_visible_selection(&wish);
    }

    /// Shows what the cache lists. Nothing of it counts as fresh.
    pub fn load_cached_state(&mut self, state: CachedState)
        ensures
            final(self)@ == cache_loaded(old(self)@, state),
            old(self).wf() ==> final(self).wf(),
    {
        proof {
            reveal(cache_loaded);
        }
        let ghost whole = state;
        let CachedState { accounts, folders, notes } = state;
        self.show_cached_tree(accounts, folders, Ghost(whole));
        self.show_cached_notes(notes, Ghost(whole));
        self.shown.selected_note = None;
        self.shown.cached_preview_state = None;
        self.shown.data_source = DataSourceState::Cached;
        self.say(owned("Cached data"));
        self.first_do2(Step::LoadSelected { persist: true }, Step::RestoreView);
    }

    pub fn end_bootstrap(&mut self, listed: Result<CachedState, String>)
        ensures
            final(self)@ == bootstrapped(old(self)@, listed),
            old(self).wf() ==> final(self).wf(),
    {
        proof {
            reveal(bootstrapped);
        }
        match listed {
            Ok(state) => {
                if state.accounts.len() > 0 || state.folders.len() > 0 || state.notes.len() > 0 {
                    self.load_cached_state(state);
                }
            },
            Err(e) => self.complain(cat("Cache unavailable: ", e.as_str())),
        }
    }

    pub fn restore_view(&mut self)
        ensures
            final(self)@ == view_restored(old(self)@),
            old(self).wf() ==> final(self).wf(),
    {
        proof {
            reveal(view_restored);
        }
        self.restore_session_scroll_if_exact();
        if self.restore_session_focus() {
            self.first_do(Step::PersistSession);
        }
    }
}

// ---------------------------------------------------------------------------
// From the notes service, at once
// ---------------------------------------------------------------------------

/// A refresh is begun at once.
#[verifier::opaque]
pub open spec fn refresh_asked(v: AppModel) -> (AppModel, Option<Effect>) {
    ask(
        say(
            AppModel {
                background: Background {
                    last_refresh_attempt: v.background.now,
                    refresh_due: false,
                    refresh_generation: v.background.refresh_generation.wrapping_add(1),
                    ..v.background
                },
                ..v
            },
            "Loading…"@,
        ),
        Await::LiveRead,
        Effect::ReadLive(read_begun(shown_context(v), v.kept.pending_session, chosen_id(v))),
    )
}

/// The line of what was read: its own, else the first folder where there were no lines
/// before, else the line that was selected, as far as there still is one.
pub open spec fn line_to_show(
    items: Seq<NavigationItem>,
    context: RefreshContext,
    before: usize,
    were_none: bool,
) -> usize {
    match context_line(items, context) {
        Some(line) => line,
        None => if were_none {
            default_line(items)
        } else if before < items.len() {
            before
        } else if items.len() == 0 {
            0
        } else {
            (items.len() - 1) as usize
        },
    }
}

/// The client with accounts and folders that were read.
#[verifier::opaque]
pub open spec fn live_tree(v: AppModel, read: LiveRefreshRead) -> AppModel {
    let items = tree(read.accounts@, read.folders@);
    AppModel {
        data: DataModel {
            accounts: read.accounts@,
            folders: read.folders@,
            navigation: items,
            ..v.data
        },
        shown: Shown {
            selected_navigation: line_to_show(
                items,
                read.context,
                v.shown.selected_navigation,
                v.data.navigation.len() == 0,
            ),
            data_source: DataSourceState::Live,
            ..v.shown
        },
        ..v
    }
}

/// The note to select after a refresh: the one that was read, else the one before.
pub open spec fn note_to_show(v: AppModel, read: LiveRefreshRead) -> Option<NoteId> {
    match read.selected_note {
        Some(note) => Some(note.summary.id),
        None => chosen_id(v),
    }
}

/// The client with notes that were read, in the search of a session.
#[verifier::opaque]
pub open spec fn live_notes(v: AppModel, read: LiveRefreshRead) -> AppModel {
    let next = AppModel {
        data: DataModel {
            notes: read.notes@,
            rows: match read.context {
                RefreshContext::Folder(id) => v.data.rows.insert(id@, read.notes@),
                RefreshContext::Account(_) => v.data.rows,
            },
            ..v.data
        },
        ..v
    };
    let mid = search_restored(next, v.kept.pending_session);
    researched(
        say(
            AppModel {
                shown: Shown { preview_scroll: 0, selected_note: read.selected_note, ..mid.shown },
                ..mid
            },
            count_text(read.total),
        ),
    )
}

/// The client with what was read. The session has been returned to once and for all.
#[verifier::opaque]
pub open spec fn live_applied(v: AppModel, read: LiveRefreshRead) -> AppModel {
    let at_tree = live_tree(v, read);
    let next = reselected(live_notes(at_tree, read), note_to_show(at_tree, read));
    let mid = scroll_restored(AppModel {
        shown: Shown { cached_preview_state: None, ..next.shown },
        ..next
    });
    let there = focus_returned(mid);
    let done = AppModel { kept: KeptModel { pending_session: None, ..there.kept }, ..there };
    if pane_is_bare(mid) {
        first_do3(done, Step::PersistSession, Step::StoreSelected, Step::SnapshotUnlessError)
    } else {
        first_do2(done, Step::StoreSelected, Step::SnapshotUnlessError)
    }
}

/// What a refresh read, or why it read nothing.
#[verifier::opaque]
pub open spec fn live_shown(v: AppModel, result: Result<LiveRefreshRead, ReadFailure>) -> AppModel {
    match result {
        Ok(read) => live_applied(v, read),
        Err(ReadFailure::Service(e)) => with_error(v, e.message),
        Err(ReadFailure::NothingToShow) => first_do(v, Step::Report(Problem::NothingToShow)),
    }
}

/// The note on the screen is to be stored in the cache.
#[verifier::opaque]
pub open spec fn selected_storing(v: AppModel) -> (AppModel, Option<Effect>) {
    match v.shown.selected_note {
        Some(note) => if v.prefs.has_cache {
            ask(v, Await::NoteStored, Effect::StoreNote(note))
        } else {
            go_on(v)
        },
        None => go_on(v),
    }
}

/// What the cache lists is to be replaced.
#[verifier::opaque]
pub open spec fn snapshot_replacing(v: AppModel) -> (AppModel, Option<Effect>) {
    if v.prefs.has_cache {
        ask(v, Await::SnapshotReplaced, Effect::ReplaceSnapshot)
    } else {
        go_on(v)
    }
}

/// What the cache lists is to be replaced, unless there is an error on the screen.
#[verifier::opaque]
pub open spec fn fine_snapshot_replacing(v: AppModel) -> (AppModel, Option<Effect>) {
    if v.status.is_error {
        go_on(v)
    } else {
        snapshot_replacing(v)
    }
}

impl App {
    pub fn refresh(&mut self)
        ensures
            final(self)@ == first_do(old(self)@, Step::Refresh),
            old(self).wf() ==> final(self).wf(),
    {
        self.first_do(Step::Refresh);
    }

    fn live_read(&self) -> (r: LiveRead)
        ensures
            r == read_begun(shown_context(self@), self@.kept.pending_session, chosen_id(self@)),
    {
        let session = match &self.kept.pending_session {
            Some(s) => Some(s.clone()),
            None => None,
        };
        LiveRead::begin(self.refresh_context(), session, self.selected_note_id())
    }

    pub fn begin_refresh(&mut self) -> (r: Option<Effect>)
        ensures
            (final(self)@, r) == refresh_asked(old(self)@),
            old(self).wf() ==> final(self).wf(),
    {
        proof {
            reveal(refresh_asked);
        }
        let read = self.live_read();
        self.background.last_refresh_attempt = self.background.now;
        self.background.refresh_due = false;
        self.background.refresh_generation = self.background.refresh_generation.wrapping_add(1);
        self.say(owned("Loading…"));
        self.ask(Await::LiveRead, Effect::ReadLive(read))
    }

    fn show_live_tree(
        &mut self,
        accounts: Vec<crate::model::Account>,
        folders: Vec<crate::model::Folder>,
        context: &RefreshContext,
        read: Ghost<LiveRefreshRead>,
    )
        requires
            accounts@ == read@.accounts@,
            folders@ == read@.folders@,
            *context == read@.context,
        ensures
            final(self)@ == live_tree(old(self)@, read@),
            old(self).wf() ==> final(self).wf(),
    {
        proof {
            reveal(live_tree);
        }
        let were_none = self.data.navigation.len() == 0;
        self.data.accounts = accounts;
        self.data.folders = folders;
        self.data.navigation = build_navigation(&self.data.accounts, &self.data.folders);
        let before = self.shown.selected_navigation;
        let n = self.data.navigation.len();
        self.shown.selected_navigation = match find_context_line(&self.data.navigation, context) {
            Some(line) => line,
            None => if were_none {
                default_navigation_index(&self.data.navigation)
            } else if before < n {
                before
            } else {
                n.saturating_sub(1)
            },
        };
        self.shown.data_source = DataSourceState::Live;
    }

    fn show_live_notes(
        &mut self,
        notes: Vec<crate::model::NoteSummary>,
        context: &RefreshContext,
        total: usize,
        note: Option<Arc<crate::model::Note>>,
        read: Ghost<LiveRefreshRead>,
    )
        requires
            notes@ == read@.notes@,
            *context == read@.context,
            total == read@.total,
            note == read@.selected_note,
        ensures
            final(self)@ == live_notes(old(self)@, read@),
            old(self).wf() ==> final(self).wf(),
    {
        proof {
            reveal(live_notes);
        }
        self.data.notes = notes;
        if let RefreshContext::Folder(id) = context {
            let rows = clone_summaries(&self.data.notes);
            self.data.rows.insert(id.clone(), rows);
        }
        let session = match &self.kept.pending_session {
            Some(s) => Some(s.clone()),
            None => None,
        };
        self.restore_session_search(&session);
        self.shown.preview_scroll = 0;
        self.shown.selected_note = note;
        let count = decimal_text(total as u64);
        self.say(cat(count.as_str(), " notes"));
        self.recompute_search();
    }

    pub fn apply_live_refresh_read(&mut self, read: LiveRefreshRead)
        ensures
            final(self)@ == live_applied(old(self)@, read),
            old(self).wf() ==> final(self).wf(),
    {
        proof {
            reveal(live_applied);
        }
        let ghost whole = read;
        let LiveRefreshRead { accounts, folders, context, notes, total, selected_note } = read;
        self.show_live_tree(accounts, folders, &context, Ghost(whole));
        let preferred = match &selected_note {
            Some(note) => Some(note.summary.id.clone()),
            None => self.selected_note_id(),
        };
        self.show_live_notes(notes, &context, total, selected_note, Ghost(whole));
        self.restore_visible_selection(&preferred);
        self.shown.cached_preview_state = None;
        self.restore_session_scroll_if_exact();
        let bare = self.restore_session_focus();
        self.kept.pending_session = None;
        if bare {
            self.first_do3(Step::PersistSession, Step::StoreSelected, Step::SnapshotUnlessError);
        } else {
            self.first_do2(Step::StoreSelected, Step::SnapshotUnlessError);
        }
    }

    pub fn show_live(&mut self, result: Result<LiveRefreshRead, ReadFailure>)
        ensures
            final(self)@ == live_shown(old(self)@, result),
            old(self).wf() ==> final(self).wf(),
    {
        proof {
            reveal(live_shown);
        }
        match result {
            Ok(read) => self.apply_live_refresh_read(read),
            Err(ReadFailure::Service(e)) => self.set_error(e.message),
            Err(ReadFailure::NothingToShow) => self.first_do(Step::Report(Problem::NothingToShow)),
        }
    }

    pub fn store_selected_note(&mut self) -> (r: Option<Effect>)
        ensures
            (final(self)@, r) == selected_storing(old(self)@),
            old(self).wf() ==> final(self).wf(),
    {
        proof {
            reveal(selected_storing);
        }
        let note = match &self.shown.selected_note {
            Some(note) => note.clone(),
            None => return None,
        };
        if self.prefs.has_cache {
            self.ask(Await::NoteStored, Effect::StoreNote(note))
        } else {
            None
        }
    }

    pub fn persist_cache_snapshot(&mut self) -> (r: Option<Effect>)
        ensures
            (final(self)@, r) == snapshot_replacing(old(self)@),
            old(self).wf() ==> final(self).wf(),
    {
        proof {
            reveal(snapshot_replacing);
        }
        if self.prefs.has_cache {
            self.ask(Await::SnapshotReplaced, Effect::ReplaceSnapshot)
        } else {
            None
        }
    }

    pub fn persist_fine_snapshot(&mut self) -> (r: Option<Effect>)
        ensures
            (final(self)@, r) == fine_snapshot_replacing(old(self)@),
            old(self).wf() ==> final(self).wf(),
    {
        proof {
            reveal(fine_snapshot_replacing);
        }
        if self.status.is_error {
            None
        } else {
            self.persist_cache_snapshot()
        }
    }
}

// ---------------------------------------------------------------------------
// From the notes service, in the background
// ---------------------------------------------------------------------------

/// The client with a refresh begun in the background, where there is anything to show.
#[verifier::opaque]
pub open spec fn refresh_started(v: AppModel, now: u128, origin: RefreshOrigin) -> AppModel {
    if shown_context(v) is None && v.kept.pending_session is None {
        v
    } else {
        let generation = v.background.refresh_generation.wrapping_add(1);
        say(
            with_order(
                AppModel {
                    background: Background {
                        last_refresh_attempt: now,
                        refresh_due: false,
                        refresh_generation: generation,
                        periodic_refresh: PeriodicRefreshState::InFlight {
                            origin,
                            generation,
                            cancel_requested: false,
                        },
                        ..v.background
                    },
                    ..v
                },
                OrderModel::Refresh(
                    RefreshJob {
                        generation,
                        read: read_begun(shown_context(v), v.kept.pending_session, chosen_id(v)),
                    },
                ),
            ),
            "Refreshing…"@,
        )
    }
}

#[verifier::opaque]
pub open spec fn manual_refresh(v: AppModel) -> AppModel {
    if refreshing(v) {
        v
    } else {
        refresh_started(v, v.background.now, RefreshOrigin::Manual)
    }
}

#[verifier::opaque]
pub open spec fn initial_refresh(v: AppModel) -> AppModel {
    if refreshing(v) || v.background.update_running {
        v
    } else {
        refresh_started(v, v.background.now, RefreshOrigin::Startup)
    }
}

/// Whether nothing is open that a refresh could disturb.
pub open spec fn at_rest(v: AppModel) -> bool {
    &&& v.shown.mode is Normal
    &&& v.edit is None
    &&& v.popup is None
    &&& !v.shown.show_help
    &&& !(v.search is Editing)
}

/// Whether the interval between refreshes has passed.
pub open spec fn interval_passed(v: AppModel, now: u128) -> bool {
    let elapsed = if now < v.background.last_refresh_attempt {
        0
    } else {
        now - v.background.last_refresh_attempt
    };
    elapsed >= v.prefs.refresh_interval * 1_000_000_000
}

/// The client at a time. A refresh that is due is begun as soon as nothing is open that
/// it could disturb.
#[verifier::opaque]
pub open spec fn at_time(v: AppModel, now: u128) -> AppModel {
    let due = v.prefs.auto_refresh && (v.background.refresh_due || interval_passed(v, now));
    let next = AppModel { background: Background { now, refresh_due: due, ..v.background }, ..v };
    if due && !refreshing(v) && !v.background.update_running && at_rest(v) {
        refresh_started(next, now, RefreshOrigin::Automatic)
    } else {
        next
    }
}

/// What a refresh in the background came to. Only the latest counts. Then comes what the
/// user asked for meanwhile.
#[verifier::opaque]
pub open spec fn refresh_arrived(v: AppModel, result: WorkerRefreshResult) -> AppModel {
    if !refreshing(v) {
        v
    } else {
        let next = first_do(
            AppModel {
                background: Background {
                    periodic_refresh: PeriodicRefreshState::Idle,
                    ..v.background
                },
                ..v
            },
            Step::RunForeground,
        );
        match result {
            WorkerRefreshResult::Finished { generation, result } => if generation
                != v.background.refresh_generation {
                next
            } else {
                match result {
                    Err(ReadFailure::Service(e)) if e.cancelled => next,
                    r => live_shown(next, r),
                }
            },
            WorkerRefreshResult::Cancelled { generation } => if generation == v.background.refresh_generation {
                say(next, "Refresh cancelled for foreground action"@)
            } else {
                next
            },
            WorkerRefreshResult::Panicked { generation } => if generation == v.background.refresh_generation {
                complain(next, "Live refresh worker ended unexpectedly"@)
            } else {
                next
            },
        }
    }
}

impl App {
    pub fn start_refresh_worker(&mut self, now: u128, origin: RefreshOrigin)
        ensures
            final(self)@ == refresh_started(old(self)@, now, origin),
            old(self).wf() ==> final(self).wf(),
    {
        proof {
            reveal(refresh_started);
        }
        if self.refresh_context().is_none() && self.kept.pending_session.is_none() {
            return;
        }
        let read = self.live_read();
        self.background.last_refresh_attempt = now;
        self.background.refresh_due = false;
        let generation = self.background.refresh_generation.wrapping_add(1);
        self.background.refresh_generation = generation;
        self.background.periodic_refresh = PeriodicRefreshState::InFlight {
            origin,
            generation,
            cancel_requested: false,
        };
        self.order(Order::Refresh(RefreshJob { generation, read }));
        self.say(owned("Refreshing…"));
    }

    pub fn start_manual_refresh(&mut self)
        ensures
            final(self)@ == manual_refresh(old(self)@),
            old(self).wf() ==> final(self).wf(),
    {
        proof {
            reveal(manual_refresh);
        }
        if !self.periodic_refresh_in_flight() {
            self.start_refresh_worker(self.background.now, RefreshOrigin::Manual);
        }
    }

    /// Begins the first live refresh in the background, so that what the cache lists can
    /// be shown at once.
    pub fn start_initial_refresh(&mut self)
        ensures
            final(self)@ == initial_refresh(old(self)@),
            old(self).wf() ==> final(self).wf(),
    {
        proof {
            reveal(initial_refresh);
        }
        if !self.periodic_refresh_in_flight() && !self.background.update_running {
            self.start_refresh_worker(self.background.now, RefreshOrigin::Startup);
        }
    }

    fn is_safe_for_periodic_refresh(&self) -> (r: bool)
        ensures
            r == at_rest(self@),
    {
        let normal = match self.shown.mode {
            AppMode::Normal => true,
            AppMode::Insert => false,
        };
        let typing = match self.search {
            SearchState::Editing { .. } => true,
            _ => false,
        };
        normal && self.edit.is_none() && self.popup.is_none() && !self.shown.show_help && !typing
    }

    /// Called with the time whenever the program comes round.
    pub fn periodic_refresh_at(&mut self, now: u128)
        ensures
            final(self)@ == at_time(old(self)@, now),
            old(self).wf() ==> final(self).wf(),
    {
        proof {
            reveal(at_time);
        }
        let elapsed = now.saturating_sub(self.background.last_refresh_attempt);
        let passed = elapsed >= self.prefs.refresh_interval as u128 * 1_000_000_000;
        let due = self.prefs.auto_refresh && (self.background.refresh_due || passed);
        let free = !self.periodic_refresh_in_flight() && !self.background.update_running
            && self.is_safe_for_periodic_refresh();
        self.background.now = now;
        self.background.refresh_due = due;
        if due && free {
            self.start_refresh_worker(now, RefreshOrigin::Automatic);
        }
    }

    pub fn end_refresh(&mut self, result: WorkerRefreshResult)
        ensures
            final(self)@ == refresh_arrived(old(self)@, result),
            old(self).wf() ==> final(self).wf(),
    {
        proof {
            reveal(refresh_arrived);
        }
        if !self.periodic_refresh_in_flight() {
            return;
        }
        let current = self.background.refresh_generation;
        self.background.periodic_refresh = PeriodicRefreshState::Idle;
        self.first_do(Step::RunForeground);
        match result {
            WorkerRefreshResult::Finished { generation, result } => {
                let cancelled = match &result {
                    Err(ReadFailure::Service(e)) => e.cancelled,
                    _ => false,
                };
                if generation == current && !cancelled {
                    self.show_live(result);
                }
            },
            WorkerRefreshResult::Cancelled { generation } => {
                if generation == current {
                    self.say(owned("Refresh cancelled for foreground action"));
                }
            },
            WorkerRefreshResult::Panicked { generation } => {
                if generation == current {
                    self.complain(owned("Live refresh worker ended unexpectedly"));
                }
            },
        }
    }
}

// ---------------------------------------------------------------------------
// Keys that wait for a refresh
// ---------------------------------------------------------------------------

/// What a key asks for, of the things that wait for a refresh under way.
pub open spec fn intent_of(v: AppModel, key: KeyEvent) -> Option<PendingForegroundIntent> {
    match key.code {
        KeyCode::Char('r') => Some(PendingForegroundIntent::ManualRefresh),
        KeyCode::Char('n') => Some(PendingForegroundIntent::BeginNew),
        KeyCode::Char('N') => Some(PendingForegroundIntent::BeginCreateFolder),
        KeyCode::Char('C') => match selected_item(v) {
            Some(NavigationItem::Folder { id, account_id, name, .. }) => if v.shown.focus is Navigation {
                Some(
                    PendingForegroundIntent::BeginCreateChildFolder {
                        account_id,
                        parent_folder_id: id,
                        parent_folder_name: name,
                    },
                )
            } else {
                None
            },
            _ => None,
        },
        KeyCode::Char('M') => match selected_item(v) {
            Some(NavigationItem::Folder { id, account_id, name, .. }) => if v.shown.focus is Navigation {
                Some(
                    PendingForegroundIntent::BeginReparentFolder {
                        account_id,
                        folder_id: id,
                        folder_name: name,
                    },
                )
            } else {
                None
            },
            _ => None,
        },
        KeyCode::Char('e') => Some(PendingForegroundIntent::BeginEdit),
        KeyCode::Char('m') => Some(PendingForegroundIntent::BeginMove),
        KeyCode::Char('D') => if v.shown.focus is Navigation && v.shown.selected_note is None {
            Some(PendingForegroundIntent::BeginDeleteFolder)
        } else {
            Some(PendingForegroundIntent::BeginDelete)
        },
        KeyCode::Char('a') => Some(PendingForegroundIntent::BeginAttachments),
        KeyCode::Enter => if v.shown.focus is Preview {
            None
        } else {
            Some(PendingForegroundIntent::ActivateSelection)
        },
        _ => None,
    }
}

/// The client with something to do once the refresh under way has ended, which is asked
/// to end. The latest wish counts.
#[verifier::opaque]
pub open spec fn intent_queued(v: AppModel, intent: PendingForegroundIntent) -> AppModel {
    let next = with_order(
        AppModel {
            background: Background {
                pending_intent: Some(intent),
                periodic_refresh: match v.background.periodic_refresh {
                    PeriodicRefreshState::InFlight { origin, generation, .. } =>
                        PeriodicRefreshState::InFlight { origin, generation, cancel_requested: true },
                    PeriodicRefreshState::Idle => PeriodicRefreshState::Idle,
                },
                ..v.background
            },
            ..v
        },
        OrderModel::CancelRefresh,
    );
    if v.background.pending_intent is Some {
        say(next, "Pending action updated"@)
    } else {
        say(next, "Refresh in progress; action will open when ready"@)
    }
}

/// Whether a key waits for the refresh under way.
pub open spec fn key_waits(v: AppModel, key: KeyEvent) -> bool {
    refreshing(v) && intent_of(v, key) is Some
}

impl App {
    fn intent_for(&self, key: KeyEvent) -> (r: Option<PendingForegroundIntent>)
        ensures
            r == intent_of(self@, key),
    {
        let tree = match self.shown.focus {
            Focus::Navigation => true,
            _ => false,
        };
        let preview = match self.shown.focus {
            Focus::Preview => true,
            _ => false,
        };
        match key.code {
            KeyCode::Char('r') => Some(PendingForegroundIntent::ManualRefresh),
            KeyCode::Char('n') => Some(PendingForegroundIntent::BeginNew),
            KeyCode::Char('N') => Some(PendingForegroundIntent::BeginCreateFolder),
            KeyCode::Char('C') => {
                if !tree || self.shown.selected_navigation >= self.data.navigation.len() {
                    return None;
                }
                match &self.data.navigation[self.shown.selected_navigation] {
                    NavigationItem::Folder { id, account_id, name, .. } => Some(
                        PendingForegroundIntent::BeginCreateChildFolder {
                            account_id: account_id.clone(),
                            parent_folder_id: id.clone(),
                            parent_folder_name: name.clone(),
                        },
                    ),
                    NavigationItem::Account { .. } => None,
                }
            },
            KeyCode::Char('M') => {
                if !tree || self.shown.selected_navigation >= self.data.navigation.len() {
                    return None;
                }
                match &self.data.navigation[self.shown.selected_navigation] {
                    NavigationItem::Folder { id, account_id, name, .. } => Some(
                        PendingForegroundIntent::BeginReparentFolder {
                            account_id: account_id.clone(),
                            folder_id: id.clone(),
                            folder_name: name.clone(),
                        },
                    ),
                    NavigationItem::Account { .. } => None,
                }
            },
            KeyCode::Char('e') => Some(PendingForegroundIntent::BeginEdit),
            KeyCode::Char('m') => Some(PendingForegroundIntent::BeginMove),
            KeyCode::Char('D') => if tree && self.shown.selected_note.is_none() {
                Some(PendingForegroundIntent::BeginDeleteFolder)
            } else {
                Some(PendingForegroundIntent::BeginDelete)
            },
            KeyCode::Char('a') => Some(PendingForegroundIntent::BeginAttachments),
            KeyCode::Enter => if preview {
                None
            } else {
                Some(PendingForegroundIntent::ActivateSelection)
            },
            _ => None,
        }
    }

    fn queue_intent(&mut self, intent: PendingForegroundIntent)
        ensures
            final(self)@ == intent_queued(old(self)@, intent),
            old(self).wf() ==> final(self).wf(),
    {
        proof {
            reveal(intent_queued);
        }
        let replaced = self.background.pending_intent.is_some();
        self.background.pending_intent = Some(intent);
        if let PeriodicRefreshState::InFlight { origin, generation, .. } = self.background.periodic_refresh {
            self.background.periodic_refresh = PeriodicRefreshState::InFlight {
                origin,
                generation,
                cancel_requested: true,
            };
        }
        self.order(Order::CancelRefresh);
        if replaced {
            self.say(owned("Pending action updated"));
        } else {
            self.say(owned("Refresh in progress; action will open when ready"));
        }
    }

    /// Keeps what a key asks for until the refresh under way has ended; false where the
    /// key need not wait.
    pub fn queue_foreground_intent_while_refreshing(&mut self, key: KeyEvent) -> (r: bool)
        ensures
            r == key_waits(old(self)@, key),
            final(self)@ == if r {
                intent_queued(old(self)@, intent_of(old(self)@, key)->0)
            } else {
                old(self)@
            },
            old(self).wf() ==> final(self).wf(),
    {
        proof {
            reveal(intent_queued);
        }
        if !self.periodic_refresh_in_flight() {
            return false;
        }
        match self.intent_for(key) {
            Some(intent) => {
                self.queue_intent(intent);
                true
            },
            None => false,
        }
    }
}

} // verus!
