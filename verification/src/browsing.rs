//! Moving through accounts, folders and notes, and searching the list.

use std::sync::Arc;

use vstd::prelude::*;

use crate::app::{
    chosen_id, Background, DataModel, Shown, first_do, first_do2, reselected, say, selected_item,
    shown_context, visible_ids, visible_note, with_error, with_order, App, AppModel,
};
use crate::jobs::{NavigationJob, NavigationRequest};
use crate::keys::{KeyCode, KeyEvent};
use crate::model::{CachedState, Note, NoteId, NoteSummary, NotesError, NotesPage, NotesQuery};
use crate::navigation::{
    context_query, edge_index, edge_of, item_context, move_index, moved_index, NavigationItem,
};
use crate::text;
use crate::text::{cat, cat3, decimal_text, lowercase_of, occurs, owned, text_occurs};
use crate::workflow::{
    Active, ActiveSearch, Await, CachedPreviewState, Effect, Focus, Order, OrderModel,
    PeriodicRefreshState, Search, SearchState, Step,
};

verus! {

// ---------------------------------------------------------------------------
// Searching
// ---------------------------------------------------------------------------

/// Whether a note is found by a query: its name holds the query, in whatever case.
pub open spec fn found_by(note: NoteSummary, query: Seq<char>) -> bool {
    occurs(lowercase_of(note.name@), lowercase_of(query))
}

/// The notes among the first `n` that a query finds, in their order.
pub open spec fn found_upto(notes: Seq<NoteSummary>, query: Seq<char>, n: nat) -> Seq<NoteId>
    decreases n,
{
    if n == 0 {
        seq![]
    } else {
        let before = found_upto(notes, query, (n - 1) as nat);
        if found_by(notes[n - 1], query) {
            before.push(notes[n - 1].id)
        } else {
            before
        }
    }
}

/// The notes that a query finds, in their order.
pub open spec fn found(notes: Seq<NoteSummary>, query: Seq<char>) -> Seq<NoteId> {
    found_upto(notes, query, notes.len())
}

fn find_matches(notes: &Vec<NoteSummary>, query: &str) -> (r: Vec<NoteId>)
    ensures
        r@ == found(notes@, query@),
{
    let needle = query.to_lowercase();
    let mut out: Vec<NoteId> = Vec::new();
    let mut i: usize = 0;
    while i < notes.len()
        invariant
            i <= notes@.len(),
            needle@ == lowercase_of(query@),
            out@ == found_upto(notes@, query@, i as nat),
        decreases notes@.len() - i,
    {
        let name = notes[i].name.as_str().to_lowercase();
        if text_occurs(name.as_str(), needle.as_str()) {
            out.push(notes[i].id.clone());
        }
        i = i + 1;
    }
    out
}

/// The client with the search applied to the notes at hand.
#[verifier::opaque]
pub open spec fn researched(v: AppModel) -> AppModel {
    let wish = chosen_id(v);
    let next = match v.search {
        Search::Active(a) => AppModel {
            search: Search::Active(Active { visible: found(v.data.notes, a.query), ..a }),
            ..v
        },
        _ => v,
    };
    reselected(next, wish)
}

/// The client with a search in force.
#[verifier::opaque]
pub open spec fn searching(v: AppModel, query: Seq<char>) -> AppModel {
    researched(AppModel { search: Search::Active(Active { query, visible: seq![] }), ..v })
}

/// The client with the line for a search open; a search in force can be changed.
#[verifier::opaque]
pub open spec fn search_opened(v: AppModel) -> AppModel {
    AppModel {
        search: match v.search {
            Search::Active(a) => Search::Editing { input: a.query, previous: Some(a) },
            _ => Search::Editing { input: ""@, previous: None },
        },
        ..v
    }
}

/// The client without a search.
#[verifier::opaque]
pub open spec fn search_cleared(v: AppModel) -> AppModel {
    first_do(
        reselected(AppModel { search: Search::Inactive, ..v }, chosen_id(v)),
        Step::PersistSession,
    )
}

/// The client after the line for a search is confirmed.
#[verifier::opaque]
pub open spec fn search_entered(v: AppModel, input: Seq<char>) -> AppModel {
    if input.len() == 0 {
        reselected(AppModel { search: Search::Inactive, ..v }, None)
    } else {
        let next = searching(v, input);
        if v.shown.data_source is Live {
            first_do(next, Step::PersistSession)
        } else {
            first_do2(next, Step::LoadSelected { persist: true }, Step::PersistSession)
        }
    }
}

/// What a key makes of the line for a search.
#[verifier::opaque]
pub open spec fn search_typed(v: AppModel, key: KeyEvent) -> AppModel {
    match v.search {
        Search::Editing { input, previous } => match key.code {
            KeyCode::Esc => AppModel {
                search: match previous {
                    Some(a) => Search::Active(a),
                    None => Search::Inactive,
                },
                ..v
            },
            KeyCode::Enter => search_entered(AppModel { search: Search::Inactive, ..v }, input),
            KeyCode::Backspace => AppModel {
                search: Search::Editing { input: text::shortened(input), previous },
                ..v
            },
            KeyCode::Char(c) => AppModel {
                search: Search::Editing {
                    input: if !key.modifiers.control {
                        input.push(c)
                    } else if c == 'u' {
                        ""@
                    } else {
                        input
                    },
                    previous,
                },
                ..v
            },
            _ => v,
        },
        _ => AppModel { search: Search::Inactive, ..v },
    }
}

/// What is told about a search.
pub open spec fn search_words(v: AppModel) -> Option<Seq<char>> {
    match v.search {
        Search::Inactive => None,
        Search::Editing { input, .. } => Some("Search: "@ + input + "_"@),
        Search::Active(a) => if a.visible.len() == 0 {
            Some("Search: "@ + a.query + " · No matching notes"@)
        } else {
            Some(
                "Search: "@ + a.query + " · "@ + text::decimal(a.visible.len()) + "/"@
                    + text::decimal(v.data.notes.len()) + " matches"@,
            )
        },
    }
}

/// A search shows a note exactly where the query finds it, and shows the notes in the
/// order of the list.
pub proof fn law_search_shows_what_it_finds(notes: Seq<NoteSummary>, query: Seq<char>, id: NoteId)
    ensures
        found(notes, query).contains(id) <==> exists|i: int|
            0 <= i < notes.len() && found_by(#[trigger] notes[i], query) && notes[i].id == id,
        found(notes, query).len() <= notes.len(),
{
    lemma_found_upto(notes, query, notes.len(), id);
}

proof fn lemma_found_upto(notes: Seq<NoteSummary>, query: Seq<char>, n: nat, id: NoteId)
    requires
        n <= notes.len(),
    ensures
        found_upto(notes, query, n).contains(id) <==> exists|i: int|
            0 <= i < n && found_by(#[trigger] notes[i], query) && notes[i].id == id,
        found_upto(notes, query, n).len() <= n,
    decreases n,
{
    if n > 0 {
        let before = found_upto(notes, query, (n - 1) as nat);
        let all = found_upto(notes, query, n);
        lemma_found_upto(notes, query, (n - 1) as nat, id);
        if all.contains(id) {
            let k = choose|k: int| 0 <= k < all.len() && all[k] == id;
            if k < before.len() {
                assert(before[k] == id);
                assert(before.contains(id));
            } else {
                assert(notes[n - 1].id == id && found_by(notes[n - 1], query));
            }
        }
        if exists|i: int| 0 <= i < n && found_by(#[trigger] notes[i], query) && notes[i].id == id {
            let i = choose|i: int|
                0 <= i < n && found_by(#[trigger] notes[i], query) && notes[i].id == id;
            if i < n - 1 {
                assert(before.contains(id));
                let k = choose|k: int| 0 <= k < before.len() && before[k] == id;
                assert(all[k] == id);
            } else {
                assert(all[all.len() - 1] == id);
            }
        }
    } else {
        assert(!found_upto(notes, query, n).contains(id));
    }
}

impl App {
    pub fn recompute_search(&mut self)
        ensures
            final(self)@ == researched(old(self)@),
            old(self).wf() ==> final(self).wf(),
    {
        proof {
            reveal(researched);
        }
        let preferred = self.selected_note_id();
        let ghost before = self@;
        match &mut self.search {
            SearchState::Active(active) => {
                active.visible_ids = find_matches(&self.data.notes, active.query.as_str());
            },
            _ => {},
        }
        self.restore_visible_selection(&preferred);
    }

    pub fn search_for(&mut self, query: String)
        ensures
            final(self)@ == searching(old(self)@, query@),
            old(self).wf() ==> final(self).wf(),
    {
        proof {
            reveal(searching);
        }
        let active = ActiveSearch { query, visible_ids: Vec::new() };
        assert(active@.visible =~= Seq::<NoteId>::empty());
        self.search = SearchState::Active(active);
        self.recompute_search();
    }

    pub fn begin_search(&mut self)
        ensures
            final(self)@ == search_opened(old(self)@),
            old(self).wf() ==> final(self).wf(),
    {
        proof {
            reveal(search_opened);
        }
        let mut search = SearchState::Inactive;
        std::mem::swap(&mut search, &mut self.search);
        self.search = match search {
            SearchState::Active(active) => SearchState::Editing {
                input: active.query.clone(),
                previous_active: Some(active),
            },
            _ => SearchState::Editing { input: owned(""), previous_active: None },
        };
    }

    fn enter_search(&mut self, input: String)
        ensures
            final(self)@ == search_entered(old(self)@, input@),
            old(self).wf() ==> final(self).wf(),
    {
        proof {
            reveal(search_entered);
        }
        if input.as_str().is_empty() {
            self.search = SearchState::Inactive;
            self.restore_visible_selection(&None);
        } else {
            let live = self.is_live();
            self.search_for(input);
            if live {
                self.first_do(Step::PersistSession);
            } else {
                self.first_do2(Step::LoadSelected { persist: true }, Step::PersistSession);
            }
        }
    }

    pub fn handle_search_input(&mut self, key: KeyEvent)
        ensures
            final(self)@ == search_typed(old(self)@, key),
            old(self).wf() ==> final(self).wf(),
    {
        proof {
            reveal(search_typed);
        }
        let mut search = SearchState::Inactive;
        std::mem::swap(&mut search, &mut self.search);
        if let SearchState::Editing { input, previous_active } = search {
            let mut input = input;
            match key.code {
                KeyCode::Esc => {
                    self.search = match previous_active {
                        Some(active) => SearchState::Active(active),
                        None => SearchState::Inactive,
                    };
                },
                KeyCode::Enter => self.enter_search(input),
                KeyCode::Backspace => {
                    text::pop_char(&mut input);
                    self.search = SearchState::Editing { input, previous_active };
                },
                KeyCode::Char(c) => {
                    if !key.modifiers.control {
                        input.push(c);
                    } else if c == 'u' {
                        input = owned("");
                    }
                    self.search = SearchState::Editing { input, previous_active };
                },
                _ => {
                    self.search = SearchState::Editing { input, previous_active };
                },
            }
        }
    }

    pub fn clear_search(&mut self)
        ensures
            final(self)@ == search_cleared(old(self)@),
            old(self).wf() ==> final(self).wf(),
    {
        proof {
            reveal(search_cleared);
        }
        let preferred = self.selected_note_id();
        self.search = SearchState::Inactive;
        self.restore_visible_selection(&preferred);
        self.first_do(Step::PersistSession);
    }

    pub fn search_status(&self) -> (r: Option<String>)
        ensures
            match r {
                Some(s) => search_words(self@) == Some(s@),
                None => search_words(self@) is None,
            },
    {
        match &self.search {
            SearchState::Inactive => None,
            SearchState::Editing { input, .. } => Some(cat3("Search: ", input.as_str(), "_")),
            SearchState::Active(active) => if active.visible_ids.len() == 0 {
                Some(cat3("Search: ", active.query.as_str(), " · No matching notes"))
            } else {
                let some = decimal_text(active.visible_ids.len() as u64);
                let all = decimal_text(self.data.notes.len() as u64);
                let front = cat3("Search: ", active.query.as_str(), " · ");
                let counts = cat3(some.as_str(), "/", all.as_str());
                let r = cat3(front.as_str(), counts.as_str(), " matches");
                proof {
                    let a = self@.search->Active_0;
                    assert(r@ =~= "Search: "@ + a.query + " · "@ + text::decimal(a.visible.len())
                        + "/"@ + text::decimal(self@.data.notes.len()) + " matches"@);
                }
                Some(r)
            },
        }
    }
}

// ---------------------------------------------------------------------------
// Reading for the selection
// ---------------------------------------------------------------------------

/// The client with a request begun, unless one is under way.
#[verifier::opaque]
pub open spec fn navigation_started(v: AppModel) -> AppModel {
    match v.background.pending_navigation {
        Some(request) => if v.background.navigation_running {
            v
        } else {
            let generation = v.background.navigation_generation.wrapping_add(1);
            with_order(
                AppModel {
                    background: Background {
                        pending_navigation: None,
                        navigation_generation: generation,
                        navigation_running: true,
                        ..v.background
                    },
                    ..v
                },
                OrderModel::Navigate(NavigationJob { generation, request }),
            )
        },
        None => v,
    }
}

/// The client with a request for the selection. It takes the place of one that has not
/// begun.
#[verifier::opaque]
pub open spec fn requested(v: AppModel, request: NavigationRequest) -> AppModel {
    navigation_started(AppModel {
        background: Background { pending_navigation: Some(request), ..v.background },
        ..v
    })
}

/// The client with a request for the notes of the selected line.
#[verifier::opaque]
pub open spec fn folder_followed(v: AppModel) -> AppModel {
    match shown_context(v) {
        Some(context) => requested(v, NavigationRequest::Folder(context)),
        None => v,
    }
}

impl App {
    pub fn start_pending_navigation(&mut self)
        ensures
            final(self)@ == navigation_started(old(self)@),
            old(self).wf() ==> final(self).wf(),
    {
        proof {
            reveal(navigation_started);
        }
        if self.background.navigation_running {
            return;
        }
        let mut pending: Option<NavigationRequest> = None;
        std::mem::swap(&mut pending, &mut self.background.pending_navigation);
        if let Some(request) = pending {
            self.background.navigation_generation = self.background.navigation_generation.wrapping_add(1);
            self.background.navigation_running = true;
            let generation = self.background.navigation_generation;
            self.order(Order::Navigate(NavigationJob { generation, request }));
        }
    }

    pub fn request(&mut self, request: NavigationRequest)
        ensures
            final(self)@ == requested(old(self)@, request),
            old(self).wf() ==> final(self).wf(),
    {
        proof {
            reveal(requested);
        }
        self.background.pending_navigation = Some(request);
        self.start_pending_navigation();
    }

    pub fn follow_folder(&mut self)
        ensures
            final(self)@ == folder_followed(old(self)@),
            old(self).wf() ==> final(self).wf(),
    {
        proof {
            reveal(folder_followed);
        }
        if let Some(context) = self.refresh_context() {
            self.request(NavigationRequest::Folder(context));
        }
    }
}

// ---------------------------------------------------------------------------
// Showing a note
// ---------------------------------------------------------------------------

/// A client that needs a reply before it goes on.
pub open spec fn ask(v: AppModel, what: Await, effect: Effect) -> (AppModel, Option<Effect>) {
    (AppModel {
        background: Background { awaiting: Some(what), ..v.background },
        ..v
    }, Some(effect))
}

/// A client that goes on by itself.
pub open spec fn go_on(v: AppModel) -> (AppModel, Option<Effect>) {
    (v, None)
}

/// The client without another note on the screen than the one with an id.
#[verifier::opaque]
pub open spec fn only_note(v: AppModel, id: Seq<char>) -> AppModel {
    AppModel {
        shown: Shown {
            selected_note: match v.shown.selected_note {
                Some(note) => if note.summary.id@ == id {
                    Some(note)
                } else {
                    None
                },
                None => None,
            },
            cached_preview_state: None,
            ..v.shown
        },
        ..v
    }
}

/// The note that is selected in the list is to be shown: from the cache where there is
/// one, else from the notes service.
#[verifier::opaque]
pub open spec fn selected_loading(v: AppModel, persist: bool) -> (AppModel, Option<Effect>) {
    match visible_note(v, v.shown.selected_note_index as int) {
        None => go_on(AppModel {
            shown: Shown { selected_note: None, cached_preview_state: None, ..v.shown },
            ..v
        }),
        Some(summary) => {
            let next = only_note(v, summary.id@);
            let live = v.shown.data_source is Live;
            if v.prefs.has_cache && (persist || !live) {
                ask(
                    next,
                    Await::CachedNote { id: summary.id },
                    Effect::LoadNote(summary.id),
                )
            } else if !live {
                go_on(
                    AppModel {
                        shown: Shown {
                            cached_preview_state: Some(CachedPreviewState::MissingFullNote),
                            ..next.shown
                        },
                        ..next
                    },
                )
            } else {
                ask(next, Await::FetchedNote { persist }, Effect::GetNote(summary.id))
            }
        },
    }
}

/// What the cache has of the selected note. With the notes service at hand, the note is
/// read again in the background.
#[verifier::opaque]
pub open spec fn cached_note_shown(
    v: AppModel,
    id: NoteId,
    found: Result<Option<Arc<Note>>, String>,
) -> AppModel {
    match found {
        Ok(Some(note)) => {
            let next = AppModel {
                shown: Shown { selected_note: Some(note), preview_scroll: 0, ..v.shown },
                ..v
            };
            if v.shown.data_source is Live {
                requested(next, NavigationRequest::Preview(id))
            } else {
                next
            }
        },
        Ok(None) => {
            let next = AppModel {
                shown: Shown {
                    cached_preview_state: Some(CachedPreviewState::MissingFullNote),
                    ..v.shown
                },
                ..v
            };
            if v.shown.data_source is Live {
                requested(next, NavigationRequest::Preview(id))
            } else {
                next
            }
        },
        Err(e) => AppModel {
            shown: Shown {
                cached_preview_state: Some(CachedPreviewState::ReadError(e)),
                ..v.shown
            },
            ..v
        },
    }
}

/// What the notes service has of the selected note.
#[verifier::opaque]
pub open spec fn fetched_note_shown(
    v: AppModel,
    persist: bool,
    found: Result<Arc<Note>, NotesError>,
) -> (AppModel, Option<Effect>) {
    match found {
        Ok(note) => {
            let next = AppModel {
                shown: Shown { selected_note: Some(note), preview_scroll: 0, ..v.shown },
                ..v
            };
            if persist && v.prefs.has_cache {
                ask(next, Await::NoteStored, Effect::StoreNote(note))
            } else {
                go_on(next)
            }
        },
        Err(e) => go_on(with_error(v, e.message)),
    }
}

/// The warning for what the cache could not store.
pub open spec fn cache_warning_text(error: Seq<char>) -> Seq<char> {
    "Live · cache warning: "@ + error
}

#[verifier::opaque]
pub open spec fn store_reported(v: AppModel, done: Result<(), String>) -> AppModel {
    match done {
        Ok(_) => v,
        Err(e) => say(v, cache_warning_text(e@)),
    }
}

impl App {
    pub fn ask(&mut self, what: Await, effect: Effect) -> (r: Option<Effect>)
        ensures
            (final(self)@, r) == ask(old(self)@, what, effect),
            old(self).wf() ==> final(self).wf(),
    {
        self.background.awaiting = Some(what);
        Some(effect)
    }

    pub fn load_selected_note(&mut self, persist: bool) -> (r: Option<Effect>)
        ensures
            (final(self)@, r) == selected_loading(old(self)@, persist),
            old(self).wf() ==> final(self).wf(),
    {
        proof {
            reveal(selected_loading);
            reveal(only_note);
        }
        let id = match self.visible_note(self.shown.selected_note_index) {
            Some(summary) => summary.id.clone(),
            None => {
                self.shown.selected_note = None;
                self.shown.cached_preview_state = None;
                return None;
            },
        };
        let other = match &self.shown.selected_note {
            Some(note) => !note.summary.id.same(&id),
            None => false,
        };
        if other {
            self.shown.selected_note = None;
        }
        self.shown.cached_preview_state = None;
        let live = self.is_live();
        if self.prefs.has_cache && (persist || !live) {
            return self.ask(Await::CachedNote { id: id.clone() }, Effect::LoadNote(id));
        }
        if !live {
            self.shown.cached_preview_state = Some(CachedPreviewState::MissingFullNote);
            return None;
        }
        self.ask(Await::FetchedNote { persist }, Effect::GetNote(id))
    }

    pub fn show_cached_note(&mut self, id: NoteId, found: Result<Option<Arc<Note>>, String>)
        ensures
            final(self)@ == cached_note_shown(old(self)@, id, found),
            old(self).wf() ==> final(self).wf(),
    {
        proof {
            reveal(cached_note_shown);
        }
        let live = self.is_live();
        match found {
            Ok(Some(note)) => {
                self.shown.selected_note = Some(note);
                self.shown.preview_scroll = 0;
                if live {
                    self.request(NavigationRequest::Preview(id));
                }
            },
            Ok(None) => {
                self.shown.cached_preview_state = Some(CachedPreviewState::MissingFullNote);
                if live {
                    self.request(NavigationRequest::Preview(id));
                }
            },
            Err(e) => {
                self.shown.cached_preview_state = Some(CachedPreviewState::ReadError(e));
            },
        }
    }

    pub fn show_fetched_note(&mut self, persist: bool, found: Result<Arc<Note>, NotesError>) -> (r:
        Option<Effect>)
        ensures
            (final(self)@, r) == fetched_note_shown(old(self)@, persist, found),
            old(self).wf() ==> final(self).wf(),
    {
        proof {
            reveal(fetched_note_shown);
        }
        match found {
            Ok(note) => {
                self.shown.selected_note = Some(note.clone());
                self.shown.preview_scroll = 0;
                if persist && self.prefs.has_cache {
                    return self.ask(Await::NoteStored, Effect::StoreNote(note));
                }
            },
            Err(e) => self.set_error(e.message),
        }
        None
    }

    pub fn report_store(&mut self, done: Result<(), String>)
        ensures
            final(self)@ == store_reported(old(self)@, done),
            old(self).wf() ==> final(self).wf(),
    {
        proof {
            reveal(store_reported);
        }
        if let Err(e) = done {
            self.say(cat("Live · cache warning: ", e.as_str()));
        }
    }
}

// ---------------------------------------------------------------------------
// Showing the notes of a line
// ---------------------------------------------------------------------------

/// The client with other notes in the list; the selection stays where it can.
#[verifier::opaque]
pub open spec fn notes_replaced(v: AppModel, notes: Seq<NoteSummary>) -> AppModel {
    reselected(researched(AppModel { data: DataModel { notes, ..v.data }, ..v }), chosen_id(v))
}

/// The client with notes that were at hand, which are read again in the background.
#[verifier::opaque]
pub open spec fn rows_shown(v: AppModel, notes: Seq<NoteSummary>) -> AppModel {
    first_do2(notes_replaced(v, notes), Step::LoadSelected { persist: true }, Step::FollowFolder)
}

/// The query for the notes of a line.
pub open spec fn item_query(item: NavigationItem) -> NotesQuery {
    context_query(item_context(item))
}

/// The notes of the selected line are to be shown: while browsing, from what is at hand
/// where there is a cache, else from the notes service.
#[verifier::opaque]
pub open spec fn notes_loading(v: AppModel, persist: bool, browse: bool) -> (
    AppModel,
    Option<Effect>,
) {
    match selected_item(v) {
        None => go_on(
            say(
                AppModel {
                    data: DataModel { notes: seq![], ..v.data },
                    shown: Shown { selected_note: None, cached_preview_state: None, ..v.shown },
                    ..v
                },
                "No accounts or folders available"@,
            ),
        ),
        Some(item) => if browse && persist && v.shown.data_source is Live && v.prefs.has_cache {
            match item {
                NavigationItem::Folder { id, .. } if v.data.rows.dom().contains(id@) => go_on(
                    rows_shown(v, v.data.rows[id@]),
                ),
                _ => ask(v, Await::BrowsedCache, Effect::LoadBootstrap),
            }
        } else {
            ask(v, Await::NotesLoaded { persist }, Effect::Notes(item_query(item)))
        },
    }
}

/// The notes among the first `n` that lie in a folder.
pub open spec fn notes_in_upto(notes: Seq<NoteSummary>, folder: Seq<char>, n: nat) -> Seq<
    NoteSummary,
>
    decreases n,
{
    if n == 0 {
        seq![]
    } else {
        let before = notes_in_upto(notes, folder, (n - 1) as nat);
        if notes[n - 1].folder_id@ == folder {
            before.push(notes[n - 1])
        } else {
            before
        }
    }
}

/// The notes that lie in a folder.
pub open spec fn notes_in(notes: Seq<NoteSummary>, folder: Seq<char>) -> Seq<NoteSummary> {
    notes_in_upto(notes, folder, notes.len())
}

/// The notes of the selected folder that the cache lists; none for an account.
pub open spec fn listed_for(v: AppModel, listed: Result<CachedState, String>) -> Seq<NoteSummary> {
    match (selected_item(v), listed) {
        (Some(NavigationItem::Folder { id, .. }), Ok(state)) => notes_in(state.notes@, id@),
        _ => seq![],
    }
}

/// What the cache lists for the selected line. Where that is nothing, the notes service
/// is asked in the background.
#[verifier::opaque]
pub open spec fn cache_browsed(v: AppModel, listed: Result<CachedState, String>) -> AppModel {
    let notes = listed_for(v, listed);
    if notes.len() > 0 {
        rows_shown(v, notes)
    } else {
        folder_followed(v)
    }
}

pub open spec fn count_text(total: usize) -> Seq<char> {
    text::decimal(total as nat) + " notes"@
}

/// What the notes service has for the selected line.
#[verifier::opaque]
pub open spec fn notes_shown(v: AppModel, persist: bool, found: Result<NotesPage, NotesError>) -> AppModel {
    match found {
        Ok(page) => {
            let next = say(
                AppModel {
                    data: DataModel { notes: page.items@, ..v.data },
                    shown: Shown { preview_scroll: 0, ..v.shown },
                    ..v
                },
                count_text(page.total),
            );
            first_do2(
                reselected(researched(next), chosen_id(v)),
                Step::LoadSelected { persist },
                Step::PersistSession,
            )
        },
        Err(e) => with_error(v, e.message),
    }
}

fn notes_of_folder(notes: &Vec<NoteSummary>, folder: &crate::model::FolderId) -> (r: Vec<NoteSummary>)
    ensures
        r@ == notes_in(notes@, folder@),
{
    let mut out: Vec<NoteSummary> = Vec::new();
    let mut i: usize = 0;
    while i < notes.len()
        invariant
            i <= notes@.len(),
            out@ == notes_in_upto(notes@, folder@, i as nat),
        decreases notes@.len() - i,
    {
        if notes[i].folder_id.same(folder) {
            out.push(notes[i].clone());
        }
        i = i + 1;
    }
    out
}

impl App {
    fn show_rows(&mut self, notes: Vec<NoteSummary>)
        ensures
            final(self)@ == rows_shown(old(self)@, notes@),
            old(self).wf() ==> final(self).wf(),
    {
        proof {
            reveal(rows_shown);
            reveal(notes_replaced);
        }
        let preferred = self.selected_note_id();
        self.data.notes = notes;
        self.recompute_search();
        self.restore_visible_selection(&preferred);
        self.first_do2(Step::LoadSelected { persist: true }, Step::FollowFolder);
    }

    pub fn load_notes(&mut self, persist: bool, browse: bool) -> (r: Option<Effect>)
        ensures
            (final(self)@, r) == notes_loading(old(self)@, persist, browse),
            old(self).wf() ==> final(self).wf(),
    {
        proof {
            reveal(notes_loading);
        }
        if self.shown.selected_navigation >= self.data.navigation.len() {
            self.data.notes = Vec::new();
            self.shown.selected_note = None;
            self.shown.cached_preview_state = None;
            assert(self.data.notes@ =~= Seq::<NoteSummary>::empty());
            self.say(owned("No accounts or folders available"));
            return None;
        }
        if browse && persist && self.is_live() && self.prefs.has_cache {
            let rows = match &self.data.navigation[self.shown.selected_navigation] {
                NavigationItem::Folder { id, .. } => self.data.rows.get(id),
                NavigationItem::Account { .. } => None,
            };
            if let Some(rows) = rows {
                self.show_rows(rows);
                return None;
            }
            return self.ask(Await::BrowsedCache, Effect::LoadBootstrap);
        }
        let query = self.data.navigation[self.shown.selected_navigation].context().query();
        self.ask(Await::NotesLoaded { persist }, Effect::Notes(query))
    }

    pub fn browse_cache(&mut self, listed: Result<CachedState, String>)
        ensures
            final(self)@ == cache_browsed(old(self)@, listed),
            old(self).wf() ==> final(self).wf(),
    {
        proof {
            reveal(cache_browsed);
        }
        let notes = match (self.selected_folder_id(), &listed) {
            (Some(id), Ok(state)) => notes_of_folder(&state.notes, id),
            _ => Vec::new(),
        };
        assert(notes@ =~= listed_for(self@, listed));
        if notes.len() > 0 {
            self.show_rows(notes);
        } else {
            self.follow_folder();
        }
    }

    pub fn show_notes(&mut self, persist: bool, found: Result<NotesPage, NotesError>)
        ensures
            final(self)@ == notes_shown(old(self)@, persist, found),
            old(self).wf() ==> final(self).wf(),
    {
        proof {
            reveal(notes_shown);
        }
        match found {
            Ok(page) => {
                let preferred = self.selected_note_id();
                self.data.notes = page.items;
                self.shown.preview_scroll = 0;
                let total = decimal_text(page.total as u64);
                self.say(cat(total.as_str(), " notes"));
                self.recompute_search();
                self.restore_visible_selection(&preferred);
                self.first_do2(Step::LoadSelected { persist }, Step::PersistSession);
            },
            Err(e) => self.set_error(e.message),
        }
    }
}

// ---------------------------------------------------------------------------
// Moving
// ---------------------------------------------------------------------------

pub open spec fn refreshing(v: AppModel) -> bool {
    v.background.periodic_refresh is InFlight
}

/// The client that will not use the refresh that is under way, but another one soon.
#[verifier::opaque]
pub open spec fn refresh_outdated(v: AppModel) -> AppModel {
    if refreshing(v) {
        AppModel {
            background: Background {
                refresh_generation: v.background.refresh_generation.wrapping_add(1),
                refresh_due: true,
                ..v.background
            },
            ..v
        }
    } else {
        v
    }
}

/// The client at another line of the tree.
#[verifier::opaque]
pub open spec fn at_line(v: AppModel, line: usize) -> AppModel {
    let next = AppModel {
        shown: Shown { selected_navigation: line, ..v.shown },
        search: Search::Inactive,
        ..v
    };
    if refreshing(v) {
        refresh_outdated(next)
    } else {
        first_do(next, Step::LoadNotes { persist: true, browse: true })
    }
}

/// The client at another note of the list.
#[verifier::opaque]
pub open spec fn at_note(v: AppModel, index: usize) -> AppModel {
    let next = AppModel { shown: Shown { selected_note_index: index, ..v.shown }, ..v };
    if refreshing(v) {
        refresh_outdated(next)
    } else {
        first_do2(next, Step::LoadSelected { persist: true }, Step::PersistSession)
    }
}

/// The preview scrolled by some lines.
#[verifier::opaque]
pub open spec fn preview_scrolled(v: AppModel, back: bool, lines: u16) -> AppModel {
    let scroll = if back {
        if v.shown.preview_scroll > lines {
            (v.shown.preview_scroll - lines) as u16
        } else {
            0
        }
    } else if v.shown.preview_scroll + lines > u16::MAX {
        u16::MAX
    } else {
        (v.shown.preview_scroll + lines) as u16
    };
    if scroll != v.shown.preview_scroll {
        first_do(AppModel {
            shown: Shown { preview_scroll: scroll, ..v.shown },
            ..v
        }, Step::PersistSession)
    } else {
        v
    }
}

/// One step back or on in the pane that has the focus.
#[verifier::opaque]
pub open spec fn stepped(v: AppModel, back: bool) -> AppModel {
    let delta = if back {
        -1int
    } else {
        1int
    };
    match v.shown.focus {
        Focus::Navigation => at_line(
            v,
            moved_index(v.shown.selected_navigation as int, v.data.navigation.len() as int, delta) as usize,
        ),
        Focus::Notes => at_note(
            v,
            moved_index(v.shown.selected_note_index as int, visible_ids(v).len() as int, delta) as usize,
        ),
        Focus::Preview => preview_scrolled(v, back, 3),
    }
}

/// To the first or the last in the pane that has the focus.
#[verifier::opaque]
pub open spec fn to_edge(v: AppModel, last: bool) -> AppModel {
    match v.shown.focus {
        Focus::Navigation => at_line(v, edge_of(v.data.navigation.len() as int, last) as usize),
        Focus::Notes => at_note(v, edge_of(visible_ids(v).len() as int, last) as usize),
        Focus::Preview => AppModel {
            shown: Shown {
                preview_scroll: if last {
                    u16::MAX
                } else {
                    0
                },
                ..v.shown
            },
            ..v
        },
    }
}

/// The selection opened.
#[verifier::opaque]
pub open spec fn activated(v: AppModel) -> AppModel {
    match v.shown.focus {
        Focus::Navigation => first_do(v, Step::LoadNotes { persist: true, browse: true }),
        Focus::Notes => first_do(v, Step::LoadSelected { persist: true }),
        Focus::Preview => v,
    }
}

/// The focus in another pane.
#[verifier::opaque]
pub open spec fn focused(v: AppModel, focus: Focus) -> AppModel {
    if v.shown.focus != focus {
        first_do(AppModel { shown: Shown { focus, ..v.shown }, ..v }, Step::PersistSession)
    } else {
        v
    }
}

impl App {
    pub fn periodic_refresh_in_flight(&self) -> (r: bool)
        ensures
            r == refreshing(self@),
    {
        match self.background.periodic_refresh {
            PeriodicRefreshState::InFlight { .. } => true,
            PeriodicRefreshState::Idle => false,
        }
    }

    fn invalidate_periodic_refresh_result(&mut self)
        ensures
            final(self)@ == refresh_outdated(old(self)@),
            old(self).wf() ==> final(self).wf(),
    {
        proof {
            reveal(refresh_outdated);
        }
        if self.periodic_refresh_in_flight() {
            self.background.refresh_generation = self.background.refresh_generation.wrapping_add(1);
            self.background.refresh_due = true;
        }
    }

    fn go_to_line(&mut self, line: usize)
        ensures
            final(self)@ == at_line(old(self)@, line),
            old(self).wf() ==> final(self).wf(),
    {
        proof {
            reveal(at_line);
        }
        self.shown.selected_navigation = line;
        self.search = SearchState::Inactive;
        if self.periodic_refresh_in_flight() {
            self.invalidate_periodic_refresh_result();
        } else {
            self.first_do(Step::LoadNotes { persist: true, browse: true });
        }
    }

    fn go_to_note(&mut self, index: usize)
        ensures
            final(self)@ == at_note(old(self)@, index),
            old(self).wf() ==> final(self).wf(),
    {
        proof {
            reveal(at_note);
        }
        self.shown.selected_note_index = index;
        if self.periodic_refresh_in_flight() {
            self.invalidate_periodic_refresh_result();
        } else {
            self.first_do2(Step::LoadSelected { persist: true }, Step::PersistSession);
        }
    }

    pub fn scroll_preview(&mut self, back: bool, lines: u16)
        ensures
            final(self)@ == preview_scrolled(old(self)@, back, lines),
            old(self).wf() ==> final(self).wf(),
    {
        proof {
            reveal(preview_scrolled);
        }
        let previous = self.shown.preview_scroll;
        self.shown.preview_scroll = if back {
            previous.saturating_sub(lines)
        } else {
            previous.saturating_add(lines)
        };
        if self.shown.preview_scroll != previous {
            self.first_do(Step::PersistSession);
        }
    }

    pub fn move_selection(&mut self, back: bool)
        ensures
            final(self)@ == stepped(old(self)@, back),
            old(self).wf() ==> final(self).wf(),
    {
        proof {
            reveal(stepped);
        }
        let delta: isize = if back {
            -1
        } else {
            1
        };
        match self.shown.focus {
            Focus::Navigation => {
                let line = move_index(self.shown.selected_navigation, self.data.navigation.len(), delta);
                self.go_to_line(line);
            },
            Focus::Notes => {
                let count = self.visible_note_count();
                let index = move_index(self.shown.selected_note_index, count, delta);
                self.go_to_note(index);
            },
            Focus::Preview => self.scroll_preview(back, 3),
        }
    }

    pub fn move_to_edge(&mut self, last: bool)
        ensures
            final(self)@ == to_edge(old(self)@, last),
            old(self).wf() ==> final(self).wf(),
    {
        proof {
            reveal(to_edge);
        }
        match self.shown.focus {
            Focus::Navigation => {
                let line = edge_index(self.data.navigation.len(), last);
                self.go_to_line(line);
            },
            Focus::Notes => {
                let count = self.visible_note_count();
                self.go_to_note(edge_index(count, last));
            },
            Focus::Preview => {
                self.shown.preview_scroll = if last {
                    u16::MAX
                } else {
                    0
                };
            },
        }
    }

    pub fn activate_selection(&mut self)
        ensures
            final(self)@ == activated(old(self)@),
            old(self).wf() ==> final(self).wf(),
    {
        proof {
            reveal(activated);
        }
        match self.shown.focus {
            Focus::Navigation => self.first_do(Step::LoadNotes { persist: true, browse: true }),
            Focus::Notes => self.first_do(Step::LoadSelected { persist: true }),
            Focus::Preview => {},
        }
    }

    pub fn set_browsing_focus(&mut self, focus: Focus)
        ensures
            final(self)@ == focused(old(self)@, focus),
            old(self).wf() ==> final(self).wf(),
    {
        proof {
            reveal(focused);
        }
        if self.shown.focus != focus {
            self.shown.focus = focus;
            self.first_do(Step::PersistSession);
        }
    }
}

} // verus!
