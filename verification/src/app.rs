//! The state of the client.

use std::sync::Arc;

use vstd::prelude::*;

use crate::config::{AppConfig, ConfigValueSource};
use crate::draft::{Draft, EditorRecoveryDraft};
use crate::edit::{EditModel, EditSession};
use crate::editor::editable;
use crate::jobs::NavigationRequest;
use crate::model::{
    clone_accounts, clone_folders, clone_note_ids, clone_summaries, find_summary, summary_at,
    Account, AccountId, BackendCapabilities, CachedState, Folder, FolderId, Note, NoteId,
    NoteSummary,
};
use crate::navigation::{item_context, NavigationItem, RefreshContext};
use crate::rows::RowCache;
use crate::session::{Session, SessionState};
use crate::text::owned;
use crate::workflow::{
    lemma_orders_push, orders_of, popup_sound, AppMode, Await, CachedPreviewState, DataSourceState,
    Focus, Order, OrderModel, PendingForegroundIntent, PeriodicRefreshState, Popup, PopupModel,
    RecoveredDraft, Search, SearchState, Status, StatusMessage, Step,
};

verus! {

/// The accounts, folders and notes at hand.
#[derive(Debug)]
pub struct Data {
    pub accounts: Vec<Account>,
    pub folders: Vec<Folder>,
    pub notes: Vec<NoteSummary>,
    pub rows: RowCache,
    pub navigation: Vec<NavigationItem>,
}

/// The model of the data at hand.
pub ghost struct DataModel {
    pub accounts: Seq<Account>,
    pub folders: Seq<Folder>,
    pub notes: Seq<NoteSummary>,
    pub rows: Map<Seq<char>, Seq<NoteSummary>>,
    pub navigation: Seq<NavigationItem>,
}

impl View for Data {
    type V = DataModel;

    open spec fn view(&self) -> DataModel {
        DataModel {
            accounts: self.accounts@,
            folders: self.folders@,
            notes: self.notes@,
            rows: self.rows@,
            navigation: self.navigation@,
        }
    }
}

/// What is on the screen.
#[derive(Debug)]
pub struct Shown {
    pub selected_note: Option<Arc<Note>>,
    pub cached_preview_state: Option<CachedPreviewState>,
    pub focus: Focus,
    pub selected_navigation: usize,
    pub selected_note_index: usize,
    pub preview_scroll: u16,
    pub show_help: bool,
    pub should_quit: bool,
    pub mode: AppMode,
    pub data_source: DataSourceState,
}

/// What the client was begun with.
#[derive(Debug)]
pub struct Preferences {
    pub has_cache: bool,
    pub capabilities: BackendCapabilities,
    pub refresh_interval: u64,
    pub auto_refresh: bool,
    pub preview_wrap: bool,
    pub show_attachment_metadata: bool,
    pub config_sources: [ConfigValueSource; 4],
    pub config_file_presence: [bool; 4],
    pub keeps_session: bool,
    pub keeps_draft: bool,
}

/// The session and the draft: what was found, what was written last, and what is being
/// written.
#[derive(Debug)]
pub struct Kept {
    pub pending_session: Option<SessionState>,
    pub last_session: Option<SessionState>,
    pub writing_session: Option<SessionState>,
    pub pending_draft: Option<Arc<RecoveredDraft>>,
    pub last_draft: Option<Arc<EditorRecoveryDraft>>,
    pub writing_draft: Option<Arc<EditorRecoveryDraft>>,
}

/// The model of session and draft.
pub ghost struct KeptModel {
    pub pending_session: Option<SessionState>,
    pub last_session: Option<Session>,
    pub writing_session: Option<Session>,
    pub pending_draft: Option<Arc<RecoveredDraft>>,
    pub last_draft: Option<Draft>,
    pub writing_draft: Option<Draft>,
}

impl View for Kept {
    type V = KeptModel;

    open spec fn view(&self) -> KeptModel {
        KeptModel {
            pending_session: self.pending_session,
            last_session: session_view(self.last_session),
            writing_session: session_view(self.writing_session),
            pending_draft: self.pending_draft,
            last_draft: draft_view(self.last_draft),
            writing_draft: draft_view(self.writing_draft),
        }
    }
}

/// What goes on beside the screen. Times are nanoseconds since the client began.
#[derive(Debug)]
pub struct Background {
    pub now: u128,
    pub last_refresh_attempt: u128,
    pub refresh_due: bool,
    pub refresh_generation: u64,
    pub periodic_refresh: PeriodicRefreshState,
    pub update_running: bool,
    pub pending_intent: Option<PendingForegroundIntent>,
    pub navigation_running: bool,
    pub navigation_generation: u64,
    pub pending_navigation: Option<NavigationRequest>,
    pub cache_warning: Option<String>,
    pub awaiting: Option<Await>,
}

/// Everything that the client knows.
#[derive(Debug)]
pub struct App {
    pub data: Data,
    pub shown: Shown,
    pub status: StatusMessage,
    pub edit: Option<EditSession>,
    pub popup: Option<Popup>,
    pub search: SearchState,
    pub prefs: Preferences,
    pub kept: Kept,
    pub background: Background,
    pub steps: Vec<Step>,
    pub orders: Vec<Order>,
}

/// The model of the client.
pub ghost struct AppModel {
    pub data: DataModel,
    pub shown: Shown,
    pub status: Status,
    pub edit: Option<EditModel>,
    pub popup: Option<PopupModel>,
    pub search: Search,
    pub prefs: Preferences,
    pub kept: KeptModel,
    pub background: Background,
    pub steps: Seq<Step>,
    pub orders: Seq<OrderModel>,
}

pub open spec fn session_view(s: Option<SessionState>) -> Option<Session> {
    match s {
        Some(s) => Some(s@),
        None => None,
    }
}

pub open spec fn draft_view(d: Option<Arc<EditorRecoveryDraft>>) -> Option<Draft> {
    match d {
        Some(d) => Some(d@),
        None => None,
    }
}

pub open spec fn edit_view(e: Option<EditSession>) -> Option<EditModel> {
    match e {
        Some(e) => Some(e@),
        None => None,
    }
}

pub open spec fn popup_view(p: Option<Popup>) -> Option<PopupModel> {
    match p {
        Some(p) => Some(p@),
        None => None,
    }
}

impl View for App {
    type V = AppModel;

    open spec fn view(&self) -> AppModel {
        AppModel {
            data: self.data@,
            shown: self.shown,
            status: self.status@,
            edit: edit_view(self.edit),
            popup: popup_view(self.popup),
            search: self.search@,
            prefs: self.prefs,
            kept: self.kept@,
            background: self.background,
            steps: self.steps@,
            orders: orders_of(self.orders@),
        }
    }
}

/// Whether the document of an edit under way can be edited, and a popup can go on.
pub open spec fn sound(v: AppModel) -> bool {
    &&& v.edit matches Some(e) ==> editable(e.document)
    &&& v.popup matches Some(p) ==> popup_sound(p)
}

impl App {
    pub open spec fn wf(&self) -> bool {
        sound(self@)
    }
}

// ---------------------------------------------------------------------------
// Beginning
// ---------------------------------------------------------------------------

/// Whether preferences are those of a client that was begun with a configuration.
pub open spec fn begun_with(
    p: Preferences,
    config: AppConfig,
    has_cache: bool,
    capabilities: BackendCapabilities,
) -> bool {
    &&& p.has_cache == has_cache
    &&& p.capabilities == capabilities
    &&& p.refresh_interval == config.refresh_interval
    &&& p.auto_refresh == config.auto_refresh
    &&& p.preview_wrap == config.preview_wrap
    &&& p.show_attachment_metadata == config.show_attachment_metadata
    &&& p.config_sources@ == seq![
        ConfigValueSource::Default,
        ConfigValueSource::Default,
        ConfigValueSource::Default,
        ConfigValueSource::Default,
    ]
    &&& p.config_file_presence@ == seq![false, false, false, false]
    &&& !p.keeps_session
    &&& !p.keeps_draft
}

/// A client that has read nothing yet.
pub open spec fn fresh(prefs: Preferences) -> AppModel {
    AppModel {
        data: DataModel {
            accounts: seq![],
            folders: seq![],
            notes: seq![],
            rows: Map::empty(),
            navigation: seq![],
        },
        shown: Shown {
            selected_note: None,
            cached_preview_state: None,
            focus: Focus::Navigation,
            selected_navigation: 0,
            selected_note_index: 0,
            preview_scroll: 0,
            show_help: false,
            should_quit: false,
            mode: AppMode::Normal,
            data_source: DataSourceState::Live,
        },
        status: Status { text: ""@, is_error: false },
        edit: None,
        popup: None,
        search: Search::Inactive,
        prefs,
        kept: KeptModel {
            pending_session: None,
            last_session: None,
            writing_session: None,
            pending_draft: None,
            last_draft: None,
            writing_draft: None,
        },
        background: Background {
            now: 0,
            last_refresh_attempt: 0,
            refresh_due: false,
            refresh_generation: 0,
            periodic_refresh: PeriodicRefreshState::Idle,
            update_running: false,
            pending_intent: None,
            navigation_running: false,
            navigation_generation: 0,
            pending_navigation: None,
            cache_warning: None,
            awaiting: None,
        },
        steps: seq![],
        orders: seq![],
    }
}

/// Whether a client is one that has read nothing yet.
pub open spec fn begun(
    v: AppModel,
    config: AppConfig,
    has_cache: bool,
    capabilities: BackendCapabilities,
) -> bool {
    v == fresh(v.prefs) && begun_with(v.prefs, config, has_cache, capabilities)
}

impl App {
    fn start(config: AppConfig, has_cache: bool, capabilities: BackendCapabilities) -> (r: Self)
        ensures
            begun(r@, config, has_cache, capabilities),
            r.wf(),
    {
        let d = ConfigValueSource::Default;
        let r = App {
            data: Data {
                accounts: Vec::new(),
                folders: Vec::new(),
                notes: Vec::new(),
                rows: RowCache::new(),
                navigation: Vec::new(),
            },
            shown: Shown {
                selected_note: None,
                cached_preview_state: None,
                focus: Focus::Navigation,
                selected_navigation: 0,
                selected_note_index: 0,
                preview_scroll: 0,
                show_help: false,
                should_quit: false,
                mode: AppMode::Normal,
                data_source: DataSourceState::Live,
            },
            status: StatusMessage::default(),
            edit: None,
            popup: None,
            search: SearchState::Inactive,
            prefs: Preferences {
                has_cache,
                capabilities,
                refresh_interval: config.refresh_interval,
                auto_refresh: config.auto_refresh,
                preview_wrap: config.preview_wrap,
                show_attachment_metadata: config.show_attachment_metadata,
                config_sources: [d, d, d, d],
                config_file_presence: [false, false, false, false],
                keeps_session: false,
                keeps_draft: false,
            },
            kept: Kept {
                pending_session: None,
                last_session: None,
                writing_session: None,
                pending_draft: None,
                last_draft: None,
                writing_draft: None,
            },
            background: Background {
                now: 0,
                last_refresh_attempt: 0,
                refresh_due: false,
                refresh_generation: 0,
                periodic_refresh: PeriodicRefreshState::Idle,
                update_running: false,
                pending_intent: None,
                navigation_running: false,
                navigation_generation: 0,
                pending_navigation: None,
                cache_warning: None,
                awaiting: None,
            },
            steps: Vec::new(),
            orders: Vec::new(),
        };
        proof {
            assert(r@.orders =~= Seq::<OrderModel>::empty());
            assert(r@.prefs.config_sources@ =~= seq![d, d, d, d]);
            assert(r@.prefs.config_file_presence@ =~= seq![false, false, false, false]);
            assert(r@.data.accounts =~= Seq::<Account>::empty());
            assert(r@.data.folders =~= Seq::<Folder>::empty());
            assert(r@.data.notes =~= Seq::<NoteSummary>::empty());
            assert(r@.data.navigation =~= Seq::<NavigationItem>::empty());
            assert(r@.steps =~= Seq::<Step>::empty());
        }
        r
    }

    /// A client without a cache, with the default preferences.
    pub fn new(capabilities: BackendCapabilities) -> (r: Self)
        ensures
            begun(r@, crate::config::default_config(), false, capabilities),
            r.wf(),
    {
        App::start(AppConfig::default(), false, capabilities)
    }

    /// A client without a cache.
    pub fn with_config(capabilities: BackendCapabilities, config: AppConfig) -> (r: Self)
        ensures
            begun(r@, config, false, capabilities),
            r.wf(),
    {
        App::start(config, false, capabilities)
    }

    /// A client with a cache, with the default preferences.
    pub fn with_cache(capabilities: BackendCapabilities) -> (r: Self)
        ensures
            begun(r@, crate::config::default_config(), true, capabilities),
            r.wf(),
    {
        App::start(AppConfig::default(), true, capabilities)
    }

    /// A client with a cache.
    pub fn with_cache_and_config(capabilities: BackendCapabilities, config: AppConfig) -> (r: Self)
        ensures
            begun(r@, config, true, capabilities),
            r.wf(),
    {
        App::start(config, true, capabilities)
    }

    pub fn set_refresh_interval(&mut self, refresh_interval: u64)
        ensures
            final(self)@ == (AppModel {
                prefs: Preferences { refresh_interval, ..old(self)@.prefs },
                ..old(self)@
            }),
            old(self).wf() ==> final(self).wf(),
    {
        self.prefs.refresh_interval = refresh_interval;
    }

    /// Where the preferences come from, and which of them the config file holds. Both
    /// stand in the order of the settings: auto refresh, refresh interval, preview wrap,
    /// attachment metadata.
    pub fn set_config_metadata(&mut self, sources: [ConfigValueSource; 4], file_presence: [bool; 4])
        ensures
            final(self)@ == (AppModel {
                prefs: Preferences {
                    config_sources: sources,
                    config_file_presence: file_presence,
                    ..old(self)@.prefs
                },
                ..old(self)@
            }),
            old(self).wf() ==> final(self).wf(),
    {
        self.prefs.config_sources = sources;
        self.prefs.config_file_presence = file_presence;
    }

    /// The session to return to; from now on it is kept.
    pub fn set_session_state(&mut self, session: Option<SessionState>)
        ensures
            final(self)@ == (AppModel {
                prefs: Preferences { keeps_session: true, ..old(self)@.prefs },
                kept: KeptModel {
                    pending_session: session,
                    last_session: session_view(session),
                    ..old(self)@.kept
                },
                ..old(self)@
            }),
            old(self).wf() ==> final(self).wf(),
    {
        self.prefs.keeps_session = true;
        self.kept.last_session = match &session {
            Some(s) => Some(s.clone()),
            None => None,
        };
        self.kept.pending_session = session;
    }

    /// The draft that was found; from now on drafts are kept.
    pub fn set_editor_draft_state(&mut self, draft: Option<Arc<RecoveredDraft>>)
        ensures
            final(self)@ == (AppModel {
                prefs: Preferences { keeps_draft: true, ..old(self)@.prefs },
                kept: KeptModel { pending_draft: draft, last_draft: None, ..old(self)@.kept },
                ..old(self)@
            }),
            old(self).wf() ==> final(self).wf(),
    {
        self.prefs.keeps_draft = true;
        self.kept.pending_draft = draft;
        self.kept.last_draft = None;
    }

    /// The time.
    pub fn set_now(&mut self, now: u128)
        ensures
            final(self)@ == (AppModel {
                background: Background { now, ..old(self)@.background },
                ..old(self)@
            }),
            old(self).wf() ==> final(self).wf(),
    {
        self.background.now = now;
    }
}

// ---------------------------------------------------------------------------
// Telling, planning, ordering
// ---------------------------------------------------------------------------

/// The client with a message that is no error.
pub open spec fn say(v: AppModel, text: Seq<char>) -> AppModel {
    AppModel { status: Status { text, is_error: false }, ..v }
}

/// The client with a message that is an error.
pub open spec fn complain(v: AppModel, text: Seq<char>) -> AppModel {
    AppModel { status: Status { text, is_error: true }, ..v }
}

/// The client with a step to do first.
pub open spec fn first_do(v: AppModel, a: Step) -> AppModel {
    AppModel { steps: v.steps.push(a), ..v }
}

/// The client with two steps to do first, in this order.
pub open spec fn first_do2(v: AppModel, a: Step, b: Step) -> AppModel {
    first_do(first_do(v, b), a)
}

/// The client with three steps to do first, in this order.
pub open spec fn first_do3(v: AppModel, a: Step, b: Step, c: Step) -> AppModel {
    first_do(first_do2(v, b, c), a)
}

/// The client with four steps to do first, in this order.
pub open spec fn first_do4(v: AppModel, a: Step, b: Step, c: Step, d: Step) -> AppModel {
    first_do(first_do3(v, b, c, d), a)
}

/// The client with five steps to do first, in this order.
pub open spec fn first_do5(v: AppModel, a: Step, b: Step, c: Step, d: Step, e: Step) -> AppModel {
    first_do(first_do4(v, b, c, d, e), a)
}

/// The client with something more to be done in the background.
pub open spec fn with_order(v: AppModel, order: OrderModel) -> AppModel {
    AppModel { orders: v.orders.push(order), ..v }
}

impl App {
    pub fn say(&mut self, text: String)
        ensures
            final(self)@ == say(old(self)@, text@),
            old(self).wf() ==> final(self).wf(),
    {
        self.status = StatusMessage { text, is_error: false };
    }

    pub fn complain(&mut self, text: String)
        ensures
            final(self)@ == complain(old(self)@, text@),
            old(self).wf() ==> final(self).wf(),
    {
        self.status = StatusMessage { text, is_error: true };
    }

    pub fn first_do(&mut self, a: Step)
        ensures
            final(self)@ == first_do(old(self)@, a),
            old(self).wf() ==> final(self).wf(),
    {
        self.steps.push(a);
    }

    pub fn first_do2(&mut self, a: Step, b: Step)
        ensures
            final(self)@ == first_do2(old(self)@, a, b),
            old(self).wf() ==> final(self).wf(),
    {
        self.first_do(b);
        self.first_do(a);
    }

    pub fn first_do3(&mut self, a: Step, b: Step, c: Step)
        ensures
            final(self)@ == first_do3(old(self)@, a, b, c),
            old(self).wf() ==> final(self).wf(),
    {
        self.first_do2(b, c);
        self.first_do(a);
    }

    pub fn first_do4(&mut self, a: Step, b: Step, c: Step, d: Step)
        ensures
            final(self)@ == first_do4(old(self)@, a, b, c, d),
            old(self).wf() ==> final(self).wf(),
    {
        self.first_do3(b, c, d);
        self.first_do(a);
    }

    pub fn first_do5(&mut self, a: Step, b: Step, c: Step, d: Step, e: Step)
        ensures
            final(self)@ == first_do5(old(self)@, a, b, c, d, e),
            old(self).wf() ==> final(self).wf(),
    {
        self.first_do4(b, c, d, e);
        self.first_do(a);
    }

    pub fn order(&mut self, order: Order)
        ensures
            final(self)@ == with_order(old(self)@, order@),
            old(self).wf() ==> final(self).wf(),
    {
        proof {
            lemma_orders_push(self.orders@, order);
        }
        self.orders.push(order);
    }

    /// What is to be done in the background, handed over once.
    pub fn take_orders(&mut self) -> (r: Vec<Order>)
        ensures
            orders_of(r@) == old(self)@.orders,
            final(self)@ == (AppModel { orders: seq![], ..old(self)@ }),
            old(self).wf() ==> final(self).wf(),
    {
        let mut out: Vec<Order> = Vec::new();
        std::mem::swap(&mut out, &mut self.orders);
        assert(orders_of(self.orders@) =~= Seq::<OrderModel>::empty());
        out
    }
}

/// The client with an error of the notes service on the screen. Where the data comes
/// from the cache, the error also tells why.
pub open spec fn with_error(v: AppModel, message: String) -> AppModel {
    match v.shown.data_source {
        DataSourceState::Live => complain(v, "ERROR: "@ + message@),
        _ => complain(
            AppModel {
                shown: Shown {
                    data_source: DataSourceState::CachedBackendUnavailable { message },
                    ..v.shown
                },
                ..v
            },
            "Cached · backend unavailable: "@ + message@,
        ),
    }
}

/// The client with a refusal on the screen where its data comes from the cache.
pub open spec fn refused_offline(v: AppModel) -> AppModel {
    complain(v, "Live Notes backend unavailable; cached mode is read-only"@)
}

impl App {
    pub fn is_live(&self) -> (r: bool)
        ensures
            r == (self@.shown.data_source is Live),
    {
        match self.shown.data_source {
            DataSourceState::Live => true,
            _ => false,
        }
    }

    pub fn set_error(&mut self, message: String)
        ensures
            final(self)@ == with_error(old(self)@, message),
            old(self).wf() ==> final(self).wf(),
    {
        if self.is_live() {
            self.complain(crate::text::cat("ERROR: ", message.as_str()));
        } else {
            let text = crate::text::cat("Cached · backend unavailable: ", message.as_str());
            self.shown.data_source = DataSourceState::CachedBackendUnavailable { message };
            self.complain(text);
        }
    }

    pub fn require_live_backend(&mut self) -> (r: bool)
        ensures
            r == (old(self)@.shown.data_source is Live),
            final(self)@ == if r {
                old(self)@
            } else {
                refused_offline(old(self)@)
            },
            old(self).wf() ==> final(self).wf(),
    {
        if self.is_live() {
            return true;
        }
        self.complain(owned("Live Notes backend unavailable; cached mode is read-only"));
        false
    }
}

// ---------------------------------------------------------------------------
// What is selected
// ---------------------------------------------------------------------------

/// The line that is selected in the tree.
pub open spec fn selected_item(v: AppModel) -> Option<NavigationItem> {
    if v.shown.selected_navigation < v.data.navigation.len() {
        Some(v.data.navigation[v.shown.selected_navigation as int])
    } else {
        None
    }
}

/// The account or folder that is selected.
pub open spec fn shown_context(v: AppModel) -> Option<RefreshContext> {
    match selected_item(v) {
        Some(item) => Some(item_context(item)),
        None => None,
    }
}

/// The folder that is selected.
pub open spec fn shown_folder(v: AppModel) -> Option<FolderId> {
    match selected_item(v) {
        Some(NavigationItem::Folder { id, .. }) => Some(id),
        _ => None,
    }
}

/// The account of the line that is selected.
pub open spec fn shown_account(v: AppModel) -> Option<AccountId> {
    match selected_item(v) {
        Some(NavigationItem::Account { id, .. }) => Some(id),
        Some(NavigationItem::Folder { account_id, .. }) => Some(account_id),
        None => None,
    }
}

/// The notes of the list, as the search leaves them.
pub open spec fn visible_ids(v: AppModel) -> Seq<NoteId> {
    match v.search {
        Search::Active(a) => a.visible,
        Search::Editing { previous: Some(a), .. } => a.visible,
        _ => Seq::new(v.data.notes.len(), |i: int| v.data.notes[i].id),
    }
}

/// The note at a position of the list.
pub open spec fn visible_note(v: AppModel, index: int) -> Option<NoteSummary> {
    let ids = visible_ids(v);
    if 0 <= index < ids.len() {
        let k = summary_at(v.data.notes, ids[index]@) as int;
        if k < v.data.notes.len() {
            Some(v.data.notes[k])
        } else {
            None
        }
    } else {
        None
    }
}

/// The note that is selected: the one on the screen, else the one in the list.
pub open spec fn chosen_id(v: AppModel) -> Option<NoteId> {
    match v.shown.selected_note {
        Some(note) => Some(note.summary.id),
        None => match visible_note(v, v.shown.selected_note_index as int) {
            Some(summary) => Some(summary.id),
            None => None,
        },
    }
}

pub open spec fn id_view(id: Option<NoteId>) -> Option<Seq<char>> {
    match id {
        Some(id) => Some(id@),
        None => None,
    }
}

impl App {
    pub fn refresh_context(&self) -> (r: Option<RefreshContext>)
        ensures
            r == shown_context(self@),
    {
        if self.shown.selected_navigation < self.data.navigation.len() {
            Some(self.data.navigation[self.shown.selected_navigation].context())
        } else {
            None
        }
    }

    pub fn selected_folder_id(&self) -> (r: Option<&FolderId>)
        ensures
            match r {
                Some(id) => shown_folder(self@) == Some(*id),
                None => shown_folder(self@) is None,
            },
    {
        if self.shown.selected_navigation < self.data.navigation.len() {
            match &self.data.navigation[self.shown.selected_navigation] {
                NavigationItem::Folder { id, .. } => Some(id),
                _ => None,
            }
        } else {
            None
        }
    }

    pub fn selected_account_id(&self) -> (r: Option<AccountId>)
        ensures
            r == shown_account(self@),
    {
        if self.shown.selected_navigation < self.data.navigation.len() {
            match &self.data.navigation[self.shown.selected_navigation] {
                NavigationItem::Account { id, .. } => Some(id.clone()),
                NavigationItem::Folder { account_id, .. } => Some(account_id.clone()),
            }
        } else {
            None
        }
    }

    pub fn visible_note_ids(&self) -> (r: Vec<NoteId>)
        ensures
            r@ == visible_ids(self@),
    {
        match &self.search {
            SearchState::Active(active) => clone_note_ids(&active.visible_ids),
            SearchState::Editing { previous_active: Some(active), .. } => clone_note_ids(
                &active.visible_ids,
            ),
            _ => {
                let mut out: Vec<NoteId> = Vec::new();
                let mut i: usize = 0;
                while i < self.data.notes.len()
                    invariant
                        i <= self.data.notes@.len(),
                        out@.len() == i,
                        forall|k: int| 0 <= k < i ==> #[trigger] out@[k] == self.data.notes@[k].id,
                    decreases self.data.notes@.len() - i,
                {
                    out.push(self.data.notes[i].id.clone());
                    i = i + 1;
                }
                assert(out@ =~= Seq::new(self.data.notes@.len(), |i: int| self.data.notes@[i].id));
                out
            },
        }
    }

    pub fn visible_note_count(&self) -> (r: usize)
        ensures
            r == visible_ids(self@).len(),
    {
        match &self.search {
            SearchState::Active(active) => active.visible_ids.len(),
            SearchState::Editing { previous_active: Some(active), .. } => active.visible_ids.len(),
            _ => self.data.notes.len(),
        }
    }

    pub fn visible_note(&self, index: usize) -> (r: Option<&NoteSummary>)
        ensures
            match r {
                Some(note) => visible_note(self@, index as int) == Some(*note),
                None => visible_note(self@, index as int) is None,
            },
    {
        let ids = self.visible_note_ids();
        if index >= ids.len() {
            return None;
        }
        match find_summary(&self.data.notes, &ids[index]) {
            Some(i) => Some(&self.data.notes[i]),
            None => None,
        }
    }

    pub fn selected_note_id(&self) -> (r: Option<NoteId>)
        ensures
            r == chosen_id(self@),
    {
        if let Some(note) = &self.shown.selected_note {
            return Some(note.summary.id.clone());
        }
        match self.visible_note(self.shown.selected_note_index) {
            Some(summary) => Some(summary.id.clone()),
            None => None,
        }
    }

    /// What the cache is to list.
    pub fn cached_state(&self) -> (r: CachedState)
        ensures
            r.accounts@ == self@.data.accounts,
            r.folders@ == self@.data.folders,
            r.notes@ == self@.data.notes,
    {
        CachedState {
            accounts: clone_accounts(&self.data.accounts),
            folders: clone_folders(&self.data.folders),
            notes: clone_summaries(&self.data.notes),
        }
    }
}

// ---------------------------------------------------------------------------
// Keeping a selection
// ---------------------------------------------------------------------------

/// The position of a note in a list, or the first where it is not there.
pub open spec fn place_of(ids: Seq<NoteId>, wish: Option<NoteId>) -> usize {
    match wish {
        Some(id) => {
            let i = crate::navigation::first_index(ids, |x: NoteId| x@ == id@);
            if i < ids.len() {
                i as usize
            } else {
                0
            }
        },
        None => 0,
    }
}

/// The client with a note selected in the list, where it is there; else the first. A
/// note on the screen that is not the selected one goes.
#[verifier::opaque]
pub open spec fn reselected(v: AppModel, wish: Option<NoteId>) -> AppModel {
    let at = place_of(visible_ids(v), wish);
    let there = visible_note(v, at as int);
    AppModel {
        shown: Shown {
            selected_note_index: at,
            selected_note: match (v.shown.selected_note, there) {
                (Some(note), Some(summary)) => if summary.id@ == note.summary.id@ {
                    Some(note)
                } else {
                    None
                },
                _ => None,
            },
            ..v.shown
        },
        ..v
    }
}

pub fn find_id(ids: &Vec<NoteId>, id: &NoteId) -> (r: Option<usize>)
    ensures
        ({
            let i = crate::navigation::first_index(ids@, |x: NoteId| x@ == id@);
            match r {
                Some(k) => k < ids@.len() && k == i,
                None => i == ids@.len(),
            }
        }),
{
    let ghost fits = |x: NoteId| x@ == id@;
    let mut i: usize = 0;
    while i < ids.len()
        invariant
            i <= ids@.len(),
            fits == (|x: NoteId| x@ == id@),
            forall|k: int| 0 <= k < i ==> !fits(#[trigger] ids@[k]),
        decreases ids@.len() - i,
    {
        if ids[i].same(id) {
            proof {
                crate::navigation::lemma_first_index(ids@, fits, i as int);
            }
            return Some(i);
        }
        i = i + 1;
    }
    proof {
        crate::navigation::lemma_first_index(ids@, fits, i as int);
    }
    None
}

impl App {
    pub fn restore_visible_selection(&mut self, preferred: &Option<NoteId>)
        ensures
            final(self)@ == reselected(old(self)@, *preferred),
            old(self).wf() ==> final(self).wf(),
    {
        proof {
            reveal(reselected);
        }
        let ids = self.visible_note_ids();
        let at: usize = match preferred {
            Some(id) => match find_id(&ids, id) {
                Some(i) => i,
                None => 0,
            },
            None => 0,
        };
        self.shown.selected_note_index = at;
        let ghost mid = self@;
        assert(visible_note(mid, at as int) == visible_note(old(self)@, at as int));
        let keep = match &self.shown.selected_note {
            Some(note) => match self.visible_note(at) {
                Some(summary) => summary.id.same(&note.summary.id),
                None => false,
            },
            None => true,
        };
        if !keep {
            self.shown.selected_note = None;
        }
    }
}

} // verus!
