//! What the client can be in the middle of: popups, searches, pending work, and what it
//! asks of the program around it.

use std::sync::Arc;

use vstd::prelude::*;

use crate::config::{AppConfig, ConfigEditValue};
use crate::document::{Piece, RichDocument};
use crate::draft::EditorRecoveryDraft;
use crate::editor::EditorTarget;
use crate::jobs::{
    LiveRead, LiveRefreshRead, NavigationJob, NavigationWorkerResult, ReadFailure, RefreshJob,
    UpdateJob, UpdateWorkerResult, WorkerRefreshResult,
};
use crate::keys::KeyEvent;
use crate::model::{
    AccountId, AttachmentId, AttachmentUnavailableReason, CachedState, Folder, FolderId,
    FolderParent, Note, NoteDate, NoteId, NotesError, NotesPage, NotesQuery, RichFeature,
};
use crate::navigation::FolderReparentTarget;
use crate::session::SessionFocus;

verus! {

// ---------------------------------------------------------------------------
// What is shown
// ---------------------------------------------------------------------------

/// The pane that keys go to.
#[derive(Clone, Copy, Debug, PartialEq, Eq, Structural)]
pub enum Focus {
    Navigation,
    Notes,
    Preview,
}

pub open spec fn focus_after(f: Focus) -> Focus {
    match f {
        Focus::Navigation => Focus::Notes,
        Focus::Notes => Focus::Preview,
        Focus::Preview => Focus::Navigation,
    }
}

pub open spec fn focus_before(f: Focus) -> Focus {
    match f {
        Focus::Navigation => Focus::Preview,
        Focus::Notes => Focus::Navigation,
        Focus::Preview => Focus::Notes,
    }
}

pub open spec fn focus_saved(f: Focus) -> SessionFocus {
    match f {
        Focus::Navigation => SessionFocus::Navigation,
        Focus::Notes => SessionFocus::Notes,
        Focus::Preview => SessionFocus::Preview,
    }
}

pub open spec fn focus_restored(f: SessionFocus) -> Focus {
    match f {
        SessionFocus::Navigation => Focus::Navigation,
        SessionFocus::Notes => Focus::Notes,
        SessionFocus::Preview => Focus::Preview,
    }
}

impl Focus {
    pub fn session_focus(self) -> (r: SessionFocus)
        ensures
            r == focus_saved(self),
    {
        match self {
            Focus::Navigation => SessionFocus::Navigation,
            Focus::Notes => SessionFocus::Notes,
            Focus::Preview => SessionFocus::Preview,
        }
    }

    pub fn from_session_focus(focus: SessionFocus) -> (r: Self)
        ensures
            r == focus_restored(focus),
    {
        match focus {
            SessionFocus::Navigation => Focus::Navigation,
            SessionFocus::Notes => Focus::Notes,
            SessionFocus::Preview => Focus::Preview,
        }
    }

    pub fn next(self) -> (r: Self)
        ensures
            r == focus_after(self),
    {
        match self {
            Focus::Navigation => Focus::Notes,
            Focus::Notes => Focus::Preview,
            Focus::Preview => Focus::Navigation,
        }
    }

    pub fn previous(self) -> (r: Self)
        ensures
            r == focus_before(self),
    {
        match self {
            Focus::Navigation => Focus::Preview,
            Focus::Notes => Focus::Navigation,
            Focus::Preview => Focus::Notes,
        }
    }
}

/// Going to the next pane and back stays in place, both ways round, and three steps on
/// come round again.
pub proof fn law_panes_form_a_ring(f: Focus)
    ensures
        focus_before(focus_after(f)) == f,
        focus_after(focus_before(f)) == f,
        focus_after(focus_after(focus_after(f))) == f,
{
}

/// A pane that is saved with the session is the pane that is restored.
pub proof fn law_saved_pane_is_restored(f: Focus, s: SessionFocus)
    ensures
        focus_restored(focus_saved(f)) == f,
        focus_saved(focus_restored(s)) == s,
{
}

/// Whether keys are commands or text.
#[derive(Clone, Copy, Debug, PartialEq, Eq, Structural)]
pub enum AppMode {
    Normal,
    Insert,
}

/// Where the data on the screen comes from.
#[derive(Clone, Debug, PartialEq, Eq)]
pub enum DataSourceState {
    Live,
    Cached,
    CachedBackendUnavailable { message: String },
}

/// Why a note of the cache has no preview.
#[derive(Clone, Debug, PartialEq, Eq)]
pub enum CachedPreviewState {
    MissingFullNote,
    ReadError(String),
}

/// The message at the bottom of the screen.
#[derive(Clone, Debug, PartialEq, Eq)]
pub struct StatusMessage {
    pub text: String,
    pub is_error: bool,
}

/// The model of that message.
#[verifier::ext_equal]
pub ghost struct Status {
    pub text: Seq<char>,
    pub is_error: bool,
}

impl View for StatusMessage {
    type V = Status;

    open spec fn view(&self) -> Status {
        Status { text: self.text@, is_error: self.is_error }
    }
}

impl Default for StatusMessage {
    fn default() -> (r: Self)
        ensures
            r@ == (Status { text: ""@, is_error: false }),
    {
        StatusMessage { text: crate::text::owned(""), is_error: false }
    }
}

// ---------------------------------------------------------------------------
// Searching
// ---------------------------------------------------------------------------

/// A search that is in force: its query, and the notes that it shows.
#[derive(Clone, Debug, PartialEq, Eq)]
pub struct ActiveSearch {
    pub query: String,
    pub visible_ids: Vec<NoteId>,
}

/// The search of the list of notes.
#[derive(Clone, Debug, PartialEq, Eq)]
pub enum SearchState {
    Inactive,
    Editing { input: String, previous_active: Option<ActiveSearch> },
    Active(ActiveSearch),
}

/// The model of a search that is in force.
#[verifier::ext_equal]
pub ghost struct Active {
    pub query: Seq<char>,
    pub visible: Seq<NoteId>,
}

/// The model of a search.
#[verifier::ext_equal]
pub ghost enum Search {
    Inactive,
    Editing { input: Seq<char>, previous: Option<Active> },
    Active(Active),
}

impl View for ActiveSearch {
    type V = Active;

    open spec fn view(&self) -> Active {
        Active { query: self.query@, visible: self.visible_ids@ }
    }
}

impl View for SearchState {
    type V = Search;

    open spec fn view(&self) -> Search {
        match *self {
            SearchState::Inactive => Search::Inactive,
            SearchState::Editing { input, previous_active } => Search::Editing {
                input: input@,
                previous: match previous_active {
                    Some(a) => Some(a@),
                    None => None,
                },
            },
            SearchState::Active(a) => Search::Active(a@),
        }
    }
}

// ---------------------------------------------------------------------------
// Popups
// ---------------------------------------------------------------------------

/// What has been done to a preference in the settings, and not saved.
#[derive(Clone, Copy, Debug, PartialEq, Eq, Structural)]
pub enum SettingDraft {
    Unchanged,
    Assign(ConfigEditValue),
    Unset,
}

/// The settings, while they are open.
#[derive(Debug)]
pub struct SettingsState {
    pub selected: usize,
    pub draft: AppConfig,
    pub staged: [SettingDraft; 4],
    pub interval_input: Option<String>,
    pub error: Option<String>,
}

/// The model of the settings.
#[verifier::ext_equal]
pub ghost struct Settings {
    pub selected: usize,
    pub draft: AppConfig,
    pub staged: Seq<SettingDraft>,
    pub interval_input: Option<Seq<char>>,
    pub error: Option<Seq<char>>,
}

pub open spec fn text_view(text: Option<String>) -> Option<Seq<char>> {
    match text {
        Some(s) => Some(s@),
        None => None,
    }
}

impl View for SettingsState {
    type V = Settings;

    open spec fn view(&self) -> Settings {
        Settings {
            selected: self.selected,
            draft: self.draft,
            staged: self.staged@,
            interval_input: text_view(self.interval_input),
            error: text_view(self.error),
        }
    }
}

/// Whether settings can go on: a preference is selected, and what is staged for each is of
/// its type. The refresh interval is the second of the preferences.
pub open spec fn settings_sound(s: Settings) -> bool {
    &&& s.selected < 4
    &&& s.staged.len() == 4
    &&& forall|i: int|
        0 <= i < 4 ==> (#[trigger] s.staged[i] matches SettingDraft::Assign(value) ==> (i == 1
            <==> value is RefreshIntervalSeconds))
}

/// What is done once unsaved changes are discarded.
#[derive(Clone, Copy, Debug, PartialEq, Eq, Structural)]
pub enum PendingAction {
    Quit,
    Key(KeyEvent),
}

/// A draft that was found, with what its original body reads as, where it can be read.
#[derive(Debug)]
pub struct RecoveredDraft {
    pub draft: EditorRecoveryDraft,
    pub original_body: Option<RichDocument>,
}

/// A popup over the screen.
#[derive(Debug)]
pub enum Popup {
    CreateFolder { account_id: AccountId, name: String, cursor: usize },
    CreateChildFolder {
        account_id: AccountId,
        parent_folder_id: FolderId,
        parent_folder_name: String,
        name: String,
        cursor: usize,
    },
    RenameFolder {
        account_id: AccountId,
        folder_id: FolderId,
        original_name: String,
        name: String,
        cursor: usize,
    },
    ReparentFolder {
        account_id: AccountId,
        folder_id: FolderId,
        source_folder_name: String,
        original_parent: FolderParent,
        destinations: Vec<FolderReparentTarget>,
        selected_destination: usize,
    },
    Conflict(Arc<Note>),
    Move { selected: usize },
    Attachments { selected: usize },
    Discard { action: PendingAction },
    Link { target: EditorTarget, url: String },
    DeleteConfirm(Arc<Note>),
    DeleteFolder { account_id: AccountId, folder_id: FolderId, folder_name: String },
    Settings(SettingsState),
    DraftRecovery { draft: Arc<RecoveredDraft>, recoverable: bool },
}

/// The model of a popup.
#[verifier::ext_equal]
pub ghost enum PopupModel {
    CreateFolder { account_id: AccountId, name: Seq<char>, cursor: usize },
    CreateChildFolder {
        account_id: AccountId,
        parent_folder_id: FolderId,
        parent_folder_name: String,
        name: Seq<char>,
        cursor: usize,
    },
    RenameFolder {
        account_id: AccountId,
        folder_id: FolderId,
        original_name: String,
        name: Seq<char>,
        cursor: usize,
    },
    ReparentFolder {
        account_id: AccountId,
        folder_id: FolderId,
        source_folder_name: String,
        original_parent: FolderParent,
        destinations: Seq<FolderReparentTarget>,
        selected_destination: usize,
    },
    Conflict(Arc<Note>),
    Move { selected: usize },
    Attachments { selected: usize },
    Discard { action: PendingAction },
    Link { target: EditorTarget, url: Seq<char> },
    DeleteConfirm(Arc<Note>),
    DeleteFolder { account_id: AccountId, folder_id: FolderId, folder_name: String },
    Settings(Settings),
    DraftRecovery { draft: Arc<RecoveredDraft>, recoverable: bool },
}

impl View for Popup {
    type V = PopupModel;

    open spec fn view(&self) -> PopupModel {
        match *self {
            Popup::CreateFolder { account_id, name, cursor } => PopupModel::CreateFolder {
                account_id,
                name: name@,
                cursor,
            },
            Popup::CreateChildFolder {
                account_id,
                parent_folder_id,
                parent_folder_name,
                name,
                cursor,
            } => PopupModel::CreateChildFolder {
                account_id,
                parent_folder_id,
                parent_folder_name,
                name: name@,
                cursor,
            },
            Popup::RenameFolder { account_id, folder_id, original_name, name, cursor } =>
                PopupModel::RenameFolder {
                account_id,
                folder_id,
                original_name,
                name: name@,
                cursor,
            },
            Popup::ReparentFolder {
                account_id,
                folder_id,
                source_folder_name,
                original_parent,
                destinations,
                selected_destination,
            } => PopupModel::ReparentFolder {
                account_id,
                folder_id,
                source_folder_name,
                original_parent,
                destinations: destinations@,
                selected_destination,
            },
            Popup::Conflict(note) => PopupModel::Conflict(note),
            Popup::Move { selected } => PopupModel::Move { selected },
            Popup::Attachments { selected } => PopupModel::Attachments { selected },
            Popup::Discard { action } => PopupModel::Discard { action },
            Popup::Link { target, url } => PopupModel::Link { target, url: url@ },
            Popup::DeleteConfirm(note) => PopupModel::DeleteConfirm(note),
            Popup::DeleteFolder { account_id, folder_id, folder_name } =>
                PopupModel::DeleteFolder { account_id, folder_id, folder_name },
            Popup::Settings(settings) => PopupModel::Settings(settings@),
            Popup::DraftRecovery { draft, recoverable } => PopupModel::DraftRecovery {
                draft,
                recoverable,
            },
        }
    }
}

/// Whether a popup can go on.
pub open spec fn popup_sound(p: PopupModel) -> bool {
    p matches PopupModel::Settings(s) ==> settings_sound(s)
}

// ---------------------------------------------------------------------------
// Pending work
// ---------------------------------------------------------------------------

/// What the user asked for while a refresh was under way.
#[derive(Clone, Debug, PartialEq, Eq)]
pub enum PendingForegroundIntent {
    ManualRefresh,
    BeginNew,
    BeginCreateFolder,
    BeginCreateChildFolder {
        account_id: AccountId,
        parent_folder_id: FolderId,
        parent_folder_name: String,
    },
    BeginReparentFolder { account_id: AccountId, folder_id: FolderId, folder_name: String },
    BeginEdit,
    BeginMove,
    BeginDelete,
    BeginDeleteFolder,
    BeginAttachments,
    ActivateSelection,
}

/// Why a refresh was begun.
#[derive(Clone, Copy, Debug, PartialEq, Eq, Structural)]
pub enum RefreshOrigin {
    Startup,
    Automatic,
    Manual,
}

/// Whether a refresh is under way in the background.
#[derive(Clone, Copy, Debug, PartialEq, Eq, Structural)]
pub enum PeriodicRefreshState {
    Idle,
    InFlight { origin: RefreshOrigin, generation: u64, cancel_requested: bool },
}

/// What is told once something is done.
#[derive(Debug, PartialEq, Eq)]
pub enum Message {
    Saved,
    MovedTo(String),
    MovedToDeleted,
    CreatedFolder(String),
    CreatedSubfolder(String),
    RenamedFolder(String),
    MovedFolder(String),
    DeletedFolder,
    EditCancelled,
}

pub open spec fn message_text(m: Message) -> Seq<char> {
    match m {
        Message::Saved => "Saved"@,
        Message::MovedTo(name) => "Moved to "@ + name@,
        Message::MovedToDeleted => "Moved to Recently Deleted"@,
        Message::CreatedFolder(name) => "Created folder: "@ + name@,
        Message::CreatedSubfolder(name) => "Created subfolder: "@ + name@,
        Message::RenamedFolder(name) => "Renamed folder to "@ + name@,
        Message::MovedFolder(name) => "Moved folder “"@ + name@ + "”"@,
        Message::DeletedFolder => "Deleted folder"@,
        Message::EditCancelled => "Edit cancelled"@,
    }
}

impl Message {
    pub fn words(&self) -> (r: String)
        ensures
            r@ == message_text(*self),
    {
        match self {
            Message::Saved => crate::text::owned("Saved"),
            Message::MovedTo(name) => crate::text::cat("Moved to ", name.as_str()),
            Message::MovedToDeleted => crate::text::owned("Moved to Recently Deleted"),
            Message::CreatedFolder(name) => crate::text::cat("Created folder: ", name.as_str()),
            Message::CreatedSubfolder(name) => crate::text::cat(
                "Created subfolder: ",
                name.as_str(),
            ),
            Message::RenamedFolder(name) => crate::text::cat("Renamed folder to ", name.as_str()),
            Message::MovedFolder(name) => crate::text::cat3("Moved folder “", name.as_str(), "”"),
            Message::DeletedFolder => crate::text::owned("Deleted folder"),
            Message::EditCancelled => crate::text::owned("Edit cancelled"),
        }
    }
}

/// Something that is refused here, in words that only the notes service has.
#[allow(inconsistent_fields)]
#[derive(Debug)]
pub enum Problem {
    NothingToShow,
    UnsupportedRichContent { features: Vec<RichFeature> },
    ProtectedNote { id: NoteId },
    AttachmentNotPreviewed { id: AttachmentId, reason: AttachmentUnavailableReason },
    AttachmentNotExported { id: AttachmentId, reason: AttachmentUnavailableReason },
}

/// How a note is to be saved.
#[derive(Clone, Copy, Debug, PartialEq, Eq, Structural)]
pub enum SaveMode {
    /// A new note, in the background.
    Create,
    /// A note that exists, in the background, where it has not changed meanwhile.
    Update,
    /// A note that exists, in the background, whatever it has become meanwhile.
    Overwrite,
    /// A new note, at once.
    CreateNow,
}

/// Work that is planned. The last of a list comes first.
#[derive(Debug)]
pub enum Step {
    /// Shows what the cache lists.
    Bootstrap,
    /// Reads everything anew.
    Refresh,
    /// Shows the note that is selected in the list.
    LoadSelected { persist: bool },
    /// Shows the notes of the line that is selected in the tree.
    LoadNotes { persist: bool, browse: bool },
    /// Has the notes of the selected line read in the background.
    FollowFolder,
    /// Begins what is to be read for the selection.
    StartNavigation,
    /// Goes back to the scroll position and the pane of the session.
    RestoreView,
    PersistSession,
    /// Stores the note on the screen in the cache.
    StoreSelected,
    SnapshotUnlessError,
    Snapshot,
    /// Stores a note in the cache, and remembers should that fail.
    KeepNote(Arc<Note>),
    /// Removes a note from the cache, and remembers should that fail.
    ForgetNote(NoteId),
    /// Tells that something is done, unless the cache had a warning.
    Conclude(Message),
    Say(Message),
    /// Puts what was done in front of a warning of the cache.
    PrefixWarning(Message),
    /// Selects the note that took the place of a deleted one.
    Reselect(usize),
    ClearRecovery,
    PersistRecovery,
    Press(KeyEvent),
    Quit,
    /// Begins what the user asked for, now that its note is there.
    Begin(PendingForegroundIntent),
    /// Begins what the user asked for while a refresh was under way.
    RunForeground,
    Report(Problem),
    RefuseFeature(RichFeature),
    NavigationArrived(NavigationArrival),
    UpdateArrived(UpdateWorkerResult),
    RefreshArrived(WorkerRefreshResult),
}

/// What came of a request for the selection: its result, or nothing.
#[derive(Debug)]
pub enum NavigationArrival {
    Result(NavigationWorkerResult),
    Lost,
}

/// What has arrived from the background since the last time.
#[derive(Debug)]
pub struct Arrivals {
    pub navigation: Option<NavigationArrival>,
    pub update: Option<UpdateWorkerResult>,
    pub refresh: Option<WorkerRefreshResult>,
}

/// What a reply is waited for.
#[derive(Debug)]
pub enum Await {
    SessionWritten,
    DraftWritten,
    DraftRemoved,
    ConfigEdited,
    CachedNote { id: NoteId },
    FetchedNote { persist: bool },
    NoteStored,
    NoteKept,
    NoteForgotten,
    SnapshotReplaced,
    BrowsedCache,
    NotesLoaded { persist: bool },
    Bootstrapped,
    FoldersFetched { folder: Folder },
    LiveRead,
    ProblemWorded,
    FeatureNamed,
    DocumentChecked { mode: SaveMode },
    NoteCreated,
}

/// What the program around the client is asked to do, with a reply.
#[derive(Debug)]
pub enum Effect {
    /// Write `session_to_write` to the session file. Reply: `Done`.
    WriteSession,
    /// Write `draft_to_write` to the draft file. Reply: `Done`.
    WriteDraft,
    /// Remove the draft file, where there is one. Reply: `Done`.
    RemoveDraft,
    /// Make the changes of `settings_edits` to the config file. Reply: `Done`.
    EditConfig,
    /// Find a note in the cache. Reply: `Cached`.
    LoadNote(NoteId),
    /// Get a note from the notes service. Reply: `Note`.
    GetNote(NoteId),
    /// Store a note in the cache. Reply: `Done`.
    StoreNote(Arc<Note>),
    /// Remove a note from the cache. Reply: `Done`.
    RemoveNote(NoteId),
    /// Replace what the cache lists by `cached_state`. Reply: `Done`.
    ReplaceSnapshot,
    /// Read what the cache lists. Reply: `Bootstrap`.
    LoadBootstrap,
    /// Get a list of notes from the notes service. Reply: `Notes`.
    Notes(NotesQuery),
    /// Get the folders of an account from the notes service. Reply: `Folders`.
    Folders(AccountId),
    /// Carry out a live refresh. Reply: `Live`.
    ReadLive(LiveRead),
    /// Word a problem as the notes service does. Reply: `Text`.
    Describe(Problem),
    /// Name a part of rich text as the notes service does. Reply: `Text`.
    NameFeature(RichFeature),
    /// Find what the notes service cannot keep of the document of `edit`. Reply:
    /// `Features`.
    CheckDocument,
    /// Create a note of the title and the document of `edit`. Reply: `Note`.
    CreateNote,
}

/// A reply to what was asked.
#[derive(Debug)]
pub enum Reply {
    Done(Result<(), String>),
    Cached(Result<Option<Arc<Note>>, String>),
    Note(Result<Arc<Note>, NotesError>),
    Bootstrap(Result<CachedState, String>),
    Notes(Result<NotesPage, NotesError>),
    Folders(Result<Vec<Folder>, NotesError>),
    Live(Result<LiveRefreshRead, ReadFailure>),
    Text(String),
    Features(Vec<RichFeature>),
}

/// How the planned work goes on.
#[derive(Debug)]
pub enum Progress {
    /// Nothing is planned.
    Idle,
    /// One step is done.
    Continue,
    /// A reply is needed.
    Ask(Effect),
}

/// What is to be done in the background.
#[derive(Debug)]
pub enum Order {
    Navigate(NavigationJob),
    Update(UpdateJob),
    Refresh(RefreshJob),
    CancelRefresh,
}

/// The model of a change to notes or folders.
#[allow(inconsistent_fields)]
#[verifier::ext_equal]
pub ghost enum UpdateModel {
    CreateNote { folder_id: FolderId, title: Seq<char>, document: Seq<Piece> },
    SaveNote {
        id: Seq<char>,
        title: Seq<char>,
        document: Seq<Piece>,
        base_date: Option<NoteDate>,
        checked: bool,
    },
    OverwriteNote { id: Seq<char>, title: Seq<char>, document: Seq<Piece> },
    CreateFolder { account_id: AccountId, name: Seq<char>, cursor: usize },
    CreateChildFolder {
        account_id: AccountId,
        parent_folder_id: FolderId,
        parent_folder_name: String,
        name: Seq<char>,
        cursor: usize,
    },
    RenameFolder {
        account_id: AccountId,
        folder_id: FolderId,
        original_name: String,
        name: Seq<char>,
        cursor: usize,
    },
    ReparentFolder {
        account_id: AccountId,
        folder_id: FolderId,
        source_folder_name: String,
        original_parent: FolderParent,
        destinations: Seq<FolderReparentTarget>,
        selected_destination: usize,
        new_parent: Option<FolderId>,
    },
    DeleteFolder { account_id: AccountId, folder_id: FolderId },
    MoveNote {
        id: NoteId,
        destination_folder_id: FolderId,
        expected_modification_date: NoteDate,
        destination_name: String,
    },
    DeleteNote { id: NoteId, expected_modification_date: NoteDate, previous_index: usize },
    PreviewAttachment { note_id: NoteId, attachment_id: AttachmentId, name: Seq<char> },
    ExportAttachment { note_id: NoteId, attachment_id: AttachmentId },
}

impl View for UpdateJob {
    type V = UpdateModel;

    open spec fn view(&self) -> UpdateModel {
        match *self {
            UpdateJob::CreateNote { folder_id, title, document } => UpdateModel::CreateNote {
                folder_id,
                title: title@,
                document: document@,
            },
            UpdateJob::SaveNote { id, title, document, base_date, checked } =>
                UpdateModel::SaveNote {
                id: id@,
                title: title@,
                document: document@,
                base_date,
                checked,
            },
            UpdateJob::OverwriteNote { id, title, document } => UpdateModel::OverwriteNote {
                id: id@,
                title: title@,
                document: document@,
            },
            UpdateJob::CreateFolder { account_id, name, cursor } => UpdateModel::CreateFolder {
                account_id,
                name: name@,
                cursor,
            },
            UpdateJob::CreateChildFolder {
                account_id,
                parent_folder_id,
                parent_folder_name,
                name,
                cursor,
            } => UpdateModel::CreateChildFolder {
                account_id,
                parent_folder_id,
                parent_folder_name,
                name: name@,
                cursor,
            },
            UpdateJob::RenameFolder { account_id, folder_id, original_name, name, cursor } =>
                UpdateModel::RenameFolder {
                account_id,
                folder_id,
                original_name,
                name: name@,
                cursor,
            },
            UpdateJob::ReparentFolder {
                account_id,
                folder_id,
                source_folder_name,
                original_parent,
                destinations,
                selected_destination,
                new_parent,
            } => UpdateModel::ReparentFolder {
                account_id,
                folder_id,
                source_folder_name,
                original_parent,
                destinations: destinations@,
                selected_destination,
                new_parent,
            },
            UpdateJob::DeleteFolder { account_id, folder_id } => UpdateModel::DeleteFolder {
                account_id,
                folder_id,
            },
            UpdateJob::MoveNote {
                id,
                destination_folder_id,
                expected_modification_date,
                destination_name,
            } => UpdateModel::MoveNote {
                id,
                destination_folder_id,
                expected_modification_date,
                destination_name,
            },
            UpdateJob::DeleteNote { id, expected_modification_date, previous_index } =>
                UpdateModel::DeleteNote { id, expected_modification_date, previous_index },
            UpdateJob::PreviewAttachment { note_id, attachment_id, name } =>
                UpdateModel::PreviewAttachment { note_id, attachment_id, name: name@ },
            UpdateJob::ExportAttachment { note_id, attachment_id } =>
                UpdateModel::ExportAttachment { note_id, attachment_id },
        }
    }
}

/// The model of what is to be done in the background.
#[verifier::ext_equal]
pub ghost enum OrderModel {
    Navigate(NavigationJob),
    Update(UpdateModel),
    Refresh(RefreshJob),
    CancelRefresh,
}

impl View for Order {
    type V = OrderModel;

    open spec fn view(&self) -> OrderModel {
        match *self {
            Order::Navigate(job) => OrderModel::Navigate(job),
            Order::Update(job) => OrderModel::Update(job@),
            Order::Refresh(job) => OrderModel::Refresh(job),
            Order::CancelRefresh => OrderModel::CancelRefresh,
        }
    }
}

pub open spec fn orders_of(v: Seq<Order>) -> Seq<OrderModel> {
    Seq::new(v.len(), |i: int| v[i]@)
}

pub proof fn lemma_orders_push(v: Seq<Order>, order: Order)
    ensures
        orders_of(v.push(order)) == orders_of(v).push(order@),
{
    assert(orders_of(v.push(order)) =~= orders_of(v).push(order@));
}

} // verus!
