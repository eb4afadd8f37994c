//! Work that is done beside the screen: each job says what to ask the notes service
//! next, and what the replies come to.

use std::sync::Arc;

use vstd::prelude::*;

use crate::document::RichDocument;
use crate::model::{
    find_summary, summary_at, Account, AccountId, AttachmentId, DeletedFolder, Folder, FolderId,
    FolderParent, Note, NoteDate, NoteId, NoteSummary, NotesError, NotesPage, NotesQuery,
};
use crate::navigation::{
    build_navigation, context_query, default_line, find_item, item_context, session_context,
    session_context_for_data, tree, FolderReparentTarget, NavigationItem, RefreshContext, Wanted,
};
use crate::session::SessionState;

verus! {

// ---------------------------------------------------------------------------
// Changing something
// ---------------------------------------------------------------------------

/// A change to notes or folders. What is only needed again should it fail comes along.
#[derive(Debug)]
pub enum UpdateJob {
    CreateNote { folder_id: FolderId, title: String, document: RichDocument },
    /// Saves a note, once it is known that it has not changed since `base_date`.
    SaveNote {
        id: NoteId,
        title: String,
        document: RichDocument,
        base_date: Option<NoteDate>,
        checked: bool,
    },
    OverwriteNote { id: NoteId, title: String, document: RichDocument },
    CreateFolder { account_id: AccountId, name: String, cursor: usize },
    CreateChildFolder {
        account_id: AccountId,
        parent_folder_id: FolderId,
        parent_folder_name: String,
        name: String,
        cursor: usize,
    },
    RenameFolder {
        account_id: AccountId,
        folder_id: FolderId,
        original_name: String,
        name: String,
        cursor: usize,
    },
    ReparentFolder {
        account_id: AccountId,
        folder_id: FolderId,
        source_folder_name: String,
        original_parent: FolderParent,
        destinations: Vec<FolderReparentTarget>,
        selected_destination: usize,
        new_parent: Option<FolderId>,
    },
    DeleteFolder { account_id: AccountId, folder_id: FolderId },
    MoveNote {
        id: NoteId,
        destination_folder_id: FolderId,
        expected_modification_date: NoteDate,
        destination_name: String,
    },
    DeleteNote { id: NoteId, expected_modification_date: NoteDate, previous_index: usize },
    PreviewAttachment { note_id: NoteId, attachment_id: AttachmentId, name: String },
    ExportAttachment { note_id: NoteId, attachment_id: AttachmentId },
}

/// What the notes service is asked to do.
#[allow(inconsistent_fields)]
#[derive(Debug)]
pub enum ServiceCall {
    GetNote(NoteId),
    CreateNote { folder_id: FolderId, name: String, document: RichDocument },
    UpdateNote {
        id: NoteId,
        name: String,
        document: RichDocument,
        expected_modification_date: Option<NoteDate>,
    },
    MoveNote {
        id: NoteId,
        destination_folder_id: FolderId,
        expected_modification_date: NoteDate,
    },
    DeleteNote { id: NoteId, expected_modification_date: NoteDate },
    CreateFolder { account_id: AccountId, name: String },
    CreateChildFolder { account_id: AccountId, parent_folder_id: FolderId, name: String },
    RenameFolder { account_id: AccountId, folder_id: FolderId, name: String },
    ReparentFolder {
        account_id: AccountId,
        folder_id: FolderId,
        new_parent_folder_id: Option<FolderId>,
    },
    DeleteFolder { account_id: AccountId, folder_id: FolderId },
    PreviewAttachment { note_id: NoteId, attachment_id: AttachmentId },
    ExportAttachment { note_id: NoteId, attachment_id: AttachmentId },
}

/// What the notes service replied.
#[derive(Debug)]
pub enum ServiceReply {
    Note(Result<Arc<Note>, NotesError>),
    Folder(Result<Folder, NotesError>),
    FolderDeleted(Result<DeletedFolder, NotesError>),
    Done(Result<(), NotesError>),
    Exported(Result<String, NotesError>),
}

/// What a change came to.
#[derive(Debug)]
pub enum UpdateWorkerResult {
    Saved(Arc<Note>),
    FolderCreated(Folder),
    FolderCreateFailed { account_id: AccountId, name: String, cursor: usize, error: NotesError },
    ChildFolderCreated(Folder),
    ChildFolderCreateFailed {
        account_id: AccountId,
        parent_folder_id: FolderId,
        parent_folder_name: String,
        name: String,
        cursor: usize,
        error: NotesError,
    },
    FolderRenamed(Folder),
    FolderReparented(Folder),
    FolderDeleted(DeletedFolder),
    FolderDeleteFailed(NotesError),
    FolderRenameFailed {
        account_id: AccountId,
        folder_id: FolderId,
        original_name: String,
        name: String,
        cursor: usize,
        error: NotesError,
    },
    FolderReparentFailed {
        account_id: AccountId,
        folder_id: FolderId,
        source_folder_name: String,
        original_parent: FolderParent,
        destinations: Vec<FolderReparentTarget>,
        selected_destination: usize,
        error: NotesError,
    },
    Moved { note: Arc<Note>, destination_name: String },
    Deleted { note_id: NoteId, previous_index: usize },
    AttachmentPreviewed { name: String },
    AttachmentExported { destination: String },
    Conflict(Arc<Note>),
    Failed(NotesError),
    Panicked,
}

/// How a job goes on.
#[derive(Debug)]
pub enum UpdateStep {
    Again(UpdateJob),
    Done(UpdateWorkerResult),
}

pub open spec fn date_text(date: Option<NoteDate>) -> Option<Seq<char>> {
    match date {
        Some(d) => Some(d@),
        None => None,
    }
}

/// Whether a call is the one that a job makes next.
pub open spec fn calls(job: UpdateJob, call: ServiceCall) -> bool {
    match job {
        UpdateJob::CreateNote { folder_id, title, document } => {
            &&& call matches ServiceCall::CreateNote { folder_id: f, name, document: d }
            &&& f == folder_id && name == title && d@ == document@
        },
        UpdateJob::SaveNote { id, title, document, base_date, checked } => if checked {
            &&& call matches ServiceCall::UpdateNote {
                id: i,
                name,
                document: d,
                expected_modification_date: e,
            }
            &&& i == id && name == title && d@ == document@ && e == base_date
        } else {
            call == ServiceCall::GetNote(id)
        },
        UpdateJob::OverwriteNote { id, title, document } => {
            &&& call matches ServiceCall::UpdateNote {
                id: i,
                name,
                document: d,
                expected_modification_date: e,
            }
            &&& i == id && name == title && d@ == document@ && e is None
        },
        UpdateJob::CreateFolder { account_id, name, .. } => call == (ServiceCall::CreateFolder {
            account_id,
            name,
        }),
        UpdateJob::CreateChildFolder { account_id, parent_folder_id, name, .. } => call == (
        ServiceCall::CreateChildFolder { account_id, parent_folder_id, name }),
        UpdateJob::RenameFolder { account_id, folder_id, name, .. } => call == (
        ServiceCall::RenameFolder { account_id, folder_id, name }),
        UpdateJob::ReparentFolder { account_id, folder_id, new_parent, .. } => call == (
        ServiceCall::ReparentFolder { account_id, folder_id, new_parent_folder_id: new_parent }),
        UpdateJob::DeleteFolder { account_id, folder_id } => call == (ServiceCall::DeleteFolder {
            account_id,
            folder_id,
        }),
        UpdateJob::MoveNote {
            id,
            destination_folder_id,
            expected_modification_date,
            ..
        } => call == (ServiceCall::MoveNote {
            id,
            destination_folder_id,
            expected_modification_date,
        }),
        UpdateJob::DeleteNote { id, expected_modification_date, .. } => call == (
        ServiceCall::DeleteNote { id, expected_modification_date }),
        UpdateJob::PreviewAttachment { note_id, attachment_id, .. } => call == (
        ServiceCall::PreviewAttachment { note_id, attachment_id }),
        UpdateJob::ExportAttachment { note_id, attachment_id } => call == (
        ServiceCall::ExportAttachment { note_id, attachment_id }),
    }
}

/// What a reply makes of a job. A note that is to be saved is saved only where it has
/// not changed since it was opened. A reply of the wrong sort ends the job.
pub open spec fn answered(job: UpdateJob, reply: ServiceReply) -> UpdateStep {
    match (job, reply) {
        (UpdateJob::CreateNote { .. }, ServiceReply::Note(Ok(note))) => UpdateStep::Done(
            UpdateWorkerResult::Saved(note),
        ),
        (UpdateJob::CreateNote { .. }, ServiceReply::Note(Err(error))) => UpdateStep::Done(
            UpdateWorkerResult::Failed(error),
        ),
        (
            UpdateJob::SaveNote { id, title, document, base_date, checked },
            ServiceReply::Note(Ok(note)),
        ) => if checked {
            UpdateStep::Done(UpdateWorkerResult::Saved(note))
        } else if date_text(base_date) != Some(note.summary.modification_date@) {
            UpdateStep::Done(UpdateWorkerResult::Conflict(note))
        } else {
            UpdateStep::Again(
                UpdateJob::SaveNote { id, title, document, base_date, checked: true },
            )
        },
        (UpdateJob::SaveNote { .. }, ServiceReply::Note(Err(error))) => UpdateStep::Done(
            UpdateWorkerResult::Failed(error),
        ),
        (UpdateJob::OverwriteNote { .. }, ServiceReply::Note(Ok(note))) => UpdateStep::Done(
            UpdateWorkerResult::Saved(note),
        ),
        (UpdateJob::OverwriteNote { .. }, ServiceReply::Note(Err(error))) => UpdateStep::Done(
            UpdateWorkerResult::Failed(error),
        ),
        (UpdateJob::CreateFolder { .. }, ServiceReply::Folder(Ok(folder))) => UpdateStep::Done(
            UpdateWorkerResult::FolderCreated(folder),
        ),
        (
            UpdateJob::CreateFolder { account_id, name, cursor },
            ServiceReply::Folder(Err(error)),
        ) => UpdateStep::Done(
            UpdateWorkerResult::FolderCreateFailed { account_id, name, cursor, error },
        ),
        (UpdateJob::CreateChildFolder { .. }, ServiceReply::Folder(Ok(folder))) => UpdateStep::Done(
            UpdateWorkerResult::ChildFolderCreated(folder),
        ),
        (
            UpdateJob::CreateChildFolder {
                account_id,
                parent_folder_id,
                parent_folder_name,
                name,
                cursor,
            },
            ServiceReply::Folder(Err(error)),
        ) => UpdateStep::Done(
            UpdateWorkerResult::ChildFolderCreateFailed {
                account_id,
                parent_folder_id,
                parent_folder_name,
                name,
                cursor,
                error,
            },
        ),
        (UpdateJob::RenameFolder { .. }, ServiceReply::Folder(Ok(folder))) => UpdateStep::Done(
            UpdateWorkerResult::FolderRenamed(folder),
        ),
        (
            UpdateJob::RenameFolder { account_id, folder_id, original_name, name, cursor },
            ServiceReply::Folder(Err(error)),
        ) => UpdateStep::Done(
            UpdateWorkerResult::FolderRenameFailed {
                account_id,
                folder_id,
                original_name,
                name,
                cursor,
                error,
            },
        ),
        (UpdateJob::ReparentFolder { .. }, ServiceReply::Folder(Ok(folder))) => UpdateStep::Done(
            UpdateWorkerResult::FolderReparented(folder),
        ),
        (
            UpdateJob::ReparentFolder {
                account_id,
                folder_id,
                source_folder_name,
                original_parent,
                destinations,
                selected_destination,
                ..
            },
            ServiceReply::Folder(Err(error)),
        ) => UpdateStep::Done(
            UpdateWorkerResult::FolderReparentFailed {
                account_id,
                folder_id,
                source_folder_name,
                original_parent,
                destinations,
                selected_destination,
                error,
            },
        ),
        (UpdateJob::DeleteFolder { .. }, ServiceReply::FolderDeleted(Ok(deleted))) =>
            UpdateStep::Done(UpdateWorkerResult::FolderDeleted(deleted)),
        (UpdateJob::DeleteFolder { .. }, ServiceReply::FolderDeleted(Err(error))) =>
            UpdateStep::Done(UpdateWorkerResult::FolderDeleteFailed(error)),
        (UpdateJob::MoveNote { destination_name, .. }, ServiceReply::Note(Ok(note))) =>
            UpdateStep::Done(UpdateWorkerResult::Moved { note, destination_name }),
        (UpdateJob::MoveNote { .. }, ServiceReply::Note(Err(error))) => UpdateStep::Done(
            UpdateWorkerResult::Failed(error),
        ),
        (UpdateJob::DeleteNote { id, previous_index, .. }, ServiceReply::Done(Ok(_))) =>
            UpdateStep::Done(UpdateWorkerResult::Deleted { note_id: id, previous_index }),
        (UpdateJob::DeleteNote { .. }, ServiceReply::Done(Err(error))) => UpdateStep::Done(
            UpdateWorkerResult::Failed(error),
        ),
        (UpdateJob::PreviewAttachment { name, .. }, ServiceReply::Done(Ok(_))) => UpdateStep::Done(
            UpdateWorkerResult::AttachmentPreviewed { name },
        ),
        (UpdateJob::PreviewAttachment { .. }, ServiceReply::Done(Err(error))) => UpdateStep::Done(
            UpdateWorkerResult::Failed(error),
        ),
        (UpdateJob::ExportAttachment { .. }, ServiceReply::Exported(Ok(destination))) =>
            UpdateStep::Done(UpdateWorkerResult::AttachmentExported { destination }),
        (UpdateJob::ExportAttachment { .. }, ServiceReply::Exported(Err(error))) =>
            UpdateStep::Done(UpdateWorkerResult::Failed(error)),
        _ => UpdateStep::Done(UpdateWorkerResult::Panicked),
    }
}

fn clone_date(date: &Option<NoteDate>) -> (r: Option<NoteDate>)
    ensures
        r == *date,
{
    match date {
        Some(d) => Some(d.clone()),
        None => None,
    }
}

impl UpdateJob {
    /// What to ask the notes service next.
    pub fn call(&self) -> (r: ServiceCall)
        ensures
            calls(*self, r),
    {
        match self {
            UpdateJob::CreateNote { folder_id, title, document } => ServiceCall::CreateNote {
                folder_id: folder_id.clone(),
                name: title.clone(),
                document: document.clone(),
            },
            UpdateJob::SaveNote { id, title, document, base_date, checked } => if *checked {
                ServiceCall::UpdateNote {
                    id: id.clone(),
                    name: title.clone(),
                    document: document.clone(),
                    expected_modification_date: clone_date(base_date),
                }
            } else {
                ServiceCall::GetNote(id.clone())
            },
            UpdateJob::OverwriteNote { id, title, document } => ServiceCall::UpdateNote {
                id: id.clone(),
                name: title.clone(),
                document: document.clone(),
                expected_modification_date: None,
            },
            UpdateJob::CreateFolder { account_id, name, .. } => ServiceCall::CreateFolder {
                account_id: account_id.clone(),
                name: name.clone(),
            },
            UpdateJob::CreateChildFolder { account_id, parent_folder_id, name, .. } =>
                ServiceCall::CreateChildFolder {
                account_id: account_id.clone(),
                parent_folder_id: parent_folder_id.clone(),
                name: name.clone(),
            },
            UpdateJob::RenameFolder { account_id, folder_id, name, .. } =>
                ServiceCall::RenameFolder {
                account_id: account_id.clone(),
                folder_id: folder_id.clone(),
                name: name.clone(),
            },
            UpdateJob::ReparentFolder { account_id, folder_id, new_parent, .. } =>
                ServiceCall::ReparentFolder {
                account_id: account_id.clone(),
                folder_id: folder_id.clone(),
                new_parent_folder_id: match new_parent {
                    Some(id) => Some(id.clone()),
                    None => None,
                },
            },
            UpdateJob::DeleteFolder { account_id, folder_id } => ServiceCall::DeleteFolder {
                account_id: account_id.clone(),
                folder_id: folder_id.clone(),
            },
            UpdateJob::MoveNote {
                id,
                destination_folder_id,
                expected_modification_date,
                ..
            } => ServiceCall::MoveNote {
                id: id.clone(),
                destination_folder_id: destination_folder_id.clone(),
                expected_modification_date: expected_modification_date.clone(),
            },
            UpdateJob::DeleteNote { id, expected_modification_date, .. } =>
                ServiceCall::DeleteNote {
                id: id.clone(),
                expected_modification_date: expected_modification_date.clone(),
            },
            UpdateJob::PreviewAttachment { note_id, attachment_id, .. } =>
                ServiceCall::PreviewAttachment {
                note_id: note_id.clone(),
                attachment_id: attachment_id.clone(),
            },
            UpdateJob::ExportAttachment { note_id, attachment_id } =>
                ServiceCall::ExportAttachment {
                note_id: note_id.clone(),
                attachment_id: attachment_id.clone(),
            },
        }
    }

    /// What the reply to that comes to.
    pub fn answer(self, reply: ServiceReply) -> (r: UpdateStep)
        ensures
            r == answered(self, reply),
    {
        match (self, reply) {
            (UpdateJob::CreateNote { .. }, ServiceReply::Note(Ok(note))) => UpdateStep::Done(
                UpdateWorkerResult::Saved(note),
            ),
            (UpdateJob::CreateNote { .. }, ServiceReply::Note(Err(error))) => UpdateStep::Done(
                UpdateWorkerResult::Failed(error),
            ),
            (
                UpdateJob::SaveNote { id, title, document, base_date, checked },
                ServiceReply::Note(Ok(note)),
            ) => {
                if checked {
                    return UpdateStep::Done(UpdateWorkerResult::Saved(note));
                }
                let unchanged = match &base_date {
                    Some(date) => date.same(&note.summary.modification_date),
                    None => false,
                };
                if unchanged {
                    UpdateStep::Again(
                        UpdateJob::SaveNote { id, title, document, base_date, checked: true },
                    )
                } else {
                    UpdateStep::Done(UpdateWorkerResult::Conflict(note))
                }
            },
            (UpdateJob::SaveNote { .. }, ServiceReply::Note(Err(error))) => UpdateStep::Done(
                UpdateWorkerResult::Failed(error),
            ),
            (UpdateJob::OverwriteNote { .. }, ServiceReply::Note(Ok(note))) => UpdateStep::Done(
                UpdateWorkerResult::Saved(note),
            ),
            (UpdateJob::OverwriteNote { .. }, ServiceReply::Note(Err(error))) => UpdateStep::Done(
                UpdateWorkerResult::Failed(error),
            ),
            (UpdateJob::CreateFolder { .. }, ServiceReply::Folder(Ok(folder))) => UpdateStep::Done(
                UpdateWorkerResult::FolderCreated(folder),
            ),
            (
                UpdateJob::CreateFolder { account_id, name, cursor },
                ServiceReply::Folder(Err(error)),
            ) => UpdateStep::Done(
                UpdateWorkerResult::FolderCreateFailed { account_id, name, cursor, error },
            ),
            (UpdateJob::CreateChildFolder { .. }, ServiceReply::Folder(Ok(folder))) =>
                UpdateStep::Done(UpdateWorkerResult::ChildFolderCreated(folder)),
            (
                UpdateJob::CreateChildFolder {
                    account_id,
                    parent_folder_id,
                    parent_folder_name,
                    name,
                    cursor,
                },
                ServiceReply::Folder(Err(error)),
            ) => UpdateStep::Done(
                UpdateWorkerResult::ChildFolderCreateFailed {
                    account_id,
                    parent_folder_id,
                    parent_folder_name,
                    name,
                    cursor,
                    error,
                },
            ),
            (UpdateJob::RenameFolder { .. }, ServiceReply::Folder(Ok(folder))) => UpdateStep::Done(
                UpdateWorkerResult::FolderRenamed(folder),
            ),
            (
                UpdateJob::RenameFolder { account_id, folder_id, original_name, name, cursor },
                ServiceReply::Folder(Err(error)),
            ) => UpdateStep::Done(
                UpdateWorkerResult::FolderRenameFailed {
                    account_id,
                    folder_id,
                    original_name,
                    name,
                    cursor,
                    error,
                },
            ),
            (UpdateJob::ReparentFolder { .. }, ServiceReply::Folder(Ok(folder))) =>
                UpdateStep::Done(UpdateWorkerResult::FolderReparented(folder)),
            (
                UpdateJob::ReparentFolder {
                    account_id,
                    folder_id,
                    source_folder_name,
                    original_parent,
                    destinations,
                    selected_destination,
                    ..
                },
                ServiceReply::Folder(Err(error)),
            ) => UpdateStep::Done(
                UpdateWorkerResult::FolderReparentFailed {
                    account_id,
                    folder_id,
                    source_folder_name,
                    original_parent,
                    destinations,
                    selected_destination,
                    error,
                },
            ),
            (UpdateJob::DeleteFolder { .. }, ServiceReply::FolderDeleted(Ok(deleted))) =>
                UpdateStep::Done(UpdateWorkerResult::FolderDeleted(deleted)),
            (UpdateJob::DeleteFolder { .. }, ServiceReply::FolderDeleted(Err(error))) =>
                UpdateStep::Done(UpdateWorkerResult::FolderDeleteFailed(error)),
            (UpdateJob::MoveNote { destination_name, .. }, ServiceReply::Note(Ok(note))) =>
                UpdateStep::Done(UpdateWorkerResult::Moved { note, destination_name }),
            (UpdateJob::MoveNote { .. }, ServiceReply::Note(Err(error))) => UpdateStep::Done(
                UpdateWorkerResult::Failed(error),
            ),
            (UpdateJob::DeleteNote { id, previous_index, .. }, ServiceReply::Done(Ok(_))) =>
                UpdateStep::Done(UpdateWorkerResult::Deleted { note_id: id, previous_index }),
            (UpdateJob::DeleteNote { .. }, ServiceReply::Done(Err(error))) => UpdateStep::Done(
                UpdateWorkerResult::Failed(error),
            ),
            (UpdateJob::PreviewAttachment { name, .. }, ServiceReply::Done(Ok(_))) =>
                UpdateStep::Done(UpdateWorkerResult::AttachmentPreviewed { name }),
            (UpdateJob::PreviewAttachment { .. }, ServiceReply::Done(Err(error))) =>
                UpdateStep::Done(UpdateWorkerResult::Failed(error)),
            (UpdateJob::ExportAttachment { .. }, ServiceReply::Exported(Ok(destination))) =>
                UpdateStep::Done(UpdateWorkerResult::AttachmentExported { destination }),
            (UpdateJob::ExportAttachment { .. }, ServiceReply::Exported(Err(error))) =>
                UpdateStep::Done(UpdateWorkerResult::Failed(error)),
            _ => UpdateStep::Done(UpdateWorkerResult::Panicked),
        }
    }
}

/// A note that has changed since it was opened is reported, and nothing is written to
/// the notes service: the job that saves it ends before it makes that call.
pub proof fn law_changed_note_is_not_saved(
    id: NoteId,
    title: String,
    document: RichDocument,
    base_date: Option<NoteDate>,
    remote: Arc<Note>,
    call: ServiceCall,
)
    requires
        date_text(base_date) != Some(remote.summary.modification_date@),
        calls(UpdateJob::SaveNote { id, title, document, base_date, checked: false }, call),
    ensures
        call == ServiceCall::GetNote(id),
        answered(
            UpdateJob::SaveNote { id, title, document, base_date, checked: false },
            ServiceReply::Note(Ok(remote)),
        ) == UpdateStep::Done(UpdateWorkerResult::Conflict(remote)),
{
}

// ---------------------------------------------------------------------------
// Reading everything
// ---------------------------------------------------------------------------

/// What a live refresh reads.
#[derive(Debug)]
pub struct LiveRefreshRead {
    pub accounts: Vec<Account>,
    pub folders: Vec<Folder>,
    pub context: RefreshContext,
    pub notes: Vec<NoteSummary>,
    pub total: usize,
    pub selected_note: Option<Arc<Note>>,
}

/// Why a live refresh read nothing.
#[derive(Debug)]
pub enum ReadFailure {
    Service(NotesError),
    NothingToShow,
}

/// How far a live refresh has come.
#[derive(Debug)]
pub enum LiveStage {
    Accounts,
    Folders { accounts: Vec<Account> },
    Notes {
        accounts: Vec<Account>,
        folders: Vec<Folder>,
        context: RefreshContext,
        from_session: bool,
    },
    Note {
        accounts: Vec<Account>,
        folders: Vec<Folder>,
        context: RefreshContext,
        notes: Vec<NoteSummary>,
        total: usize,
        id: NoteId,
    },
}

/// A live refresh under way: what was shown when it began, and how far it has come.
#[derive(Debug)]
pub struct LiveRead {
    pub context: Option<RefreshContext>,
    pub session: Option<SessionState>,
    pub preferred: Option<NoteId>,
    pub stage: LiveStage,
}

/// What a live refresh asks the notes service for.
#[derive(Debug)]
pub enum ReadCall {
    Accounts,
    Folders,
    Notes(NotesQuery),
    Note(NoteId),
}

/// What the notes service replied.
#[derive(Debug)]
pub enum ReadReply {
    Accounts(Result<Vec<Account>, NotesError>),
    Folders(Result<Vec<Folder>, NotesError>),
    Notes(Result<NotesPage, NotesError>),
    Note(Result<Arc<Note>, NotesError>),
}

/// How a live refresh goes on.
#[derive(Debug)]
pub enum ReadStep {
    Again(LiveRead),
    Done(Result<LiveRefreshRead, ReadFailure>),
}

/// What a live refresh asks for next.
pub open spec fn read_call(read: LiveRead) -> ReadCall {
    match read.stage {
        LiveStage::Accounts => ReadCall::Accounts,
        LiveStage::Folders { .. } => ReadCall::Folders,
        LiveStage::Notes { context, .. } => ReadCall::Notes(context_query(context)),
        LiveStage::Note { id, .. } => ReadCall::Note(id),
    }
}

/// The first line of a tree, a folder before an account.
pub open spec fn first_context(items: Seq<NavigationItem>) -> Option<RefreshContext> {
    if items.len() == 0 {
        None
    } else {
        Some(item_context(items[default_line(items) as int]))
    }
}

/// What a session points to, where there is one.
pub open spec fn session_choice(
    accounts: Seq<Account>,
    folders: Seq<Folder>,
    session: Option<SessionState>,
) -> Option<RefreshContext> {
    match session {
        Some(s) => session_context(accounts, folders, s),
        None => None,
    }
}

/// The account or folder to read: what the session points to, else what was shown, else
/// the first in the tree.
pub open spec fn context_to_read(
    accounts: Seq<Account>,
    folders: Seq<Folder>,
    session: Option<SessionState>,
    shown: Option<RefreshContext>,
) -> Option<RefreshContext> {
    match session_choice(accounts, folders, session) {
        Some(context) => Some(context),
        None => match shown {
            Some(context) => Some(context),
            None => first_context(tree(accounts, folders)),
        },
    }
}

/// The note to open: the preferred one, or the one of the session, where it is among
/// the notes that were read; else the first.
pub open spec fn note_to_open(
    notes: Seq<NoteSummary>,
    preferred: Option<NoteId>,
    of_session: Option<NoteId>,
) -> Option<NoteId> {
    let wish = match preferred {
        Some(id) => Some(id),
        None => of_session,
    };
    if wish is Some && summary_at(notes, wish->0@) < notes.len() {
        wish
    } else if notes.len() > 0 {
        Some(notes[0].id)
    } else {
        None
    }
}

/// The note of the session, where the session was followed.
pub open spec fn session_note(session: Option<SessionState>, followed: bool) -> Option<NoteId> {
    match session {
        Some(s) => if followed {
            s.note_id
        } else {
            None
        },
        None => None,
    }
}

/// What a reply makes of a live refresh.
pub open spec fn read_answered(read: LiveRead, reply: ReadReply) -> ReadStep {
    match (read.stage, reply) {
        (LiveStage::Accounts, ReadReply::Accounts(Ok(accounts))) => ReadStep::Again(
            LiveRead { stage: LiveStage::Folders { accounts }, ..read },
        ),
        (LiveStage::Accounts, ReadReply::Accounts(Err(e))) => ReadStep::Done(
            Err(ReadFailure::Service(e)),
        ),
        (LiveStage::Folders { accounts }, ReadReply::Folders(Ok(folders))) => {
            match context_to_read(accounts@, folders@, read.session, read.context) {
                Some(context) => ReadStep::Again(
                    LiveRead {
                        stage: LiveStage::Notes {
                            accounts,
                            folders,
                            context,
                            from_session: session_choice(
                                accounts@,
                                folders@,
                                read.session,
                            ) is Some,
                        },
                        ..read
                    },
                ),
                None => ReadStep::Done(Err(ReadFailure::NothingToShow)),
            }
        },
        (LiveStage::Folders { .. }, ReadReply::Folders(Err(e))) => ReadStep::Done(
            Err(ReadFailure::Service(e)),
        ),
        (
            LiveStage::Notes { accounts, folders, context, from_session },
            ReadReply::Notes(Ok(page)),
        ) => match note_to_open(
            page.items@,
            read.preferred,
            session_note(read.session, from_session),
        ) {
            Some(id) => ReadStep::Again(
                LiveRead {
                    stage: LiveStage::Note {
                        accounts,
                        folders,
                        context,
                        notes: page.items,
                        total: page.total,
                        id,
                    },
                    ..read
                },
            ),
            None => ReadStep::Done(
                Ok(
                    LiveRefreshRead {
                        accounts,
                        folders,
                        context,
                        notes: page.items,
                        total: page.total,
                        selected_note: None,
                    },
                ),
            ),
        },
        (LiveStage::Notes { .. }, ReadReply::Notes(Err(e))) => ReadStep::Done(
            Err(ReadFailure::Service(e)),
        ),
        (
            LiveStage::Note { accounts, folders, context, notes, total, .. },
            ReadReply::Note(Ok(note)),
        ) => ReadStep::Done(
            Ok(
                LiveRefreshRead {
                    accounts,
                    folders,
                    context,
                    notes,
                    total,
                    selected_note: Some(note),
                },
            ),
        ),
        (LiveStage::Note { .. }, ReadReply::Note(Err(e))) => ReadStep::Done(
            Err(ReadFailure::Service(e)),
        ),
        _ => ReadStep::Done(Err(ReadFailure::NothingToShow)),
    }
}

pub open spec fn read_begun(
    context: Option<RefreshContext>,
    session: Option<SessionState>,
    preferred: Option<NoteId>,
) -> LiveRead {
    LiveRead { context, session, preferred, stage: LiveStage::Accounts }
}

fn choose_context(
    accounts: &Vec<Account>,
    folders: &Vec<Folder>,
    session: &Option<SessionState>,
    shown: &Option<RefreshContext>,
) -> (r: (Option<RefreshContext>, bool))
    ensures
        r.0 == context_to_read(accounts@, folders@, *session, *shown),
        r.1 == (session_choice(accounts@, folders@, *session) is Some),
{
    if let Some(s) = session {
        if let Some(context) = session_context_for_data(accounts, folders, s) {
            return (Some(context), true);
        }
    }
    if let Some(context) = shown {
        return (Some(context.clone()), false);
    }
    let items = build_navigation(accounts, folders);
    if items.len() == 0 {
        return (None, false);
    }
    let line = match find_item(&items, Wanted::AnyFolder) {
        Some(i) => i,
        None => 0,
    };
    (Some(items[line].context()), false)
}

fn choose_note(
    notes: &Vec<NoteSummary>,
    preferred: &Option<NoteId>,
    of_session: &Option<NoteId>,
) -> (r: Option<NoteId>)
    ensures
        r == note_to_open(notes@, *preferred, *of_session),
{
    let wish = match preferred {
        Some(id) => Some(id),
        None => match of_session {
            Some(id) => Some(id),
            None => None,
        },
    };
    if let Some(id) = wish {
        if find_summary(notes, id).is_some() {
            return Some(id.clone());
        }
    }
    if notes.len() > 0 {
        Some(notes[0].id.clone())
    } else {
        None
    }
}

impl LiveRead {
    /// A live refresh that has asked for nothing yet.
    pub fn begin(
        context: Option<RefreshContext>,
        session: Option<SessionState>,
        preferred: Option<NoteId>,
    ) -> (r: Self)
        ensures
            r == read_begun(context, session, preferred),
    {
        LiveRead { context, session, preferred, stage: LiveStage::Accounts }
    }

    /// What to ask the notes service next.
    pub fn call(&self) -> (r: ReadCall)
        ensures
            r == read_call(*self),
    {
        match &self.stage {
            LiveStage::Accounts => ReadCall::Accounts,
            LiveStage::Folders { .. } => ReadCall::Folders,
            LiveStage::Notes { context, .. } => ReadCall::Notes(context.query()),
            LiveStage::Note { id, .. } => ReadCall::Note(id.clone()),
        }
    }

    /// What the reply to that comes to.
    pub fn answer(self, reply: ReadReply) -> (r: ReadStep)
        ensures
            r == read_answered(self, reply),
    {
        let LiveRead { context: shown, session, preferred, stage } = self;
        match (stage, reply) {
            (LiveStage::Accounts, ReadReply::Accounts(Ok(accounts))) => ReadStep::Again(
                LiveRead {
                    context: shown,
                    session,
                    preferred,
                    stage: LiveStage::Folders { accounts },
                },
            ),
            (LiveStage::Accounts, ReadReply::Accounts(Err(e))) => ReadStep::Done(
                Err(ReadFailure::Service(e)),
            ),
            (LiveStage::Folders { accounts }, ReadReply::Folders(Ok(folders))) => {
                let (choice, from_session) = choose_context(&accounts, &folders, &session, &shown);
                match choice {
                    Some(context) => ReadStep::Again(
                        LiveRead {
                            context: shown,
                            session,
                            preferred,
                            stage: LiveStage::Notes { accounts, folders, context, from_session },
                        },
                    ),
                    None => ReadStep::Done(Err(ReadFailure::NothingToShow)),
                }
            },
            (LiveStage::Folders { .. }, ReadReply::Folders(Err(e))) => ReadStep::Done(
                Err(ReadFailure::Service(e)),
            ),
            (
                LiveStage::Notes { accounts, folders, context, from_session },
                ReadReply::Notes(Ok(page)),
            ) => {
                let of_session = match &session {
                    Some(s) => if from_session {
                        match &s.note_id {
                            Some(id) => Some(id.clone()),
                            None => None,
                        }
                    } else {
                        None
                    },
                    None => None,
                };
                match choose_note(&page.items, &preferred, &of_session) {
                    Some(id) => ReadStep::Again(
                        LiveRead {
                            context: shown,
                            session,
                            preferred,
                            stage: LiveStage::Note {
                                accounts,
                                folders,
                                context,
                                notes: page.items,
                                total: page.total,
                                id,
                            },
                        },
                    ),
                    None => ReadStep::Done(
                        Ok(
                            LiveRefreshRead {
                                accounts,
                                folders,
                                context,
                                notes: page.items,
                                total: page.total,
                                selected_note: None,
                            },
                        ),
                    ),
                }
            },
            (LiveStage::Notes { .. }, ReadReply::Notes(Err(e))) => ReadStep::Done(
                Err(ReadFailure::Service(e)),
            ),
            (
                LiveStage::Note { accounts, folders, context, notes, total, .. },
                ReadReply::Note(Ok(note)),
            ) => ReadStep::Done(
                Ok(
                    LiveRefreshRead {
                        accounts,
                        folders,
                        context,
                        notes,
                        total,
                        selected_note: Some(note),
                    },
                ),
            ),
            (LiveStage::Note { .. }, ReadReply::Note(Err(e))) => ReadStep::Done(
                Err(ReadFailure::Service(e)),
            ),
            _ => ReadStep::Done(Err(ReadFailure::NothingToShow)),
        }
    }
}

/// A live refresh in the background, told apart from earlier ones by its number.
#[derive(Debug)]
pub struct RefreshJob {
    pub generation: u64,
    pub read: LiveRead,
}

/// What a live refresh in the background came to.
#[derive(Debug)]
pub enum WorkerRefreshResult {
    Finished { generation: u64, result: Result<LiveRefreshRead, ReadFailure> },
    Panicked { generation: u64 },
    Cancelled { generation: u64 },
}

/// What is reported of a live refresh in the background. One that was cancelled reports
/// only that.
pub open spec fn refresh_report(
    generation: u64,
    result: Result<LiveRefreshRead, ReadFailure>,
) -> WorkerRefreshResult {
    match result {
        Err(ReadFailure::Service(e)) if e.cancelled => WorkerRefreshResult::Cancelled {
            generation,
        },
        r => WorkerRefreshResult::Finished { generation, result: r },
    }
}

pub fn report_refresh(generation: u64, result: Result<LiveRefreshRead, ReadFailure>) -> (r:
    WorkerRefreshResult)
    ensures
        r == refresh_report(generation, result),
{
    let cancelled = match &result {
        Err(ReadFailure::Service(e)) => e.cancelled,
        _ => false,
    };
    if cancelled {
        WorkerRefreshResult::Cancelled { generation }
    } else {
        WorkerRefreshResult::Finished { generation, result }
    }
}

// ---------------------------------------------------------------------------
// Following the selection
// ---------------------------------------------------------------------------

/// What is to be read for the selection, as soon as nothing else is being read for it.
#[derive(Debug, PartialEq, Eq)]
pub enum NavigationRequest {
    Preview(NoteId),
    Folder(RefreshContext),
}

/// What is being read for the selection, told apart from earlier requests by its number.
#[derive(Debug, PartialEq, Eq)]
pub struct NavigationJob {
    pub generation: u64,
    pub request: NavigationRequest,
}

/// What was read for the selection.
#[allow(inconsistent_fields)]
#[derive(Debug)]
pub enum NavigationWorkerResult {
    Preview { id: NoteId, generation: u64, result: Result<Arc<Note>, NotesError> },
    Folder { context: RefreshContext, generation: u64, result: Result<NotesPage, NotesError> },
}

} // verus!
