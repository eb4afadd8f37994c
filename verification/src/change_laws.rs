//! Laws of changes: what the notes service is asked for, and what its answers come to.

use std::sync::Arc;

use vstd::prelude::*;

use crate::app::AppModel;
use crate::arrivals::{change_told, update_arrived};
use crate::client_laws::form_sent;
use crate::document::Piece;
use crate::folders::{
    child_creating, folder_creating, folder_deleting, folder_renaming, folder_reparenting,
};
use crate::jobs::{
    answered, calls, ServiceCall, ServiceReply, UpdateJob, UpdateStep, UpdateWorkerResult,
};
use crate::keys::{KeyCode, KeyEvent};
use crate::model::{AccountId, Folder, FolderId, FolderParent, Note, NoteDate, NotesError};
use crate::navigation::{FolderReparentTarget, NavigationItem};
use crate::notes::{
    attachment_copying, attachment_exporting, attachment_opening, attachment_previewing,
    note_deleting, note_moving,
};
use crate::popups::{
    attachments_pressed, child_pressed, create_pressed, deletion_pressed, folder_deletion_pressed,
    folders_upto, form_pressed, move_pressed, move_targets, name_typed, place_after,
    popup_pressed, rename_pressed, reparent_pressed,
};
use crate::text_laws::{blank, law_blank_text_trims_to_nothing};
use crate::workflow::{PopupModel, UpdateModel};

verus! {

// ---------------------------------------------------------------------------
// What a change is of
// ---------------------------------------------------------------------------

/// The account that a change is made in, where it names one.
pub open spec fn account_of(m: UpdateModel) -> Option<AccountId> {
    match m {
        UpdateModel::CreateFolder { account_id, .. } => Some(account_id),
        UpdateModel::CreateChildFolder { account_id, .. } => Some(account_id),
        UpdateModel::RenameFolder { account_id, .. } => Some(account_id),
        UpdateModel::ReparentFolder { account_id, .. } => Some(account_id),
        UpdateModel::DeleteFolder { account_id, .. } => Some(account_id),
        _ => None,
    }
}

/// The folder that a change is of, or that it puts something in.
pub open spec fn folder_of(m: UpdateModel) -> Option<FolderId> {
    match m {
        UpdateModel::CreateNote { folder_id, .. } => Some(folder_id),
        UpdateModel::CreateChildFolder { parent_folder_id, .. } => Some(parent_folder_id),
        UpdateModel::RenameFolder { folder_id, .. } => Some(folder_id),
        UpdateModel::ReparentFolder { folder_id, .. } => Some(folder_id),
        UpdateModel::DeleteFolder { folder_id, .. } => Some(folder_id),
        UpdateModel::MoveNote { destination_folder_id, .. } => Some(destination_folder_id),
        _ => None,
    }
}

/// The note that a change is of.
pub open spec fn note_of(m: UpdateModel) -> Option<Seq<char>> {
    match m {
        UpdateModel::SaveNote { id, .. } => Some(id),
        UpdateModel::OverwriteNote { id, .. } => Some(id),
        UpdateModel::MoveNote { id, .. } => Some(id@),
        UpdateModel::DeleteNote { id, .. } => Some(id@),
        UpdateModel::PreviewAttachment { note_id, .. } => Some(note_id@),
        UpdateModel::ExportAttachment { note_id, .. } => Some(note_id@),
        _ => None,
    }
}

/// The name that a change gives.
pub open spec fn name_of(m: UpdateModel) -> Option<Seq<char>> {
    match m {
        UpdateModel::CreateNote { title, .. } => Some(title),
        UpdateModel::SaveNote { title, .. } => Some(title),
        UpdateModel::OverwriteNote { title, .. } => Some(title),
        UpdateModel::CreateFolder { name, .. } => Some(name),
        UpdateModel::CreateChildFolder { name, .. } => Some(name),
        UpdateModel::RenameFolder { name, .. } => Some(name),
        _ => None,
    }
}

/// The body that a change gives.
pub open spec fn body_of(m: UpdateModel) -> Option<Seq<Piece>> {
    match m {
        UpdateModel::CreateNote { document, .. } => Some(document),
        UpdateModel::SaveNote { document, .. } => Some(document),
        UpdateModel::OverwriteNote { document, .. } => Some(document),
        _ => None,
    }
}

/// The date that a change expects its note to have.
pub open spec fn date_of(m: UpdateModel) -> Option<NoteDate> {
    match m {
        UpdateModel::SaveNote { base_date, .. } => base_date,
        UpdateModel::MoveNote { expected_modification_date, .. } => Some(
            expected_modification_date,
        ),
        UpdateModel::DeleteNote { expected_modification_date, .. } => Some(
            expected_modification_date,
        ),
        _ => None,
    }
}

/// The account that a call names.
pub open spec fn account_called(call: ServiceCall) -> Option<AccountId> {
    match call {
        ServiceCall::CreateFolder { account_id, .. } => Some(account_id),
        ServiceCall::CreateChildFolder { account_id, .. } => Some(account_id),
        ServiceCall::RenameFolder { account_id, .. } => Some(account_id),
        ServiceCall::ReparentFolder { account_id, .. } => Some(account_id),
        ServiceCall::DeleteFolder { account_id, .. } => Some(account_id),
        _ => None,
    }
}

/// The folder that a call names.
pub open spec fn folder_called(call: ServiceCall) -> Option<FolderId> {
    match call {
        ServiceCall::CreateNote { folder_id, .. } => Some(folder_id),
        ServiceCall::CreateChildFolder { parent_folder_id, .. } => Some(parent_folder_id),
        ServiceCall::RenameFolder { folder_id, .. } => Some(folder_id),
        ServiceCall::ReparentFolder { folder_id, .. } => Some(folder_id),
        ServiceCall::DeleteFolder { folder_id, .. } => Some(folder_id),
        ServiceCall::MoveNote { destination_folder_id, .. } => Some(destination_folder_id),
        _ => None,
    }
}

/// The note that a call names.
pub open spec fn note_called(call: ServiceCall) -> Option<Seq<char>> {
    match call {
        ServiceCall::GetNote(id) => Some(id@),
        ServiceCall::UpdateNote { id, .. } => Some(id@),
        ServiceCall::MoveNote { id, .. } => Some(id@),
        ServiceCall::DeleteNote { id, .. } => Some(id@),
        ServiceCall::PreviewAttachment { note_id, .. } => Some(note_id@),
        ServiceCall::ExportAttachment { note_id, .. } => Some(note_id@),
        _ => None,
    }
}

/// The name that a call gives.
pub open spec fn name_called(call: ServiceCall) -> Option<Seq<char>> {
    match call {
        ServiceCall::CreateNote { name, .. } => Some(name@),
        ServiceCall::UpdateNote { name, .. } => Some(name@),
        ServiceCall::CreateFolder { name, .. } => Some(name@),
        ServiceCall::CreateChildFolder { name, .. } => Some(name@),
        ServiceCall::RenameFolder { name, .. } => Some(name@),
        _ => None,
    }
}

/// The body that a call gives.
pub open spec fn body_called(call: ServiceCall) -> Option<Seq<Piece>> {
    match call {
        ServiceCall::CreateNote { document, .. } => Some(document@),
        ServiceCall::UpdateNote { document, .. } => Some(document@),
        _ => None,
    }
}

/// The date that a call expects its note to have.
pub open spec fn date_called(call: ServiceCall) -> Option<NoteDate> {
    match call {
        ServiceCall::UpdateNote { expected_modification_date, .. } => expected_modification_date,
        ServiceCall::MoveNote { expected_modification_date, .. } => Some(
            expected_modification_date,
        ),
        ServiceCall::DeleteNote { expected_modification_date, .. } => Some(
            expected_modification_date,
        ),
        _ => None,
    }
}

/// Whether a call is of the sort that a change is made with.
pub open spec fn same_sort(m: UpdateModel, call: ServiceCall) -> bool {
    match m {
        UpdateModel::CreateNote { .. } => call is CreateNote,
        UpdateModel::SaveNote { .. } => call is UpdateNote,
        UpdateModel::OverwriteNote { .. } => call is UpdateNote,
        UpdateModel::CreateFolder { .. } => call is CreateFolder,
        UpdateModel::CreateChildFolder { .. } => call is CreateChildFolder,
        UpdateModel::RenameFolder { .. } => call is RenameFolder,
        UpdateModel::ReparentFolder { .. } => call is ReparentFolder,
        UpdateModel::DeleteFolder { .. } => call is DeleteFolder,
        UpdateModel::MoveNote { .. } => call is MoveNote,
        UpdateModel::DeleteNote { .. } => call is DeleteNote,
        UpdateModel::PreviewAttachment { .. } => call is PreviewAttachment,
        UpdateModel::ExportAttachment { .. } => call is ExportAttachment,
    }
}

// ---------------------------------------------------------------------------
// What the service is asked
// ---------------------------------------------------------------------------

/// The service is asked for the change that was ordered, of the account, the folder and the
/// note that it is of, with the name, the body and the date that it gives. Only a note that
/// is to be saved is looked at first.
pub proof fn law_call_is_the_ordered_change(job: UpdateJob, call: ServiceCall)
    requires
        calls(job, call),
    ensures
        note_called(call) == note_of(job@),
        !(job matches UpdateJob::SaveNote { checked: false, .. }) ==> {
            &&& same_sort(job@, call)
            &&& account_called(call) == account_of(job@)
            &&& folder_called(call) == folder_of(job@)
            &&& name_called(call) == name_of(job@)
            &&& body_called(call) == body_of(job@)
            &&& date_called(call) == date_of(job@)
        },
        job matches UpdateJob::SaveNote { checked: false, .. } ==> call is GetNote,
        job matches UpdateJob::ReparentFolder { new_parent, .. } ==> (
        call matches ServiceCall::ReparentFolder { new_parent_folder_id, .. }
            && new_parent_folder_id == new_parent),
        job matches UpdateJob::PreviewAttachment { attachment_id, .. } ==> (
        call matches ServiceCall::PreviewAttachment { attachment_id: a, .. } && a
            == attachment_id),
        job matches UpdateJob::ExportAttachment { attachment_id, .. } ==> (
        call matches ServiceCall::ExportAttachment { attachment_id: a, .. } && a == attachment_id),
{
}

/// A note that is to be saved and has the date that it had when it was opened goes on to be
/// saved as it was ordered.
pub proof fn law_unchanged_note_goes_on_to_be_saved(job: UpdateJob, note: Arc<Note>)
    requires
        job matches UpdateJob::SaveNote { checked: false, base_date: Some(date), .. } && date@
            == note.summary.modification_date@,
    ensures
        answered(job, ServiceReply::Note(Ok(note))) matches UpdateStep::Again(next) && {
            &&& next matches UpdateJob::SaveNote { checked: true, .. }
            &&& note_of(next@) == note_of(job@)
            &&& name_of(next@) == name_of(job@)
            &&& body_of(next@) == body_of(job@)
            &&& date_of(next@) == date_of(job@)
        },
{
}

/// Whether a reply is one that a change waits for.
pub open spec fn replies_to(m: UpdateModel, reply: ServiceReply) -> bool {
    match reply {
        ServiceReply::Note(_) => m is CreateNote || m is SaveNote || m is OverwriteNote || m
            is MoveNote,
        ServiceReply::Folder(_) => m is CreateFolder || m is CreateChildFolder || m is RenameFolder
            || m is ReparentFolder,
        ServiceReply::FolderDeleted(_) => m is DeleteFolder,
        ServiceReply::Done(_) => m is DeleteNote || m is PreviewAttachment,
        ServiceReply::Exported(_) => m is ExportAttachment,
    }
}

/// What went wrong, by a reply.
pub open spec fn error_replied(reply: ServiceReply) -> Option<NotesError> {
    match reply {
        ServiceReply::Note(Err(e)) => Some(e),
        ServiceReply::Folder(Err(e)) => Some(e),
        ServiceReply::FolderDeleted(Err(e)) => Some(e),
        ServiceReply::Done(Err(e)) => Some(e),
        ServiceReply::Exported(Err(e)) => Some(e),
        _ => None,
    }
}

/// What went wrong, by a result.
pub open spec fn error_told(result: UpdateWorkerResult) -> Option<NotesError> {
    match result {
        UpdateWorkerResult::Failed(e) => Some(e),
        UpdateWorkerResult::FolderDeleteFailed(e) => Some(e),
        UpdateWorkerResult::FolderCreateFailed { error, .. } => Some(error),
        UpdateWorkerResult::ChildFolderCreateFailed { error, .. } => Some(error),
        UpdateWorkerResult::FolderRenameFailed { error, .. } => Some(error),
        UpdateWorkerResult::FolderReparentFailed { error, .. } => Some(error),
        _ => None,
    }
}

/// The form that a change was ordered with, where it has one.
pub open spec fn form_of(m: UpdateModel) -> Option<PopupModel> {
    match m {
        UpdateModel::CreateFolder { account_id, name, cursor } => Some(
            PopupModel::CreateFolder { account_id, name, cursor },
        ),
        UpdateModel::CreateChildFolder {
            account_id,
            parent_folder_id,
            parent_folder_name,
            name,
            cursor,
        } => Some(
            PopupModel::CreateChildFolder {
                account_id,
                parent_folder_id,
                parent_folder_name,
                name,
                cursor,
            },
        ),
        UpdateModel::RenameFolder { account_id, folder_id, original_name, name, cursor } => Some(
            PopupModel::RenameFolder { account_id, folder_id, original_name, name, cursor },
        ),
        UpdateModel::ReparentFolder {
            account_id,
            folder_id,
            source_folder_name,
            original_parent,
            destinations,
            selected_destination,
            ..
        } => Some(
            PopupModel::ReparentFolder {
                account_id,
                folder_id,
                source_folder_name,
                original_parent,
                destinations,
                selected_destination,
            },
        ),
        _ => None,
    }
}

/// Where the service fails, the change ends with that failure, and with the form that it
/// was ordered with.
pub proof fn law_failure_is_told(job: UpdateJob, reply: ServiceReply)
    requires
        replies_to(job@, reply),
        error_replied(reply) is Some,
    ensures
        answered(job, reply) matches UpdateStep::Done(result) && error_told(result)
            == error_replied(reply) && form_sent(result) == form_of(job@),
{
}

/// Where the service succeeds, the change ends with what the service made of it, and with
/// no failure.
pub proof fn law_success_is_told(job: UpdateJob, reply: ServiceReply)
    requires
        replies_to(job@, reply),
        error_replied(reply) is None,
        !(job matches UpdateJob::SaveNote { checked: false, .. }),
    ensures
        answered(job, reply) matches UpdateStep::Done(result) && {
            &&& error_told(result) is None
            &&& !(result is Panicked)
            &&& !(result is Conflict)
            &&& job is CreateNote || job is SaveNote || job is OverwriteNote ==> result
                == UpdateWorkerResult::Saved(reply->Note_0->Ok_0)
            &&& job is MoveNote ==> (result matches UpdateWorkerResult::Moved {
                note,
                destination_name,
            } && note == reply->Note_0->Ok_0 && destination_name == job->destination_name)
            &&& job is DeleteNote ==> (result matches UpdateWorkerResult::Deleted {
                note_id,
                previous_index,
            } && note_of(job@) == Some(note_id@) && previous_index == job->previous_index)
            &&& job is CreateFolder ==> result == UpdateWorkerResult::FolderCreated(
                reply->Folder_0->Ok_0,
            )
            &&& job is CreateChildFolder ==> result == UpdateWorkerResult::ChildFolderCreated(
                reply->Folder_0->Ok_0,
            )
            &&& job is RenameFolder ==> result == UpdateWorkerResult::FolderRenamed(
                reply->Folder_0->Ok_0,
            )
            &&& job is ReparentFolder ==> result == UpdateWorkerResult::FolderReparented(
                reply->Folder_0->Ok_0,
            )
            &&& job is DeleteFolder ==> result == UpdateWorkerResult::FolderDeleted(
                reply->FolderDeleted_0->Ok_0,
            )
            &&& job is PreviewAttachment ==> (
            result matches UpdateWorkerResult::AttachmentPreviewed { name } && name
                == job->PreviewAttachment_name)
            &&& job is ExportAttachment ==> (
            result matches UpdateWorkerResult::AttachmentExported { destination } && destination
                == reply->Exported_0->Ok_0)
        },
{
}

/// A failure of the service is shown, and opens the form of the change again.
pub proof fn law_failure_is_shown(v: AppModel, job: UpdateJob, reply: ServiceReply)
    requires
        v.background.update_running,
        v.popup is None,
        replies_to(job@, reply),
        error_replied(reply) is Some,
    ensures
        ({
            let result = answered(job, reply)->Done_0;
            let next = update_arrived(v, result).0;
            &&& next.popup == form_of(job@)
            &&& next.status.is_error
            &&& crate::text::occurs(next.status.text, error_replied(reply)->0.message@)
            &&& !next.background.update_running
            &&& next.data == v.data
            &&& next.edit == v.edit
            &&& next.orders == v.orders
        }),
{
    reveal(update_arrived);
    reveal(change_told);
    let result = answered(job, reply)->Done_0;
    let next = update_arrived(v, result).0;
    let message = error_replied(reply)->0.message@;
    let n = next.status.text.len() - message.len();
    assert(next.status.text.subrange(n, n + message.len()) =~= message);
}

// ---------------------------------------------------------------------------
// What is ordered with a form
// ---------------------------------------------------------------------------

/// Whether one change was ordered, and nothing else, with the popup gone.
pub open spec fn ordered_one(v: AppModel, next: AppModel) -> bool {
    &&& next.orders.len() == v.orders.len() + 1
    &&& next.orders.take(v.orders.len() as int) == v.orders
    &&& next.orders.last() is Update
    &&& next.background.update_running
    &&& next.popup is None
    &&& next.data == v.data
    &&& next.edit == v.edit
}

/// The change that was ordered last.
pub open spec fn last_change(v: AppModel) -> UpdateModel {
    v.orders.last()->Update_0
}

/// A form for a name is sent with the name as it was typed. A blank name is refused, with
/// the form left open.
pub proof fn law_form_is_sent_as_typed(v: AppModel, popup: PopupModel, key: KeyEvent)
    requires
        v.popup == Some(popup),
        popup is CreateFolder || popup is CreateChildFolder,
        key.code is Enter,
        !v.background.update_running,
    ensures
        ({
            let next = popup_pressed(v, key).0;
            let name = match popup {
                PopupModel::CreateFolder { name, .. } => name,
                PopupModel::CreateChildFolder { name, .. } => name,
                _ => arbitrary(),
            };
            &&& !blank(name) ==> ordered_one(v, next) && form_of(last_change(next)) == Some(popup)
                && name_of(last_change(next)) == Some(name)
            &&& blank(name) ==> next.orders == v.orders && next.popup == Some(popup)
                && next.status.is_error && !next.background.update_running
        }),
{
    reveal(popup_pressed);
    reveal(form_pressed);
    reveal(create_pressed);
    reveal(child_pressed);
    reveal(folder_creating);
    reveal(child_creating);
    let next = popup_pressed(v, key).0;
    let name = match popup {
        PopupModel::CreateFolder { name, .. } => name,
        PopupModel::CreateChildFolder { name, .. } => name,
        _ => arbitrary(),
    };
    law_blank_text_trims_to_nothing(name);
    assert(!blank(name) ==> next.orders.take(v.orders.len() as int) =~= v.orders);
}

/// A folder is renamed as it was typed. A blank name is refused, with the form left open,
/// and a name that has not changed is not sent.
pub proof fn law_rename_is_sent_as_typed(
    v: AppModel,
    account_id: AccountId,
    folder_id: FolderId,
    original_name: String,
    name: Seq<char>,
    cursor: usize,
    key: KeyEvent,
)
    requires
        v.popup == Some(
            (PopupModel::RenameFolder { account_id, folder_id, original_name, name, cursor }),
        ),
        key.code is Enter,
        !v.background.update_running,
    ensures
        ({
            let next = popup_pressed(v, key).0;
            &&& !blank(name) && name != original_name@ ==> {
                &&& ordered_one(v, next)
                &&& last_change(next) is RenameFolder
                &&& account_of(last_change(next)) == Some(account_id)
                &&& folder_of(last_change(next)) == Some(folder_id)
                &&& name_of(last_change(next)) == Some(name)
                &&& form_of(last_change(next)) == v.popup
            }
            &&& blank(name) ==> next.orders == v.orders && next.popup == v.popup
                && next.status.is_error
            &&& !blank(name) && name == original_name@ ==> next.orders == v.orders && next.popup
                is None && !next.status.is_error
        }),
{
    reveal(popup_pressed);
    reveal(form_pressed);
    reveal(rename_pressed);
    reveal(folder_renaming);
    let next = popup_pressed(v, key).0;
    law_blank_text_trims_to_nothing(name);
    assert(!blank(name) && name != original_name@ ==> next.orders.take(v.orders.len() as int)
        =~= v.orders);
}

/// A folder is moved to the place that is selected: into that folder, or to the top of its
/// account. Where it lies there already, nothing is ordered.
pub proof fn law_folder_goes_to_the_selected_place(
    v: AppModel,
    account_id: AccountId,
    folder_id: FolderId,
    source_folder_name: String,
    original_parent: FolderParent,
    destinations: Seq<FolderReparentTarget>,
    selected: usize,
    key: KeyEvent,
)
    requires
        v.popup == Some(
            (PopupModel::ReparentFolder {
                account_id,
                folder_id,
                source_folder_name,
                original_parent,
                destinations,
                selected_destination: selected,
            }),
        ),
        key.code is Enter,
        selected < destinations.len(),
        !v.background.update_running,
    ensures
        ({
            let next = popup_pressed(v, key).0;
            let at_root = original_parent is Account;
            match destinations[selected as int] {
                FolderReparentTarget::AccountRoot => {
                    &&& at_root ==> next.orders == v.orders && next.popup is None
                    &&& !at_root ==> ordered_one(v, next) && (
                    last_change(next) matches UpdateModel::ReparentFolder {
                        account_id: a,
                        folder_id: f,
                        new_parent,
                        ..
                    } && a == account_id && f == folder_id && new_parent is None)
                },
                FolderReparentTarget::Folder { folder_id: parent, .. } => {
                    let there = original_parent matches FolderParent::Folder { folder_id: p } && p@
                        == parent@;
                    &&& there ==> next.orders == v.orders && next.popup is None
                    &&& !there ==> ordered_one(v, next) && (
                    last_change(next) matches UpdateModel::ReparentFolder {
                        account_id: a,
                        folder_id: f,
                        new_parent,
                        ..
                    } && a == account_id && f == folder_id && new_parent == Some(parent))
                },
            }
        }),
{
    reveal(popup_pressed);
    reveal(form_pressed);
    reveal(reparent_pressed);
    reveal(folder_reparenting);
    let next = popup_pressed(v, key).0;
    assert(next.orders.len() > v.orders.len() ==> next.orders.take(v.orders.len() as int)
        =~= v.orders);
}

/// The lines of a tree that are folders.
pub open spec fn folder_lines(navigation: Seq<NavigationItem>) -> Seq<NavigationItem> {
    navigation.filter(|item: NavigationItem| item is Folder)
}

proof fn lemma_folders_upto(navigation: Seq<NavigationItem>, n: nat)
    requires
        n <= navigation.len(),
    ensures
        folders_upto(navigation, n).len() == folder_lines(navigation.take(n as int)).len(),
        forall|i: int|
            0 <= i < folders_upto(navigation, n).len() ==> #[trigger] folders_upto(navigation, n)[i]
                == (
                folder_lines(navigation.take(n as int))[i]->Folder_id,
                folder_lines(navigation.take(n as int))[i]->Folder_name,
            ),
    decreases n,
{
    reveal(Seq::filter);
    let is_folder = |item: NavigationItem| item is Folder;
    if n > 0 {
        lemma_folders_upto(navigation, (n - 1) as nat);
        assert(navigation.take(n as int).drop_last() =~= navigation.take(n - 1));
        assert(navigation.take(n as int).last() == navigation[n - 1]);
    } else {
        assert(navigation.take(0) =~= Seq::<NavigationItem>::empty());
    }
}

/// Every folder of the tree is offered to move a note to, in the order of the tree, and
/// nothing else.
pub proof fn law_every_folder_can_take_a_note(navigation: Seq<NavigationItem>)
    ensures
        move_targets(navigation).len() == folder_lines(navigation).len(),
        forall|i: int|
            0 <= i < folder_lines(navigation).len() ==> (#[trigger] move_targets(navigation)[i])
                == (
                folder_lines(navigation)[i]->Folder_id,
                folder_lines(navigation)[i]->Folder_name,
            ),
{
    lemma_folders_upto(navigation, navigation.len());
    assert(navigation.take(navigation.len() as int) =~= navigation);
}

/// The note on the screen is moved to the folder that is selected among those of the tree,
/// with the date that it is known to have.
pub proof fn law_note_goes_to_the_selected_folder(
    v: AppModel,
    note: Arc<Note>,
    selected: usize,
    key: KeyEvent,
)
    requires
        v.popup == Some((PopupModel::Move { selected })),
        v.shown.selected_note == Some(note),
        key.code is Enter,
        selected < folder_lines(v.data.navigation).len(),
        !v.background.update_running,
    ensures
        ({
            let next = popup_pressed(v, key).0;
            let line = folder_lines(v.data.navigation)[selected as int];
            &&& ordered_one(v, next)
            &&& last_change(next) is MoveNote
            &&& note_of(last_change(next)) == Some(note.summary.id@)
            &&& date_of(last_change(next)) == Some(note.summary.modification_date)
            &&& folder_of(last_change(next)) == Some(line->Folder_id)
            &&& last_change(next)->destination_name == line->Folder_name
        }),
{
    reveal(popup_pressed);
    reveal(form_pressed);
    reveal(move_pressed);
    reveal(note_moving);
    law_every_folder_can_take_a_note(v.data.navigation);
    let next = popup_pressed(v, key).0;
    assert(next.orders.take(v.orders.len() as int) =~= v.orders);
}

/// In a list of places, down goes one on and up one back, within the list; no other key
/// moves.
pub proof fn law_keys_move_in_a_list(at: usize, length: nat, key: KeyEvent)
    requires
        at < length <= usize::MAX,
    ensures
        ({
            let down = key.code is Down || key.code == KeyCode::Char('j');
            let up = key.code is Up || key.code == KeyCode::Char('k');
            let next = place_after(at, length, key);
            &&& next < length
            &&& down && at + 1 < length ==> next == at + 1
            &&& down && at + 1 == length ==> next == at
            &&& up && at > 0 ==> next == at - 1
            &&& up && at == 0 ==> next == 0
            &&& !down && !up ==> next == at
        }),
{
}

/// The attachment that is selected is opened, or copied, by the key for it, where it can
/// be: the service is asked for that attachment of the note on the screen.
pub proof fn law_selected_attachment_is_asked_for(
    v: AppModel,
    note: Arc<Note>,
    selected: usize,
    key: KeyEvent,
)
    requires
        v.popup == Some((PopupModel::Attachments { selected })),
        v.shown.selected_note == Some(note),
        selected < note.attachments@.len(),
        v.shown.data_source is Live,
        !v.background.update_running,
    ensures
        ({
            let a = note.attachments@[selected as int];
            let next = popup_pressed(v, key).0;
            &&& key.code is Enter && a.preview_status is Available ==> {
                &&& next.orders.len() == v.orders.len() + 1
                &&& last_change(next) matches UpdateModel::PreviewAttachment {
                    note_id,
                    attachment_id,
                    ..
                }
                &&& note_id@ == note.summary.id@ && attachment_id == a.id
                &&& next.orders.last() is Update
                &&& next.background.update_running
            }
            &&& key.code == KeyCode::Char('x') && a.export_status is Available ==> {
                &&& next.orders.len() == v.orders.len() + 1
                &&& last_change(next) matches UpdateModel::ExportAttachment {
                    note_id,
                    attachment_id,
                }
                &&& note_id@ == note.summary.id@ && attachment_id == a.id
                &&& next.orders.last() is Update
                &&& next.background.update_running
            }
            &&& !(key.code is Enter) && key.code != KeyCode::Char('x') ==> next.orders == v.orders
            &&& next.popup is Some <==> !(key.code is Esc)
        }),
{
    reveal(popup_pressed);
    reveal(attachments_pressed);
    reveal(attachment_previewing);
    reveal(attachment_exporting);
    reveal(attachment_opening);
    reveal(attachment_copying);
}

// ---------------------------------------------------------------------------
// Names
// ---------------------------------------------------------------------------

/// A character is typed where the cursor is, which goes behind it; the key for it takes the
/// character before the cursor.
pub proof fn law_name_is_typed_at_the_cursor(
    name: Seq<char>,
    cursor: usize,
    key: KeyEvent,
    moves: bool,
    c: char,
)
    requires
        cursor <= name.len() < usize::MAX,
    ensures
        ({
            let (next, at) = name_typed(name, cursor, key, moves);
            &&& key.code == KeyCode::Char(c) && !key.modifiers.control ==> {
                &&& next.len() == name.len() + 1
                &&& next[cursor as int] == c
                &&& next.remove(cursor as int) == name
                &&& at == cursor + 1
            }
            &&& key.code == KeyCode::Char(c) && key.modifiers.control ==> next == name && at
                == cursor
            &&& key.code is Backspace && cursor > 0 ==> next == name.remove(cursor - 1) && at
                == cursor - 1
            &&& key.code is Backspace && cursor == 0 ==> next == name && at == 0
        }),
{
    let (next, at) = name_typed(name, cursor, key, moves);
    if key.code == KeyCode::Char(c) && !key.modifiers.control {
        assert(next.remove(cursor as int) =~= name);
    }
    if key.code is Backspace && cursor > 0 {
        assert(next =~= name.remove(cursor - 1));
    }
}

/// In a form for a new folder the cursor goes left and right within the name, and the key
/// for it takes the character at the cursor. In one that renames a folder it stays at the
/// end.
pub proof fn law_cursor_moves_in_a_name(
    name: Seq<char>,
    cursor: usize,
    key: KeyEvent,
    moves: bool,
)
    requires
        cursor <= name.len() < usize::MAX,
        key.code is Left || key.code is Right || key.code is Delete,
    ensures
        ({
            let (next, at) = name_typed(name, cursor, key, moves);
            &&& !moves ==> next == name && at == cursor
            &&& moves && key.code is Left ==> next == name && at == if cursor > 0 {
                cursor - 1
            } else {
                0
            }
            &&& moves && key.code is Right ==> next == name && at == if cursor < name.len() {
                cursor + 1
            } else {
                cursor as int
            }
            &&& moves && key.code is Delete && cursor < name.len() ==> next == name.remove(
                cursor as int,
            ) && at == cursor
            &&& moves && key.code is Delete && cursor == name.len() ==> next == name && at
                == cursor
        }),
{
    let (next, at) = name_typed(name, cursor, key, moves);
    if moves && key.code is Delete && cursor < name.len() {
        assert(next =~= name.remove(cursor as int));
    }
}

// ---------------------------------------------------------------------------
// Keys in popups
// ---------------------------------------------------------------------------

/// A form for a new folder takes every key but enter and escape as typing, with a cursor
/// that moves; a form for another name in the same way, with a cursor that does not. What
/// the form is for stays.
pub proof fn law_forms_take_keys_as_typing(v: AppModel, popup: PopupModel, key: KeyEvent)
    requires
        v.popup == Some(popup),
        !(key.code is Enter),
        !(key.code is Esc),
    ensures
        ({
            let next = popup_pressed(v, key).0;
            &&& popup matches PopupModel::CreateFolder { account_id, name, cursor }
                ==> next.popup == Some(
                PopupModel::CreateFolder {
                    account_id,
                    name: name_typed(name, cursor, key, true).0,
                    cursor: name_typed(name, cursor, key, true).1,
                },
            )
            &&& popup matches PopupModel::CreateChildFolder {
                account_id,
                parent_folder_id,
                parent_folder_name,
                name,
                cursor,
            } ==> next.popup == Some(
                PopupModel::CreateChildFolder {
                    account_id,
                    parent_folder_id,
                    parent_folder_name,
                    name: name_typed(name, cursor, key, true).0,
                    cursor: name_typed(name, cursor, key, true).1,
                },
            )
            &&& popup matches PopupModel::RenameFolder {
                account_id,
                folder_id,
                original_name,
                name,
                cursor,
            } ==> next.popup == Some(
                PopupModel::RenameFolder {
                    account_id,
                    folder_id,
                    original_name,
                    name: name_typed(name, cursor, key, false).0,
                    cursor: name_typed(name, cursor, key, false).1,
                },
            )
            &&& popup is CreateFolder || popup is CreateChildFolder || popup is RenameFolder
                ==> next.orders == v.orders && next.data == v.data
        }),
{
    reveal(popup_pressed);
    reveal(form_pressed);
    reveal(create_pressed);
    reveal(child_pressed);
    reveal(rename_pressed);
}

/// A list of places, for a note or for a folder, moves its selection by the keys for it and
/// stays open; what it is for stays.
pub proof fn law_lists_move_their_selection(v: AppModel, popup: PopupModel, key: KeyEvent)
    requires
        v.popup == Some(popup),
        !(key.code is Enter),
        !(key.code is Esc),
    ensures
        ({
            let next = popup_pressed(v, key).0;
            &&& popup matches PopupModel::Move { selected } ==> next.popup == Some(
                PopupModel::Move {
                    selected: place_after(
                        selected,
                        folder_lines(v.data.navigation).len(),
                        key,
                    ),
                },
            )
            &&& popup matches PopupModel::ReparentFolder {
                account_id,
                folder_id,
                source_folder_name,
                original_parent,
                destinations,
                selected_destination,
            } ==> next.popup == Some(
                PopupModel::ReparentFolder {
                    account_id,
                    folder_id,
                    source_folder_name,
                    original_parent,
                    destinations,
                    selected_destination: place_after(
                        selected_destination,
                        destinations.len(),
                        key,
                    ),
                },
            )
            &&& popup matches PopupModel::Attachments { selected } ==> next.popup == Some(
                PopupModel::Attachments {
                    selected: place_after(
                        selected,
                        match v.shown.selected_note {
                            Some(note) => note.attachments@.len(),
                            None => 0,
                        },
                        key,
                    ),
                },
            )
            &&& popup is Move || popup is ReparentFolder ==> next.orders == v.orders && next.data
                == v.data
        }),
{
    reveal(popup_pressed);
    reveal(form_pressed);
    reveal(move_pressed);
    reveal(reparent_pressed);
    reveal(attachments_pressed);
    reveal(attachment_exporting);
    reveal(attachment_copying);
    law_every_folder_can_take_a_note(v.data.navigation);
}

/// A question is closed by a no or escape, without a change, and stays open for any key
/// that is no answer.
pub proof fn law_questions_are_answered(v: AppModel, popup: PopupModel, key: KeyEvent)
    requires
        v.popup == Some(popup),
        popup is DeleteConfirm || popup is DeleteFolder,
    ensures
        ({
            let next = popup_pressed(v, key).0;
            let yes = key.code == KeyCode::Char('y') || key.code == KeyCode::Char('Y');
            let no = key.code == KeyCode::Char('n') || key.code == KeyCode::Char('N') || key.code
                is Esc;
            &&& no ==> next.popup is None && next.orders == v.orders
            &&& !yes && !no ==> next.popup == v.popup && next.orders == v.orders
            &&& yes && !v.background.update_running ==> next.popup is None && next.orders.len()
                == v.orders.len() + 1
            &&& yes && v.background.update_running ==> next.orders == v.orders
            &&& next.data == v.data
        }),
{
    reveal(popup_pressed);
    reveal(form_pressed);
    reveal(deletion_pressed);
    reveal(folder_deletion_pressed);
    reveal(note_deleting);
    reveal(folder_deleting);
}

/// Where there is no note on the screen, or the selection is past the end of its list, a
/// move or an attachment is not ordered.
pub proof fn law_nothing_selected_orders_nothing(v: AppModel, selected: usize, key: KeyEvent)
    requires
        key.code is Enter || key.code == KeyCode::Char('x'),
    ensures
        v.popup == Some((PopupModel::Move { selected })) && key.code is Enter && (
        v.shown.selected_note is None || selected >= folder_lines(v.data.navigation).len())
            ==> popup_pressed(v, key).0.orders == v.orders && popup_pressed(v, key).0.popup is None,
        v.popup == Some((PopupModel::Attachments { selected })) && (match v.shown.selected_note {
            Some(note) => selected >= note.attachments@.len(),
            None => true,
        }) ==> popup_pressed(v, key).0.orders == v.orders && popup_pressed(
            v,
            key,
        ).0.status.is_error,
{
    reveal(popup_pressed);
    reveal(form_pressed);
    reveal(move_pressed);
    reveal(attachments_pressed);
    reveal(attachment_previewing);
    reveal(attachment_exporting);
    law_every_folder_can_take_a_note(v.data.navigation);
}

/// While a change is under way no form orders another.
pub proof fn law_forms_wait_for_the_change(v: AppModel, popup: PopupModel, key: KeyEvent)
    requires
        v.popup == Some(popup),
        v.background.update_running,
        popup is CreateFolder || popup is CreateChildFolder || popup is RenameFolder || popup
            is ReparentFolder || popup is Move || popup is Attachments,
    ensures
        popup_pressed(v, key).0.orders == v.orders,
        popup_pressed(v, key).0.data == v.data,
{
    reveal(popup_pressed);
    reveal(form_pressed);
    reveal(create_pressed);
    reveal(child_pressed);
    reveal(rename_pressed);
    reveal(reparent_pressed);
    reveal(move_pressed);
    reveal(attachments_pressed);
    reveal(folder_creating);
    reveal(child_creating);
    reveal(folder_renaming);
    reveal(folder_reparenting);
    reveal(note_moving);
    reveal(attachment_previewing);
    reveal(attachment_exporting);
    reveal(attachment_opening);
    reveal(attachment_copying);
}

/// A draft that was found is restored by the key for it, thrown away by another, and left
/// for later by escape; any other key leaves the question open.
pub proof fn law_found_draft_is_decided_on(
    v: AppModel,
    draft: Arc<crate::workflow::RecoveredDraft>,
    recoverable: bool,
    key: KeyEvent,
)
    requires
        v.popup == Some((PopupModel::DraftRecovery { draft, recoverable })),
    ensures
        ({
            let next = popup_pressed(v, key).0;
            let restores = key.code == KeyCode::Char('r') && recoverable;
            let discards = key.code == KeyCode::Char('d');
            &&& restores ==> next.popup is None && next.shown.mode is Insert && next.edit == Some(
                crate::returning::draft_restored(*draft),
            ) && next.kept.pending_draft is None
            &&& discards ==> next.popup is None && next.edit == v.edit && next.steps.last()
                is ClearRecovery
            &&& key.code is Esc ==> next.popup is None && next.edit == v.edit
                && next.kept.pending_draft == Some(draft)
            &&& !restores && !discards && !(key.code is Esc) ==> next.popup == v.popup && next.edit
                == v.edit
            &&& next.orders == v.orders
        }),
{
    reveal(popup_pressed);
    reveal(form_pressed);
    reveal(crate::popups::recovery_pressed);
    reveal(crate::returning::recovery_restored);
}

} // verus!
