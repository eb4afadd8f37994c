//! Moving and deleting notes, and their attachments.

use std::sync::Arc;

use vstd::prelude::*;

use crate::app::{
    complain, first_do, first_do5, refused_offline, say, shown_folder, visible_note, App,
    AppModel, DataModel,
};
use crate::folders::{updating, with_popup};
use crate::jobs::UpdateJob;
use crate::model::{
    AttachmentAccessStatus, AttachmentId, AttachmentSummary, FolderId, Note, NoteDate, NoteId,
    NoteSummary,
};
use crate::preview::{attachment_display_name, attachment_name};
use crate::text::owned;
use crate::workflow::{Message, Popup, PopupModel, Problem, Step, UpdateModel};

verus! {

// ---------------------------------------------------------------------------
// Moving
// ---------------------------------------------------------------------------

#[verifier::opaque]
pub open spec fn move_begun(v: AppModel) -> AppModel {
    if !(v.shown.data_source is Live) {
        refused_offline(v)
    } else if v.shown.selected_note is Some {
        with_popup(v, PopupModel::Move { selected: 0 })
    } else {
        v
    }
}

#[verifier::opaque]
pub open spec fn note_moving(
    v: AppModel,
    id: NoteId,
    destination_folder_id: FolderId,
    expected_modification_date: NoteDate,
    destination_name: String,
) -> AppModel {
    if v.background.update_running {
        v
    } else {
        updating(
            v,
            UpdateModel::MoveNote {
                id,
                destination_folder_id,
                expected_modification_date,
                destination_name,
            },
            "Moving…"@,
        )
    }
}

/// The lists of folders without that of the folder that is shown.
pub open spec fn rows_left(v: AppModel) -> Map<Seq<char>, Seq<NoteSummary>> {
    match shown_folder(v) {
        Some(id) => v.data.rows.remove(id@),
        None => v.data.rows,
    }
}

/// A note was moved: both folders are read anew.
#[verifier::opaque]
pub open spec fn note_moved(v: AppModel, note: Arc<Note>, destination: String) -> AppModel {
    first_do5(
        AppModel {
            data: DataModel { rows: rows_left(v).remove(note.summary.folder_id@), ..v.data },
            ..v
        },
        Step::LoadNotes { persist: false, browse: false },
        Step::KeepNote(note),
        Step::Snapshot,
        Step::Conclude(Message::MovedTo(destination)),
        Step::PersistSession,
    )
}

impl App {
    pub fn begin_move(&mut self)
        ensures
            final(self)@ == move_begun(old(self)@),
            old(self).wf() ==> final(self).wf(),
    {
        proof {
            reveal(move_begun);
        }
        if !self.require_live_backend() {
            return;
        }
        if self.shown.selected_note.is_some() {
            self.open_popup(Popup::Move { selected: 0 });
        }
    }

    pub fn start_move_worker(
        &mut self,
        id: NoteId,
        destination_folder_id: FolderId,
        expected_modification_date: NoteDate,
        destination_name: String,
    )
        ensures
            final(self)@ == note_moving(
                old(self)@,
                id,
                destination_folder_id,
                expected_modification_date,
                destination_name,
            ),
            old(self).wf() ==> final(self).wf(),
    {
        proof {
            reveal(note_moving);
        }
        if self.background.update_running {
            return;
        }
        self.update(
            UpdateJob::MoveNote {
                id,
                destination_folder_id,
                expected_modification_date,
                destination_name,
            },
            owned("Moving…"),
        );
    }

    /// Lets go of the list of the folder that is shown.
    fn forget_shown_rows(&mut self)
        ensures
            final(self)@ == (AppModel {
                data: DataModel { rows: rows_left(old(self)@), ..old(self)@.data },
                ..old(self)@
            }),
            old(self).wf() ==> final(self).wf(),
    {
        let id = match self.selected_folder_id() {
            Some(id) => id.clone(),
            None => return,
        };
        self.data.rows.remove(&id);
    }

    pub fn finish_moved(&mut self, note: Arc<Note>, destination: String)
        ensures
            final(self)@ == note_moved(old(self)@, note, destination),
            old(self).wf() ==> final(self).wf(),
    {
        proof {
            reveal(note_moved);
        }
        self.forget_shown_rows();
        self.data.rows.remove(&note.summary.folder_id);
        self.first_do5(
            Step::LoadNotes { persist: false, browse: false },
            Step::KeepNote(note),
            Step::Snapshot,
            Step::Conclude(Message::MovedTo(destination)),
            Step::PersistSession,
        );
    }
}

// ---------------------------------------------------------------------------
// Deleting
// ---------------------------------------------------------------------------

#[verifier::opaque]
pub open spec fn deletion_offered(v: AppModel) -> AppModel {
    if !(v.shown.data_source is Live) {
        refused_offline(v)
    } else if !v.prefs.capabilities.delete {
        complain(v, "Deleting notes is not supported by this backend."@)
    } else {
        match v.shown.selected_note {
            Some(note) => with_popup(v, PopupModel::DeleteConfirm(note)),
            None => v,
        }
    }
}

#[verifier::opaque]
pub open spec fn note_deleting(v: AppModel, note: Note) -> AppModel {
    if v.background.update_running {
        v
    } else {
        updating(
            v,
            UpdateModel::DeleteNote {
                id: note.summary.id,
                expected_modification_date: note.summary.modification_date,
                previous_index: v.shown.selected_note_index,
            },
            "Deleting…"@,
        )
    }
}

/// A note was deleted: its folder is read anew, and the note that took its place is
/// selected.
#[verifier::opaque]
pub open spec fn note_deleted(v: AppModel, id: NoteId, previous_index: usize) -> AppModel {
    first_do(
        first_do5(
            AppModel { data: DataModel { rows: rows_left(v), ..v.data }, ..v },
            Step::Reselect(previous_index),
            Step::ForgetNote(id),
            Step::Snapshot,
            Step::Conclude(Message::MovedToDeleted),
            Step::PersistSession,
        ),
        Step::LoadNotes { persist: false, browse: false },
    )
}

impl App {
    pub fn begin_delete_note(&mut self)
        ensures
            final(self)@ == deletion_offered(old(self)@),
            old(self).wf() ==> final(self).wf(),
    {
        proof {
            reveal(deletion_offered);
        }
        if !self.require_live_backend() {
            return;
        }
        if !self.prefs.capabilities.delete {
            self.complain(owned("Deleting notes is not supported by this backend."));
            return;
        }
        let note = match &self.shown.selected_note {
            Some(note) => note.clone(),
            None => return,
        };
        self.open_popup(Popup::DeleteConfirm(note));
    }

    pub fn delete_note_confirmed(&mut self, note: &Note)
        ensures
            final(self)@ == note_deleting(old(self)@, *note),
            old(self).wf() ==> final(self).wf(),
    {
        proof {
            reveal(note_deleting);
        }
        if self.background.update_running {
            return;
        }
        let previous_index = self.shown.selected_note_index;
        self.update(
            UpdateJob::DeleteNote {
                id: note.summary.id.clone(),
                expected_modification_date: note.summary.modification_date.clone(),
                previous_index,
            },
            owned("Deleting…"),
        );
    }

    pub fn finish_deleted(&mut self, id: NoteId, previous_index: usize)
        ensures
            final(self)@ == note_deleted(old(self)@, id, previous_index),
            old(self).wf() ==> final(self).wf(),
    {
        proof {
            reveal(note_deleted);
        }
        self.forget_shown_rows();
        self.first_do5(
            Step::Reselect(previous_index),
            Step::ForgetNote(id),
            Step::Snapshot,
            Step::Conclude(Message::MovedToDeleted),
            Step::PersistSession,
        );
        self.first_do(Step::LoadNotes { persist: false, browse: false });
    }
}

// ---------------------------------------------------------------------------
// Attachments
// ---------------------------------------------------------------------------

/// The note that is selected: the one on the screen, else the one in the list.
pub open spec fn chosen_summary(v: AppModel) -> Option<NoteSummary> {
    match v.shown.selected_note {
        Some(note) => Some(note.summary),
        None => visible_note(v, v.shown.selected_note_index as int),
    }
}

#[verifier::opaque]
pub open spec fn attachments_opened(v: AppModel) -> AppModel {
    if !(v.shown.data_source is Live) {
        refused_offline(v)
    } else {
        match chosen_summary(v) {
            None => say(v, "No note selected"@),
            Some(summary) => if summary.password_protected {
                first_do(v, Step::Report(Problem::ProtectedNote { id: summary.id }))
            } else {
                match v.shown.selected_note {
                    None => complain(
                        v,
                        "ERROR: Attachment metadata is unavailable for this note"@,
                    ),
                    Some(note) => if note.attachments@.len() == 0 {
                        say(v, "This note has no attachments"@)
                    } else {
                        with_popup(v, PopupModel::Attachments { selected: 0 })
                    },
                }
            },
        }
    }
}

/// The attachment at a position, with the note that it belongs to.
pub open spec fn attachment_at(v: AppModel, selected: usize) -> Option<
    (NoteId, AttachmentSummary),
> {
    match v.shown.selected_note {
        Some(note) => if selected < note.attachments@.len() {
            Some((note.summary.id, note.attachments@[selected as int]))
        } else {
            None
        },
        None => None,
    }
}

#[verifier::opaque]
pub open spec fn attachment_opening(
    v: AppModel,
    note_id: NoteId,
    attachment_id: AttachmentId,
    name: Seq<char>,
) -> AppModel {
    if v.background.update_running {
        v
    } else {
        updating(
            v,
            UpdateModel::PreviewAttachment { note_id, attachment_id, name },
            "Opening attachment…"@,
        )
    }
}

#[verifier::opaque]
pub open spec fn attachment_copying(
    v: AppModel,
    note_id: NoteId,
    attachment_id: AttachmentId,
) -> AppModel {
    if v.background.update_running {
        v
    } else {
        updating(
            v,
            UpdateModel::ExportAttachment { note_id, attachment_id },
            "Exporting attachment…"@,
        )
    }
}

#[verifier::opaque]
pub open spec fn attachment_previewing(v: AppModel, selected: usize) -> AppModel {
    if !(v.shown.data_source is Live) {
        refused_offline(v)
    } else {
        match attachment_at(v, selected) {
            None => complain(v, "ERROR: Selected attachment is unavailable"@),
            Some((note_id, a)) => match a.preview_status {
                AttachmentAccessStatus::Available => attachment_opening(
                    v,
                    note_id,
                    a.id,
                    attachment_name(a),
                ),
                AttachmentAccessStatus::Unavailable(reason) => first_do(
                    v,
                    Step::Report(Problem::AttachmentNotPreviewed { id: a.id, reason }),
                ),
            },
        }
    }
}

#[verifier::opaque]
pub open spec fn attachment_exporting(v: AppModel, selected: usize) -> AppModel {
    if !(v.shown.data_source is Live) {
        refused_offline(v)
    } else {
        match attachment_at(v, selected) {
            None => complain(v, "ERROR: Selected attachment is unavailable"@),
            Some((note_id, a)) => match a.export_status {
                AttachmentAccessStatus::Available => attachment_copying(v, note_id, a.id),
                AttachmentAccessStatus::Unavailable(reason) => first_do(
                    v,
                    Step::Report(Problem::AttachmentNotExported { id: a.id, reason }),
                ),
            },
        }
    }
}

impl App {
    pub fn begin_attachments(&mut self)
        ensures
            final(self)@ == attachments_opened(old(self)@),
            old(self).wf() ==> final(self).wf(),
    {
        proof {
            reveal(attachments_opened);
        }
        if !self.require_live_backend() {
            return;
        }
        let (protected, id) = match &self.shown.selected_note {
            Some(note) => (note.summary.password_protected, note.summary.id.clone()),
            None => match self.visible_note(self.shown.selected_note_index) {
                Some(summary) => (summary.password_protected, summary.id.clone()),
                None => {
                    self.say(owned("No note selected"));
                    return;
                },
            },
        };
        if protected {
            self.first_do(Step::Report(Problem::ProtectedNote { id }));
            return;
        }
        let count: usize = match &self.shown.selected_note {
            Some(note) => note.attachments.len(),
            None => {
                self.complain(owned("ERROR: Attachment metadata is unavailable for this note"));
                return;
            },
        };
        if count == 0 {
            self.say(owned("This note has no attachments"));
            return;
        }
        self.open_popup(Popup::Attachments { selected: 0 });
    }

    fn selected_attachment(&self, selected: usize) -> (r: Option<(NoteId, AttachmentSummary)>)
        ensures
            r == attachment_at(self@, selected),
    {
        match &self.shown.selected_note {
            Some(note) => if selected < note.attachments.len() {
                Some((note.summary.id.clone(), note.attachments[selected].clone()))
            } else {
                None
            },
            None => None,
        }
    }

    pub fn start_attachment_preview_worker(
        &mut self,
        note_id: NoteId,
        attachment_id: AttachmentId,
        name: String,
    )
        ensures
            final(self)@ == attachment_opening(old(self)@, note_id, attachment_id, name@),
            old(self).wf() ==> final(self).wf(),
    {
        proof {
            reveal(attachment_opening);
        }
        if self.background.update_running {
            return;
        }
        self.update(
            UpdateJob::PreviewAttachment { note_id, attachment_id, name },
            owned("Opening attachment…"),
        );
    }

    pub fn start_attachment_export_worker(&mut self, note_id: NoteId, attachment_id: AttachmentId)
        ensures
            final(self)@ == attachment_copying(old(self)@, note_id, attachment_id),
            old(self).wf() ==> final(self).wf(),
    {
        proof {
            reveal(attachment_copying);
        }
        if self.background.update_running {
            return;
        }
        self.update(
            UpdateJob::ExportAttachment { note_id, attachment_id },
            owned("Exporting attachment…"),
        );
    }

    pub fn preview_attachment(&mut self, selected: usize)
        ensures
            final(self)@ == attachment_previewing(old(self)@, selected),
            old(self).wf() ==> final(self).wf(),
    {
        proof {
            reveal(attachment_previewing);
        }
        if !self.require_live_backend() {
            return;
        }
        match self.selected_attachment(selected) {
            None => self.complain(owned("ERROR: Selected attachment is unavailable")),
            Some((note_id, a)) => match a.preview_status {
                AttachmentAccessStatus::Available => {
                    let name = attachment_display_name(&a);
                    self.start_attachment_preview_worker(note_id, a.id, name);
                },
                AttachmentAccessStatus::Unavailable(reason) => self.first_do(
                    Step::Report(Problem::AttachmentNotPreviewed { id: a.id, reason }),
                ),
            },
        }
    }

    pub fn export_attachment(&mut self, selected: usize)
        ensures
            final(self)@ == attachment_exporting(old(self)@, selected),
            old(self).wf() ==> final(self).wf(),
    {
        proof {
            reveal(attachment_exporting);
        }
        if !self.require_live_backend() {
            return;
        }
        match self.selected_attachment(selected) {
            None => self.complain(owned("ERROR: Selected attachment is unavailable")),
            Some((note_id, a)) => match a.export_status {
                AttachmentAccessStatus::Available => self.start_attachment_export_worker(
                    note_id,
                    a.id,
                ),
                AttachmentAccessStatus::Unavailable(reason) => self.first_do(
                    Step::Report(Problem::AttachmentNotExported { id: a.id, reason }),
                ),
            },
        }
    }
}

} // verus!
