//! Returning to where the user was: the session and the draft.

use std::sync::Arc;

use vstd::prelude::*;

use crate::app::{chosen_id, id_view, say, selected_item, App, AppModel, KeptModel, Shown};
use crate::browsing::{ask, go_on, searching};
use crate::draft::{
    Draft, EditorCursorRecovery, EditorRecoveryDraft, EditorRecoveryField, EditorRecoveryKind,
};
use crate::edit::{
    cursor_within, editor_viewport_max, lemma_target_at, original_document, original_of,
    target_at, viewport_limit, EditField, EditModel, EditSession,
};
use crate::editor::{first_spot, opened, text_at, valid_spot, EditorDocument};
use crate::model::{account_at, find_account, NoteId, NoteSummary};
use crate::navigation::{
    find_home_folder, find_session_line, home_folder, lists_folder, session_line, NavigationItem,
};
use crate::preview::{preview_lines, preview_text, scroll_limit};
use crate::session::{Session, SessionState};
use crate::text::{cat, owned};
use crate::workflow::{
    focus_restored, focus_saved, AppMode, Await, Effect, Focus, Popup, PopupModel, RecoveredDraft,
    Search, SearchState,
};

verus! {

// ---------------------------------------------------------------------------
// Restoring the session
// ---------------------------------------------------------------------------

/// The client at the line that the session points to.
#[verifier::opaque]
pub open spec fn context_restored(v: AppModel) -> AppModel {
    match v.kept.pending_session {
        Some(s) => match session_line(v.data.accounts, v.data.navigation, s) {
            Some(line) => AppModel { shown: Shown { selected_navigation: line, ..v.shown }, ..v },
            None => v,
        },
        None => v,
    }
}

/// The client with the search of a session.
#[verifier::opaque]
pub open spec fn search_restored(v: AppModel, session: Option<SessionState>) -> AppModel {
    match session {
        Some(s) => match s.search_query {
            Some(query) => if query@.len() > 0 {
                searching(v, query@)
            } else {
                v
            },
            None => v,
        },
        None => v,
    }
}

/// The last line that the preview on the screen can be scrolled to.
pub open spec fn preview_limit(v: AppModel) -> u16 {
    match v.shown.selected_note {
        Some(note) => scroll_limit(preview_lines(*note, v.prefs.show_attachment_metadata).len()),
        None => 0,
    }
}

/// The client at the scroll position of the session, where its note is the selected one.
#[verifier::opaque]
pub open spec fn scroll_restored(v: AppModel) -> AppModel {
    match v.kept.pending_session {
        Some(s) => if id_view(s.note_id) == id_view(chosen_id(v)) && s.preview_scroll is Some {
            let scroll = s.preview_scroll->0;
            let limit = preview_limit(v);
            AppModel {
                shown: Shown {
                    preview_scroll: if scroll <= limit {
                        scroll
                    } else {
                        limit
                    },
                    ..v.shown
                },
                ..v
            }
        } else {
            v
        },
        None => v,
    }
}

/// The pane of the session, where there is one.
pub open spec fn session_pane(v: AppModel) -> Option<Focus> {
    match v.kept.pending_session {
        Some(s) => match s.focus {
            Some(focus) => Some(focus_restored(focus)),
            None => None,
        },
        None => None,
    }
}

/// Whether the pane of the session has nothing to show: a preview without a note.
pub open spec fn pane_is_bare(v: AppModel) -> bool {
    session_pane(v) == Some(Focus::Preview) && chosen_id(v) is None
}

/// The client at the pane of the session, or at the notes where that has nothing to
/// show.
#[verifier::opaque]
pub open spec fn focus_returned(v: AppModel) -> AppModel {
    match session_pane(v) {
        Some(pane) => AppModel {
            shown: Shown {
                focus: if pane_is_bare(v) {
                    Focus::Notes
                } else {
                    pane
                },
                ..v.shown
            },
            ..v
        },
        None => v,
    }
}

/// The note of the session, where the session points to the selected folder.
pub open spec fn note_of_session(v: AppModel) -> Option<NoteId> {
    match (v.kept.pending_session, selected_item(v)) {
        (Some(s), Some(NavigationItem::Folder { id, account_id, .. })) => {
            let same = s.account_id is Some && s.account_id->0@ == account_id@ && s.folder_id
                is Some && s.folder_id->0@ == id@;
            if same {
                s.note_id
            } else {
                None
            }
        },
        _ => None,
    }
}

impl App {
    pub fn restore_pending_session_context(&mut self)
        ensures
            final(self)@ == context_restored(old(self)@),
            old(self).wf() ==> final(self).wf(),
    {
        proof {
            reveal(context_restored);
        }
        let line = match &self.kept.pending_session {
            Some(s) => find_session_line(&self.data.accounts, &self.data.navigation, s),
            None => None,
        };
        if let Some(line) = line {
            self.shown.selected_navigation = line;
        }
    }

    pub fn restore_session_search(&mut self, session: &Option<SessionState>)
        ensures
            final(self)@ == search_restored(old(self)@, *session),
            old(self).wf() ==> final(self).wf(),
    {
        proof {
            reveal(search_restored);
        }
        if let Some(s) = session {
            if let Some(query) = &s.search_query {
                if !query.as_str().is_empty() {
                    self.search_for(query.clone());
                }
            }
        }
    }

    pub fn preview_scroll_max(&self) -> (r: u16)
        ensures
            r == preview_limit(self@),
    {
        match &self.shown.selected_note {
            Some(note) => {
                let lines = preview_text(note, self.prefs.show_attachment_metadata);
                let n = lines.len();
                proof {
                    assert(crate::preview::shown(lines@).len() == n);
                }
                if n == 0 {
                    0
                } else if n - 1 > 65535 {
                    u16::MAX
                } else {
                    (n - 1) as u16
                }
            },
            None => 0,
        }
    }

    pub fn restore_session_scroll_if_exact(&mut self)
        ensures
            final(self)@ == scroll_restored(old(self)@),
            old(self).wf() ==> final(self).wf(),
    {
        proof {
            reveal(scroll_restored);
        }
        let scroll = match &self.kept.pending_session {
            Some(s) => {
                let same = match (&s.note_id, self.selected_note_id()) {
                    (Some(a), Some(b)) => a.same(&b),
                    (None, None) => true,
                    _ => false,
                };
                if same {
                    s.preview_scroll
                } else {
                    None
                }
            },
            None => None,
        };
        if let Some(scroll) = scroll {
            let limit = self.preview_scroll_max();
            self.shown.preview_scroll = if scroll <= limit {
                scroll
            } else {
                limit
            };
        }
    }

    /// Goes to the pane of the session; true where that had nothing to show.
    pub fn restore_session_focus(&mut self) -> (r: bool)
        ensures
            r == pane_is_bare(old(self)@),
            final(self)@ == focus_returned(old(self)@),
            old(self).wf() ==> final(self).wf(),
    {
        proof {
            reveal(focus_returned);
        }
        let saved = match &self.kept.pending_session {
            Some(s) => s.focus,
            None => None,
        };
        match saved {
            Some(saved) => {
                let pane = Focus::from_session_focus(saved);
                let bare = pane == Focus::Preview && self.selected_note_id().is_none();
                self.shown.focus = if bare {
                    Focus::Notes
                } else {
                    pane
                };
                bare
            },
            None => false,
        }
    }

    pub fn session_note_for_current_context(&self) -> (r: Option<NoteId>)
        ensures
            r == note_of_session(self@),
    {
        if self.shown.selected_navigation >= self.data.navigation.len() {
            return None;
        }
        match (&self.kept.pending_session, &self.data.navigation[self.shown.selected_navigation]) {
            (Some(s), NavigationItem::Folder { id, account_id, .. }) => {
                let account = match &s.account_id {
                    Some(a) => a.same(account_id),
                    None => false,
                };
                let folder = match &s.folder_id {
                    Some(f) => f.same(id),
                    None => false,
                };
                if account && folder {
                    match &s.note_id {
                        Some(note) => Some(note.clone()),
                        None => None,
                    }
                } else {
                    None
                }
            },
            _ => None,
        }
    }
}

// ---------------------------------------------------------------------------
// Keeping the session
// ---------------------------------------------------------------------------

/// Whether a note of the list lies in a folder.
pub open spec fn note_listed(notes: Seq<NoteSummary>, note: Seq<char>, folder: Seq<char>) -> bool {
    exists|i: int|
        0 <= i < notes.len() && (#[trigger] notes[i]).id@ == note && notes[i].folder_id@ == folder
}

/// The query of a search that is in force.
pub open spec fn query_in_force(v: AppModel) -> Option<Seq<char>> {
    match v.search {
        Search::Active(a) => if a.query.len() > 0 {
            Some(a.query)
        } else {
            None
        },
        _ => None,
    }
}

/// The session of a selection in the tree and in the list.
pub open spec fn session_at(
    v: AppModel,
    account: Seq<char>,
    folder: Seq<char>,
    note: Option<NoteId>,
) -> Session {
    Session {
        account_id: Some(account),
        folder_id: Some(folder),
        note_id: id_view(note),
        search_query: query_in_force(v),
        preview_scroll: match note {
            Some(_) => Some(v.shown.preview_scroll),
            None => None,
        },
        focus: Some(focus_saved(v.shown.focus)),
    }
}

/// The note to keep with the session: the selected one, where it is a note of the
/// selected folder.
pub open spec fn note_to_keep(v: AppModel, folder: Seq<char>) -> Option<NoteId> {
    match chosen_id(v) {
        Some(id) => if note_listed(v.data.notes, id@, folder) {
            Some(id)
        } else {
            None
        },
        None => None,
    }
}

/// The session of what is selected: a folder, or an account with the folder that stands
/// for it.
pub open spec fn session_for(v: AppModel) -> Option<Session> {
    match selected_item(v) {
        Some(NavigationItem::Folder { id, account_id, .. }) => Some(
            session_at(v, account_id@, id@, note_to_keep(v, id@)),
        ),
        Some(NavigationItem::Account { id, .. }) => {
            let k = account_at(v.data.accounts, id@) as int;
            if k < v.data.accounts.len() {
                match home_folder(v.data.accounts[k], v.data.folders) {
                    Some(folder) => Some(session_at(v, v.data.accounts[k].id@, folder@, None)),
                    None => None,
                }
            } else {
                None
            }
        },
        None => None,
    }
}

/// The session is to be written, where it is kept and has changed.
#[verifier::opaque]
pub open spec fn session_persisting(v: AppModel) -> (AppModel, Option<Effect>) {
    match session_for(v) {
        Some(s) => if v.prefs.keeps_session && v.kept.last_session != Some(s) {
            ask(
                AppModel { kept: KeptModel { writing_session: Some(s), ..v.kept }, ..v },
                Await::SessionWritten,
                Effect::WriteSession,
            )
        } else {
            go_on(v)
        },
        None => go_on(v),
    }
}

#[verifier::opaque]
pub open spec fn session_written(v: AppModel, done: Result<(), String>) -> AppModel {
    match done {
        Ok(_) => AppModel {
            kept: KeptModel {
                last_session: v.kept.writing_session,
                writing_session: None,
                ..v.kept
            },
            ..v
        },
        Err(e) => say(AppModel {
            kept: KeptModel { writing_session: None, ..v.kept },
            ..v
        }, "Session warning: "@ + e@),
    }
}

fn lists_note(notes: &Vec<NoteSummary>, note: &NoteId, folder: &crate::model::FolderId) -> (r: bool)
    ensures
        r == note_listed(notes@, note@, folder@),
{
    let mut i: usize = 0;
    while i < notes.len()
        invariant
            i <= notes@.len(),
            forall|k: int|
                0 <= k < i ==> !((#[trigger] notes@[k]).id@ == note@ && notes@[k].folder_id@
                    == folder@),
        decreases notes@.len() - i,
    {
        if notes[i].id.same(note) && notes[i].folder_id.same(folder) {
            return true;
        }
        i = i + 1;
    }
    false
}

impl App {
    fn session_with(
        &self,
        account: crate::model::AccountId,
        folder: crate::model::FolderId,
        note: Option<NoteId>,
    ) -> (r: SessionState)
        ensures
            r@ == session_at(self@, account@, folder@, note),
    {
        let query = match &self.search {
            SearchState::Active(active) => if active.query.as_str().is_empty() {
                None
            } else {
                Some(active.query.clone())
            },
            _ => None,
        };
        let scroll = match &note {
            Some(_) => Some(self.shown.preview_scroll),
            None => None,
        };
        SessionState {
            account_id: Some(account),
            folder_id: Some(folder),
            note_id: note,
            search_query: query,
            preview_scroll: scroll,
            focus: Some(self.shown.focus.session_focus()),
        }
    }

    pub fn session_state_for_current_selection(&self) -> (r: Option<SessionState>)
        ensures
            match r {
                Some(s) => session_for(self@) == Some(s@),
                None => session_for(self@) is None,
            },
    {
        if self.shown.selected_navigation >= self.data.navigation.len() {
            return None;
        }
        match &self.data.navigation[self.shown.selected_navigation] {
            NavigationItem::Folder { id, account_id, .. } => {
                let note = match self.selected_note_id() {
                    Some(note) => if lists_note(&self.data.notes, &note, id) {
                        Some(note)
                    } else {
                        None
                    },
                    None => None,
                };
                Some(self.session_with(account_id.clone(), id.clone(), note))
            },
            NavigationItem::Account { id, .. } => match find_account(&self.data.accounts, id) {
                Some(k) => match find_home_folder(&self.data.accounts[k], &self.data.folders) {
                    Some(folder) => Some(
                        self.session_with(self.data.accounts[k].id.clone(), folder, None),
                    ),
                    None => None,
                },
                None => None,
            },
        }
    }

    pub fn persist_session_selection(&mut self) -> (r: Option<Effect>)
        ensures
            (final(self)@, r) == session_persisting(old(self)@),
            old(self).wf() ==> final(self).wf(),
    {
        proof {
            reveal(session_persisting);
        }
        let session = match self.session_state_for_current_selection() {
            Some(session) => session,
            None => return None,
        };
        if !self.prefs.keeps_session {
            return None;
        }
        let same = match &self.kept.last_session {
            Some(last) => last.same(&session),
            None => false,
        };
        if same {
            return None;
        }
        self.kept.writing_session = Some(session);
        self.ask(Await::SessionWritten, Effect::WriteSession)
    }

    pub fn end_session_write(&mut self, done: Result<(), String>)
        ensures
            final(self)@ == session_written(old(self)@, done),
            old(self).wf() ==> final(self).wf(),
    {
        proof {
            reveal(session_written);
        }
        let mut session: Option<SessionState> = None;
        std::mem::swap(&mut session, &mut self.kept.writing_session);
        match done {
            Ok(_) => {
                self.kept.last_session = session;
            },
            Err(e) => self.say(cat("Session warning: ", e.as_str())),
        }
    }

    /// The session that is to be written.
    pub fn session_to_write(&self) -> (r: Option<&SessionState>)
        ensures
            match r {
                Some(s) => self@.kept.writing_session == Some(s@),
                None => self@.kept.writing_session is None,
            },
    {
        match &self.kept.writing_session {
            Some(s) => Some(s),
            None => None,
        }
    }
}

// ---------------------------------------------------------------------------
// Keeping the draft
// ---------------------------------------------------------------------------

/// Whether a draft can still be applied: its folder is there, or its note.
pub open spec fn draft_applies(v: AppModel, draft: EditorRecoveryDraft) -> bool {
    match draft.kind {
        EditorRecoveryKind::Create => crate::navigation::folder_listed(
            v.data.folders,
            draft.account_id@,
            draft.folder_id@,
        ),
        EditorRecoveryKind::Edit => draft.note_id is Some && note_listed(
            v.data.notes,
            draft.note_id->0@,
            draft.folder_id@,
        ),
    }
}

/// The client with the draft that was found offered to the user.
#[verifier::opaque]
pub open spec fn draft_offered(v: AppModel) -> AppModel {
    match v.kept.pending_draft {
        Some(found) => say(
            AppModel {
                popup: Some(
                    PopupModel::DraftRecovery {
                        draft: found,
                        recoverable: draft_applies(v, found.draft),
                    },
                ),
                ..v
            },
            "Unsaved local editor draft found; it has not been saved to Notes.app"@,
        ),
        None => v,
    }
}

/// The draft of an edit in a folder of an account.
pub open spec fn draft_at(e: EditModel, account: Seq<char>) -> Draft {
    Draft {
        version: 1,
        kind: if e.is_new {
            EditorRecoveryKind::Create
        } else {
            EditorRecoveryKind::Edit
        },
        account_id: account,
        folder_id: e.folder_id@,
        note_id: id_view(e.note_id),
        expected_modification_date: crate::jobs::date_text(e.base_modification_date),
        title: e.title,
        document: e.document,
        original_title: e.original_title,
        original_body_html: e.original_body_html,
        original_plaintext: e.original_plaintext,
        cursor: Some(
            EditorCursorRecovery {
                field: match e.field {
                    EditField::Title => EditorRecoveryField::Title,
                    EditField::Body => EditorRecoveryField::Body,
                },
                target: target_at(e.target),
                offset: e.cursor,
            },
        ),
        viewport: Some(e.viewport),
    }
}

/// The draft of the edit under way, where it has changes and a folder is selected.
pub open spec fn draft_for(v: AppModel) -> Option<Draft> {
    match (v.edit, selected_item(v)) {
        (Some(e), Some(NavigationItem::Folder { account_id, .. })) => if e.dirty {
            Some(draft_at(e, account_id@))
        } else {
            None
        },
        _ => None,
    }
}

/// The draft is to be removed, where drafts are kept.
#[verifier::opaque]
pub open spec fn recovery_clearing(v: AppModel) -> (AppModel, Option<Effect>) {
    let next = AppModel {
        kept: KeptModel { pending_draft: None, last_draft: None, ..v.kept },
        ..v
    };
    if v.prefs.keeps_draft {
        ask(next, Await::DraftRemoved, Effect::RemoveDraft)
    } else {
        go_on(next)
    }
}

/// The draft is to be written where the edit has changed, and to be removed where it
/// has no changes.
#[verifier::opaque]
pub open spec fn recovery_persisting(v: AppModel) -> (AppModel, Option<Effect>) {
    if v.edit is Some && !v.edit->0.dirty {
        recovery_clearing(v)
    } else {
        match draft_for(v) {
            Some(d) => if v.prefs.keeps_draft && v.kept.last_draft != Some(d) {
                ask(
                    AppModel { kept: KeptModel { writing_draft: Some(d), ..v.kept }, ..v },
                    Await::DraftWritten,
                    Effect::WriteDraft,
                )
            } else {
                go_on(v)
            },
            None => go_on(v),
        }
    }
}

#[verifier::opaque]
pub open spec fn draft_written(v: AppModel, done: Result<(), String>) -> AppModel {
    match done {
        Ok(_) => AppModel {
            kept: KeptModel {
                last_draft: v.kept.writing_draft,
                writing_draft: None,
                pending_draft: None,
                ..v.kept
            },
            ..v
        },
        Err(e) => say(AppModel {
            kept: KeptModel { writing_draft: None, ..v.kept },
            ..v
        }, "Editor recovery warning: "@ + e@),
    }
}

#[verifier::opaque]
pub open spec fn draft_removed(v: AppModel, done: Result<(), String>) -> AppModel {
    match done {
        Ok(_) => v,
        Err(e) => say(
            v,
            "Note saved, but local recovery draft could not be removed: "@ + e@,
        ),
    }
}

/// The edit that a draft restores, at the start of its body.
pub open spec fn draft_opened(found: RecoveredDraft) -> EditModel {
    let draft = found.draft;
    let doc = opened(draft.document@);
    let is_new = draft.kind is Create;
    EditModel {
        note_id: draft.note_id,
        folder_id: draft.folder_id,
        original_title: draft.original_title@,
        original_body_html: draft.original_body_html@,
        original_plaintext: draft.original_plaintext@,
        base_modification_date: draft.expected_modification_date,
        title: draft.title@,
        document: doc,
        original: original_of(
            is_new,
            match found.original_body {
                Some(body) => Some(body@),
                None => None,
            },
            draft.original_title@,
            draft.original_plaintext@,
        ),
        target: first_spot(doc),
        dirty: true,
        is_new,
        field: EditField::Body,
        cursor: 0,
        viewport: 0,
    }
}

/// An edit with the cursor where a draft had it, as far as that place is there.
pub open spec fn cursor_returned(e: EditModel, cursor: Option<EditorCursorRecovery>) -> EditModel {
    match cursor {
        None => e,
        Some(c) => {
            let target = if valid_spot(e.document, c.target@) {
                c.target@
            } else {
                e.target
            };
            match c.field {
                EditorRecoveryField::Title => EditModel {
                    field: EditField::Title,
                    target,
                    cursor: cursor_within(c.offset, e.title.len()),
                    ..e
                },
                EditorRecoveryField::Body => EditModel {
                    field: EditField::Body,
                    target,
                    cursor: cursor_within(c.offset, text_at(e.document, target).len()),
                    ..e
                },
            }
        },
    }
}

/// The edit that a draft restores.
pub open spec fn draft_restored(found: RecoveredDraft) -> EditModel {
    let e = cursor_returned(draft_opened(found), found.draft.cursor);
    let limit = viewport_limit(e.document, e.target);
    EditModel {
        viewport: match found.draft.viewport {
            Some(n) => if n <= limit {
                n
            } else {
                limit
            },
            None => 0,
        },
        ..e
    }
}

/// The client with the edit that a draft restores.
#[verifier::opaque]
pub open spec fn recovery_restored(v: AppModel, found: RecoveredDraft) -> AppModel {
    say(
        AppModel {
            edit: Some(draft_restored(found)),
            shown: Shown { mode: AppMode::Insert, ..v.shown },
            kept: KeptModel { pending_draft: None, ..v.kept },
            ..v
        },
        "Recovered local unsaved editor draft; save explicitly to update Notes.app"@,
    )
}

fn restore_draft(found: &RecoveredDraft) -> (r: EditSession)
    ensures
        r@ == draft_restored(*found),
        r.wf(),
{
    let draft = &found.draft;
    let document = EditorDocument::new(draft.document.clone());
    let current_target = document.first_target();
    let is_new = match draft.kind {
        EditorRecoveryKind::Create => true,
        EditorRecoveryKind::Edit => false,
    };
    let original = original_document(
        is_new,
        &found.original_body,
        draft.original_title.as_str(),
        draft.original_plaintext.as_str(),
    );
    let mut edit = EditSession {
        note_id: match &draft.note_id {
            Some(id) => Some(id.clone()),
            None => None,
        },
        folder_id: draft.folder_id.clone(),
        original_title: draft.original_title.clone(),
        original_body_html: draft.original_body_html.clone(),
        original_plaintext: draft.original_plaintext.clone(),
        base_modification_date: match &draft.expected_modification_date {
            Some(date) => Some(date.clone()),
            None => None,
        },
        title_buffer: draft.title.clone(),
        document,
        original,
        current_target,
        dirty: true,
        is_new,
        field: EditField::Body,
        cursor: 0,
        viewport: 0,
    };
    assert(edit@ == draft_opened(*found));
    if let Some(c) = draft.cursor {
        if edit.document.validate_target(c.target) {
            edit.current_target = c.target;
        }
        match c.field {
            EditorRecoveryField::Title => {
                edit.field = EditField::Title;
                let len = edit.title_buffer.as_str().unicode_len();
                edit.cursor = if c.offset <= len {
                    c.offset
                } else {
                    len
                };
            },
            EditorRecoveryField::Body => {
                edit.field = EditField::Body;
                edit.cursor = match edit.document.clamp_cursor(edit.current_target, c.offset) {
                    Ok(cursor) => cursor,
                    Err(_) => 0,
                };
            },
        }
    }
    assert(edit@ == cursor_returned(draft_opened(*found), draft.cursor));
    let limit = editor_viewport_max(&edit.document, edit.current_target);
    edit.viewport = match draft.viewport {
        Some(n) => if n <= limit {
            n
        } else {
            limit
        },
        None => 0,
    };
    edit
}

impl App {
    /// Offers the draft that was found, once the data is there. Nothing is restored
    /// unless the user asks for it.
    pub fn offer_editor_draft_recovery(&mut self)
        ensures
            final(self)@ == draft_offered(old(self)@),
            old(self).wf() ==> final(self).wf(),
    {
        proof {
            reveal(draft_offered);
        }
        let found = match &self.kept.pending_draft {
            Some(found) => found.clone(),
            None => return,
        };
        let draft = &found.draft;
        let recoverable = match draft.kind {
            EditorRecoveryKind::Create => lists_folder(
                &self.data.folders,
                &draft.account_id,
                &draft.folder_id,
            ),
            EditorRecoveryKind::Edit => match &draft.note_id {
                Some(id) => lists_note(&self.data.notes, id, &draft.folder_id),
                None => false,
            },
        };
        self.popup = Some(Popup::DraftRecovery { draft: found, recoverable });
        self.say(owned("Unsaved local editor draft found; it has not been saved to Notes.app"));
    }

    pub fn editor_recovery_draft(&self) -> (r: Option<EditorRecoveryDraft>)
        ensures
            match r {
                Some(d) => draft_for(self@) == Some(d@),
                None => draft_for(self@) is None,
            },
    {
        let edit = match &self.edit {
            Some(edit) => edit,
            None => return None,
        };
        if !edit.dirty || self.shown.selected_navigation >= self.data.navigation.len() {
            return None;
        }
        let account_id = match &self.data.navigation[self.shown.selected_navigation] {
            NavigationItem::Folder { account_id, .. } => account_id.clone(),
            NavigationItem::Account { .. } => return None,
        };
        proof {
            lemma_target_at(edit.current_target);
        }
        Some(
            EditorRecoveryDraft {
                version: 1,
                kind: if edit.is_new {
                    EditorRecoveryKind::Create
                } else {
                    EditorRecoveryKind::Edit
                },
                account_id,
                folder_id: edit.folder_id.clone(),
                note_id: match &edit.note_id {
                    Some(id) => Some(id.clone()),
                    None => None,
                },
                expected_modification_date: match &edit.base_modification_date {
                    Some(date) => Some(date.clone()),
                    None => None,
                },
                title: edit.title_buffer.clone(),
                document: edit.document.document.clone(),
                original_title: edit.original_title.clone(),
                original_body_html: edit.original_body_html.clone(),
                original_plaintext: edit.original_plaintext.clone(),
                cursor: Some(
                    EditorCursorRecovery {
                        field: match edit.field {
                            EditField::Title => EditorRecoveryField::Title,
                            EditField::Body => EditorRecoveryField::Body,
                        },
                        target: edit.current_target,
                        offset: edit.cursor,
                    },
                ),
                viewport: Some(edit.viewport),
            },
        )
    }

    pub fn clear_editor_recovery(&mut self) -> (r: Option<Effect>)
        ensures
            (final(self)@, r) == recovery_clearing(old(self)@),
            old(self).wf() ==> final(self).wf(),
    {
        proof {
            reveal(recovery_clearing);
        }
        self.kept.pending_draft = None;
        self.kept.last_draft = None;
        if self.prefs.keeps_draft {
            self.ask(Await::DraftRemoved, Effect::RemoveDraft)
        } else {
            None
        }
    }

    pub fn persist_editor_recovery_if_dirty(&mut self) -> (r: Option<Effect>)
        ensures
            (final(self)@, r) == recovery_persisting(old(self)@),
            old(self).wf() ==> final(self).wf(),
    {
        proof {
            reveal(recovery_persisting);
        }
        let clean = match &self.edit {
            Some(edit) => !edit.dirty,
            None => false,
        };
        if clean {
            return self.clear_editor_recovery();
        }
        let draft = match self.editor_recovery_draft() {
            Some(draft) => draft,
            None => return None,
        };
        let same = match &self.kept.last_draft {
            Some(last) => last.same(&draft),
            None => false,
        };
        if same || !self.prefs.keeps_draft {
            return None;
        }
        self.kept.writing_draft = Some(Arc::new(draft));
        self.ask(Await::DraftWritten, Effect::WriteDraft)
    }

    pub fn end_draft_write(&mut self, done: Result<(), String>)
        ensures
            final(self)@ == draft_written(old(self)@, done),
            old(self).wf() ==> final(self).wf(),
    {
        proof {
            reveal(draft_written);
        }
        let mut draft: Option<Arc<EditorRecoveryDraft>> = None;
        std::mem::swap(&mut draft, &mut self.kept.writing_draft);
        match done {
            Ok(_) => {
                self.kept.last_draft = draft;
                self.kept.pending_draft = None;
            },
            Err(e) => self.say(cat("Editor recovery warning: ", e.as_str())),
        }
    }

    pub fn end_draft_removal(&mut self, done: Result<(), String>)
        ensures
            final(self)@ == draft_removed(old(self)@, done),
            old(self).wf() ==> final(self).wf(),
    {
        proof {
            reveal(draft_removed);
        }
        if let Err(e) = done {
            self.say(
                cat("Note saved, but local recovery draft could not be removed: ", e.as_str()),
            );
        }
    }

    /// The draft that is to be written.
    pub fn draft_to_write(&self) -> (r: Option<Arc<EditorRecoveryDraft>>)
        ensures
            crate::app::draft_view(r) == self@.kept.writing_draft,
    {
        match &self.kept.writing_draft {
            Some(d) => Some(d.clone()),
            None => None,
        }
    }

    pub fn restore_editor_recovery(&mut self, found: &RecoveredDraft)
        ensures
            final(self)@ == recovery_restored(old(self)@, *found),
            old(self).wf() ==> final(self).wf(),
    {
        proof {
            reveal(recovery_restored);
        }
        let edit = restore_draft(found);
        self.edit = Some(edit);
        self.shown.mode = AppMode::Insert;
        self.kept.pending_draft = None;
        self.say(owned("Recovered local unsaved editor draft; save explicitly to update Notes.app"));
    }
}

} // verus!
