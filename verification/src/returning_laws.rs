//! What the session and the drafts give back.

use std::sync::Arc;

use vstd::prelude::*;

use crate::app::{chosen_id, id_view, reselected, selected_item, AppModel};
use crate::browsing::{researched, searching};
use crate::browsing_laws::{law_search_finds_any_part_of_a_name, name_holds};
use crate::draft::EditorRecoveryDraft;
use crate::edit::{cursor_text, lemma_target_at, viewport_limit, EditSession};
use crate::editor::{lemma_drop_empty_lists, valid_spot};
use crate::keyboard_laws::folder_selected;
use crate::model::{account_at, lemma_account_at, AccountId, FolderId, Note, NoteSummary};
use crate::navigation::{home_folder, item_at, lemma_first_index, session_line, wanted, NavigationItem, Wanted};
use crate::preview::preview_lines;
use crate::returning::{
    draft_applies, draft_at, draft_for, draft_restored, focus_returned, preview_limit,
    scroll_restored, search_restored, session_for,
};
use crate::session::{SessionFocus, SessionState};
use crate::workflow::{Focus, RecoveredDraft, Search};

verus! {

/// A draft gives back the edit that it was made of: its title, its document, the place of
/// the cursor and what is shown, the note and the date that it was based on. What was
/// restored counts as unsaved.
pub proof fn law_draft_restores_the_edit(
    edit: EditSession,
    account: Seq<char>,
    found: RecoveredDraft,
)
    requires
        edit.wf(),
        valid_spot(edit@.document, edit@.target),
        edit@.cursor <= cursor_text(edit@).len(),
        edit@.viewport <= viewport_limit(edit@.document, edit@.target),
        found.draft@ == draft_at(edit@, account),
    ensures
        ({
            let r = draft_restored(found);
            &&& r.title == edit@.title
            &&& r.document == edit@.document
            &&& r.target == edit@.target
            &&& r.field == edit@.field
            &&& r.cursor == edit@.cursor
            &&& r.viewport == edit@.viewport
            &&& r.is_new == edit@.is_new
            &&& r.dirty
            &&& r.folder_id@ == edit@.folder_id@
            &&& crate::app::id_view(r.note_id) == crate::app::id_view(edit@.note_id)
            &&& crate::jobs::date_text(r.base_modification_date) == crate::jobs::date_text(
                edit@.base_modification_date,
            )
            &&& r.original_title == edit@.original_title
            &&& r.original_body_html == edit@.original_body_html
            &&& r.original_plaintext == edit@.original_plaintext
        }),
{
    let e = edit@;
    let d = found.draft@;
    lemma_drop_empty_lists(e.document);
    lemma_target_at(edit.current_target);
    assert(crate::editor::opened(e.document) == e.document);
    assert(d.cursor == draft_at(e, account).cursor);
    assert(found.draft.cursor->0.target == edit.current_target);
}

/// The session of a selected folder points back to its line, where that is the first line
/// of the folder in its account, and the account is listed.
pub proof fn law_session_points_back(v: AppModel, session: SessionState)
    requires
        selected_item(v) matches Some(NavigationItem::Folder { id, account_id, .. }) && account_at(
            v.data.accounts,
            account_id@,
        ) < v.data.accounts.len() && item_at(
            v.data.navigation,
            Wanted::FolderIn(&account_id, &id),
        ) == v.shown.selected_navigation,
        session_for(v) == Some(session@),
    ensures
        session_line(v.data.accounts, v.data.navigation, session) == Some(
            v.shown.selected_navigation,
        ),
{
    let item = selected_item(v)->0;
    let (id, account_id) = (item->Folder_id, item->account_id);
    let own = Wanted::FolderIn(&account_id, &id);
    let again = Wanted::FolderIn(&session.account_id->0, &session.folder_id->0);
    let fits = |item: NavigationItem| wanted(again, item);
    let first = |item: NavigationItem| wanted(own, item);
    assert(session.account_id->0@ == account_id@);
    assert(session.folder_id->0@ == id@);
    crate::navigation::lemma_first_index_fits(v.data.navigation, first);
    assert forall|i: int| 0 <= i < v.shown.selected_navigation implies !fits(
        #[trigger] v.data.navigation[i],
    ) by {
        assert(!first(v.data.navigation[i]));
    }
    lemma_first_index(v.data.navigation, fits, v.shown.selected_navigation as int);
}

/// The session keeps what is on the screen: the selected folder and its account, the
/// selected note where it lies in that folder, how far its preview is scrolled, the search
/// in force and the pane with the focus.
pub proof fn law_session_keeps_what_is_shown(
    v: AppModel,
    note: Arc<Note>,
    account_id: AccountId,
    id: FolderId,
    name: String,
    depth: usize,
)
    requires
        folder_selected(v, account_id, id, name, depth),
        v.shown.selected_note == Some(note),
    ensures
        session_for(v) matches Some(s) && {
            let listed = exists|k: int|
                0 <= k < v.data.notes.len() && (#[trigger] v.data.notes[k]).id@ == note.summary.id@
                    && v.data.notes[k].folder_id@ == id@;
            &&& s.account_id == Some(account_id@)
            &&& s.folder_id == Some(id@)
            &&& listed ==> s.note_id == Some(note.summary.id@) && s.preview_scroll == Some(
                v.shown.preview_scroll,
            )
            &&& !listed ==> s.note_id is None && s.preview_scroll is None
            &&& v.search matches Search::Active(a) ==> (a.query.len() > 0 ==> s.search_query
                == Some(a.query))
            &&& v.search is Inactive ==> s.search_query is None
            &&& match v.shown.focus {
                Focus::Navigation => s.focus == Some(SessionFocus::Navigation),
                Focus::Notes => s.focus == Some(SessionFocus::Notes),
                Focus::Preview => s.focus == Some(SessionFocus::Preview),
            }
        },
{
}

/// The session of a selected account points to the folder that is shown for it.
pub proof fn law_session_of_an_account_names_its_folder(
    v: AppModel,
    account_id: AccountId,
    name: String,
    k: int,
)
    requires
        v.shown.selected_navigation < v.data.navigation.len(),
        v.data.navigation[v.shown.selected_navigation as int] == (NavigationItem::Account {
            id: account_id,
            name,
        }),
        0 <= k < v.data.accounts.len(),
        v.data.accounts[k].id@ == account_id@,
        forall|i: int| 0 <= i < k ==> (#[trigger] v.data.accounts[i]).id@ != account_id@,
    ensures
        match home_folder(v.data.accounts[k], v.data.folders) {
            Some(folder) => session_for(v) matches Some(s) && s.account_id == Some(account_id@)
                && s.folder_id == Some(folder@) && s.note_id is None && s.preview_scroll is None,
            None => session_for(v) is None,
        },
{
    lemma_account_at(v.data.accounts, account_id@);
    let at = account_at(v.data.accounts, account_id@) as int;
    if at < k {
        assert(v.data.accounts[at].id@ != account_id@);
    }
    if at > k {
        assert(v.data.accounts[k].id@ != account_id@);
    }
}

/// The preview goes back to where the session had it, as far as it reaches, where the note
/// of the session is the selected one; else it stays.
pub proof fn law_scroll_position_comes_back(v: AppModel, session: SessionState)
    requires
        v.kept.pending_session == Some(session),
    ensures
        ({
            let next = scroll_restored(v);
            let same = id_view(session.note_id) == id_view(chosen_id(v));
            &&& same ==> (session.preview_scroll matches Some(n) ==> {
                &&& n <= preview_limit(v) ==> next.shown.preview_scroll == n
                &&& n > preview_limit(v) ==> next.shown.preview_scroll == preview_limit(v)
            })
            &&& !same || session.preview_scroll is None ==> next == v
            &&& next.data == v.data
        }),
{
    reveal(scroll_restored);
}

/// The focus goes back to the pane of the session, but not to a preview without a note.
pub proof fn law_focus_comes_back(v: AppModel, session: SessionState)
    requires
        v.kept.pending_session == Some(session),
    ensures
        ({
            let next = focus_returned(v);
            &&& session.focus is None ==> next == v
            &&& session.focus == Some(SessionFocus::Navigation) ==> next.shown.focus is Navigation
            &&& session.focus == Some(SessionFocus::Notes) ==> next.shown.focus is Notes
            &&& session.focus == Some(SessionFocus::Preview) && chosen_id(v) is Some
                ==> next.shown.focus is Preview
            &&& session.focus == Some(SessionFocus::Preview) && chosen_id(v) is None
                ==> next.shown.focus is Notes
        }),
{
    reveal(focus_returned);
}

/// The search of the session is in force again, and finds what it finds in the notes at
/// hand.
pub proof fn law_search_comes_back(v: AppModel, session: SessionState, query: String)
    requires
        session.search_query == Some(query),
    ensures
        query@.len() > 0 ==> (search_restored(v, Some(session)).search matches Search::Active(a)
            && a.query == query@ && a.visible == v.data.notes.filter(
            |note: NoteSummary| name_holds(note, query@),
        ).map_values(|note: NoteSummary| note.id)),
        query@.len() == 0 ==> search_restored(v, Some(session)) == v,
        search_restored(v, None) == v,
{
    reveal(search_restored);
    reveal(searching);
    law_search_finds_any_part_of_a_name(v.data.notes, query@);
    reveal(researched);
    reveal(reselected);
}

/// A draft is kept of an edit with changes, in the account of the folder that is selected,
/// and of no other.
pub proof fn law_changed_edit_has_a_draft(
    v: AppModel,
    e: crate::edit::EditModel,
    account_id: AccountId,
    id: FolderId,
    name: String,
    depth: usize,
)
    requires
        v.edit == Some(e),
        folder_selected(v, account_id, id, name, depth),
    ensures
        !e.dirty ==> draft_for(v) is None,
        e.dirty ==> (draft_for(v) matches Some(d) && {
            &&& d.account_id == account_id@
            &&& d.folder_id == e.folder_id@
            &&& d.title == e.title
            &&& d.document == e.document
            &&& d.note_id == id_view(e.note_id)
            &&& d.kind is Create <==> e.is_new
            &&& d.version == 1
            &&& d.cursor matches Some(c) && c.offset == e.cursor
            &&& d.viewport == Some(e.viewport)
        }),
{
}

/// The draft of a new note can be restored where its folder is listed in its account, and
/// that of a note where the note is listed in its folder.
pub proof fn law_draft_needs_its_place(v: AppModel, draft: EditorRecoveryDraft)
    ensures
        draft.kind is Create ==> (draft_applies(v, draft) <==> exists|k: int|
            0 <= k < v.data.folders.len() && (#[trigger] v.data.folders[k]).id@ == draft.folder_id@
                && v.data.folders[k].account_id@ == draft.account_id@),
        draft.kind is Edit ==> (draft_applies(v, draft) <==> draft.note_id is Some && exists|
            k: int,
        |
            0 <= k < v.data.notes.len() && (#[trigger] v.data.notes[k]).id@ == draft.note_id->0@
                && v.data.notes[k].folder_id@ == draft.folder_id@),
{
}

/// The preview can be scrolled to its last line and no further; without a note not at all.
pub proof fn law_preview_reaches_its_last_line(v: AppModel, note: Arc<Note>)
    ensures
        v.shown.selected_note is None ==> preview_limit(v) == 0,
        v.shown.selected_note == Some(note) ==> {
            let lines = preview_lines(*note, v.prefs.show_attachment_metadata).len();
            &&& 0 < lines <= u16::MAX ==> preview_limit(v) + 1 == lines
            &&& lines > u16::MAX ==> preview_limit(v) == u16::MAX
        },
{
}

} // verus!
