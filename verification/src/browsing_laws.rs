//! What a search finds, and what is selected while notes are browsed.

use vstd::prelude::*;

use crate::app::{reselected, visible_ids, visible_note, AppModel, Shown};
use crate::browsing::{
    at_line, at_note, count_text, found, found_upto, notes_in, notes_in_upto, notes_loading,
    notes_shown, preview_scrolled, refreshing, researched, search_cleared, search_entered,
    search_opened, search_typed, searching, selected_loading, stepped, to_edge,
};
use crate::keys::{KeyCode, KeyEvent};
use crate::model::{NoteId, NoteSummary};
use crate::navigation::NavigationItem;
use crate::text;
use crate::text::lowercase_of;
use crate::workflow::{Active, Effect, Search, Step};

verus! {

// ---------------------------------------------------------------------------
// Searching
// ---------------------------------------------------------------------------

/// Whether a text holds another at some position.
pub open spec fn holds_somewhere(s: Seq<char>, part: Seq<char>) -> bool {
    exists|k: int|
        0 <= k && k + part.len() <= s.len() && #[trigger] s.subrange(k, k + part.len()) == part
}

/// Whether the name of a note holds a query at some position, in whatever case.
pub open spec fn name_holds(note: NoteSummary, query: Seq<char>) -> bool {
    holds_somewhere(lowercase_of(note.name@), lowercase_of(query))
}

proof fn lemma_found_is_filter(notes: Seq<NoteSummary>, query: Seq<char>, n: nat)
    requires
        n <= notes.len(),
    ensures
        found_upto(notes, query, n) == notes.take(n as int).filter(
            |note: NoteSummary| name_holds(note, query),
        ).map_values(|note: NoteSummary| note.id),
    decreases n,
{
    reveal(Seq::filter);
    let holds = |note: NoteSummary| name_holds(note, query);
    let ids = |note: NoteSummary| note.id;
    let part = notes.take(n as int);
    if n > 0 {
        let m = (n - 1) as nat;
        lemma_found_is_filter(notes, query, m);
        assert(part.drop_last() =~= notes.take(m as int));
        assert(part.last() == notes[n - 1]);
        let before = notes.take(m as int).filter(holds);
        assert(before.push(part.last()).map_values(ids) =~= before.map_values(ids).push(
            notes[n - 1].id,
        ));
        let name = lowercase_of(notes[n - 1].name@);
        let needle = lowercase_of(query);
        assert(holds_somewhere(name, needle) <==> text::occurs(name, needle)) by {
            if text::occurs(name, needle) {
                let i = choose|i: int|
                    0 <= i <= name.len() - needle.len() && #[trigger] name.subrange(
                        i,
                        i + needle.len(),
                    ) == needle;
                assert(name.subrange(i, i + needle.len()) == needle);
            }
            if holds_somewhere(name, needle) {
                let k = choose|k: int|
                    0 <= k && k + needle.len() <= name.len() && #[trigger] name.subrange(
                        k,
                        k + needle.len(),
                    ) == needle;
                assert(name.subrange(k, k + needle.len()) == needle);
            }
        }
    } else {
        assert(part =~= Seq::<NoteSummary>::empty());
        assert(part.filter(holds).map_values(ids) =~= Seq::<NoteId>::empty());
    }
}

/// A search finds those notes whose name holds the query at some position, in whatever
/// case: all of them and no other, each once, in the order of the list.
pub proof fn law_search_finds_any_part_of_a_name(notes: Seq<NoteSummary>, query: Seq<char>)
    ensures
        found(notes, query) == notes.filter(
            |note: NoteSummary| name_holds(note, query),
        ).map_values(|note: NoteSummary| note.id),
{
    lemma_found_is_filter(notes, query, notes.len());
    assert(notes.take(notes.len() as int) =~= notes);
}

/// A note is in what a search finds just where its name holds the query.
pub proof fn law_note_is_found_by_its_name(
    notes: Seq<NoteSummary>,
    query: Seq<char>,
    id: NoteId,
)
    ensures
        found(notes, query).contains(id) <==> exists|i: int|
            0 <= i < notes.len() && name_holds(#[trigger] notes[i], query) && notes[i].id == id,
{
    broadcast use vstd::seq_lib::group_filter_ensures;

    let holds = |note: NoteSummary| name_holds(note, query);
    let ids = |note: NoteSummary| note.id;
    law_search_finds_any_part_of_a_name(notes, query);
    let kept = notes.filter(holds);
    let all = kept.map_values(ids);
    if all.contains(id) {
        let k = choose|k: int| 0 <= k < all.len() && all[k] == id;
        assert(kept[k].id == id);
        assert(holds(kept[k]));
        notes.lemma_filter_contains_rev(holds, kept[k]);
        let i = choose|i: int| 0 <= i < notes.len() && notes[i] == kept[k];
        assert(name_holds(notes[i], query) && notes[i].id == id);
    }
    if exists|i: int|
        0 <= i < notes.len() && name_holds(#[trigger] notes[i], query) && notes[i].id == id {
        let i = choose|i: int|
            0 <= i < notes.len() && name_holds(#[trigger] notes[i], query) && notes[i].id == id;
        assert(holds(notes[i]));
        assert(kept.contains(notes[i]));
        let k = choose|k: int| 0 <= k < kept.len() && kept[k] == notes[i];
        assert(all[k] == id);
    }
}

/// A confirmed search shows what it finds of the notes of the list, and nothing else. It
/// changes no note. An empty one is no search.
pub proof fn law_confirmed_search_is_in_force(v: AppModel, key: KeyEvent)
    requires
        v.search is Editing,
        key.code is Enter,
    ensures
        ({
            let input = v.search->input;
            let next = search_typed(v, key);
            &&& next.data == v.data
            &&& input.len() == 0 ==> next.search is Inactive
            &&& input.len() > 0 ==> next.search == Search::Active(
                Active {
                    query: input,
                    visible: v.data.notes.filter(
                        |note: NoteSummary| name_holds(note, input),
                    ).map_values(|note: NoteSummary| note.id),
                },
            )
            &&& input.len() > 0 ==> visible_ids(next) == next.search->Active_0.visible
        }),
{
    reveal(search_typed);
    reveal(search_entered);
    reveal(searching);
    reveal(researched);
    reveal(reselected);
    law_search_finds_any_part_of_a_name(v.data.notes, v.search->input);
}

/// A search in force is applied to the notes at hand, whatever they have become.
pub proof fn law_search_follows_the_notes(v: AppModel)
    ensures
        researched(v).data == v.data,
        v.search is Active ==> researched(v).search is Active
            && researched(v).search->Active_0.query == v.search->Active_0.query && visible_ids(
            researched(v),
        ) == v.data.notes.filter(
            |note: NoteSummary| name_holds(note, v.search->Active_0.query),
        ).map_values(|note: NoteSummary| note.id),
        !(v.search is Active) ==> researched(v).search == v.search,
{
    reveal(researched);
    reveal(reselected);
    if v.search is Active {
        law_search_finds_any_part_of_a_name(v.data.notes, v.search->Active_0.query);
    }
}

/// Without a search the whole list is visible, in its order.
pub proof fn law_without_a_search_all_is_visible(v: AppModel)
    requires
        v.search is Inactive,
    ensures
        visible_ids(v).len() == v.data.notes.len(),
        forall|i: int| 0 <= i < v.data.notes.len() ==> #[trigger] visible_ids(v)[i]
            == v.data.notes[i].id,
{
}

/// What is typed in the line for a search is what is searched for: a character is put at
/// the end, a backspace takes the last one, control and u take all. Escape goes back to
/// the search that was in force, or to none. Only the line changes.
pub proof fn law_search_line_is_typed(v: AppModel, key: KeyEvent)
    requires
        v.search is Editing,
        !(key.code is Enter),
    ensures
        ({
            let next = search_typed(v, key);
            let input = v.search->input;
            let previous = v.search->previous;
            let typed = next.search->input;
            &&& next == (AppModel { search: next.search, ..v })
            &&& key.code is Esc ==> next.search == (match previous {
                Some(a) => Search::Active(a),
                None => Search::Inactive,
            })
            &&& !(key.code is Esc) ==> next.search is Editing && next.search->previous == previous
            &&& key.code is Backspace ==> typed == if input.len() > 0 {
                input.drop_last()
            } else {
                input
            }
            &&& key.code is Char && !key.modifiers.control ==> typed == input.push(
                key.code->Char_0,
            )
            &&& key.code == KeyCode::Char('u') && key.modifiers.control ==> typed.len() == 0
        }),
{
    reveal(search_typed);
    reveal_strlit("");
}

/// Opening the line for a search begins with what is searched for, or with nothing, and
/// leaves the list as it is.
pub proof fn law_search_line_opens_with_the_search(v: AppModel)
    ensures
        search_opened(v) == (AppModel { search: search_opened(v).search, ..v }),
        search_opened(v).search is Editing,
        v.search is Active ==> search_opened(v).search->input == v.search->Active_0.query
            && visible_ids(search_opened(v)) == visible_ids(v),
        v.search is Inactive ==> search_opened(v).search->input.len() == 0 && visible_ids(
            search_opened(v),
        ) == visible_ids(v),
{
    reveal(search_opened);
    reveal_strlit("");
}

/// A cleared search shows the whole list again.
pub proof fn law_cleared_search_shows_the_whole_list(v: AppModel)
    ensures
        search_cleared(v).search is Inactive,
        search_cleared(v).data == v.data,
        visible_ids(search_cleared(v)).len() == v.data.notes.len(),
{
    reveal(search_cleared);
    reveal(reselected);
}

// ---------------------------------------------------------------------------
// The selection
// ---------------------------------------------------------------------------

/// A note that is wished for is selected where it is visible, else the first one is. A
/// note stays on the screen only where it is the selected one.
pub proof fn law_wished_note_is_selected(v: AppModel, wish: NoteId)
    requires
        visible_ids(v).len() <= usize::MAX,
    ensures
        ({
            let next = reselected(v, Some(wish));
            let at = next.shown.selected_note_index as int;
            let ids = visible_ids(v);
            let there = exists|i: int| 0 <= i < ids.len() && (#[trigger] ids[i])@ == wish@;
            &&& there ==> at < ids.len() && ids[at]@ == wish@
            &&& !there ==> at == 0
            &&& next.shown.selected_note is Some ==> next.shown.selected_note
                == v.shown.selected_note && (visible_note(v, at) matches Some(summary)
                && summary.id@ == next.shown.selected_note->0.summary.id@)
            &&& next.data == v.data && next.search == v.search && next.edit == v.edit && next.popup
                == v.popup && next.orders == v.orders
        }),
{
    reveal(reselected);
    let ids = visible_ids(v);
    let fits = |x: NoteId| x@ == wish@;
    crate::navigation::lemma_first_index_fits(ids, fits);
    if exists|i: int| 0 <= i < ids.len() && (#[trigger] ids[i])@ == wish@ {
        let i = choose|i: int| 0 <= i < ids.len() && (#[trigger] ids[i])@ == wish@;
        assert(fits(ids[i]));
    }
}

/// A step in the tree goes to the next line or the one before; a search ends there. A step
/// in the list goes to the next visible note or the one before.
pub proof fn law_steps_move_the_selection(v: AppModel, back: bool)
    requires
        v.data.navigation.len() <= usize::MAX,
        visible_ids(v).len() <= usize::MAX,
    ensures
        ({
            let next = stepped(v, back);
            let line = v.shown.selected_navigation;
            let note = v.shown.selected_note_index;
            &&& next.shown.focus == v.shown.focus
            &&& next.data == v.data
            &&& v.shown.focus is Navigation && !back && line + 1 < v.data.navigation.len()
                ==> next.shown.selected_navigation == line + 1
            &&& v.shown.focus is Navigation && back && 0 < line < v.data.navigation.len()
                ==> next.shown.selected_navigation == line - 1
            &&& v.shown.focus is Navigation && back && line == 0
                ==> next.shown.selected_navigation == 0
            &&& v.shown.focus is Navigation && !back && line + 1 == v.data.navigation.len()
                ==> next.shown.selected_navigation == line
            &&& v.shown.focus is Navigation ==> next.search is Inactive
                && next.shown.selected_note_index == note
            &&& v.shown.focus is Notes && !back && note + 1 < visible_ids(v).len()
                ==> next.shown.selected_note_index == note + 1
            &&& v.shown.focus is Notes && back && 0 < note < visible_ids(v).len()
                ==> next.shown.selected_note_index == note - 1
            &&& v.shown.focus is Notes && back && note == 0 ==> next.shown.selected_note_index == 0
            &&& v.shown.focus is Notes && !back && note + 1 == visible_ids(v).len()
                ==> next.shown.selected_note_index == note
            &&& v.shown.focus is Notes ==> next.search == v.search
                && next.shown.selected_navigation == line
            &&& v.shown.focus is Preview ==> next.shown.selected_note_index == note
                && next.shown.selected_navigation == line
        }),
{
    reveal(stepped);
    reveal(at_line);
    reveal(at_note);
    reveal(crate::browsing::refresh_outdated);
    reveal(preview_scrolled);
}

/// The edges are the first and the last line of the tree, or note of the list.
pub proof fn law_edges_are_first_and_last(v: AppModel, last: bool)
    requires
        0 < v.data.navigation.len() <= usize::MAX,
        0 < visible_ids(v).len() <= usize::MAX,
    ensures
        ({
            let next = to_edge(v, last);
            &&& v.shown.focus is Navigation && last ==> next.shown.selected_navigation + 1
                == v.data.navigation.len()
            &&& v.shown.focus is Navigation && !last ==> next.shown.selected_navigation == 0
            &&& v.shown.focus is Notes && last ==> next.shown.selected_note_index + 1
                == visible_ids(v).len()
            &&& v.shown.focus is Notes && !last ==> next.shown.selected_note_index == 0
            &&& v.shown.focus is Preview && !last ==> next.shown.preview_scroll == 0
        }),
{
    reveal(to_edge);
    reveal(at_line);
    reveal(at_note);
    reveal(crate::browsing::refresh_outdated);
}

/// Where no refresh is under way, going to a line loads its notes, and going to a note
/// loads that note and keeps the session, in this order.
pub proof fn law_selected_is_loaded(v: AppModel, line: usize, index: usize)
    requires
        !refreshing(v),
    ensures
        at_line(v, line).steps == v.steps.push(Step::LoadNotes { persist: true, browse: true }),
        at_note(v, index).steps == v.steps.push(Step::PersistSession).push(
            Step::LoadSelected { persist: true },
        ),
{
    reveal(at_line);
    reveal(at_note);
}

/// Scrolling the preview goes by the lines that were asked for, not before its start, and
/// changes nothing else on the screen.
pub proof fn law_preview_scrolls(v: AppModel, back: bool, lines: u16)
    ensures
        ({
            let next = preview_scrolled(v, back, lines);
            let from = v.shown.preview_scroll;
            let to = next.shown.preview_scroll;
            &&& next.shown == (Shown { preview_scroll: to, ..v.shown })
            &&& back && from >= lines ==> to + lines == from
            &&& back && from < lines ==> to == 0
            &&& !back && from + lines <= u16::MAX ==> to == from + lines
            &&& !back && from + lines > u16::MAX ==> to == u16::MAX
            &&& next.data == v.data && next.search == v.search && next.orders == v.orders
        }),
{
    reveal(preview_scrolled);
}

// ---------------------------------------------------------------------------
// Loading
// ---------------------------------------------------------------------------

/// The notes service is asked for the notes of the very line that is selected: of the
/// folder, or of the account.
pub proof fn law_asked_for_the_selected_line(v: AppModel, persist: bool, browse: bool)
    ensures
        ({
            let effect = notes_loading(v, persist, browse).1;
            let line = v.shown.selected_navigation as int;
            effect matches Some(Effect::Notes(query)) ==> line < v.data.navigation.len()
                && match v.data.navigation[line] {
                NavigationItem::Folder { id, .. } => query.folder_id == Some(id)
                    && query.account_id is None,
                NavigationItem::Account { id, .. } => query.account_id == Some(id)
                    && query.folder_id is None,
            }
        }),
        !browse && v.shown.selected_navigation < v.data.navigation.len() ==> notes_loading(
            v,
            persist,
            browse,
        ).1 matches Some(Effect::Notes(_)),
{
    reveal(notes_loading);
}

/// The note that is asked for is the one that is selected in the list.
pub proof fn law_asked_for_the_selected_note(v: AppModel, persist: bool)
    ensures
        ({
            let effect = selected_loading(v, persist).1;
            let at = v.shown.selected_note_index as int;
            &&& effect matches Some(Effect::GetNote(id)) ==> (visible_note(v, at) matches Some(
                summary,
            ) && summary.id == id)
            &&& effect matches Some(Effect::LoadNote(id)) ==> (visible_note(v, at) matches Some(
                summary,
            ) && summary.id == id)
            &&& visible_note(v, at) is Some && v.shown.data_source is Live ==> effect is Some
            &&& visible_note(v, at) is None ==> effect is None && selected_loading(
                v,
                persist,
            ).0.shown.selected_note is None
        }),
{
    reveal(selected_loading);
}

/// The note at a position of the list is the one with the id that is visible there.
pub proof fn law_visible_note_has_its_id(v: AppModel, index: int)
    ensures
        visible_note(v, index) matches Some(summary) ==> 0 <= index < visible_ids(v).len()
            && summary.id@ == visible_ids(v)[index]@ && v.data.notes.contains(summary),
{
    if visible_note(v, index) is Some {
        let id = visible_ids(v)[index];
        crate::model::lemma_summary_at(v.data.notes, id@);
        let k = crate::model::summary_at(v.data.notes, id@) as int;
        assert(v.data.notes[k] == visible_note(v, index)->0);
    }
}

proof fn lemma_notes_in_is_filter(notes: Seq<NoteSummary>, folder: Seq<char>, n: nat)
    requires
        n <= notes.len(),
    ensures
        notes_in_upto(notes, folder, n) == notes.take(n as int).filter(
            |note: NoteSummary| note.folder_id@ == folder,
        ),
    decreases n,
{
    reveal(Seq::filter);
    let part = notes.take(n as int);
    if n > 0 {
        lemma_notes_in_is_filter(notes, folder, (n - 1) as nat);
        assert(part.drop_last() =~= notes.take(n - 1));
        assert(part.last() == notes[n - 1]);
    } else {
        assert(part =~= Seq::<NoteSummary>::empty());
    }
}

/// What the cache lists for a folder are the notes that lie in it: all of them, no other,
/// in their order.
pub proof fn law_cache_lists_the_notes_of_the_folder(notes: Seq<NoteSummary>, folder: Seq<char>)
    ensures
        notes_in(notes, folder) == notes.filter(
            |note: NoteSummary| note.folder_id@ == folder,
        ),
{
    lemma_notes_in_is_filter(notes, folder, notes.len());
    assert(notes.take(notes.len() as int) =~= notes);
}

/// What the notes service has for a line is the list from then on, with its number told.
pub proof fn law_read_notes_are_the_list(
    v: AppModel,
    persist: bool,
    page: crate::model::NotesPage,
)
    ensures
        ({
            let next = notes_shown(v, persist, Ok(page));
            &&& next.data.notes == page.items@
            &&& next.data.navigation == v.data.navigation
            &&& text::digits_value(next.status.text.take(next.status.text.len() - 6)) == page.total
            &&& !next.status.is_error
        }),
{
    reveal(notes_shown);
    reveal(researched);
    reveal(reselected);
    reveal_strlit(" notes");
    let words = count_text(page.total);
    text::lemma_decimal_value(page.total as nat);
    assert(words.take(words.len() - 6) =~= text::decimal(page.total as nat));
}

} // verus!
