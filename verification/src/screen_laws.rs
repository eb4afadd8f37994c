//! Laws of the screen: what its texts show.

use vstd::prelude::*;

use crate::app::{visible_ids, AppModel};
use crate::browsing::search_words;
use crate::config::ConfigValueSource;
use crate::model::{lemma_summary_at, summary_at, NoteId, NoteSummary};
use crate::navigation::{FolderReparentTarget, NavigationItem};
use crate::screen::{
    fits, line_label, marked_lines, move_labels, note_rows, padded, popup_of, rows_upto,
    setting_line, setting_lines, setting_name, setting_value, settings_popup, source_text,
    status_of, target_label, tree_labels,
};
use crate::text::{decimal, digits_value, join, lemma_decimal_value, occurs, repeat, starts_with};
use crate::workflow::{PopupModel, Search, Settings};

verus! {

// ---------------------------------------------------------------------------
// The tree and the list
// ---------------------------------------------------------------------------

proof fn lemma_indent(n: nat)
    ensures
        repeat("  "@, n).len() == 2 * n,
        forall|i: int| 0 <= i < 2 * n ==> #[trigger] repeat("  "@, n)[i] == ' ',
    decreases n,
{
    reveal_strlit("  ");
    if n > 0 {
        lemma_indent((n - 1) as nat);
    }
}

/// An account is shown by its name. A folder is shown by its name too, further to the right
/// by two columns for each level.
pub proof fn law_tree_shows_names_by_depth(navigation: Seq<NavigationItem>, k: int)
    requires
        0 <= k < navigation.len(),
    ensures
        tree_labels(navigation).len() == navigation.len(),
        ({
            let label = tree_labels(navigation)[k];
            match navigation[k] {
                NavigationItem::Account { name, .. } => label == name@,
                NavigationItem::Folder { name, depth, .. } => {
                    &&& label.len() == 2 * depth + 5 + name@.len()
                    &&& label.skip(2 * depth + 5) == name@
                    &&& forall|i: int| 0 <= i < 2 * depth + 2 ==> #[trigger] label[i] == ' '
                    &&& label[2 * depth + 2] != ' '
                },
            }
        }),
{
    match navigation[k] {
        NavigationItem::Folder { name, depth, .. } => {
            reveal_strlit("  └─ ");
            lemma_indent(depth as nat);
            let label = tree_labels(navigation)[k];
            assert(label.skip(2 * depth + 5) =~= name@);
        },
        _ => {},
    }
}

proof fn lemma_rows(notes: Seq<NoteSummary>, ids: Seq<NoteId>, n: nat)
    requires
        n <= ids.len(),
        forall|i: int| 0 <= i < ids.len() ==> summary_at(notes, (#[trigger] ids[i])@) < notes.len(),
    ensures
        rows_upto(notes, ids, n).len() == n,
        forall|i: int|
            0 <= i < n ==> #[trigger] rows_upto(notes, ids, n)[i] == (
                i,
                notes[summary_at(notes, ids[i]@) as int].name@,
            ),
    decreases n,
{
    if n > 0 {
        lemma_rows(notes, ids, (n - 1) as nat);
        assert(summary_at(notes, ids[n - 1]@) < notes.len());
    }
}

/// Without a search the list shows every note by its name, in order.
pub proof fn law_list_shows_every_note(v: AppModel, k: int)
    requires
        v.search is Inactive,
        0 <= k < v.data.notes.len(),
        forall|i: int, j: int|
            0 <= i < j < v.data.notes.len() ==> (#[trigger] v.data.notes[i]).id@ != (
            #[trigger] v.data.notes[j]).id@,
    ensures
        note_rows(v).len() == v.data.notes.len(),
        note_rows(v)[k] == (k, v.data.notes[k].name@),
{
    let notes = v.data.notes;
    let ids = visible_ids(v);
    assert forall|i: int| 0 <= i < ids.len() implies summary_at(notes, (#[trigger] ids[i])@) == i by {
        lemma_summary_at(notes, ids[i]@);
        let at = summary_at(notes, ids[i]@) as int;
        assert(notes[i].id@ == ids[i]@);
        if at < i {
            assert(notes[at].id@ != notes[i].id@);
        }
    }
    lemma_rows(notes, ids, ids.len());
}

/// With a search the list shows the notes that it found, by their names, where they are
/// still there.
pub proof fn law_list_shows_what_was_found(v: AppModel, k: int)
    requires
        v.search is Active,
        0 <= k < v.search->Active_0.visible.len(),
        forall|i: int|
            0 <= i < v.search->Active_0.visible.len() ==> exists|j: int|
                0 <= j < v.data.notes.len() && (#[trigger] v.data.notes[j]).id@ == (
                #[trigger] v.search->Active_0.visible[i])@,
    ensures
        note_rows(v).len() == v.search->Active_0.visible.len(),
        note_rows(v)[k].0 == k,
        exists|j: int|
            0 <= j < v.data.notes.len() && (#[trigger] v.data.notes[j]).id@
                == v.search->Active_0.visible[k]@ && v.data.notes[j].name@ == note_rows(v)[k].1,
{
    let notes = v.data.notes;
    let ids = visible_ids(v);
    assert(ids == v.search->Active_0.visible);
    assert forall|i: int| 0 <= i < ids.len() implies summary_at(notes, (#[trigger] ids[i])@)
        < notes.len() by {
        lemma_summary_at(notes, ids[i]@);
        let j = choose|j: int| 0 <= j < notes.len() && (#[trigger] notes[j]).id@ == ids[i]@;
        assert(notes[j].id@ == ids[i]@);
    }
    lemma_rows(notes, ids, ids.len());
    lemma_summary_at(notes, ids[k]@);
    let j = summary_at(notes, ids[k]@) as int;
    assert(notes[j].id@ == ids[k]@);
}

// ---------------------------------------------------------------------------
// Lists in popups
// ---------------------------------------------------------------------------

/// In a list just the selected line is marked; each line shows its label behind the mark.
pub proof fn law_selected_line_is_marked(labels: Seq<Seq<char>>, selected: int, k: int)
    requires
        0 <= k < labels.len(),
    ensures
        marked_lines(labels, selected).len() == labels.len(),
        marked_lines(labels, selected)[k].len() == labels[k].len() + 2,
        marked_lines(labels, selected)[k][0] == '>' <==> k == selected,
        marked_lines(labels, selected)[k][0] == ' ' <==> k != selected,
        marked_lines(labels, selected)[k].skip(2) == labels[k],
{
    reveal_strlit(">");
    reveal_strlit(" ");
    assert(marked_lines(labels, selected)[k].skip(2) =~= labels[k]);
}

/// A place that a folder can be moved to is shown by its name, further to the right by two
/// columns for each level.
pub proof fn law_places_are_shown_by_depth(target: FolderReparentTarget)
    ensures
        target matches FolderReparentTarget::Folder { display_name, depth, .. } ==> {
            &&& target_label(target).len() == 2 * depth + display_name@.len()
            &&& target_label(target).skip(2 * depth) == display_name@
            &&& forall|i: int| 0 <= i < 2 * depth ==> #[trigger] target_label(target)[i] == ' '
        },
        target is AccountRoot ==> target_label(target).len() > 0,
{
    reveal_strlit("Account root");
    match target {
        FolderReparentTarget::Folder { display_name, depth, .. } => {
            lemma_indent(depth as nat);
            assert(target_label(target).skip(2 * depth) =~= display_name@);
        },
        _ => {},
    }
}

/// Whether a text stands in another from a position on.
pub open spec fn stands_at(s: Seq<char>, at: int, part: Seq<char>) -> bool {
    0 <= at <= s.len() - part.len() && s.subrange(at, at + part.len()) == part
}

proof fn lemma_stands(before: Seq<char>, part: Seq<char>, after: Seq<char>)
    ensures
        occurs(before + part + after, part),
{
    let s = before + part + after;
    let at = before.len() as int;
    assert(s.subrange(at, at + part.len()) =~= part);
}

/// The form for a name shows the name as it is typed, and the one for a folder within
/// another also the name of that one.
pub proof fn law_form_shows_what_is_typed(v: AppModel, popup: PopupModel)
    ensures
        popup matches PopupModel::CreateFolder { name, .. } ==> occurs(popup_of(v, popup), name),
        popup matches PopupModel::CreateChildFolder { name, parent_folder_name, .. } ==> occurs(
            popup_of(v, popup),
            name,
        ) && occurs(popup_of(v, popup), parent_folder_name@),
        popup matches PopupModel::RenameFolder { name, .. } ==> occurs(popup_of(v, popup), name),
        popup matches PopupModel::Link { url, .. } ==> occurs(popup_of(v, popup), url),
        popup matches PopupModel::DeleteConfirm(note) ==> occurs(
            popup_of(v, popup),
            note.summary.name@,
        ),
        popup matches PopupModel::DeleteFolder { folder_name, .. } ==> occurs(
            popup_of(v, popup),
            folder_name@,
        ),
        popup matches PopupModel::ReparentFolder { source_folder_name, .. } ==> occurs(
            popup_of(v, popup),
            source_folder_name@,
        ),
{
    let all = popup_of(v, popup);
    match popup {
        PopupModel::CreateFolder { name, .. } => lemma_stands(
            "Create folder\n\nName: "@,
            name,
            "\n\nEnter create | Esc cancel"@,
        ),
        PopupModel::CreateChildFolder { name, parent_folder_name, .. } => {
            let start = "Create subfolder in “"@;
            let end = "\n\nEnter create | Esc cancel"@;
            lemma_stands(start + parent_folder_name@ + "”\n\nName: "@, name, end);
            lemma_stands(start, parent_folder_name@, "”\n\nName: "@ + name + end);
            assert(all =~= start + parent_folder_name@ + ("”\n\nName: "@ + name + end));
        },
        PopupModel::RenameFolder { name, .. } => lemma_stands(
            "Rename folder\n\nName: "@,
            name,
            "\n\nEnter rename | Esc cancel"@,
        ),
        PopupModel::Link { url, .. } => lemma_stands(
            "Link URL:\n\n"@,
            url,
            "\n\nEnter apply | Esc cancel"@,
        ),
        PopupModel::DeleteConfirm(note) => lemma_stands(
            "Move “"@,
            note.summary.name@,
            "” to Recently Deleted?\n\n[y] move   [N/Esc] cancel"@,
        ),
        PopupModel::DeleteFolder { folder_name, .. } => lemma_stands(
            "Delete folder “"@,
            folder_name@,
            "”?\n\nOnly empty folders can be deleted.\nThis action removes the folder from Notes.\n\n[y] delete   [N/Esc] cancel"@,
        ),
        PopupModel::ReparentFolder { source_folder_name, destinations, selected_destination, .. } => {
            let rest = "” to:\n\n"@ + join(
                marked_lines(
                    crate::screen::target_labels(destinations),
                    selected_destination as int,
                ),
                "\n"@,
            ) + "\n\nEnter move | Esc cancel"@;
            lemma_stands("Move “"@, source_folder_name@, rest);
            assert(all =~= "Move “"@ + source_folder_name@ + rest);
        },
        _ => {},
    }
}

proof fn lemma_joined(v: Seq<Seq<char>>, sep: Seq<char>, k: int) -> (parts: (Seq<char>, Seq<char>))
    requires
        0 <= k < v.len(),
    ensures
        join(v, sep) == parts.0 + v[k] + parts.1,
    decreases v.len(),
{
    if v.len() == 1 {
        assert(join(v, sep) =~= Seq::<char>::empty() + v[0] + Seq::<char>::empty());
        (Seq::empty(), Seq::empty())
    } else if k == v.len() - 1 {
        assert(join(v, sep) =~= (join(v.drop_last(), sep) + sep) + v[k] + Seq::<char>::empty());
        (join(v.drop_last(), sep) + sep, Seq::empty())
    } else {
        let (before, after) = lemma_joined(v.drop_last(), sep, k);
        assert(v.drop_last()[k] == v[k]);
        assert(join(v, sep) =~= before + v[k] + (after + sep + v.last()));
        (before, after + sep + v.last())
    }
}

/// The list of folders to move a note to shows each of them, and the list of places for a
/// folder each of those.
pub proof fn law_lists_show_every_place(v: AppModel, popup: PopupModel, k: int)
    ensures
        popup matches PopupModel::Move { selected } ==> (0 <= k < move_labels(
            v.data.navigation,
        ).len() ==> occurs(
            popup_of(v, popup),
            marked_lines(move_labels(v.data.navigation), selected as int)[k],
        )),
        popup matches PopupModel::ReparentFolder { destinations, selected_destination, .. } ==> (0
            <= k < destinations.len() ==> occurs(
            popup_of(v, popup),
            marked_lines(
                crate::screen::target_labels(destinations),
                selected_destination as int,
            )[k],
        )),
{
    let all = popup_of(v, popup);
    match popup {
        PopupModel::Move { selected } => {
            let lines = marked_lines(move_labels(v.data.navigation), selected as int);
            if 0 <= k < lines.len() {
                let (before, after) = lemma_joined(lines, "\n"@, k);
                let head = "Move note to:\n\n"@;
                let tail = "\n\nEnter move | Esc cancel"@;
                lemma_stands(head + before, lines[k], after + tail);
                assert(all =~= (head + before) + lines[k] + (after + tail));
            }
        },
        PopupModel::ReparentFolder { source_folder_name, destinations, selected_destination, .. } => {
            let lines = marked_lines(
                crate::screen::target_labels(destinations),
                selected_destination as int,
            );
            if 0 <= k < lines.len() {
                let (before, after) = lemma_joined(lines, "\n"@, k);
                let head = "Move “"@ + source_folder_name@ + "” to:\n\n"@;
                let tail = "\n\nEnter move | Esc cancel"@;
                lemma_stands(head + before, lines[k], after + tail);
                assert(all =~= (head + before) + lines[k] + (after + tail));
            }
        },
        _ => {},
    }
}

// ---------------------------------------------------------------------------
// The settings
// ---------------------------------------------------------------------------

proof fn lemma_blanks(n: nat)
    ensures
        repeat(" "@, n).len() == n,
    decreases n,
{
    reveal_strlit(" ");
    if n > 0 {
        lemma_blanks((n - 1) as nat);
    }
}

proof fn lemma_padded(s: Seq<char>, width: nat)
    ensures
        padded(s, width).len() == if s.len() < width {
            width
        } else {
            s.len()
        },
        starts_with(padded(s, width), s),
{
    if s.len() < width {
        lemma_blanks((width - s.len()) as nat);
    }
    assert(padded(s, width).take(s.len() as int) =~= s);
}

proof fn lemma_names_fit(i: int)
    ensures
        0 < setting_name(i).len() < 22,
{
    reveal_strlit("Auto refresh");
    reveal_strlit("Refresh interval");
    reveal_strlit("Preview wrap");
    reveal_strlit("Attachment metadata");
}

/// A line of the settings is marked where it is selected, starred where it is staged, and
/// shows the name, the value and the source of its preference.
pub proof fn law_settings_show_their_preferences(
    s: Settings,
    sources: Seq<ConfigValueSource>,
    i: int,
)
    requires
        0 <= i < 4,
    ensures
        ({
            let line = setting_line(s, sources, i);
            &&& line.len() > 3
            &&& line[0] == '>' <==> i == s.selected
            &&& line[1] == '*' <==> !(s.staged[i] is Unchanged)
            &&& stands_at(line, 3, setting_name(i))
            &&& stands_at(line, 26, setting_value(s, i))
            &&& line.last() == ']'
            &&& stands_at(
                line,
                line.len() - 1 - source_text(sources[i]).len(),
                source_text(sources[i]),
            )
        }),
{
    reveal_strlit(">");
    reveal_strlit(" ");
    reveal_strlit("*");
    reveal_strlit(" [");
    reveal_strlit("]");
    lemma_names_fit(i);
    let name = setting_name(i);
    let value = setting_value(s, i);
    let source = source_text(sources[i]);
    lemma_padded(name, 22);
    lemma_padded(value, 7);
    let line = setting_line(s, sources, i);
    let wide = padded(name, 22);
    let shown = padded(value, 7);
    assert(line.subrange(3, 3int + name.len()) =~= wide.take(name.len() as int));
    assert(line.subrange(26, 26int + value.len()) =~= shown.take(value.len() as int));
    let at = line.len() - 1 - source.len();
    assert(line.subrange(at, at + source.len()) =~= source);
}

/// The four preferences of the settings stand in their order: refreshing by itself, its
/// interval, the wrap of the preview, and what is told of attachments; each with the value
/// that is being set.
pub proof fn law_settings_show_their_values(s: Settings)
    ensures
        s.draft.auto_refresh ==> setting_value(s, 0) == "true"@,
        !s.draft.auto_refresh ==> setting_value(s, 0) == "false"@,
        s.interval_input is None ==> setting_value(s, 1).len() > 0 && digits_value(
            setting_value(s, 1).drop_last(),
        ) == s.draft.refresh_interval,
        s.interval_input matches Some(input) ==> setting_value(s, 1) == input,
        s.draft.auto_refresh == s.draft.preview_wrap ==> setting_value(s, 0) == setting_value(s, 2),
        s.draft.auto_refresh == s.draft.show_attachment_metadata ==> setting_value(s, 0)
            == setting_value(s, 3),
{
    reveal_strlit("s");
    lemma_decimal_value(s.draft.refresh_interval as nat);
    let d = decimal(s.draft.refresh_interval as nat);
    if s.interval_input is None {
        assert(setting_value(s, 1).drop_last() =~= d);
    }
}

/// Every preference has its line in the settings, and an error is shown.
pub proof fn law_settings_show_every_line(
    s: Settings,
    sources: Seq<ConfigValueSource>,
    i: int,
)
    requires
        0 <= i < 4,
    ensures
        occurs(settings_popup(s, sources), setting_line(s, sources, i)),
        s.error matches Some(e) ==> occurs(settings_popup(s, sources), e),
{
    let lines = setting_lines(s, sources);
    let (before, after) = lemma_joined(lines, "\n"@, i);
    let head = "Settings (changes apply next startup)\n\n"@;
    let all = settings_popup(s, sources);
    let last = match s.error {
        Some(e) => e,
        None => "j/k select | Space toggle | Enter edit interval | s save | Esc cancel"@,
    };
    lemma_stands(head + before, lines[i], after + "\n\n"@ + last);
    assert(all =~= (head + before) + lines[i] + (after + "\n\n"@ + last));
    lemma_stands(head + join(lines, "\n"@) + "\n\n"@, last, Seq::empty());
    assert(all =~= (head + join(lines, "\n"@) + "\n\n"@) + last + Seq::<char>::empty());
}

// ---------------------------------------------------------------------------
// The status line
// ---------------------------------------------------------------------------

/// The status line begins with the mode, or tells of an error, and shows the message.
pub proof fn law_status_line_tells_the_mode(v: AppModel)
    ensures
        v.shown.mode is Insert ==> starts_with(status_of(v), "INSERT"@),
        v.shown.mode is Normal && v.status.is_error ==> starts_with(status_of(v), "ERROR"@),
        v.shown.mode is Normal && !v.status.is_error ==> starts_with(status_of(v), "NORMAL"@),
        occurs(status_of(v), v.status.text),
        v.shown.selected_navigation < v.data.navigation.len() ==> occurs(
            status_of(v),
            line_label(v.data.navigation[v.shown.selected_navigation as int]),
        ),
{
    let s = status_of(v);
    let mode = if v.shown.mode is Insert {
        "INSERT"@
    } else if v.status.is_error {
        "ERROR"@
    } else {
        "NORMAL"@
    };
    let item = match crate::app::selected_item(v) {
        Some(item) => line_label(item),
        None => "No selection"@,
    };
    let words = match search_words(v) {
        Some(words) => words,
        None => ""@,
    };
    let keys = " | q quit | , settings | / search | Tab focus | j/k move | Enter open | a attachments | r refresh | ? help"@;
    let bar = " | "@;
    assert(s == mode + bar + item + bar + v.status.text + bar + words + keys);
    assert(s.take(mode.len() as int) =~= mode);
    lemma_stands(mode + bar + item + bar, v.status.text, bar + words + keys);
    assert(s =~= (mode + bar + item + bar) + v.status.text + (bar + words + keys));
    lemma_stands(mode + bar, item, bar + v.status.text + bar + words + keys);
    assert(s =~= (mode + bar) + item + (bar + v.status.text + bar + words + keys));
}

/// The status line shows what is searched for, and of a search in force how many of the
/// notes it found.
pub proof fn law_status_line_tells_the_search(v: AppModel)
    ensures
        v.search matches Search::Editing { input, .. } ==> (search_words(v) matches Some(words)
            && occurs(words, input)),
        v.search matches Search::Active(a) ==> (search_words(v) matches Some(words) && {
            &&& occurs(words, a.query)
            &&& a.visible.len() > 0 ==> occurs(
                words,
                decimal(a.visible.len()) + "/"@ + decimal(v.data.notes.len()),
            )
        }),
        v.search is Inactive ==> search_words(v) is None,
        search_words(v) matches Some(words) ==> occurs(status_of(v), words),
{
    match v.search {
        Search::Editing { input, .. } => lemma_stands("Search: "@, input, "_"@),
        Search::Active(a) => {
            let words = search_words(v)->0;
            let count = decimal(a.visible.len()) + "/"@ + decimal(v.data.notes.len());
            if a.visible.len() == 0 {
                lemma_stands("Search: "@, a.query, " · No matching notes"@);
            } else {
                lemma_stands("Search: "@ + a.query + " · "@, count, " matches"@);
                assert(words =~= ("Search: "@ + a.query + " · "@) + count + " matches"@);
                lemma_stands("Search: "@, a.query, " · "@ + count + " matches"@);
                assert(words =~= "Search: "@ + a.query + (" · "@ + count + " matches"@));
            }
        },
        _ => {},
    }
    if search_words(v) is Some {
        let words = search_words(v)->0;
        let keys = " | q quit | , settings | / search | Tab focus | j/k move | Enter open | a attachments | r refresh | ? help"@;
        let before = status_of(v).take(status_of(v).len() - keys.len() - words.len());
        lemma_stands(before, words, keys);
        assert(status_of(v) =~= before + words + keys);
    }
}

/// The client fits in a terminal of eighty columns and twenty-four lines, and in none that
/// is smaller either way.
pub proof fn law_smallest_terminal(width: u16, height: u16)
    ensures
        fits(80, 24),
        fits(width, height) ==> width >= 80 && height >= 24,
        width >= 80 && height >= 24 ==> fits(width, height),
{
}

} // verus!
