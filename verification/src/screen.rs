//! The texts on the screen.

use vstd::prelude::*;

use crate::app::{visible_ids, App, AppModel};
use crate::browsing::search_words;
use crate::config::ConfigValueSource;
use crate::draft::EditorRecoveryKind;
use crate::model::{find_summary, summary_at, AttachmentSummary, NoteId, NoteSummary};
use crate::navigation::{FolderReparentTarget, NavigationItem};
use crate::popups::{list_move_targets, move_targets};
use crate::preview::{
    attachment_display_name, attachment_name, preview_lines, preview_text, shown, truth,
    truth_text, PreviewLine, ShownLine,
};
use crate::text::{
    cat, cat3, decimal, decimal_text, join, joined, owned, repeat, repeated, texts,
};
use crate::workflow::{
    AppMode, CachedPreviewState, Popup, PopupModel, SettingDraft, Settings, SettingsState,
};

verus! {

/// The smallest terminal that the client fits in.
pub const MINIMUM_WIDTH: u16 = 80;

pub const MINIMUM_HEIGHT: u16 = 24;

/// Whether the client fits in a terminal.
pub open spec fn fits(width: u16, height: u16) -> bool {
    width >= MINIMUM_WIDTH && height >= MINIMUM_HEIGHT
}

/// What is shown in a terminal that the client does not fit in.
pub open spec fn too_small_text(width: u16, height: u16) -> Seq<char> {
    "Terminal too small\nMinimum: 80x24\nCurrent: "@ + decimal(width as nat) + "x"@ + decimal(
        height as nat,
    )
}

/// What is shown in a terminal that the client does not fit in.
pub fn too_small(width: u16, height: u16) -> (r: Option<String>)
    ensures
        match r {
            Some(text) => !fits(width, height) && text@ == too_small_text(width, height),
            None => fits(width, height),
        },
{
    if width >= MINIMUM_WIDTH && height >= MINIMUM_HEIGHT {
        return None;
    }
    let w = decimal_text(width as u64);
    let h = decimal_text(height as u64);
    let top = cat3("Terminal too small\nMinimum: 80x24\nCurrent: ", w.as_str(), "x");
    Some(cat(top.as_str(), h.as_str()))
}

// ---------------------------------------------------------------------------
// Panes
// ---------------------------------------------------------------------------

/// A line of the tree: an account, or a folder with two spaces for each level and one
/// more.
pub open spec fn line_label(item: NavigationItem) -> Seq<char> {
    match item {
        NavigationItem::Account { name, .. } => name@,
        NavigationItem::Folder { name, depth, .. } => repeat("  "@, depth as nat) + "  └─ "@
            + name@,
    }
}

pub fn navigation_label(item: &NavigationItem) -> (r: String)
    ensures
        r@ == line_label(*item),
{
    match item {
        NavigationItem::Account { name, .. } => name.clone(),
        NavigationItem::Folder { name, depth, .. } => {
            let space = repeated("  ", *depth);
            cat3(space.as_str(), "  └─ ", name.as_str())
        },
    }
}

/// The lines of the tree.
pub open spec fn tree_labels(navigation: Seq<NavigationItem>) -> Seq<Seq<char>> {
    Seq::new(navigation.len(), |i: int| line_label(navigation[i]))
}

/// The notes of the list that are there, among the first `n`, each with its place.
pub open spec fn rows_upto(notes: Seq<NoteSummary>, ids: Seq<NoteId>, n: nat) -> Seq<
    (int, Seq<char>),
>
    decreases n,
{
    if n == 0 {
        seq![]
    } else {
        let before = rows_upto(notes, ids, (n - 1) as nat);
        let k = summary_at(notes, ids[n - 1]@) as int;
        if k < notes.len() {
            before.push((n - 1, notes[k].name@))
        } else {
            before
        }
    }
}

/// The rows of the list of notes, each with its place.
pub open spec fn note_rows(v: AppModel) -> Seq<(int, Seq<char>)> {
    rows_upto(v.data.notes, visible_ids(v), visible_ids(v).len())
}

/// The model of rows.
pub open spec fn rows_view(rows: Seq<(usize, String)>) -> Seq<(int, Seq<char>)> {
    Seq::new(rows.len(), |i: int| (rows[i].0 as int, rows[i].1@))
}

/// What the preview pane shows: the lines of a note, or a text in place of a note.
#[derive(Debug)]
pub enum PreviewPane {
    Lines(Vec<PreviewLine>),
    Text(String),
}

/// The model of what the preview pane shows.
pub ghost enum Pane {
    Lines(Seq<ShownLine>),
    Text(Seq<char>),
}

impl View for PreviewPane {
    type V = Pane;

    open spec fn view(&self) -> Pane {
        match *self {
            PreviewPane::Lines(lines) => Pane::Lines(shown(lines@)),
            PreviewPane::Text(text) => Pane::Text(text@),
        }
    }
}

/// What stands in place of a note.
pub open spec fn no_note_text(v: AppModel) -> Seq<char> {
    match v.shown.cached_preview_state {
        Some(CachedPreviewState::MissingFullNote) =>
            "Full note content is not available in the local cache.\nThe note summary remains available offline."@,
        Some(CachedPreviewState::ReadError(e)) =>
            "Local cached note content could not be read.\n"@ + e@,
        None => match crate::app::visible_note(v, v.shown.selected_note_index as int) {
            Some(note) => if note.password_protected {
                "[locked] Password protected\nContent is unavailable until the note is unlocked in Notes.app."@
            } else {
                "Select a note to preview."@
            },
            None => "Select a note to preview."@,
        },
    }
}

/// What the preview pane shows.
pub open spec fn preview_of(v: AppModel) -> Pane {
    match v.shown.selected_note {
        Some(note) => Pane::Lines(preview_lines(*note, v.prefs.show_attachment_metadata)),
        None => Pane::Text(no_note_text(v)),
    }
}

/// The line at the bottom of the screen: the mode, the selected line of the tree, the
/// message, the search and the keys.
pub open spec fn status_of(v: AppModel) -> Seq<char> {
    (if v.shown.mode is Insert {
        "INSERT"@
    } else if v.status.is_error {
        "ERROR"@
    } else {
        "NORMAL"@
    }) + " | "@ + (match crate::app::selected_item(v) {
        Some(item) => line_label(item),
        None => "No selection"@,
    }) + " | "@ + v.status.text + " | "@ + (match search_words(v) {
        Some(words) => words,
        None => ""@,
    })
        + " | q quit | , settings | / search | Tab focus | j/k move | Enter open | a attachments | r refresh | ? help"@
}

impl App {
    /// The lines of the tree.
    pub fn navigation_labels(&self) -> (r: Vec<String>)
        ensures
            texts(r@) == tree_labels(self@.data.navigation),
    {
        let mut out: Vec<String> = Vec::new();
        let mut i: usize = 0;
        while i < self.data.navigation.len()
            invariant
                i <= self.data.navigation@.len(),
                out@.len() == i,
                forall|k: int|
                    0 <= k < i ==> #[trigger] out@[k]@ == line_label(self.data.navigation@[k]),
            decreases self.data.navigation@.len() - i,
        {
            out.push(navigation_label(&self.data.navigation[i]));
            i = i + 1;
        }
        assert(texts(out@) =~= tree_labels(self@.data.navigation));
        out
    }

    /// The rows of the list of notes, each with its place.
    pub fn note_rows(&self) -> (r: Vec<(usize, String)>)
        ensures
            rows_view(r@) == note_rows(self@),
    {
        let ids = self.visible_note_ids();
        let mut out: Vec<(usize, String)> = Vec::new();
        let mut i: usize = 0;
        assert(rows_view(out@) =~= rows_upto(self@.data.notes, ids@, 0));
        while i < ids.len()
            invariant
                i <= ids@.len(),
                rows_view(out@) == rows_upto(self@.data.notes, ids@, i as nat),
            decreases ids@.len() - i,
        {
            let ghost before = rows_view(out@);
            if let Some(k) = find_summary(&self.data.notes, &ids[i]) {
                out.push((i, self.data.notes[k].name.clone()));
                assert(rows_view(out@) =~= before.push((i as int, self@.data.notes[k as int].name@)));
            }
            i = i + 1;
        }
        out
    }

    /// What the preview pane shows.
    pub fn preview_pane(&self) -> (r: PreviewPane)
        ensures
            r@ == preview_of(self@),
    {
        if let Some(note) = &self.shown.selected_note {
            return PreviewPane::Lines(preview_text(note, self.prefs.show_attachment_metadata));
        }
        let text = match &self.shown.cached_preview_state {
            Some(CachedPreviewState::MissingFullNote) => owned(
                "Full note content is not available in the local cache.\nThe note summary remains available offline.",
            ),
            Some(CachedPreviewState::ReadError(e)) => cat(
                "Local cached note content could not be read.\n",
                e.as_str(),
            ),
            None => {
                let locked = match self.visible_note(self.shown.selected_note_index) {
                    Some(note) => note.password_protected,
                    None => false,
                };
                if locked {
                    owned(
                        "[locked] Password protected\nContent is unavailable until the note is unlocked in Notes.app.",
                    )
                } else {
                    owned("Select a note to preview.")
                }
            },
        };
        PreviewPane::Text(text)
    }

    /// The line at the bottom of the screen.
    pub fn status_line(&self) -> (r: String)
        ensures
            r@ == status_of(self@),
    {
        let mode = match self.shown.mode {
            AppMode::Insert => "INSERT",
            AppMode::Normal => if self.status.is_error {
                "ERROR"
            } else {
                "NORMAL"
            },
        };
        let path = if self.shown.selected_navigation < self.data.navigation.len() {
            navigation_label(&self.data.navigation[self.shown.selected_navigation])
        } else {
            owned("No selection")
        };
        let search = match self.search_status() {
            Some(words) => words,
            None => owned(""),
        };
        let a = cat3(mode, " | ", path.as_str());
        let b = cat3(a.as_str(), " | ", self.status.text.as_str());
        let c = cat3(b.as_str(), " | ", search.as_str());
        cat(
            c.as_str(),
            " | q quit | , settings | / search | Tab focus | j/k move | Enter open | a attachments | r refresh | ? help",
        )
    }
}

/// The keys of the client.
pub open spec fn help_words() -> Seq<char> {
    "Navigation\n  j/k, Up/Down   move\n  h/l, Left/Right change pane\n  Tab / Shift-Tab next / previous pane\n  Enter           activate\n  g/G, Home/End   first / last\n  r               refresh\n  n / m           create / move note\n  N               create top-level folder\n  C / R           create child / rename selected folder\n  D               delete selected folder when no note is selected\n  M               move selected folder within its account\n  ,               settings (next startup)\n\nSearch\n  /               open search\n  Enter           apply search\n  Esc             cancel input / clear active search\n  Backspace       edit query\n  Ctrl-u          clear query\n\nAttachments\n  a               open attachment list\n  j/k             select attachment\n  Enter           preview explicitly in Notes.app\n  x               export a copy with macOS Save dialog\n  Esc             close\n\nPreview\n  PgUp/PgDn, Ctrl-u/Ctrl-d scroll\n\nGeneral\n  q quit\n  ? or Esc close help"@
}

/// The keys of the client.
pub fn help_text() -> (r: String)
    ensures
        r@ == help_words(),
{
    owned(
        "Navigation\n  j/k, Up/Down   move\n  h/l, Left/Right change pane\n  Tab / Shift-Tab next / previous pane\n  Enter           activate\n  g/G, Home/End   first / last\n  r               refresh\n  n / m           create / move note\n  N               create top-level folder\n  C / R           create child / rename selected folder\n  D               delete selected folder when no note is selected\n  M               move selected folder within its account\n  ,               settings (next startup)\n\nSearch\n  /               open search\n  Enter           apply search\n  Esc             cancel input / clear active search\n  Backspace       edit query\n  Ctrl-u          clear query\n\nAttachments\n  a               open attachment list\n  j/k             select attachment\n  Enter           preview explicitly in Notes.app\n  x               export a copy with macOS Save dialog\n  Esc             close\n\nPreview\n  PgUp/PgDn, Ctrl-u/Ctrl-d scroll\n\nGeneral\n  q quit\n  ? or Esc close help",
    )
}

// ---------------------------------------------------------------------------
// Lists in popups
// ---------------------------------------------------------------------------

/// The mark in front of a line of a list.
pub open spec fn mark_text(selected: bool) -> Seq<char> {
    if selected {
        ">"@
    } else {
        " "@
    }
}

/// The lines of a list, with the selected one marked.
pub open spec fn marked_lines(labels: Seq<Seq<char>>, selected: int) -> Seq<Seq<char>> {
    Seq::new(labels.len(), |i: int| mark_text(i == selected) + " "@ + labels[i])
}

fn mark(selected: bool) -> (r: &'static str)
    ensures
        r@ == mark_text(selected),
{
    if selected {
        ">"
    } else {
        " "
    }
}

/// The text of a list, with the selected line marked.
fn marked_list(labels: &Vec<String>, selected: usize) -> (r: String)
    ensures
        r@ == join(marked_lines(texts(labels@), selected as int), "\n"@),
{
    let mut out: Vec<String> = Vec::new();
    let mut i: usize = 0;
    while i < labels.len()
        invariant
            i <= labels@.len(),
            out@.len() == i,
            forall|k: int|
                0 <= k < i ==> #[trigger] out@[k]@ == mark_text(k == selected) + " "@
                    + labels@[k]@,
        decreases labels@.len() - i,
    {
        out.push(cat3(mark(i == selected), " ", labels[i].as_str()));
        i = i + 1;
    }
    assert(texts(out@) =~= marked_lines(texts(labels@), selected as int));
    joined(&out, "\n")
}

/// A place that a folder can be moved to.
pub open spec fn target_label(target: FolderReparentTarget) -> Seq<char> {
    match target {
        FolderReparentTarget::AccountRoot => "Account root"@,
        FolderReparentTarget::Folder { display_name, depth, .. } => repeat("  "@, depth as nat)
            + display_name@,
    }
}

pub open spec fn target_labels(targets: Seq<FolderReparentTarget>) -> Seq<Seq<char>> {
    Seq::new(targets.len(), |i: int| target_label(targets[i]))
}

fn list_target_labels(targets: &Vec<FolderReparentTarget>) -> (r: Vec<String>)
    ensures
        texts(r@) == target_labels(targets@),
{
    let mut out: Vec<String> = Vec::new();
    let mut i: usize = 0;
    while i < targets.len()
        invariant
            i <= targets@.len(),
            out@.len() == i,
            forall|k: int| 0 <= k < i ==> #[trigger] out@[k]@ == target_label(targets@[k]),
        decreases targets@.len() - i,
    {
        out.push(
            match &targets[i] {
                FolderReparentTarget::AccountRoot => owned("Account root"),
                FolderReparentTarget::Folder { display_name, depth, .. } => {
                    let space = repeated("  ", *depth);
                    cat(space.as_str(), display_name.as_str())
                },
            },
        );
        i = i + 1;
    }
    assert(texts(out@) =~= target_labels(targets@));
    out
}

/// The folders that a note can be moved to.
pub open spec fn move_labels(navigation: Seq<NavigationItem>) -> Seq<Seq<char>> {
    Seq::new(move_targets(navigation).len(), |i: int| move_targets(navigation)[i].1@)
}

fn list_move_labels(navigation: &Vec<NavigationItem>) -> (r: Vec<String>)
    ensures
        texts(r@) == move_labels(navigation@),
{
    let targets = list_move_targets(navigation);
    let mut out: Vec<String> = Vec::new();
    let mut i: usize = 0;
    while i < targets.len()
        invariant
            i <= targets@.len(),
            out@.len() == i,
            forall|k: int| 0 <= k < i ==> #[trigger] out@[k]@ == targets@[k].1@,
        decreases targets@.len() - i,
    {
        out.push(targets[i].1.clone());
        i = i + 1;
    }
    assert(texts(out@) =~= move_labels(navigation@));
    out
}

/// The attachments of a note, by name and kind.
pub open spec fn attachment_labels(attachments: Seq<AttachmentSummary>) -> Seq<Seq<char>> {
    Seq::new(
        attachments.len(),
        |i: int| attachment_name(attachments[i]) + " ["@ + attachments[i].kind_label@ + "]"@,
    )
}

fn list_attachment_labels(attachments: &Vec<AttachmentSummary>) -> (r: Vec<String>)
    ensures
        texts(r@) == attachment_labels(attachments@),
{
    let mut out: Vec<String> = Vec::new();
    let mut i: usize = 0;
    while i < attachments.len()
        invariant
            i <= attachments@.len(),
            out@.len() == i,
            forall|k: int|
                0 <= k < i ==> #[trigger] out@[k]@ == attachment_labels(attachments@)[k],
        decreases attachments@.len() - i,
    {
        let name = attachment_display_name(&attachments[i]);
        let front = cat3(name.as_str(), " [", attachments[i].kind_label.as_str());
        out.push(cat(front.as_str(), "]"));
        i = i + 1;
    }
    assert(texts(out@) =~= attachment_labels(attachments@));
    out
}

/// A text that may be missing.
pub open spec fn text_or_none(text: Option<String>) -> Seq<char> {
    match text {
        Some(s) => s@,
        None => "unavailable"@,
    }
}

/// What is known of an attachment.
pub open spec fn attachment_details(a: AttachmentSummary) -> Seq<char> {
    "ID: "@ + a.id@ + "\nContent ID: "@ + text_or_none(a.content_identifier) + "\nSource URL: "@
        + text_or_none(a.source_url) + "\nPreview: "@ + a.preview_label@ + "\nExport copy: "@
        + a.export_label@
}

/// The list of attachments, with what is known of the selected one where that is wanted.
pub open spec fn attachment_popup(v: AppModel, selected: usize) -> Seq<char> {
    match v.shown.selected_note {
        None => "Attachment metadata is unavailable.\n\nEsc close"@,
        Some(note) => {
            let all = note.attachments@;
            "Attachments ("@ + decimal(all.len()) + ")\n\n"@ + join(
                marked_lines(attachment_labels(all), selected as int),
                "\n"@,
            ) + (if v.prefs.show_attachment_metadata {
                "\n\n"@ + (if selected < all.len() {
                    attachment_details(all[selected as int])
                } else {
                    "No attachment selected"@
                })
            } else {
                ""@
            })
                + "\n\nj/k select | Enter preview in Notes.app | x export copy… | Esc close"@
        },
    }
}

fn text_or_unavailable(text: &Option<String>) -> (r: &str)
    ensures
        r@ == text_or_none(*text),
{
    match text {
        Some(s) => s.as_str(),
        None => "unavailable",
    }
}

fn describe_attachment(a: &AttachmentSummary) -> (r: String)
    ensures
        r@ == attachment_details(*a),
{
    let b = cat3("ID: ", a.id.as_str(), "\nContent ID: ");
    let c = cat3(b.as_str(), text_or_unavailable(&a.content_identifier), "\nSource URL: ");
    let d = cat3(c.as_str(), text_or_unavailable(&a.source_url), "\nPreview: ");
    let e = cat3(d.as_str(), a.preview_label.as_str(), "\nExport copy: ");
    cat(e.as_str(), a.export_label.as_str())
}

// ---------------------------------------------------------------------------
// Settings
// ---------------------------------------------------------------------------

/// A text with spaces behind it, to a width.
pub open spec fn padded(s: Seq<char>, width: nat) -> Seq<char> {
    if s.len() < width {
        s + repeat(" "@, (width - s.len()) as nat)
    } else {
        s
    }
}

fn pad(s: &str, width: usize) -> (r: String)
    ensures
        r@ == padded(s@, width as nat),
{
    let len = s.unicode_len();
    if len < width {
        let space = repeated(" ", width - len);
        cat(s, space.as_str())
    } else {
        owned(s)
    }
}

/// The name of a preference in the settings.
pub open spec fn setting_name(i: int) -> Seq<char> {
    if i == 0 {
        "Auto refresh"@
    } else if i == 1 {
        "Refresh interval"@
    } else if i == 2 {
        "Preview wrap"@
    } else {
        "Attachment metadata"@
    }
}

/// The value of a preference in the settings: the interval as it is typed, else in
/// seconds.
pub open spec fn setting_value(s: Settings, i: int) -> Seq<char> {
    if i == 0 {
        truth_text(s.draft.auto_refresh)
    } else if i == 1 {
        match s.interval_input {
            Some(input) => input,
            None => decimal(s.draft.refresh_interval as nat) + "s"@,
        }
    } else if i == 2 {
        truth_text(s.draft.preview_wrap)
    } else {
        truth_text(s.draft.show_attachment_metadata)
    }
}

pub open spec fn source_text(source: ConfigValueSource) -> Seq<char> {
    match source {
        ConfigValueSource::Default => "default"@,
        ConfigValueSource::File => "file"@,
        ConfigValueSource::Cli => "cli"@,
    }
}

/// A line of the settings.
pub open spec fn setting_line(s: Settings, sources: Seq<ConfigValueSource>, i: int) -> Seq<char> {
    mark_text(i == s.selected) + (if s.staged[i] is Unchanged {
        " "@
    } else {
        "*"@
    }) + " "@ + padded(setting_name(i), 22) + " "@ + padded(setting_value(s, i), 7) + " ["@
        + source_text(sources[i]) + "]"@
}

pub open spec fn setting_lines(s: Settings, sources: Seq<ConfigValueSource>) -> Seq<Seq<char>> {
    Seq::new(4, |i: int| setting_line(s, sources, i))
}

/// The text of the settings.
pub open spec fn settings_popup(s: Settings, sources: Seq<ConfigValueSource>) -> Seq<char> {
    "Settings (changes apply next startup)\n\n"@ + join(setting_lines(s, sources), "\n"@)
        + "\n\n"@ + (match s.error {
        Some(e) => e,
        None => "j/k select | Space toggle | Enter edit interval | s save | Esc cancel"@,
    })
}

fn find_setting_name(i: usize) -> (r: &'static str)
    ensures
        r@ == setting_name(i as int),
{
    match i {
        0 => "Auto refresh",
        1 => "Refresh interval",
        2 => "Preview wrap",
        _ => "Attachment metadata",
    }
}

fn find_setting_value(s: &SettingsState, i: usize) -> (r: String)
    ensures
        r@ == setting_value(s@, i as int),
{
    match i {
        0 => owned(truth(s.draft.auto_refresh)),
        1 => match &s.interval_input {
            Some(input) => input.clone(),
            None => {
                let n = decimal_text(s.draft.refresh_interval);
                cat(n.as_str(), "s")
            },
        },
        2 => owned(truth(s.draft.preview_wrap)),
        _ => owned(truth(s.draft.show_attachment_metadata)),
    }
}

fn find_source_text(source: ConfigValueSource) -> (r: &'static str)
    ensures
        r@ == source_text(source),
{
    match source {
        ConfigValueSource::Default => "default",
        ConfigValueSource::File => "file",
        ConfigValueSource::Cli => "cli",
    }
}

fn write_setting_line(s: &SettingsState, sources: &[ConfigValueSource; 4], i: usize) -> (r: String)
    requires
        i < 4,
    ensures
        r@ == setting_line(s@, sources@, i as int),
{
    assert(s@.staged[i as int] == s.staged[i as int]);
    assert(sources@[i as int] == sources[i as int]);
    let staged = match s.staged[i] {
        SettingDraft::Unchanged => " ",
        _ => "*",
    };
    let name = pad(find_setting_name(i), 22);
    let value = find_setting_value(s, i);
    let value = pad(value.as_str(), 7);
    let a = cat3(mark(i == s.selected), staged, " ");
    let b = cat3(a.as_str(), name.as_str(), " ");
    let c = cat3(b.as_str(), value.as_str(), " [");
    cat3(c.as_str(), find_source_text(sources[i]), "]")
}

/// The text of the settings.
pub fn settings_popup_text(s: &SettingsState, sources: &[ConfigValueSource; 4]) -> (r: String)
    ensures
        r@ == settings_popup(s@, sources@),
{
    let mut rows: Vec<String> = Vec::new();
    let mut i: usize = 0;
    while i < 4
        invariant
            i <= 4,
            rows@.len() == i,
            forall|k: int| 0 <= k < i ==> #[trigger] rows@[k]@ == setting_line(s@, sources@, k),
        decreases 4 - i,
    {
        rows.push(write_setting_line(s, sources, i));
        i = i + 1;
    }
    assert(texts(rows@) =~= setting_lines(s@, sources@));
    let rows = joined(&rows, "\n");
    let detail = match &s.error {
        Some(e) => e.as_str(),
        None => "j/k select | Space toggle | Enter edit interval | s save | Esc cancel",
    };
    let top = cat3("Settings (changes apply next startup)\n\n", rows.as_str(), "\n\n");
    cat(top.as_str(), detail)
}

// ---------------------------------------------------------------------------
// Popups
// ---------------------------------------------------------------------------

/// What a draft is of.
pub open spec fn draft_kind_text(kind: EditorRecoveryKind) -> Seq<char> {
    match kind {
        EditorRecoveryKind::Create => "new note"@,
        EditorRecoveryKind::Edit => "existing note"@,
    }
}

/// The text of a popup.
pub open spec fn popup_of(v: AppModel, popup: PopupModel) -> Seq<char> {
    match popup {
        PopupModel::RenameFolder { name, .. } => "Rename folder\n\nName: "@ + name
            + "\n\nEnter rename | Esc cancel"@,
        PopupModel::ReparentFolder {
            source_folder_name,
            destinations,
            selected_destination,
            ..
        } => "Move “"@ + source_folder_name@ + "” to:\n\n"@ + join(
            marked_lines(target_labels(destinations), selected_destination as int),
            "\n"@,
        ) + "\n\nEnter move | Esc cancel"@,
        PopupModel::CreateFolder { name, .. } => "Create folder\n\nName: "@ + name
            + "\n\nEnter create | Esc cancel"@,
        PopupModel::CreateChildFolder { parent_folder_name, name, .. } =>
            "Create subfolder in “"@ + parent_folder_name@ + "”\n\nName: "@ + name
            + "\n\nEnter create | Esc cancel"@,
        PopupModel::Conflict(_) =>
            "Note changed outside TUI.\n\n[r] reload remote\n[o] overwrite\n[c] cancel"@,
        PopupModel::Discard { .. } =>
            "Discard unsaved changes?\n\n[y] discard\n[n] keep editing"@,
        PopupModel::Move { selected } => "Move note to:\n\n"@ + join(
            marked_lines(move_labels(v.data.navigation), selected as int),
            "\n"@,
        ) + "\n\nEnter move | Esc cancel"@,
        PopupModel::Attachments { selected } => attachment_popup(v, selected),
        PopupModel::Link { url, .. } => "Link URL:\n\n"@ + url
            + "\n\nEnter apply | Esc cancel"@,
        PopupModel::DeleteConfirm(note) => "Move “"@ + note.summary.name@
            + "” to Recently Deleted?\n\n[y] move   [N/Esc] cancel"@,
        PopupModel::DeleteFolder { folder_name, .. } => "Delete folder “"@ + folder_name@
            + "”?\n\nOnly empty folders can be deleted.\nThis action removes the folder from Notes.\n\n[y] delete   [N/Esc] cancel"@,
        PopupModel::Settings(s) => settings_popup(s, v.prefs.config_sources@),
        PopupModel::DraftRecovery { draft, recoverable } => if recoverable {
            "Unsaved local "@ + draft_kind_text(draft.draft.kind)
                + " draft found\n\nIt has not been saved to Notes.app.\n\n[r] Restore  [d] Discard  [Esc] Later"@
        } else {
            "Unsaved local "@ + draft_kind_text(draft.draft.kind)
                + " draft found, but its target is unavailable.\n\nThe draft remains on disk.\n\n[d] Discard  [Esc] Later"@
        },
    }
}

impl App {
    /// The list of attachments.
    pub fn attachment_popup_text(&self, selected: usize) -> (r: String)
        ensures
            r@ == attachment_popup(self@, selected),
    {
        let note = match &self.shown.selected_note {
            Some(note) => note,
            None => return owned("Attachment metadata is unavailable.\n\nEsc close"),
        };
        let labels = list_attachment_labels(&note.attachments);
        let items = marked_list(&labels, selected);
        let count = decimal_text(note.attachments.len() as u64);
        let head = cat3("Attachments (", count.as_str(), ")\n\n");
        let list = cat(head.as_str(), items.as_str());
        let details = if self.prefs.show_attachment_metadata {
            let known = if selected < note.attachments.len() {
                describe_attachment(&note.attachments[selected])
            } else {
                owned("No attachment selected")
            };
            cat("\n\n", known.as_str())
        } else {
            owned("")
        };
        cat3(
            list.as_str(),
            details.as_str(),
            "\n\nj/k select | Enter preview in Notes.app | x export copy… | Esc close",
        )
    }

    /// The text of a popup.
    pub fn popup_text(&self, popup: &Popup) -> (r: String)
        ensures
            r@ == popup_of(self@, popup@),
    {
        match popup {
            Popup::RenameFolder { name, .. } => cat3(
                "Rename folder\n\nName: ",
                name.as_str(),
                "\n\nEnter rename | Esc cancel",
            ),
            Popup::ReparentFolder {
                source_folder_name,
                destinations,
                selected_destination,
                ..
            } => {
                let labels = list_target_labels(destinations);
                let list = marked_list(&labels, *selected_destination);
                let head = cat3("Move “", source_folder_name.as_str(), "” to:\n\n");
                cat3(head.as_str(), list.as_str(), "\n\nEnter move | Esc cancel")
            },
            Popup::CreateFolder { name, .. } => cat3(
                "Create folder\n\nName: ",
                name.as_str(),
                "\n\nEnter create | Esc cancel",
            ),
            Popup::CreateChildFolder { parent_folder_name, name, .. } => {
                let head = cat3(
                    "Create subfolder in “",
                    parent_folder_name.as_str(),
                    "”\n\nName: ",
                );
                cat3(head.as_str(), name.as_str(), "\n\nEnter create | Esc cancel")
            },
            Popup::Conflict(_) => owned(
                "Note changed outside TUI.\n\n[r] reload remote\n[o] overwrite\n[c] cancel",
            ),
            Popup::Discard { .. } => owned(
                "Discard unsaved changes?\n\n[y] discard\n[n] keep editing",
            ),
            Popup::Move { selected } => {
                let labels = list_move_labels(&self.data.navigation);
                let list = marked_list(&labels, *selected);
                cat3("Move note to:\n\n", list.as_str(), "\n\nEnter move | Esc cancel")
            },
            Popup::Attachments { selected } => self.attachment_popup_text(*selected),
            Popup::Link { url, .. } => cat3(
                "Link URL:\n\n",
                url.as_str(),
                "\n\nEnter apply | Esc cancel",
            ),
            Popup::DeleteConfirm(note) => cat3(
                "Move “",
                note.summary.name.as_str(),
                "” to Recently Deleted?\n\n[y] move   [N/Esc] cancel",
            ),
            Popup::DeleteFolder { folder_name, .. } => cat3(
                "Delete folder “",
                folder_name.as_str(),
                "”?\n\nOnly empty folders can be deleted.\nThis action removes the folder from Notes.\n\n[y] delete   [N/Esc] cancel",
            ),
            Popup::Settings(settings) => settings_popup_text(settings, &self.prefs.config_sources),
            Popup::DraftRecovery { draft, recoverable } => {
                let kind = match draft.draft.kind {
                    EditorRecoveryKind::Create => "new note",
                    EditorRecoveryKind::Edit => "existing note",
                };
                if *recoverable {
                    cat3(
                        "Unsaved local ",
                        kind,
                        " draft found\n\nIt has not been saved to Notes.app.\n\n[r] Restore  [d] Discard  [Esc] Later",
                    )
                } else {
                    cat3(
                        "Unsaved local ",
                        kind,
                        " draft found, but its target is unavailable.\n\nThe draft remains on disk.\n\n[d] Discard  [Esc] Later",
                    )
                }
            },
        }
    }
}

} // verus!
