//! The workflow of the application, run against a notes service and a cache that live in
//! memory.

use std::cell::{Cell, RefCell};
use std::collections::{HashMap, VecDeque};
use std::ops::{Deref, DerefMut};
use std::rc::Rc;
use std::sync::{Arc, Mutex};
use std::time::Duration;

use notes_tui::app::App as Core;
use notes_tui::config::{
    edit_config_batch, resolve_config, AppConfig, CliConfigOverrides, ConfigPlan,
    ConfigValueSource, DEFAULT_REFRESH_INTERVAL,
};
use notes_tui::demo::DemoNote;
use notes_tui::document::{Block, Inline, ListItem, RichDocument};
use notes_tui::draft::{
    EditorCursorRecovery, EditorRecoveryDraft, EditorRecoveryField, EditorRecoveryKind,
};
use notes_tui::edit::{editor_text, editor_viewport_max, open_body, EditField, EditSession};
use notes_tui::editor::{EditorDocument, EditorTarget};
use notes_tui::jobs::{
    report_refresh, LiveRead, LiveRefreshRead, NavigationJob, NavigationRequest,
    NavigationWorkerResult, ReadCall, ReadFailure, ReadReply, ReadStep, RefreshJob, ServiceCall,
    ServiceReply, UpdateJob, UpdateStep, UpdateWorkerResult, WorkerRefreshResult,
};
use notes_tui::keys::{KeyCode, KeyEvent};
use notes_tui::model::{
    Account, AccountId, AttachmentAccessStatus, AttachmentId, AttachmentSummary,
    AttachmentUnavailableReason, BackendCapabilities, CachedState, DeletedFolder, Editability,
    Folder, FolderId, FolderParent, Note, NoteDate, NoteId, NoteSummary, NotesError, NotesPage,
    NotesQuery, RichFeature,
};
use notes_tui::navigation::{FolderReparentTarget, NavigationItem, RefreshContext};
use notes_tui::preview::{preview_text, PreviewLine};
use notes_tui::screen::{help_text, too_small, PreviewPane};
use notes_tui::session::{load_session, serialize_session, SessionFocus, SessionState};
use notes_tui::settings::settings_edits;
use notes_tui::workflow::{
    ActiveSearch, AppMode, Arrivals, CachedPreviewState, DataSourceState, Effect, Focus,
    NavigationArrival, Order, PendingForegroundIntent, PeriodicRefreshState, Popup, Problem,
    Progress, RecoveredDraft, RefreshOrigin, Reply, SearchState, SettingDraft,
    SettingsState,
};

// ---------------------------------------------------------------------------
// Keys and counters
// ---------------------------------------------------------------------------

#[derive(Clone, Copy, Debug, PartialEq, Eq)]
enum Held {
    Control,
    Alt,
}

#[derive(Clone, Default)]
struct Counter(Rc<Cell<usize>>);

impl Counter {
    fn get(&self) -> usize {
        self.0.get()
    }

    fn set(&self, value: usize) {
        self.0.set(value);
    }

    fn bump(&self) {
        self.0.set(self.0.get() + 1);
    }
}

#[derive(Clone, Default)]
struct Switch(Rc<Cell<bool>>);

impl Switch {
    fn get(&self) -> bool {
        self.0.get()
    }

    fn set(&self, value: bool) {
        self.0.set(value);
    }

    fn take(&self) -> bool {
        self.0.replace(false)
    }
}

/// A handshake with work in the background. The work here is done when it is ordered, and
/// its result is held back until it is polled for.
struct Gate;

impl Gate {
    fn recv(&self) -> Result<(), ()> {
        Ok(())
    }

    fn send(&self, _signal: ()) -> Result<(), ()> {
        Ok(())
    }
}

fn gate() -> (Gate, Gate) {
    (Gate, Gate)
}

// ---------------------------------------------------------------------------
// Notes as HTML
// ---------------------------------------------------------------------------

fn escape(text: &str) -> String {
    text.replace('&', "&amp;")
        .replace('<', "&lt;")
        .replace('>', "&gt;")
        .replace('"', "&quot;")
}

fn unescape(text: &str) -> String {
    text.replace("&quot;", "\"")
        .replace("&gt;", ">")
        .replace("&lt;", "<")
        .replace("&amp;", "&")
}

fn inline_html(inlines: &[Inline]) -> String {
    inlines
        .iter()
        .map(|inline| match inline {
            Inline::Text(text) => escape(text),
            Inline::Bold(children) => format!("<b>{}</b>", inline_html(children)),
            Inline::Italic(children) => format!("<i>{}</i>", inline_html(children)),
            Inline::Underline(children) => format!("<u>{}</u>", inline_html(children)),
            Inline::Strikethrough(children) => format!("<s>{}</s>", inline_html(children)),
            Inline::Link { label, href } => {
                format!("<a href=\"{}\">{}</a>", escape(href), inline_html(label))
            }
        })
        .collect()
}

fn items_html(items: &[ListItem]) -> String {
    items
        .iter()
        .map(|item| format!("<li>{}</li>", inline_html(&item.content)))
        .collect()
}

fn serialize_notes_html(document: &RichDocument) -> String {
    document
        .blocks
        .iter()
        .map(|block| match block {
            Block::Paragraph(items) => format!("<div>{}</div>", inline_html(items)),
            Block::Heading1(items) => format!("<h1>{}</h1>", inline_html(items)),
            Block::Heading2(items) => format!("<h2>{}</h2>", inline_html(items)),
            Block::Heading3(items) => format!("<h3>{}</h3>", inline_html(items)),
            Block::BulletList(items) => format!("<ul>{}</ul>", items_html(items)),
            Block::NumberedList(items) => format!("<ol>{}</ol>", items_html(items)),
            Block::Quote(items) => format!("<blockquote>{}</blockquote>", inline_html(items)),
            Block::CodeBlock(code) => format!("<pre>{}</pre>", escape(code)),
        })
        .collect()
}

/// What stands between `<tag>` at the start of the text and the first `</tag>`, and what
/// follows.
fn element<'a>(html: &'a str, tag: &str) -> Option<(&'a str, &'a str)> {
    let rest = html.strip_prefix(format!("<{tag}>").as_str())?;
    rest.split_once(format!("</{tag}>").as_str())
}

fn parse_inlines(html: &str) -> Result<Vec<Inline>, String> {
    let mut inlines = Vec::new();
    let mut rest = html;
    while !rest.is_empty() {
        if !rest.starts_with('<') {
            let end = rest.find('<').unwrap_or(rest.len());
            inlines.push(Inline::Text(unescape(&rest[..end])));
            rest = &rest[end..];
        } else if let Some((inner, after)) = element(rest, "b") {
            inlines.push(Inline::Bold(parse_inlines(inner)?));
            rest = after;
        } else if let Some((inner, after)) = element(rest, "i") {
            inlines.push(Inline::Italic(parse_inlines(inner)?));
            rest = after;
        } else if let Some((inner, after)) = element(rest, "u") {
            inlines.push(Inline::Underline(parse_inlines(inner)?));
            rest = after;
        } else if let Some((inner, after)) = element(rest, "s") {
            inlines.push(Inline::Strikethrough(parse_inlines(inner)?));
            rest = after;
        } else if let Some((href, after)) =
            rest.strip_prefix("<a href=\"").and_then(|tail| tail.split_once("\">"))
        {
            let (label, after) = after.split_once("</a>").ok_or("open link")?;
            inlines.push(Inline::Link { label: parse_inlines(label)?, href: unescape(href) });
            rest = after;
        } else {
            return Err(format!("unsupported element: {rest}"));
        }
    }
    Ok(inlines)
}

fn parse_items(html: &str) -> Result<Vec<ListItem>, String> {
    let mut items = Vec::new();
    let mut rest = html;
    while !rest.is_empty() {
        let (inner, after) = element(rest, "li").ok_or("list item expected")?;
        items.push(ListItem { content: parse_inlines(inner)? });
        rest = after;
    }
    Ok(items)
}

fn parse_block(html: &str) -> Result<(Block, &str), String> {
    if let Some((inner, after)) = element(html, "div") {
        let heading = inner
            .strip_prefix("<b><span style=\"font-size: 18px\">")
            .and_then(|tail| tail.strip_suffix("</span></b>"));
        let block = match heading {
            Some(text) => Block::Heading2(parse_inlines(text)?),
            None => Block::Paragraph(parse_inlines(inner)?),
        };
        return Ok((block, after));
    }
    if let Some((inner, after)) = element(html, "h1") {
        return Ok((Block::Heading1(parse_inlines(inner)?), after));
    }
    if let Some((inner, after)) = element(html, "h2") {
        return Ok((Block::Heading2(parse_inlines(inner)?), after));
    }
    if let Some((inner, after)) = element(html, "h3") {
        return Ok((Block::Heading3(parse_inlines(inner)?), after));
    }
    if let Some((inner, after)) = element(html, "ul") {
        return Ok((Block::BulletList(parse_items(inner)?), after));
    }
    if let Some((inner, after)) = element(html, "ol") {
        return Ok((Block::NumberedList(parse_items(inner)?), after));
    }
    if let Some((inner, after)) = element(html, "blockquote") {
        return Ok((Block::Quote(parse_inlines(inner)?), after));
    }
    if let Some((inner, after)) = element(html, "pre") {
        return Ok((Block::CodeBlock(unescape(inner)), after));
    }
    Err(format!("unsupported element: {html}"))
}

fn parse_notes_html(html: &str) -> Result<RichDocument, String> {
    let mut blocks = Vec::new();
    let mut rest = html.trim_start();
    while !rest.is_empty() {
        let (block, after) = parse_block(rest)?;
        blocks.push(block);
        rest = after.trim_start();
    }
    Ok(RichDocument { blocks })
}

fn editor_document_from_html(title: &str, html: &str) -> Result<EditorDocument, String> {
    Ok(open_body(&parse_notes_html(html)?, title))
}

fn inline_plain(inlines: &[Inline]) -> String {
    inlines
        .iter()
        .map(|inline| match inline {
            Inline::Text(text) => text.clone(),
            Inline::Bold(children)
            | Inline::Italic(children)
            | Inline::Underline(children)
            | Inline::Strikethrough(children)
            | Inline::Link { label: children, .. } => inline_plain(children),
        })
        .collect()
}

fn document_plain(document: &RichDocument) -> String {
    let lines: Vec<String> = document
        .blocks
        .iter()
        .flat_map(|block| match block {
            Block::Paragraph(items)
            | Block::Heading1(items)
            | Block::Heading2(items)
            | Block::Heading3(items)
            | Block::Quote(items) => vec![inline_plain(items)],
            Block::BulletList(items) | Block::NumberedList(items) => {
                items.iter().map(|item| inline_plain(&item.content)).collect()
            }
            Block::CodeBlock(code) => vec![code.clone()],
        })
        .collect();
    lines.join("\n")
}

fn inline_features(inlines: &[Inline], out: &mut Vec<RichFeature>) {
    for inline in inlines {
        match inline {
            Inline::Text(_) => {}
            Inline::Bold(children) => {
                out.push(RichFeature::Bold);
                inline_features(children, out);
            }
            Inline::Italic(children) => {
                out.push(RichFeature::Italic);
                inline_features(children, out);
            }
            Inline::Underline(children) => {
                out.push(RichFeature::Underline);
                inline_features(children, out);
            }
            Inline::Strikethrough(children) => {
                out.push(RichFeature::Strikethrough);
                inline_features(children, out);
            }
            Inline::Link { label, .. } => {
                out.push(RichFeature::Hyperlink);
                inline_features(label, out);
            }
        }
    }
}

fn unsupported_features(
    capabilities: &BackendCapabilities,
    document: &RichDocument,
) -> Vec<RichFeature> {
    let mut used = Vec::new();
    for block in &document.blocks {
        match block {
            Block::Paragraph(items) => inline_features(items, &mut used),
            Block::Heading1(items) => {
                used.push(RichFeature::Heading1);
                inline_features(items, &mut used);
            }
            Block::Heading2(items) => {
                used.push(RichFeature::Heading2);
                inline_features(items, &mut used);
            }
            Block::Heading3(items) => {
                used.push(RichFeature::Heading3);
                inline_features(items, &mut used);
            }
            Block::Quote(items) => {
                used.push(RichFeature::Quote);
                inline_features(items, &mut used);
            }
            Block::BulletList(items) => {
                used.push(RichFeature::BulletList);
                items.iter().for_each(|item| inline_features(&item.content, &mut used));
            }
            Block::NumberedList(items) => {
                used.push(RichFeature::NumberedList);
                items.iter().for_each(|item| inline_features(&item.content, &mut used));
            }
            Block::CodeBlock(_) => used.push(RichFeature::Code),
        }
    }
    let mixed = document.blocks.windows(2).any(|pair| {
        matches!(
            pair,
            [Block::BulletList(_), Block::NumberedList(_)]
                | [Block::NumberedList(_), Block::BulletList(_)]
        )
    });
    if mixed {
        used.push(RichFeature::MixedAdjacentListTypes);
    }
    let mut missing: Vec<RichFeature> = Vec::new();
    for feature in used {
        if !capabilities.supports(feature) && !missing.contains(&feature) {
            missing.push(feature);
        }
    }
    missing
}

fn feature_name(feature: RichFeature) -> &'static str {
    match feature {
        RichFeature::Bold => "bold",
        RichFeature::Italic => "italic",
        RichFeature::Underline => "underline",
        RichFeature::Strikethrough => "strikethrough",
        RichFeature::Hyperlink => "hyperlink",
        RichFeature::Heading1 => "heading 1",
        RichFeature::Heading2 => "heading 2",
        RichFeature::Heading3 => "heading 3",
        RichFeature::BulletList => "bullet list",
        RichFeature::NumberedList => "numbered list",
        RichFeature::Quote => "quote",
        RichFeature::Code => "code",
        RichFeature::MixedAdjacentListTypes => "adjacent mixed list types",
    }
}

// ---------------------------------------------------------------------------
// Notes
// ---------------------------------------------------------------------------

fn backend_error(message: &str) -> NotesError {
    NotesError { cancelled: false, message: message.into() }
}

fn editability(
    summary: &NoteSummary,
    body: &Result<RichDocument, String>,
    attachments: &[AttachmentSummary],
) -> Editability {
    if summary.password_protected || summary.attachment_count > 0 || !attachments.is_empty() {
        return Editability::ReadOnlyUnsupported { reasons: vec!["attachments".into()] };
    }
    match body {
        Err(reason) => Editability::ReadOnlyUnsupported { reasons: vec![reason.clone()] },
        Ok(document)
            if document.blocks.iter().all(|block| {
                matches!(block, Block::Paragraph(items)
                    if items.iter().all(|item| matches!(item, Inline::Text(_))))
            }) =>
        {
            Editability::PlainText
        }
        Ok(_) => Editability::RichTextSupported,
    }
}

fn full_note(
    summary: NoteSummary,
    account_id: AccountId,
    body_html: &str,
    plaintext: &str,
    attachments: Vec<AttachmentSummary>,
) -> Arc<Note> {
    let body = parse_notes_html(body_html);
    let editability = editability(&summary, &body, &attachments);
    Arc::new(Note {
        summary,
        account_id,
        body_html: body_html.into(),
        plaintext: plaintext.into(),
        body,
        editability,
        attachments,
    })
}

fn with_summary(note: &Note, summary: NoteSummary) -> Arc<Note> {
    full_note(
        summary,
        note.account_id.clone(),
        &note.body_html,
        &note.plaintext,
        note.attachments.clone(),
    )
}

fn with_date(note: &Note, date: &str) -> Arc<Note> {
    let mut summary = note.summary.clone();
    summary.modification_date = NoteDate::new(date);
    with_summary(note, summary)
}

fn with_body(note: &Note, html: &str, plaintext: &str) -> Arc<Note> {
    full_note(
        note.summary.clone(),
        note.account_id.clone(),
        html,
        plaintext,
        note.attachments.clone(),
    )
}

fn note_in(
    account_id: &AccountId,
    id: &str,
    folder_id: &str,
    name: &str,
    plaintext: &str,
) -> Arc<Note> {
    let summary = NoteSummary {
        id: NoteId::new(id),
        folder_id: FolderId::new(folder_id),
        name: name.into(),
        creation_date: NoteDate::new("Synthetic demo date"),
        modification_date: NoteDate::new("Synthetic demo date"),
        password_protected: false,
        shared: false,
        attachment_count: 0,
    };
    full_note(summary, account_id.clone(), &format!("<div>{plaintext}</div>"), plaintext, vec![])
}

fn demo_note(id: &str, folder_id: &str, name: &str, plaintext: &str) -> Arc<Note> {
    note_in(&AccountId::new("demo-account"), id, folder_id, name, plaintext)
}

fn access(problem: Option<&str>) -> (AttachmentAccessStatus, String) {
    match problem {
        None => (AttachmentAccessStatus::Available, "available".into()),
        Some(text) => (
            AttachmentAccessStatus::Unavailable(AttachmentUnavailableReason { text: text.into() }),
            format!("unavailable: {text}"),
        ),
    }
}

fn stored_note(note: &DemoNote) -> Arc<Note> {
    let attachments = note
        .attachments
        .iter()
        .map(|attachment| {
            let name = attachment.display_name.as_str();
            let (kind, problem) = if name.ends_with(".png") {
                ("image", None)
            } else if name.ends_with(".pdf") {
                ("PDF", None)
            } else {
                ("unknown", Some("unsupported attachment kind"))
            };
            let problem = if attachment.locked { Some("note is locked") } else { problem };
            let (preview_status, preview_label) = access(problem);
            let (export_status, export_label) = access(problem);
            AttachmentSummary {
                id: attachment.id.clone(),
                note_id: attachment.note_id.clone(),
                display_name: attachment.display_name.clone(),
                content_identifier: Some(attachment.content_identifier.clone()),
                source_url: None,
                kind_label: kind.into(),
                preview_status,
                preview_label,
                export_status,
                export_label,
            }
        })
        .collect();
    let summary = NoteSummary {
        id: note.id.clone(),
        folder_id: note.folder_id.clone(),
        name: note.name.clone(),
        creation_date: note.date.clone(),
        modification_date: note.date.clone(),
        password_protected: note.locked,
        shared: false,
        attachment_count: note.attachment_count,
    };
    full_note(summary, note.account_id.clone(), &note.body_html, &note.plaintext, attachments)
}

fn folder_query(folder_id: &str) -> NotesQuery {
    NotesQuery { account_id: None, folder_id: Some(FolderId::new(folder_id)) }
}

// ---------------------------------------------------------------------------
// The notes service
// ---------------------------------------------------------------------------

trait NotesBackend {
    fn capabilities(&self) -> BackendCapabilities;
    fn accounts(&self) -> Result<Vec<Account>, NotesError>;
    fn folders(&self, account: Option<&AccountId>) -> Result<Vec<Folder>, NotesError>;
    fn notes(&self, query: &NotesQuery) -> Result<NotesPage, NotesError>;
    fn get_note(&self, id: &NoteId) -> Result<Arc<Note>, NotesError>;
    fn call(&self, call: &ServiceCall) -> ServiceReply;
}

struct World {
    accounts: Vec<Account>,
    folders: Vec<Folder>,
    notes: Vec<Arc<Note>>,
    changes: usize,
}

/// A notes service that keeps its notes in memory.
struct MockNotesBackend(RefCell<World>);

impl MockNotesBackend {
    fn new(
        accounts: Vec<Account>,
        folders: Vec<Folder>,
        notes: HashMap<NoteId, Arc<Note>>,
    ) -> Self {
        let notes = notes.into_values().collect();
        MockNotesBackend(RefCell::new(World { accounts, folders, notes, changes: 0 }))
    }

    fn put_note(&self, note: Arc<Note>) -> ServiceReply {
        let mut world = self.0.borrow_mut();
        world.notes.retain(|other| other.summary.id != note.summary.id);
        world.notes.push(note.clone());
        ServiceReply::Note(Ok(note))
    }

    fn next_change(&self) -> usize {
        let mut world = self.0.borrow_mut();
        world.changes += 1;
        world.changes
    }

    fn new_folder(&self, account_id: &AccountId, name: &str, parent: FolderParent) -> ServiceReply {
        let folder = Folder {
            id: FolderId::new(&format!("mock-folder-{}", self.next_change())),
            account_id: account_id.clone(),
            name: name.into(),
            parent,
            shared: false,
        };
        self.0.borrow_mut().folders.push(folder.clone());
        ServiceReply::Folder(Ok(folder))
    }

    fn change_folder(&self, id: &FolderId, change: impl FnOnce(&mut Folder)) -> ServiceReply {
        let mut world = self.0.borrow_mut();
        match world.folders.iter_mut().find(|folder| folder.id == *id) {
            Some(folder) => {
                change(folder);
                ServiceReply::Folder(Ok(folder.clone()))
            }
            None => ServiceReply::Folder(Err(backend_error("folder not found"))),
        }
    }

    fn write_note(&self, id: &NoteId, name: &str, document: &RichDocument) -> ServiceReply {
        let old = match self.get_note(id) {
            Ok(note) => note,
            Err(error) => return ServiceReply::Note(Err(error)),
        };
        let mut summary = old.summary.clone();
        summary.name = name.into();
        summary.modification_date = NoteDate::new(&format!("mock date {}", self.next_change()));
        self.put_note(full_note(
            summary,
            old.account_id.clone(),
            &serialize_notes_html(document),
            &document_plain(document),
            vec![],
        ))
    }

    fn create_note(
        &self,
        folder_id: &FolderId,
        name: &str,
        document: &RichDocument,
    ) -> ServiceReply {
        let account_id = self
            .0
            .borrow()
            .folders
            .iter()
            .find(|folder| folder.id == *folder_id)
            .map(|folder| folder.account_id.clone());
        let Some(account_id) = account_id else {
            return ServiceReply::Note(Err(backend_error("folder not found")));
        };
        let id = format!("mock-note-{}", self.next_change());
        let empty = note_in(&account_id, &id, folder_id.as_str(), name, "");
        self.put_note(with_body(
            &empty,
            &serialize_notes_html(document),
            &document_plain(document),
        ))
    }
}

impl NotesBackend for MockNotesBackend {
    fn capabilities(&self) -> BackendCapabilities {
        BackendCapabilities::all_supported()
    }

    fn accounts(&self) -> Result<Vec<Account>, NotesError> {
        Ok(self.0.borrow().accounts.clone())
    }

    fn folders(&self, account: Option<&AccountId>) -> Result<Vec<Folder>, NotesError> {
        let world = self.0.borrow();
        let folders = world.folders.iter();
        Ok(folders
            .filter(|folder| account.is_none_or(|id| folder.account_id == *id))
            .cloned()
            .collect())
    }

    fn notes(&self, query: &NotesQuery) -> Result<NotesPage, NotesError> {
        let world = self.0.borrow();
        let mut items: Vec<NoteSummary> = world
            .notes
            .iter()
            .filter(|note| query.account_id.as_ref().is_none_or(|id| note.account_id == *id))
            .map(|note| note.summary.clone())
            .filter(|note| query.folder_id.as_ref().is_none_or(|id| note.folder_id == *id))
            .collect();
        items.sort_by_key(|note| note.name.clone());
        let total = items.len();
        Ok(NotesPage { items, total })
    }

    fn get_note(&self, id: &NoteId) -> Result<Arc<Note>, NotesError> {
        let world = self.0.borrow();
        match world.notes.iter().find(|note| note.summary.id == *id) {
            Some(note) if note.summary.password_protected => {
                Err(backend_error("password-protected note"))
            }
            Some(note) => Ok(note.clone()),
            None => Err(backend_error("note not found")),
        }
    }

    fn call(&self, call: &ServiceCall) -> ServiceReply {
        match call {
            ServiceCall::GetNote(id) => ServiceReply::Note(self.get_note(id)),
            ServiceCall::CreateNote { folder_id, name, document } => {
                self.create_note(folder_id, name, document)
            }
            ServiceCall::UpdateNote { id, name, document, .. } => {
                self.write_note(id, name, document)
            }
            ServiceCall::MoveNote { id, destination_folder_id, .. } => match self.get_note(id) {
                Ok(note) => {
                    let mut summary = note.summary.clone();
                    summary.folder_id = destination_folder_id.clone();
                    self.put_note(with_summary(&note, summary))
                }
                Err(error) => ServiceReply::Note(Err(error)),
            },
            ServiceCall::DeleteNote { id, .. } => {
                self.0.borrow_mut().notes.retain(|note| note.summary.id != *id);
                ServiceReply::Done(Ok(()))
            }
            ServiceCall::CreateFolder { account_id, name } => self.new_folder(
                account_id,
                name,
                FolderParent::Account { account_id: account_id.clone() },
            ),
            ServiceCall::CreateChildFolder { account_id, parent_folder_id, name } => self
                .new_folder(
                    account_id,
                    name,
                    FolderParent::Folder { folder_id: parent_folder_id.clone() },
                ),
            ServiceCall::RenameFolder { folder_id, name, .. } => {
                self.change_folder(folder_id, |folder| folder.name = name.clone())
            }
            ServiceCall::ReparentFolder { account_id, folder_id, new_parent_folder_id } => self
                .change_folder(folder_id, |folder| {
                    folder.parent = match new_parent_folder_id {
                        Some(id) => FolderParent::Folder { folder_id: id.clone() },
                        None => FolderParent::Account { account_id: account_id.clone() },
                    }
                }),
            ServiceCall::DeleteFolder { account_id, folder_id } => {
                self.0.borrow_mut().folders.retain(|folder| folder.id != *folder_id);
                ServiceReply::FolderDeleted(Ok(DeletedFolder {
                    account_id: account_id.clone(),
                    folder_id: folder_id.clone(),
                }))
            }
            ServiceCall::PreviewAttachment { .. } => ServiceReply::Done(Ok(())),
            ServiceCall::ExportAttachment { note_id, attachment_id } => {
                ServiceReply::Exported(self.get_note(note_id).and_then(|note| {
                    note.attachments
                        .iter()
                        .find(|attachment| attachment.id == *attachment_id)
                        .map(|attachment| format!("/mock-export/{}", attachment.display_name))
                        .ok_or_else(|| backend_error("attachment not found"))
                }))
            }
        }
    }
}

fn demo_backend() -> MockNotesBackend {
    let demo = notes_tui::demo::demo_backend();
    let notes = demo.notes.iter().map(|note| (note.id.clone(), stored_note(note))).collect();
    MockNotesBackend::new(demo.accounts, demo.folders, notes)
}

#[derive(Clone, Default)]
struct MutationCounts {
    accounts: Counter,
    folders: Counter,
    notes: Counter,
    creates: Counter,
    updates: Counter,
    moves: Counter,
    gets: Counter,
    conflict_on_next_get: Switch,
    previews: Counter,
    exports: Counter,
    deletes: Counter,
    folders_created: Counter,
    child_folders_created: Counter,
    folders_renamed: Counter,
    folders_deleted: Counter,
    folders_reparented: Counter,
    folder_create_fails: Switch,
    folder_rename_fails: Switch,
    folder_delete_fails: Switch,
    folder_reparent_fails: Switch,
}

/// A notes service that counts what it is asked for, and fails where it is told to.
struct CountingBackend {
    inner: MockNotesBackend,
    capabilities: BackendCapabilities,
    counts: MutationCounts,
    create_fails: bool,
    update_fails: bool,
    move_fails: bool,
    delete_fails: bool,
}

impl NotesBackend for CountingBackend {
    fn capabilities(&self) -> BackendCapabilities {
        self.capabilities
    }

    fn accounts(&self) -> Result<Vec<Account>, NotesError> {
        self.counts.accounts.bump();
        self.inner.accounts()
    }

    fn folders(&self, account: Option<&AccountId>) -> Result<Vec<Folder>, NotesError> {
        self.counts.folders.bump();
        self.inner.folders(account)
    }

    fn notes(&self, query: &NotesQuery) -> Result<NotesPage, NotesError> {
        self.counts.notes.bump();
        self.inner.notes(query)
    }

    fn get_note(&self, id: &NoteId) -> Result<Arc<Note>, NotesError> {
        self.counts.gets.bump();
        let note = self.inner.get_note(id)?;
        if self.counts.conflict_on_next_get.take() {
            return Ok(with_date(&note, "synthetic remote conflict"));
        }
        Ok(note)
    }

    fn call(&self, call: &ServiceCall) -> ServiceReply {
        let counts = &self.counts;
        match call {
            ServiceCall::GetNote(id) => return ServiceReply::Note(self.get_note(id)),
            ServiceCall::CreateNote { .. } => {
                counts.creates.bump();
                if self.create_fails {
                    return ServiceReply::Note(Err(backend_error("synthetic create failure")));
                }
            }
            ServiceCall::UpdateNote { .. } => {
                counts.updates.bump();
                if self.update_fails {
                    return ServiceReply::Note(Err(backend_error("synthetic update failure")));
                }
            }
            ServiceCall::MoveNote { .. } => {
                counts.moves.bump();
                if self.move_fails {
                    return ServiceReply::Note(Err(backend_error("synthetic move failure")));
                }
            }
            ServiceCall::DeleteNote { .. } => {
                counts.deletes.bump();
                if self.delete_fails {
                    return ServiceReply::Done(Err(backend_error("synthetic delete failure")));
                }
            }
            ServiceCall::CreateFolder { .. } => {
                counts.folders_created.bump();
                if counts.folder_create_fails.take() {
                    let error = backend_error("synthetic folder create failure");
                    return ServiceReply::Folder(Err(error));
                }
            }
            ServiceCall::CreateChildFolder { .. } => {
                counts.child_folders_created.bump();
                if counts.folder_create_fails.take() {
                    let error = backend_error("synthetic child-folder create failure");
                    return ServiceReply::Folder(Err(error));
                }
            }
            ServiceCall::RenameFolder { .. } => {
                counts.folders_renamed.bump();
                if counts.folder_rename_fails.take() {
                    let error = backend_error("synthetic folder rename failure");
                    return ServiceReply::Folder(Err(error));
                }
            }
            ServiceCall::ReparentFolder { .. } => {
                counts.folders_reparented.bump();
                if counts.folder_reparent_fails.get() {
                    let error = backend_error("synthetic folder reparent failure");
                    return ServiceReply::Folder(Err(error));
                }
            }
            ServiceCall::DeleteFolder { .. } => {
                counts.folders_deleted.bump();
                if counts.folder_delete_fails.take() {
                    let error = backend_error("synthetic folder delete failure");
                    return ServiceReply::FolderDeleted(Err(error));
                }
            }
            ServiceCall::PreviewAttachment { .. } => counts.previews.bump(),
            ServiceCall::ExportAttachment { .. } => counts.exports.bump(),
        }
        self.inner.call(call)
    }
}

#[derive(Clone, Debug, Eq, PartialEq)]
enum BackendCall {
    Accounts,
    Folders(Option<AccountId>),
    Notes(NotesQuery),
    GetNote(NoteId),
}

struct ScriptedFoldersCall {
    expected: Option<AccountId>,
    outcome: Result<Vec<Folder>, NotesError>,
}

struct ScriptedNotesCall {
    expected: NotesQuery,
    outcome: Result<NotesPage, NotesError>,
}

struct ScriptedGetNoteCall {
    expected: NoteId,
    outcome: Result<Arc<Note>, NotesError>,
}

/// A notes service that answers each question as it was told to, in turn.
struct ScriptedNotesBackend {
    inner: MockNotesBackend,
    accounts: RefCell<VecDeque<Result<Vec<Account>, NotesError>>>,
    folders: RefCell<VecDeque<ScriptedFoldersCall>>,
    notes: RefCell<VecDeque<ScriptedNotesCall>>,
    get_notes: RefCell<VecDeque<ScriptedGetNoteCall>>,
    calls: Arc<Mutex<Vec<BackendCall>>>,
}

impl NotesBackend for ScriptedNotesBackend {
    fn capabilities(&self) -> BackendCapabilities {
        self.inner.capabilities()
    }

    fn accounts(&self) -> Result<Vec<Account>, NotesError> {
        self.calls.lock().unwrap().push(BackendCall::Accounts);
        self.accounts.borrow_mut().pop_front().expect("unexpected accounts call")
    }

    fn folders(&self, account: Option<&AccountId>) -> Result<Vec<Folder>, NotesError> {
        self.calls.lock().unwrap().push(BackendCall::Folders(account.cloned()));
        let entry = self.folders.borrow_mut().pop_front().expect("unexpected folders call");
        assert_eq!(entry.expected.as_ref(), account);
        entry.outcome
    }

    fn notes(&self, query: &NotesQuery) -> Result<NotesPage, NotesError> {
        self.calls.lock().unwrap().push(BackendCall::Notes(query.clone()));
        let entry = self.notes.borrow_mut().pop_front().expect("unexpected notes call");
        assert_eq!(entry.expected, *query);
        entry.outcome
    }

    fn get_note(&self, id: &NoteId) -> Result<Arc<Note>, NotesError> {
        self.calls.lock().unwrap().push(BackendCall::GetNote(id.clone()));
        let entry = self.get_notes.borrow_mut().pop_front().expect("unexpected get_note call");
        assert_eq!(entry.expected, *id);
        entry.outcome
    }

    fn call(&self, call: &ServiceCall) -> ServiceReply {
        self.inner.call(call)
    }
}

// ---------------------------------------------------------------------------
// The cache
// ---------------------------------------------------------------------------

#[derive(Clone, Copy, Debug, Eq, PartialEq)]
enum CacheFailurePoint {
    LoadBootstrap,
    ReplaceSnapshot,
    LoadNote,
    UpsertNote,
    RemoveNote,
}

struct FakeCacheState {
    bootstrap: CachedState,
    full_notes: HashMap<NoteId, Arc<Note>>,
    load_bootstrap_calls: usize,
    replace_snapshot_calls: usize,
    load_note_calls: usize,
    upsert_note_calls: usize,
    remove_note_calls: usize,
    load_note_ids: Vec<NoteId>,
    upsert_note_ids: Vec<NoteId>,
    removed_note_ids: Vec<NoteId>,
    replaced_snapshots: Vec<CachedState>,
    failure: Option<CacheFailurePoint>,
}

impl Default for FakeCacheState {
    fn default() -> Self {
        FakeCacheState {
            bootstrap: CachedState { accounts: vec![], folders: vec![], notes: vec![] },
            full_notes: HashMap::new(),
            load_bootstrap_calls: 0,
            replace_snapshot_calls: 0,
            load_note_calls: 0,
            upsert_note_calls: 0,
            remove_note_calls: 0,
            load_note_ids: vec![],
            upsert_note_ids: vec![],
            removed_note_ids: vec![],
            replaced_snapshots: vec![],
            failure: None,
        }
    }
}

struct FakeCache(Arc<Mutex<FakeCacheState>>);

impl FakeCache {
    fn new(state: FakeCacheState) -> (Self, Arc<Mutex<FakeCacheState>>) {
        let state = Arc::new(Mutex::new(state));
        (Self(state.clone()), state)
    }

    fn load_bootstrap(&self) -> Result<CachedState, String> {
        let mut s = self.0.lock().unwrap();
        s.load_bootstrap_calls += 1;
        if s.failure == Some(CacheFailurePoint::LoadBootstrap) {
            return Err("load bootstrap".into());
        }
        Ok(s.bootstrap.clone())
    }

    fn replace_snapshot(&self, snapshot: CachedState) -> Result<(), String> {
        let mut s = self.0.lock().unwrap();
        s.replace_snapshot_calls += 1;
        if s.failure == Some(CacheFailurePoint::ReplaceSnapshot) {
            return Err("replace snapshot".into());
        }
        s.replaced_snapshots.push(snapshot);
        Ok(())
    }

    fn load_note(&self, id: &NoteId) -> Result<Option<Arc<Note>>, String> {
        let mut s = self.0.lock().unwrap();
        s.load_note_calls += 1;
        s.load_note_ids.push(id.clone());
        if s.failure == Some(CacheFailurePoint::LoadNote) {
            return Err("load note".into());
        }
        Ok(s.full_notes.get(id).cloned())
    }

    fn upsert_note(&self, note: &Arc<Note>) -> Result<(), String> {
        let mut s = self.0.lock().unwrap();
        s.upsert_note_calls += 1;
        s.upsert_note_ids.push(note.summary.id.clone());
        if s.failure == Some(CacheFailurePoint::UpsertNote) {
            return Err("upsert note".into());
        }
        s.full_notes.insert(note.summary.id.clone(), note.clone());
        Ok(())
    }

    fn remove_note(&self, id: &NoteId) -> Result<(), String> {
        let mut s = self.0.lock().unwrap();
        s.remove_note_calls += 1;
        s.removed_note_ids.push(id.clone());
        if s.failure == Some(CacheFailurePoint::RemoveNote) {
            return Err("remove note".into());
        }
        s.full_notes.remove(id);
        Ok(())
    }
}

// ---------------------------------------------------------------------------
// The application and what is around it
// ---------------------------------------------------------------------------

/// The application, with everything that it asks for answered at once, and what it orders
/// in the background done at once and handed over when it is polled for.
struct App {
    core: Core,
    backend: Box<dyn NotesBackend>,
    cache: Option<Box<FakeCache>>,
    session_write_calls: usize,
    session_write_fails: bool,
    session: Option<String>,
    draft: Option<Arc<EditorRecoveryDraft>>,
    draft_write_calls: usize,
    draft_write_fails: bool,
    draft_removal_fails: bool,
    config: Option<String>,
    navigation_result: Option<NavigationWorkerResult>,
    update_result: Option<UpdateWorkerResult>,
    refresh_result: Option<WorkerRefreshResult>,
}

impl Deref for App {
    type Target = Core;

    fn deref(&self) -> &Core {
        &self.core
    }
}

impl DerefMut for App {
    fn deref_mut(&mut self) -> &mut Core {
        &mut self.core
    }
}

fn read_live(backend: &dyn NotesBackend, read: LiveRead) -> Result<LiveRefreshRead, ReadFailure> {
    let mut read = read;
    loop {
        let reply = match read.call() {
            ReadCall::Accounts => ReadReply::Accounts(backend.accounts()),
            ReadCall::Folders => ReadReply::Folders(backend.folders(None)),
            ReadCall::Notes(query) => ReadReply::Notes(backend.notes(&query)),
            ReadCall::Note(id) => ReadReply::Note(backend.get_note(&id)),
        };
        match read.answer(reply) {
            ReadStep::Again(next) => read = next,
            ReadStep::Done(result) => return result,
        }
    }
}

fn run_update(backend: &dyn NotesBackend, job: UpdateJob) -> UpdateWorkerResult {
    let mut job = job;
    loop {
        let reply = backend.call(&job.call());
        match job.answer(reply) {
            UpdateStep::Again(next) => job = next,
            UpdateStep::Done(result) => return result,
        }
    }
}

fn run_navigation(backend: &dyn NotesBackend, job: NavigationJob) -> NavigationWorkerResult {
    let generation = job.generation;
    match job.request {
        NavigationRequest::Preview(id) => {
            let result = backend.get_note(&id);
            NavigationWorkerResult::Preview { id, generation, result }
        }
        NavigationRequest::Folder(context) => {
            let result = backend.notes(&context.query());
            NavigationWorkerResult::Folder { context, generation, result }
        }
    }
}

fn run_refresh(backend: &dyn NotesBackend, job: RefreshJob) -> WorkerRefreshResult {
    let generation = job.generation;
    report_refresh(generation, read_live(backend, job.read))
}

fn describe(problem: &Problem) -> String {
    match problem {
        Problem::NothingToShow => "no accounts or folders".into(),
        Problem::UnsupportedRichContent { features } => {
            let names: Vec<&str> = features.iter().map(|feature| feature_name(*feature)).collect();
            format!("unsupported rich content: {}", names.join(", "))
        }
        Problem::ProtectedNote { id } => format!("password-protected note: {}", id.as_str()),
        Problem::AttachmentNotPreviewed { reason, .. } => {
            format!("cannot preview attachment: {}", reason.text)
        }
        Problem::AttachmentNotExported { reason, .. } => {
            format!("cannot export attachment: {}", reason.text)
        }
    }
}

impl App {
    fn around(core: Core, backend: Box<dyn NotesBackend>, cache: Option<Box<FakeCache>>) -> Self {
        App {
            core,
            backend,
            cache,
            session_write_calls: 0,
            session_write_fails: false,
            session: None,
            draft: None,
            draft_write_calls: 0,
            draft_write_fails: false,
            draft_removal_fails: false,
            config: None,
            navigation_result: None,
            update_result: None,
            refresh_result: None,
        }
    }

    fn new(backend: Box<dyn NotesBackend>) -> Self {
        App::around(Core::new(backend.capabilities()), backend, None)
    }

    fn with_config(backend: Box<dyn NotesBackend>, config: AppConfig) -> Self {
        App::around(Core::with_config(backend.capabilities(), config), backend, None)
    }

    fn with_cache(backend: Box<dyn NotesBackend>, cache: Box<FakeCache>) -> Self {
        App::around(Core::with_cache(backend.capabilities()), backend, Some(cache))
    }

    fn demo() -> Self {
        App::new(Box::new(demo_backend()))
    }

    fn backend(&self) -> &dyn NotesBackend {
        self.backend.as_ref()
    }

    fn saved_session(&self) -> Option<SessionState> {
        load_session(Ok(self.session.clone())).expect("a sound session")
    }

    fn saved_draft(&self) -> Option<EditorRecoveryDraft> {
        self.draft.as_deref().cloned()
    }

    fn write_session(&mut self) -> Result<(), String> {
        self.session_write_calls += 1;
        if self.session_write_fails {
            return Err("disk full".into());
        }
        let text = self.core.session_to_write().map(serialize_session);
        self.session = Some(text.expect("a session to write"));
        Ok(())
    }

    fn write_draft(&mut self) -> Result<(), String> {
        self.draft_write_calls += 1;
        if self.draft_write_fails {
            return Err("disk full".into());
        }
        self.draft = Some(self.core.draft_to_write().expect("a draft to write"));
        Ok(())
    }

    fn remove_draft(&mut self) -> Result<(), String> {
        if self.draft_removal_fails {
            return Err("disk error".into());
        }
        self.draft = None;
        Ok(())
    }

    fn edit_config(&mut self) -> Result<(), String> {
        let Some(Popup::Settings(settings)) = &self.core.popup else {
            panic!("settings are open while they are saved");
        };
        match edit_config_batch(Ok(self.config.clone()), &settings_edits(settings))? {
            ConfigPlan::Remove => self.config = None,
            ConfigPlan::Write(text) => self.config = Some(text),
        }
        Ok(())
    }

    fn perform(&mut self, effect: Effect) -> Reply {
        let cache = self.cache.as_ref();
        match effect {
            Effect::WriteSession => Reply::Done(self.write_session()),
            Effect::WriteDraft => Reply::Done(self.write_draft()),
            Effect::RemoveDraft => Reply::Done(self.remove_draft()),
            Effect::EditConfig => Reply::Done(self.edit_config()),
            Effect::LoadNote(id) => Reply::Cached(cache.map_or(Ok(None), |c| c.load_note(&id))),
            Effect::GetNote(id) => Reply::Note(self.backend.get_note(&id)),
            Effect::StoreNote(note) => {
                Reply::Done(cache.map_or(Ok(()), |c| c.upsert_note(&note)))
            }
            Effect::RemoveNote(id) => Reply::Done(cache.map_or(Ok(()), |c| c.remove_note(&id))),
            Effect::ReplaceSnapshot => {
                let snapshot = self.core.cached_state();
                Reply::Done(cache.map_or(Ok(()), |c| c.replace_snapshot(snapshot)))
            }
            Effect::LoadBootstrap => {
                Reply::Bootstrap(cache.map_or(Err("no cache".into()), |c| c.load_bootstrap()))
            }
            Effect::Notes(query) => Reply::Notes(self.backend.notes(&query)),
            Effect::Folders(account) => Reply::Folders(self.backend.folders(Some(&account))),
            Effect::ReadLive(read) => Reply::Live(read_live(self.backend.as_ref(), read)),
            Effect::Describe(problem) => Reply::Text(describe(&problem)),
            Effect::NameFeature(feature) => Reply::Text(feature_name(feature).into()),
            Effect::CheckDocument => {
                let edit = self.core.edit.as_ref().expect("a document to check");
                Reply::Features(unsupported_features(
                    &self.backend.capabilities(),
                    &edit.document.document,
                ))
            }
            Effect::CreateNote => {
                let edit = self.core.edit.as_ref().expect("a note to create");
                let call = ServiceCall::CreateNote {
                    folder_id: edit.folder_id.clone(),
                    name: edit.title_buffer.clone(),
                    document: edit.document.document.clone(),
                };
                match self.backend.call(&call) {
                    ServiceReply::Note(result) => Reply::Note(result),
                    _ => panic!("a note was asked for"),
                }
            }
        }
    }

    fn settle(&mut self, effect: Option<Effect>) {
        let mut effect = effect;
        loop {
            if let Some(asked) = effect {
                let reply = self.perform(asked);
                effect = self.core.resume(reply);
                continue;
            }
            match self.core.advance() {
                Progress::Idle => break,
                Progress::Continue => {}
                Progress::Ask(asked) => effect = Some(asked),
            }
        }
        for order in self.core.take_orders() {
            let backend = self.backend.as_ref();
            match order {
                Order::Navigate(job) => self.navigation_result = Some(run_navigation(backend, job)),
                Order::Update(job) => self.update_result = Some(run_update(backend, job)),
                Order::Refresh(job) => self.refresh_result = Some(run_refresh(backend, job)),
                Order::CancelRefresh => {
                    if let Some(
                        WorkerRefreshResult::Finished { generation, .. }
                        | WorkerRefreshResult::Panicked { generation }
                        | WorkerRefreshResult::Cancelled { generation },
                    ) = self.refresh_result
                    {
                        self.refresh_result = Some(WorkerRefreshResult::Cancelled { generation });
                    }
                }
            }
        }
    }

    fn refresh(&mut self) {
        self.core.refresh();
        self.settle(None);
    }

    fn bootstrap_cache(&mut self) {
        self.core.bootstrap_cache();
        self.settle(None);
    }

    fn load_cached_state(&mut self, state: CachedState) {
        self.core.load_cached_state(state);
        self.settle(None);
    }

    fn set_session_state(&mut self, _path: String, session: Option<SessionState>) {
        self.core.set_session_state(session);
    }

    fn set_refresh_interval(&mut self, interval: Duration) {
        self.core.set_refresh_interval(interval.as_secs());
    }

    fn interval(&self) -> Duration {
        Duration::from_secs(self.core.prefs.refresh_interval)
    }

    fn last_attempt(&self) -> Duration {
        let seconds = self.core.background.last_refresh_attempt / 1_000_000_000;
        let rest = self.core.background.last_refresh_attempt % 1_000_000_000;
        Duration::new(u64::try_from(seconds).unwrap(), u32::try_from(rest).unwrap())
    }

    fn handle_key(&mut self, key: KeyEvent) {
        let effect = self.core.handle_key(key);
        self.settle(effect);
    }

    fn handle_insert(&mut self, key: KeyEvent) {
        let effect = self.core.handle_insert(key);
        self.settle(effect);
    }

    fn handle_popup(&mut self, key: KeyEvent) {
        let effect = self.core.handle_popup(key);
        self.settle(effect);
    }

    fn insert_text(&mut self, text: &str) {
        self.core.edit.as_mut().expect("editor").insert_text(text).expect("a sound target");
    }

    fn save_edit(&mut self, overwrite: bool) {
        let effect = self.core.save_edit(overwrite);
        self.settle(effect);
    }

    fn begin_attachments(&mut self) {
        self.core.begin_attachments();
        self.settle(None);
    }

    fn move_selection(&mut self, delta: isize) {
        self.core.move_selection(delta < 0);
        self.settle(None);
    }

    fn finish_folder_renamed(&mut self, folder: Folder) {
        self.core.finish_folder_renamed(folder);
        self.settle(None);
    }

    fn load_selected_note(&mut self) {
        let effect = self.core.load_selected_note(true);
        self.settle(effect);
    }

    fn load_notes_for_selection(&mut self) {
        let effect = self.core.load_notes(true, false);
        self.settle(effect);
    }

    fn load_notes_for_browsing(&mut self) {
        let effect = self.core.load_notes(true, true);
        self.settle(effect);
    }

    fn queue_navigation_request(&mut self, request: NavigationRequest) {
        self.core.request(request);
        self.settle(None);
    }

    fn start_preview_worker(&mut self, id: NoteId) {
        self.queue_navigation_request(NavigationRequest::Preview(id));
    }

    fn persist_session_selection(&mut self) {
        let effect = self.core.persist_session_selection();
        self.settle(effect);
    }

    fn set_browsing_focus(&mut self, focus: Focus) {
        self.core.set_browsing_focus(focus);
        self.settle(None);
    }

    fn persist_editor_recovery_if_dirty(&mut self) {
        let effect = self.core.persist_editor_recovery_if_dirty();
        self.settle(effect);
    }

    fn start_initial_refresh(&mut self) {
        self.core.start_initial_refresh();
        self.settle(None);
    }

    fn start_manual_refresh(&mut self) {
        self.core.start_manual_refresh();
        self.settle(None);
    }

    fn start_refresh_worker(&mut self, now: Duration, origin: RefreshOrigin) {
        self.core.start_refresh_worker(now.as_nanos(), origin);
        self.settle(None);
    }

    fn periodic_refresh_at(&mut self, now: Duration) {
        self.core.periodic_refresh_at(now.as_nanos());
        self.settle(None);
    }

    fn poll(&mut self, arrivals: Arrivals) {
        self.core.poll_periodic_refresh(arrivals);
        self.settle(None);
    }

    fn poll_navigation_worker(&mut self) {
        let navigation = self.navigation_result.take().map(NavigationArrival::Result);
        self.poll(Arrivals { navigation, update: None, refresh: None });
    }

    fn poll_update_worker(&mut self) {
        let update = self.update_result.take();
        self.poll(Arrivals { navigation: None, update, refresh: None });
    }

    fn poll_periodic_refresh(&mut self) {
        let navigation = self.navigation_result.take().map(NavigationArrival::Result);
        let update = self.update_result.take();
        let refresh = self.refresh_result.take();
        self.poll(Arrivals { navigation, update, refresh });
    }
}

// ---------------------------------------------------------------------------
// What is shown
// ---------------------------------------------------------------------------

fn preview_string(lines: &[PreviewLine]) -> String {
    lines
        .iter()
        .map(|line| match line {
            PreviewLine::Plain(text) => format!("{text}\n"),
            PreviewLine::Spans(spans) => {
                let text: String = spans.iter().map(|span| span.content.as_str()).collect();
                format!("{text}\n")
            }
        })
        .collect()
}

/// Everything that a screen of the given size shows, piece by piece.
fn rendered(app: &App, width: u16, height: u16) -> String {
    if let Some(text) = too_small(width, height) {
        return text;
    }
    let mut shown = app.navigation_labels().join("\n");
    for (_, row) in app.note_rows() {
        shown.push_str(&row);
    }
    match (&app.edit, app.preview_pane()) {
        (Some(edit), _) => shown.push_str(&editor_text(edit)),
        (None, PreviewPane::Lines(lines)) => shown.push_str(&preview_string(&lines)),
        (None, PreviewPane::Text(text)) => shown.push_str(&text),
    }
    shown.push_str(&app.status_line());
    if let Some(popup) = &app.popup {
        shown.push_str(&app.popup_text(popup));
    }
    if app.shown.show_help {
        shown.push_str(&help_text());
    }
    shown
}

// ---------------------------------------------------------------------------
// Applications to test
// ---------------------------------------------------------------------------

fn counting_backend(capabilities: BackendCapabilities, counts: &MutationCounts) -> CountingBackend {
    CountingBackend {
        inner: demo_backend(),
        capabilities,
        counts: counts.clone(),
        create_fails: false,
        update_fails: false,
        move_fails: false,
        delete_fails: false,
    }
}

fn counting_app(capabilities: BackendCapabilities) -> (App, MutationCounts) {
    let counts = MutationCounts::default();
    let mut app = App::new(Box::new(counting_backend(capabilities, &counts)));
    app.refresh();
    (app, counts)
}

fn delete_selection_app(
    names: &[&str],
    selected_index: usize,
    delete_fails: bool,
) -> (App, MutationCounts) {
    let account = Account {
        id: AccountId::new("test-account"),
        name: "Test".into(),
        is_default: true,
        is_upgraded: true,
        default_folder_id: Some(FolderId::new("test-folder")),
    };
    let root = FolderParent::Account { account_id: account.id.clone() };
    let folder = Folder {
        id: FolderId::new("test-folder"),
        account_id: account.id.clone(),
        name: "Notes".into(),
        parent: root.clone(),
        shared: false,
    };
    let destination = Folder {
        id: FolderId::new("test-destination"),
        account_id: account.id.clone(),
        name: "Destination".into(),
        parent: root,
        shared: false,
    };
    let notes = names
        .iter()
        .map(|name| {
            let id = format!("test-{}", name.to_lowercase());
            let note = note_in(&account.id, &id, "test-folder", name, name);
            (note.summary.id.clone(), note)
        })
        .collect::<HashMap<_, _>>();
    let counts = MutationCounts::default();
    let backend = CountingBackend {
        inner: MockNotesBackend::new(vec![account], vec![folder, destination], notes),
        capabilities: BackendCapabilities::all_supported(),
        counts: counts.clone(),
        create_fails: false,
        update_fails: false,
        move_fails: false,
        delete_fails,
    };
    let mut app = App::new(Box::new(backend));
    app.refresh();
    app.shown.selected_note_index = selected_index;
    app.load_selected_note();
    (app, counts)
}

fn cache_app(
    backend: CountingBackend,
    failure: Option<CacheFailurePoint>,
) -> (App, MutationCounts, Arc<Mutex<FakeCacheState>>) {
    let counts = backend.counts.clone();
    let (cache, state) = FakeCache::new(FakeCacheState::default());
    let mut app = App::with_cache(Box::new(backend), Box::new(cache));
    app.refresh();
    *state.lock().unwrap() = FakeCacheState { failure, ..Default::default() };
    (app, counts, state)
}

fn create_cache_app(
    create_fails: bool,
    failure: Option<CacheFailurePoint>,
) -> (App, MutationCounts, Arc<Mutex<FakeCacheState>>) {
    let counts = MutationCounts::default();
    let mut backend = counting_backend(BackendCapabilities::all_supported(), &counts);
    backend.create_fails = create_fails;
    cache_app(backend, failure)
}

fn update_cache_app(
    update_fails: bool,
    failure: Option<CacheFailurePoint>,
) -> (App, MutationCounts, Arc<Mutex<FakeCacheState>>) {
    let counts = MutationCounts::default();
    let mut backend = counting_backend(BackendCapabilities::all_supported(), &counts);
    backend.update_fails = update_fails;
    cache_app(backend, failure)
}

fn move_cache_app(
    move_fails: bool,
    failure: Option<CacheFailurePoint>,
) -> (App, MutationCounts, Arc<Mutex<FakeCacheState>>) {
    let counts = MutationCounts::default();
    let mut backend = counting_backend(BackendCapabilities::all_supported(), &counts);
    backend.move_fails = move_fails;
    cache_app(backend, failure)
}

fn delete_cache_app(
    delete_fails: bool,
    failure: Option<CacheFailurePoint>,
) -> (App, MutationCounts, Arc<Mutex<FakeCacheState>>) {
    let counts = MutationCounts::default();
    let mut backend = counting_backend(BackendCapabilities::all_supported(), &counts);
    backend.delete_fails = delete_fails;
    cache_app(backend, failure)
}

fn blocking_mutation_cache_app(
    update_fails: bool,
) -> (App, MutationCounts, Arc<Mutex<FakeCacheState>>, Gate, Gate) {
    let (app, counts, state) = update_cache_app(update_fails, None);
    let (started, release) = gate();
    (app, counts, state, started, release)
}

fn save_new_note(app: &mut App, title: &str, body: &str) {
    app.handle_key(KeyEvent::plain(KeyCode::Char('n')));
    type_text(app, title);
    app.handle_key(KeyEvent::plain(KeyCode::Tab));
    type_text(app, body);
    app.handle_key(modified('s', Held::Control));
    poll_update_until_idle(app);
}

fn save_updated_note(app: &mut App, title_suffix: &str, body_suffix: &str) {
    app.handle_key(KeyEvent::plain(KeyCode::Char('e')));
    type_text(app, body_suffix);
    app.handle_key(KeyEvent::plain(KeyCode::Tab));
    type_text(app, title_suffix);
    app.handle_key(modified('s', Held::Control));
    poll_update_until_idle(app);
}

fn poll_update_until_idle(app: &mut App) {
    for _ in 0..100 {
        if !app.background.update_running {
            return;
        }
        app.poll_update_worker();
    }
    panic!("the change did not end");
}

fn save_conflict_overwrite(
    app: &mut App,
    counts: &MutationCounts,
    title_suffix: &str,
    body_suffix: &str,
) {
    app.handle_key(KeyEvent::plain(KeyCode::Char('e')));
    type_text(app, body_suffix);
    app.handle_key(KeyEvent::plain(KeyCode::Tab));
    type_text(app, title_suffix);
    counts.conflict_on_next_get.set(true);
    app.handle_key(modified('s', Held::Control));
    poll_update_until_idle(app);
    assert!(matches!(app.popup, Some(Popup::Conflict(_))));
    app.handle_key(KeyEvent::plain(KeyCode::Char('o')));
    poll_update_until_idle(app);
}

fn move_selected_note_to_next_folder(app: &mut App) {
    app.handle_key(KeyEvent::plain(KeyCode::Char('m')));
    assert!(matches!(app.popup, Some(Popup::Move { .. })));
    app.handle_key(KeyEvent::plain(KeyCode::Char('j')));
    app.handle_key(KeyEvent::plain(KeyCode::Enter));
    poll_update_until_idle(app);
}

fn periodic_app() -> (App, MutationCounts) {
    let (app, counts) = counting_app(BackendCapabilities::all_supported());
    for counter in [&counts.accounts, &counts.folders, &counts.notes, &counts.gets] {
        counter.set(0);
    }
    (app, counts)
}

fn blocking_periodic_app() -> (App, MutationCounts, Gate, Gate) {
    let (mut app, _) = counting_app(BackendCapabilities::all_supported());
    let counts = MutationCounts::default();
    app.backend =
        Box::new(counting_backend(BackendCapabilities::all_supported(), &counts));
    let (started, release) = gate();
    (app, counts, started, release)
}

fn periodic_due(app: &App) -> Duration {
    app.last_attempt() + app.interval()
}

fn poll_periodic_until_idle(app: &mut App) {
    for _ in 0..100 {
        app.poll_periodic_refresh();
        if matches!(app.background.periodic_refresh, PeriodicRefreshState::Idle) {
            return;
        }
    }
    panic!("the refresh did not end");
}

fn confirm_delete(app: &mut App) {
    app.handle_key(KeyEvent::plain(KeyCode::Char('D')));
    app.handle_key(KeyEvent::plain(KeyCode::Char('y')));
    poll_update_until_idle(app);
}

fn apply_search(app: &mut App, query: &str) {
    app.handle_key(KeyEvent::plain(KeyCode::Char('/')));
    type_text(app, query);
    app.handle_key(KeyEvent::plain(KeyCode::Enter));
}

fn visible_names(app: &App) -> Vec<String> {
    app.visible_note_ids()
        .iter()
        .filter_map(|id| app.data.notes.iter().find(|note| note.id == *id))
        .map(|note| note.name.clone())
        .collect()
}

/// What can be written through Apple events.
fn apple_events_capabilities() -> BackendCapabilities {
    let mut capabilities = BackendCapabilities::all_supported();
    capabilities.hyperlink = false;
    capabilities.quote = false;
    capabilities.heading3 = false;
    capabilities.mixed_adjacent_list_types = false;
    capabilities
}

fn begin_new_with_document(app: &mut App, document: RichDocument) {
    app.handle_key(KeyEvent::plain(KeyCode::Char('n')));
    let edit = app.edit.as_mut().expect("new editor");
    edit.field = EditField::Body;
    edit.document = EditorDocument::new(document);
    edit.current_target = edit.document.first_target();
    edit.dirty = true;
}

fn text_inline(value: &str) -> Vec<Inline> {
    vec![Inline::Text(value.into())]
}

fn list_item(value: &str) -> ListItem {
    ListItem { content: text_inline(value) }
}

fn temporary_session_path(name: &str) -> String {
    name.into()
}

#[test]
fn initial_refresh_selects_a_note() {
    let mut app = App::demo();
    app.refresh();
    app.shown.selected_navigation = app
        .data.navigation
        .iter()
        .position(|item| {
            matches!(item, NavigationItem::Folder { id, .. } if *id == FolderId::new("demo-notes"))
        })
        .expect("demo notes folder");
    app.load_notes_for_selection();
    assert_eq!(
        app.selected_folder_id(),
        Some(&FolderId::new("demo-notes"))
    );
    assert!(app.shown.selected_note.is_some());
}
#[test]
fn boundaries_do_not_escape_collections() {
    let mut app = App::demo();
    app.refresh();
    app.handle_key(KeyEvent::plain(KeyCode::Char('k')));
    assert_eq!(app.shown.selected_note_index, 0);
    app.shown.focus = Focus::Navigation;
    app.handle_key(KeyEvent::plain(KeyCode::Char('G')));
    assert_eq!(app.shown.selected_navigation, app.data.navigation.len() - 1);
}
#[test]
fn focus_cycles() {
    let mut app = App::demo();
    app.handle_key(KeyEvent::plain(KeyCode::Tab));
    assert_eq!(app.shown.focus, Focus::Notes);
    app.handle_key(KeyEvent::plain(KeyCode::BackTab));
    assert_eq!(app.shown.focus, Focus::Navigation);
}
#[test]
fn folder_selection_loads_its_notes_and_preview() {
    let mut app = App::demo();
    app.refresh();
    app.shown.focus = Focus::Navigation;
    app.handle_key(KeyEvent::plain(KeyCode::Char('j')));
    assert_eq!(
        app.shown.selected_note.as_ref().unwrap().summary.name,
        "Project ideas"
    );
}
#[test]
fn preview_scroll_and_help_are_stateful() {
    let mut app = App::demo();
    app.refresh();
    app.shown.focus = Focus::Preview;
    app.handle_key(KeyEvent::control(KeyCode::Char('d')));
    assert!(app.shown.preview_scroll > 0);
    app.handle_key(KeyEvent::plain(KeyCode::Char('?')));
    assert!(app.shown.show_help);
    app.handle_key(KeyEvent::plain(KeyCode::Esc));
    assert!(!app.shown.show_help);
}

#[test]
fn attachment_popup_opens_closes_navigates_and_previews_explicitly() {
    let (mut app, counts) = counting_app(demo_backend().capabilities());
    select_demo_note(&mut app, "demo-attachment");

    app.handle_key(KeyEvent::plain(KeyCode::Char('a')));
    assert!(matches!(
        app.popup,
        Some(Popup::Attachments { selected: 0 })
    ));
    assert_eq!(counts.previews.get(), 0);
    app.handle_key(KeyEvent::plain(KeyCode::Char('j')));
    assert!(matches!(
        app.popup,
        Some(Popup::Attachments { selected: 1 })
    ));
    app.handle_key(KeyEvent::plain(KeyCode::Char('k')));
    assert!(matches!(
        app.popup,
        Some(Popup::Attachments { selected: 0 })
    ));

    app.handle_key(KeyEvent::plain(KeyCode::Enter));
    poll_update_until_idle(&mut app);
    assert_eq!(counts.previews.get(), 1);
    assert!(app.status.text.contains("Opened Photo.png in Notes.app"));
    assert!(app.status.text.contains("close the preview"));
    assert!(matches!(
        app.popup,
        Some(Popup::Attachments { selected: 0 })
    ));

    app.handle_key(KeyEvent::plain(KeyCode::Esc));
    assert!(app.popup.is_none());
}

#[test]
fn unsupported_attachment_never_reaches_the_preview_backend() {
    let (mut app, counts) = counting_app(demo_backend().capabilities());
    select_demo_note(&mut app, "demo-attachment");
    app.handle_key(KeyEvent::plain(KeyCode::Char('a')));
    app.handle_key(KeyEvent::plain(KeyCode::Char('j')));
    app.handle_key(KeyEvent::plain(KeyCode::Char('j')));
    app.handle_key(KeyEvent::plain(KeyCode::Enter));

    assert_eq!(counts.previews.get(), 0);
    assert!(app.status.is_error);
    assert!(app.status.text.contains("unsupported attachment kind"));
    assert!(matches!(
        app.popup,
        Some(Popup::Attachments { selected: 2 })
    ));
}

#[test]
fn attachment_export_uses_the_injected_backend_and_never_launches_in_tests() {
    let (mut app, counts) = counting_app(demo_backend().capabilities());
    select_demo_note(&mut app, "demo-attachment");
    app.handle_key(KeyEvent::plain(KeyCode::Char('a')));
    app.handle_key(KeyEvent::plain(KeyCode::Char('j')));
    app.handle_key(KeyEvent::plain(KeyCode::Char('x')));
    poll_update_until_idle(&mut app);

    assert_eq!(counts.exports.get(), 1);
    assert_eq!(counts.previews.get(), 0);
    assert!(app.status.text.contains("/mock-export/Manual.pdf"));
    assert!(matches!(
        app.popup,
        Some(Popup::Attachments { selected: 1 })
    ));
}

#[test]
fn zero_and_locked_attachments_fail_safely_without_a_popup() {
    let (mut app, counts) = counting_app(demo_backend().capabilities());
    select_demo_note(&mut app, "demo-plain");
    app.handle_key(KeyEvent::plain(KeyCode::Char('a')));
    assert!(app.popup.is_none());
    assert!(app.status.text.contains("no attachments"));

    let locked = demo_backend()
        .notes(&folder_query("demo-notes"))
        .unwrap()
        .items
        .into_iter()
        .find(|note| note.id == NoteId::new("demo-locked-attachment"))
        .expect("locked demo summary");
    app.data.notes = vec![locked];
    app.shown.selected_note_index = 0;
    app.shown.selected_note = None;
    app.handle_key(KeyEvent::plain(KeyCode::Char('a')));

    assert!(app.popup.is_none());
    assert!(app.status.is_error);
    assert!(app.status.text.contains("password-protected note"));
    assert_eq!(counts.previews.get(), 0);
    assert_eq!(counts.exports.get(), 0);
}

#[test]
fn attachment_popup_renders_metadata_and_controls() {
    let mut app = App::demo();
    app.refresh();
    select_demo_note(&mut app, "demo-attachment");
    app.handle_key(KeyEvent::plain(KeyCode::Char('a')));
    let rendered = rendered(&app, 120, 40);
    assert!(rendered.contains("Attachments (3)"));
    assert!(rendered.contains("Photo.png"));
    assert!(rendered.contains("Enter preview"));
}
#[test]
fn rendering_smoke_tests() {
    let mut app = App::demo();
    app.refresh();
    assert!(rendered(&app, 120, 40).contains('A'));
    app.shown.show_help = true;
    assert!(rendered(&app, 120, 40).contains('H'));
}
#[test]
fn small_terminal_renders_fallback() {
    let app = App::demo();
    assert!(rendered(&app, 40, 10).contains('T'));
}

#[test]
fn editor_create_save_and_cancel_work_in_demo() {
    let mut app = App::demo();
    app.refresh();
    app.handle_key(KeyEvent::plain(KeyCode::Char('n')));
    assert_eq!(app.shown.mode, AppMode::Insert);
    app.handle_key(KeyEvent::plain(KeyCode::Char('X')));
    app.handle_key(KeyEvent::plain(KeyCode::Tab));
    app.handle_key(KeyEvent::plain(KeyCode::Char('b')));
    app.handle_key(KeyEvent::control(KeyCode::Char('s')));
    poll_update_until_idle(&mut app);
    assert_eq!(app.shown.mode, AppMode::Normal);
    assert!(app.data.notes.iter().any(|note| note.name == "X"));
    app.handle_key(KeyEvent::plain(KeyCode::Char('e')));
    app.handle_key(KeyEvent::control(KeyCode::Char('c')));
    assert!(app.edit.is_none());
}

#[test]
fn dirty_editor_prompts_before_quitting_and_conflict_popup_renders() {
    let mut app = App::demo();
    app.refresh();
    select_demo_note(&mut app, "demo-rich");
    app.handle_key(KeyEvent::plain(KeyCode::Char('e')));
    app.edit.as_mut().expect("editor").dirty = true;
    app.handle_key(KeyEvent::plain(KeyCode::Esc));
    app.handle_key(KeyEvent::plain(KeyCode::Char('q')));
    assert!(matches!(app.popup, Some(Popup::Discard { .. })));
    let remote = app.shown.selected_note.clone().unwrap();
    app.popup = Some(Popup::Conflict(remote));
    assert!(rendered(&app, 120, 40).contains('N'));
}

#[test]
fn rich_shortcuts_toggle_and_convert_blocks() {
    let mut app = App::demo();
    app.refresh();
    app.handle_key(KeyEvent::plain(KeyCode::Char('n')));
    app.edit.as_mut().expect("editor").field = EditField::Body;
    app.insert_text("text");
    app.handle_insert(KeyEvent::control(KeyCode::Char('b')));
    let html = serialize_notes_html(&app.edit.as_ref().expect("editor").document.document);
    assert!(html.contains("<b>text</b>"));
    app.handle_insert(KeyEvent::control(KeyCode::Char('b')));
    let html = serialize_notes_html(&app.edit.as_ref().expect("editor").document.document);
    assert!(!html.contains("<b>"));
    for (key, marker) in [('1', "<h1>"), ('2', "<h2>"), ('3', "<h3>")] {
        app.handle_insert(KeyEvent::alt(KeyCode::Char(key)));
        let html = serialize_notes_html(&app.edit.as_ref().expect("editor").document.document);
        assert!(html.contains(marker));
    }
}

#[test]
fn link_popup_applies_escaped_url_and_esc_cancels() {
    let mut app = App::demo();
    app.refresh();
    app.handle_key(KeyEvent::plain(KeyCode::Char('n')));
    app.edit.as_mut().expect("editor").field = EditField::Body;
    app.insert_text("link");
    app.handle_insert(KeyEvent::control(KeyCode::Char('k')));
    assert!(matches!(app.popup, Some(Popup::Link { .. })));
    app.handle_popup(KeyEvent::plain(KeyCode::Enter));
    let html = serialize_notes_html(&app.edit.as_ref().expect("editor").document.document);
    assert!(html.contains("href=\"https://\""));
}

#[test]
fn save_preflight_rejects_each_lossy_apple_events_feature_without_mutation() {
    let cases = [
        (
            "hyperlink",
            RichDocument {
                blocks: vec![Block::Paragraph(vec![
                    Inline::Link {
                        label: text_inline("link"),
                        href: "https://example.test".into(),
                    },
                ])],
            },
        ),
        (
            "quote",
            RichDocument {
                blocks: vec![Block::Quote(text_inline("quote"))],
            },
        ),
        (
            "heading 3",
            RichDocument {
                blocks: vec![Block::Heading3(text_inline("heading"))],
            },
        ),
        (
            "adjacent mixed list types",
            RichDocument {
                blocks: vec![
                    Block::BulletList(vec![list_item("bullet")]),
                    Block::NumberedList(vec![list_item("numbered")]),
                ],
            },
        ),
    ];

    for (expected_feature, document) in cases {
        let (mut app, counts) = counting_app(apple_events_capabilities());
        begin_new_with_document(&mut app, document);
        app.handle_key(modified('s', Held::Control));

        assert_eq!(
            counts.creates.get(),
            0,
            "{expected_feature}"
        );
        assert_eq!(
            counts.updates.get(),
            0,
            "{expected_feature}"
        );
        assert!(app.edit.is_some(), "{expected_feature}");
        assert!(app.status.is_error, "{expected_feature}");
        assert!(
            app.status.text.contains(expected_feature),
            "{}: {}",
            expected_feature,
            app.status.text
        );
    }
}

#[test]
fn unsupported_existing_note_cannot_be_saved_after_an_unrelated_edit() {
    let (mut app, counts) = counting_app(apple_events_capabilities());
    let note = app
        .backend()
        .get_note(&NoteId::new("demo-link"))
        .expect("existing link fixture");
    app.shown.selected_note = Some(note);
    app.handle_key(KeyEvent::plain(KeyCode::Char('e')));
    let edit = app.edit.as_mut().expect("editor");
    edit.field = EditField::Title;
    edit.cursor = edit.title_buffer.chars().count();
    type_text(&mut app, " unrelated");
    app.handle_key(modified('s', Held::Control));
    poll_update_until_idle(&mut app);

    assert_eq!(counts.creates.get(), 0);
    assert_eq!(counts.updates.get(), 0);
    assert!(app.edit.is_some());
    assert!(app.status.text.contains("hyperlink"));
}

#[test]
fn apple_events_keyboard_gating_blocks_only_lossy_editor_actions() {
    let (mut app, _counts) = counting_app(apple_events_capabilities());
    begin_new_with_document(
        &mut app,
        RichDocument {
            blocks: vec![Block::Paragraph(text_inline("text"))],
        },
    );

    app.handle_key(modified('k', Held::Control));
    assert!(app.popup.is_none());
    assert!(app.status.text.contains("hyperlink"));

    app.handle_key(modified('q', Held::Alt));
    assert!(matches!(
        app.edit.as_ref().unwrap().document.document.blocks[0],
        Block::Paragraph(_)
    ));
    assert!(app.status.text.contains("quote"));

    app.handle_key(modified('3', Held::Alt));
    assert!(matches!(
        app.edit.as_ref().unwrap().document.document.blocks[0],
        Block::Paragraph(_)
    ));
    assert!(app.status.text.contains("heading 3"));

    app.handle_key(modified('2', Held::Alt));
    assert!(matches!(
        app.edit.as_ref().unwrap().document.document.blocks[0],
        Block::Heading2(_)
    ));

    let edit = app.edit.as_mut().unwrap();
    edit.document = EditorDocument::new(RichDocument {
        blocks: vec![Block::BulletList(vec![
            list_item("one"),
            list_item("two"),
        ])],
    });
    edit.current_target = EditorTarget::ListItem {
        block_index: 0,
        item_index: 0,
    };
    let before = edit.document.document.clone();
    app.handle_key(modified('n', Held::Alt));
    assert_eq!(app.edit.as_ref().unwrap().document.document, before);
    assert!(app.status.text.contains("adjacent mixed list types"));
}

#[test]
fn mock_backend_still_saves_the_full_demo_rich_feature_set() {
    let capabilities = demo_backend().capabilities();
    let (mut app, counts) = counting_app(capabilities);
    let document = RichDocument {
        blocks: vec![
            Block::Heading1(text_inline("H1")),
            Block::Heading2(text_inline("H2")),
            Block::Heading3(text_inline("H3")),
            Block::Paragraph(vec![Inline::Link {
                label: text_inline("link"),
                href: "https://example.test".into(),
            }]),
            Block::Quote(text_inline("quote")),
            Block::BulletList(vec![list_item("bullet")]),
            Block::NumberedList(vec![list_item("numbered")]),
        ],
    };
    assert!(unsupported_features(&capabilities, &document).is_empty());
    begin_new_with_document(&mut app, document);
    app.handle_key(modified('s', Held::Control));
    poll_update_until_idle(&mut app);

    assert_eq!(counts.creates.get(), 1);
    assert_eq!(counts.updates.get(), 0);
    assert_eq!(app.shown.mode, AppMode::Normal);
}

#[test]
fn real_apple_events_backend_gates_shortcuts_and_preflights_without_osascript() {
    let counts = MutationCounts::default();
    let mut app =
        App::new(Box::new(counting_backend(apple_events_capabilities(), &counts)));
    let document = EditorDocument::new(RichDocument {
        blocks: vec![Block::Paragraph(text_inline("text"))],
    });
    app.edit = Some(EditSession {
        note_id: Some(NoteId::new("synthetic-safety-smoke")),
        folder_id: FolderId::new("synthetic-folder"),
        original_title: "Synthetic".into(),
        original_body_html: "<div>text</div>".into(),
        original_plaintext: "text".into(),
        base_modification_date: Some(NoteDate::new("synthetic-date")),
        title_buffer: "Synthetic".into(),
        current_target: document.first_target(),
        original: document.document.clone(),
        document,
        dirty: false,
        is_new: false,
        field: EditField::Body,
        cursor: 0,
        viewport: 0,
    });
    app.shown.mode = AppMode::Insert;

    for (key, expected) in [('k', "hyperlink"), ('q', "quote"), ('3', "heading 3")] {
        let modifiers = if key == 'k' {
            Held::Control
        } else {
            Held::Alt
        };
        app.handle_key(modified(key, modifiers));
        assert!(app.status.text.contains(expected));
        assert!(app.popup.is_none());
    }

    let edit = app.edit.as_mut().unwrap();
    edit.document = EditorDocument::new(RichDocument {
        blocks: vec![Block::Heading3(text_inline("unsafe"))],
    });
    edit.current_target = edit.document.first_target();
    edit.dirty = true;
    app.handle_key(modified('s', Held::Control));
    assert!(app.status.text.contains("heading 3"));
    assert!(app.edit.is_some());
}

#[test]
fn app_keyboard_is_unicode_safe_and_clamps_on_target_navigation() {
    let mut app = App::demo();
    app.refresh();
    app.handle_key(KeyEvent::plain(KeyCode::Char('n')));
    app.handle_key(KeyEvent::plain(KeyCode::Tab));
    type_text(&mut app, "A✅🍎日");
    app.handle_key(KeyEvent::plain(KeyCode::Left));
    app.handle_key(KeyEvent::plain(KeyCode::Backspace));
    app.handle_key(KeyEvent::plain(KeyCode::Delete));
    assert_eq!(current_body_text(&app), "A✅");

    app.handle_key(KeyEvent::plain(KeyCode::Enter));
    type_text(&mut app, "x");
    app.handle_key(modified('k', Held::Alt));
    app.handle_key(KeyEvent::plain(KeyCode::End));
    assert_eq!(app.edit.as_ref().expect("editor").cursor, 2);
    app.handle_key(modified('j', Held::Alt));
    assert_eq!(app.edit.as_ref().expect("editor").cursor, 1);

    assert!(rendered(&app, 120, 40).contains("A✅"));
}

#[test]
fn app_list_handlers_are_item_safe_and_enter_stays_in_the_list() {
    let mut app = App::demo();
    app.refresh();
    app.handle_key(KeyEvent::plain(KeyCode::Char('n')));
    app.handle_key(KeyEvent::plain(KeyCode::Tab));
    type_text(&mut app, "one");
    app.handle_key(modified('b', Held::Alt));
    app.handle_key(KeyEvent::plain(KeyCode::Enter));
    type_text(&mut app, "two");
    app.handle_key(modified('b', Held::Control));
    app.handle_key(KeyEvent::plain(KeyCode::Backspace));
    app.handle_key(KeyEvent::plain(KeyCode::Home));
    app.handle_key(KeyEvent::plain(KeyCode::Delete));

    let edit = app.edit.as_ref().expect("editor");
    assert_eq!(
        edit.current_target,
        EditorTarget::ListItem {
            block_index: 0,
            item_index: 1,
        }
    );
    assert!(matches!(
        &edit.document.document.blocks[0],
        Block::BulletList(items)
            if inline_plain(&items[0].content) == "one"
                && inline_plain(&items[1].content) == "w"
                && matches!(&items[1].content[..], [Inline::Bold(_)])
    ));
}

#[test]
fn link_popup_applies_to_its_captured_target() {
    let mut app = App::demo();
    app.refresh();
    app.handle_key(KeyEvent::plain(KeyCode::Char('n')));
    app.handle_key(KeyEvent::plain(KeyCode::Tab));
    type_text(&mut app, "first");
    app.handle_key(KeyEvent::plain(KeyCode::Enter));
    type_text(&mut app, "second");
    let captured = app.edit.as_ref().expect("editor").current_target;
    app.handle_key(modified('k', Held::Control));
    app.edit.as_mut().expect("editor").current_target = EditorTarget::Block { block_index: 0 };
    app.handle_key(KeyEvent::plain(KeyCode::Enter));

    let edit = app.edit.as_ref().expect("editor");
    assert_eq!(captured, EditorTarget::Block { block_index: 1 });
    assert!(matches!(
        &edit.document.document.blocks[0],
        Block::Paragraph(items)
            if !matches!(&items[..], [Inline::Link { .. }])
    ));
    assert!(matches!(
        &edit.document.document.blocks[1],
        Block::Paragraph(items)
            if matches!(&items[..], [Inline::Link { href, .. }] if href == "https://")
    ));
}

#[test]
fn app_structural_shortcuts_split_merge_remap_and_delete() {
    let mut app = App::demo();
    app.refresh();
    app.handle_key(KeyEvent::plain(KeyCode::Char('n')));
    app.handle_key(KeyEvent::plain(KeyCode::Tab));
    type_text(&mut app, "one");
    app.handle_key(modified('b', Held::Alt));
    app.handle_key(KeyEvent::plain(KeyCode::Enter));
    type_text(&mut app, "TWO");
    app.handle_key(KeyEvent::plain(KeyCode::Enter));
    type_text(&mut app, "three");
    app.handle_key(modified('k', Held::Alt));
    app.handle_key(modified('p', Held::Alt));

    let edit = app.edit.as_ref().expect("editor");
    assert_eq!(edit.current_target, EditorTarget::Block { block_index: 1 });
    assert!(matches!(
        edit.document.document.blocks.as_slice(),
        [
            Block::BulletList(_),
            Block::Paragraph(_),
            Block::BulletList(_)
        ]
    ));

    app.handle_key(modified('n', Held::Alt));
    app.handle_key(modified('b', Held::Alt));
    let edit = app.edit.as_ref().expect("editor");
    assert_eq!(
        edit.current_target,
        EditorTarget::ListItem {
            block_index: 0,
            item_index: 1,
        }
    );
    assert_eq!(edit.document.document.blocks.len(), 1);

    app.handle_key(modified('d', Held::Control));
    let edit = app.edit.as_ref().expect("editor");
    assert_eq!(
        edit.current_target,
        EditorTarget::ListItem {
            block_index: 0,
            item_index: 1,
        }
    );
    assert!(matches!(
        &edit.document.document.blocks[0],
        Block::BulletList(items)
            if items.len() == 2
                && inline_plain(&items[0].content) == "one"
                && inline_plain(&items[1].content) == "three"
    ));
}

#[test]
fn mixed_document_keyboard_workflow_survives_save_reopen_and_edit() {
    let mut app = App::demo();
    app.refresh();
    app.handle_key(KeyEvent::plain(KeyCode::Char('n')));
    type_text(&mut app, "Phase4 Demo Mixed");
    app.handle_key(KeyEvent::plain(KeyCode::Tab));

    type_text(&mut app, "Heading");
    app.handle_key(modified('1', Held::Alt));
    app.handle_key(KeyEvent::plain(KeyCode::Enter));
    type_text(&mut app, "Bold paragraph");
    app.handle_key(modified('b', Held::Control));
    app.handle_key(KeyEvent::plain(KeyCode::Enter));
    type_text(&mut app, "Italic paragraph");
    app.handle_key(modified('i', Held::Control));
    app.handle_key(KeyEvent::plain(KeyCode::Enter));
    type_text(&mut app, "Underlined paragraph");
    app.handle_key(modified('u', Held::Control));
    app.handle_key(KeyEvent::plain(KeyCode::Enter));
    type_text(&mut app, "Linked paragraph");
    app.handle_key(modified('k', Held::Control));
    app.handle_key(KeyEvent::plain(KeyCode::Enter));
    app.handle_key(KeyEvent::plain(KeyCode::Enter));
    type_text(&mut app, "Bullet one");
    app.handle_key(modified('b', Held::Alt));
    app.handle_key(KeyEvent::plain(KeyCode::Enter));
    type_text(&mut app, "Bullet two");
    app.handle_key(KeyEvent::plain(KeyCode::Enter));
    app.handle_key(modified('n', Held::Alt));
    type_text(&mut app, "Numbered one");
    app.handle_key(KeyEvent::plain(KeyCode::Enter));
    type_text(&mut app, "Numbered two");
    app.handle_key(KeyEvent::plain(KeyCode::Enter));
    app.handle_key(modified('q', Held::Alt));
    type_text(&mut app, "Quote");
    app.handle_key(KeyEvent::plain(KeyCode::Enter));
    type_text(&mut app, "Code");
    app.handle_key(modified('c', Held::Alt));

    let expected = app.edit.as_ref().expect("editor").document.document.clone();
    let serialized = serialize_notes_html(&expected);
    assert_eq!(parse_notes_html(&serialized).unwrap(), expected);
    assert_mixed_document(&expected);

    app.handle_key(modified('s', Held::Control));
    poll_update_until_idle(&mut app);
    assert_eq!(app.shown.mode, AppMode::Normal);
    app.handle_key(KeyEvent::plain(KeyCode::Char('e')));
    assert_eq!(
        app.edit.as_ref().expect("editor").document.document,
        expected
    );

    for _ in 0..5 {
        app.handle_key(modified('j', Held::Alt));
    }
    app.handle_key(KeyEvent::plain(KeyCode::End));
    type_text(&mut app, " X");
    app.handle_key(modified('s', Held::Control));
    app.handle_key(KeyEvent::plain(KeyCode::Char('e')));
    let reopened = &app.edit.as_ref().expect("editor").document.document;
    assert!(matches!(
        &reopened.blocks[5],
        Block::BulletList(items)
            if inline_plain(&items[0].content) == "Bullet one X"
                && inline_plain(&items[1].content) == "Bullet two"
    ));
    assert_mixed_document(reopened);
}

#[test]
fn conflict_cancel_reload_and_overwrite_preserve_the_editor_document() {
    let mut app = App::demo();
    app.refresh();
    select_demo_note(&mut app, "demo-rich");
    app.handle_key(KeyEvent::plain(KeyCode::Char('e')));
    type_text(&mut app, "Local ");
    let local = app.edit.as_ref().expect("editor").document.document.clone();
    let remote = app.shown.selected_note.clone().expect("remote");
    let remote = with_body(&remote, "<h1>Remote</h1>", "Remote");
    let remote = with_date(&remote, "Remote conflict date");

    app.popup = Some(Popup::Conflict(remote.clone()));
    app.handle_key(KeyEvent::plain(KeyCode::Char('c')));
    assert_eq!(app.edit.as_ref().expect("editor").document.document, local);

    app.popup = Some(Popup::Conflict(remote.clone()));
    app.handle_key(KeyEvent::plain(KeyCode::Char('r')));
    assert!(matches!(
        &app.edit.as_ref().expect("editor").document.document.blocks[0],
        Block::Heading1(items) if inline_plain(items) == "Remote"
    ));

    app.handle_key(KeyEvent::plain(KeyCode::End));
    type_text(&mut app, " local");
    let overwritten = app.edit.as_ref().expect("editor").document.document.clone();
    app.popup = Some(Popup::Conflict(remote));
    app.handle_key(KeyEvent::plain(KeyCode::Char('o')));
    poll_update_until_idle(&mut app);
    assert_eq!(
        parse_notes_html(&app.shown.selected_note.as_ref().expect("saved").body_html).unwrap(),
        overwritten
    );
}

#[test]
fn demo_has_editable_and_read_only_rich_fixtures() {
    let backend = demo_backend();
    for (id, expected) in [
        ("demo-plain", true),
        ("demo-rich", true),
        ("demo-bullet", true),
        ("demo-numbered", true),
        ("demo-link", true),
        ("demo-attachment", false),
        ("demo-table", false),
    ] {
        let note = backend.get_note(&NoteId::new(id)).expect("fixture");
        assert_eq!(
            !matches!(
                note.editability,
                Editability::ReadOnlyUnsupported { .. }
            ),
            expected,
            "{id}"
        );
    }
}

#[test]
fn notes_app_title_line_is_not_part_of_the_editable_body() {
    let document = editor_document_from_html(
        "Fixture title",
        "<div>Fixture title</div><div>Body paragraph</div>",
    )
    .expect("normalized Notes body");
    assert!(matches!(
        document.document.blocks.as_slice(),
        [Block::Paragraph(items)] if inline_plain(items) == "Body paragraph"
    ));
}

#[test]
fn notes_app_title_line_is_stripped_before_observed_h2_normalization() {
    let document = editor_document_from_html(
        "Phase41-Probe-H2-20260827",
        "<div>Phase41-Probe-H2-20260827</div>\n\
         <div><b><span style=\"font-size: 18px\">Probe H2</span></b></div>",
    )
    .expect("normalized Notes H2 body");
    assert!(matches!(
        document.document.blocks.as_slice(),
        [Block::Heading2(items)] if inline_plain(items) == "Probe H2"
    ));
}

fn modified(character: char, held: Held) -> KeyEvent {
    match held {
        Held::Control => KeyEvent::control(KeyCode::Char(character)),
        Held::Alt => KeyEvent::alt(KeyCode::Char(character)),
    }
}

fn type_text(app: &mut App, text: &str) {
    for character in text.chars() {
        app.handle_key(KeyEvent::plain(KeyCode::Char(character)));
    }
}

fn current_body_text(app: &App) -> String {
    let edit = app.edit.as_ref().expect("editor");
    edit.document.target_text(edit.current_target).unwrap()
}

fn select_demo_note(app: &mut App, id: &str) {
    app.shown.selected_note = Some(
        demo_backend()
            .get_note(&NoteId::new(id))
            .expect("demo note"),
    );
}

fn assert_mixed_document(document: &RichDocument) {
    assert_eq!(document.blocks.len(), 9);
    assert!(
        matches!(&document.blocks[0], Block::Heading1(items) if inline_plain(items) == "Heading")
    );
    assert!(
        matches!(&document.blocks[1], Block::Paragraph(items) if matches!(&items[..], [Inline::Bold(_)]))
    );
    assert!(
        matches!(&document.blocks[2], Block::Paragraph(items) if matches!(&items[..], [Inline::Italic(_)]))
    );
    assert!(
        matches!(&document.blocks[3], Block::Paragraph(items) if matches!(&items[..], [Inline::Underline(_)]))
    );
    assert!(
        matches!(&document.blocks[4], Block::Paragraph(items) if matches!(&items[..], [Inline::Link { .. }]))
    );
    assert!(
        matches!(&document.blocks[5], Block::BulletList(items) if items.len() == 2)
    );
    assert!(
        matches!(&document.blocks[6], Block::NumberedList(items) if items.len() == 2)
    );
    assert!(
        matches!(&document.blocks[7], Block::Quote(items) if inline_plain(items) == "Quote")
    );
    assert!(
        matches!(&document.blocks[8], Block::CodeBlock(text) if text == "Code")
    );
}

#[test]
fn create_folder_shortcut_validates_unicode_and_reconciles_by_stable_id() {
    let (mut app, counts) = counting_app(BackendCapabilities::all_supported());
    let account_id = app.selected_account_id().expect("selected account");
    app.handle_key(KeyEvent::plain(KeyCode::Char('N')));
    assert!(matches!(app.popup, Some(Popup::CreateFolder { .. })));
    app.handle_key(KeyEvent::plain(KeyCode::Enter));
    assert_eq!(counts.folders_created.get(), 0);
    assert!(app.status.text.contains("cannot be empty"));
    type_text(&mut app, "Проекты 🚀");
    app.handle_key(KeyEvent::plain(KeyCode::Enter));
    poll_update_until_idle(&mut app);
    assert_eq!(counts.folders_created.get(), 1);
    let selected = app.data.navigation[app.shown.selected_navigation].clone();
    let NavigationItem::Folder {
        id,
        account_id: actual_account,
        name,
        ..
    } = selected
    else {
        panic!("created folder should be selected");
    };
    assert_eq!(actual_account, account_id);
    assert_eq!(name, "Проекты 🚀");
    assert!(app.data.folders.iter().any(|folder| folder.id == id));
    assert!(matches!(app.search, SearchState::Inactive));
    assert!(app.status.text.contains("Created folder"));
}

#[test]
fn create_folder_runs_in_foreground_worker_without_speculative_insertion() {
    let (mut app, counts, cache, started, release) =
        blocking_mutation_cache_app(false);
    let before_folders = app.data.folders.clone();
    app.handle_key(KeyEvent::plain(KeyCode::Char('N')));
    type_text(&mut app, "Async folder");
    app.handle_key(KeyEvent::plain(KeyCode::Enter));
    started.recv().expect("folder worker started");
    assert_eq!(counts.folders_created.get(), 1);
    assert_eq!(app.data.folders, before_folders);
    assert!(app.background.update_running);
    release.send(()).expect("release folder worker");
    poll_update_until_idle(&mut app);
    assert!(app
        .data.folders
        .iter()
        .any(|folder| folder.name == "Async folder"));
    assert!(cache.lock().unwrap().replace_snapshot_calls >= 1);
}

#[test]
fn failed_create_folder_preserves_input_and_changes_no_authoritative_state() {
    let (mut app, counts) = counting_app(BackendCapabilities::all_supported());
    counts.folder_create_fails.set(true);
    let folders = app.data.folders.clone();
    let navigation = app.shown.selected_navigation;
    let note = app.shown.selected_note.clone();
    let search = app.search.clone();
    let source = app.shown.data_source.clone();
    let name = "Проекты 🚀 \"2026\"";
    app.handle_key(KeyEvent::plain(KeyCode::Char('N')));
    type_text(&mut app, name);
    app.handle_key(KeyEvent::plain(KeyCode::Enter));
    poll_update_until_idle(&mut app);
    assert_eq!(counts.folders_created.get(), 1);
    assert!(!app.background.update_running);
    assert_eq!(app.data.folders, folders);
    assert_eq!(app.shown.selected_navigation, navigation);
    assert_eq!(app.shown.selected_note, note);
    assert_eq!(app.search, search);
    assert_eq!(app.shown.data_source, source);
    assert!(
        matches!(&app.popup, Some(Popup::CreateFolder { name: actual, cursor, .. }) if actual == name && *cursor == name.chars().count())
    );
    assert!(app.status.is_error);
    app.handle_key(KeyEvent::plain(KeyCode::Enter));
    poll_update_until_idle(&mut app);
    assert_eq!(counts.folders_created.get(), 2);
    assert!(app.data.folders.iter().any(|folder| folder.name == name));
    assert!(app.popup.is_none());
}

#[test]
fn successful_create_folder_cache_failure_does_not_retry_or_rollback() {
    let (mut app, counts, cache) =
        create_cache_app(false, Some(CacheFailurePoint::ReplaceSnapshot));
    app.handle_key(KeyEvent::plain(KeyCode::Char('N')));
    type_text(&mut app, "Cache warning folder");
    app.handle_key(KeyEvent::plain(KeyCode::Enter));
    poll_update_until_idle(&mut app);
    assert_eq!(counts.folders_created.get(), 1);
    assert!(app.popup.is_none());
    assert!(app
        .data.folders
        .iter()
        .any(|folder| folder.name == "Cache warning folder"));
    assert!(matches!(app.shown.data_source, DataSourceState::Live));
    assert!(app.status.text.contains("cache warning"));
    assert!(cache.lock().unwrap().replace_snapshot_calls >= 1);
    app.poll_update_worker();
    assert_eq!(counts.folders_created.get(), 1);
}

#[test]
fn rename_folder_same_name_is_local_noop() {
    let (mut app, counts) = counting_app(BackendCapabilities::all_supported());
    let folders = app.data.folders.clone();
    let selected = app.shown.selected_navigation;
    let note = app.shown.selected_note.clone();
    app.handle_key(KeyEvent::plain(KeyCode::Char('R')));
    assert!(matches!(app.popup, Some(Popup::RenameFolder { .. })));
    app.handle_key(KeyEvent::plain(KeyCode::Enter));
    assert_eq!(counts.folders_renamed.get(), 0);
    assert!(app.popup.is_none());
    assert_eq!(app.data.folders, folders);
    assert_eq!(app.shown.selected_navigation, selected);
    assert_eq!(app.shown.selected_note, note);
    assert_eq!(app.status.text, "Folder name unchanged");
}

#[test]
fn rename_folder_rejects_empty_or_whitespace_without_backend_call() {
    let (mut app, counts) = counting_app(BackendCapabilities::all_supported());
    let folders = app.data.folders.clone();
    let selected = app.shown.selected_navigation;
    for replacement in ["", "   "] {
        app.handle_key(KeyEvent::plain(KeyCode::Char('R')));
        let original_len = match &app.popup {
            Some(Popup::RenameFolder { name, .. }) => name.chars().count(),
            _ => panic!("rename popup"),
        };
        for _ in 0..original_len {
            app.handle_key(KeyEvent::plain(KeyCode::Backspace));
        }
        type_text(&mut app, replacement);
        app.handle_key(KeyEvent::plain(KeyCode::Enter));
        assert_eq!(counts.folders_renamed.get(), 0);
        assert!(matches!(app.popup, Some(Popup::RenameFolder { .. })));
        assert!(app.status.is_error);
        assert_eq!(app.data.folders, folders);
        assert_eq!(app.shown.selected_navigation, selected);
        app.handle_key(KeyEvent::plain(KeyCode::Esc));
    }
}

#[test]
fn failed_folder_rename_preserves_input_and_authoritative_state() {
    let (mut app, counts) = counting_app(BackendCapabilities::all_supported());
    let folder_id = app.selected_folder_id().cloned().expect("selected folder");
    let old_name = app
        .data.folders
        .iter()
        .find(|folder| folder.id == folder_id)
        .unwrap()
        .name
        .clone();
    let note = app.selected_note_id();
    let scroll = app.shown.preview_scroll;
    let source = app.shown.data_source.clone();
    let attempted = "Проекты 🚀 \"2027\"";
    counts.folder_rename_fails.set(true);
    app.handle_key(KeyEvent::plain(KeyCode::Char('R')));
    for _ in 0..old_name.chars().count() {
        app.handle_key(KeyEvent::plain(KeyCode::Backspace));
    }
    type_text(&mut app, attempted);
    app.handle_key(KeyEvent::plain(KeyCode::Enter));
    poll_update_until_idle(&mut app);
    assert_eq!(counts.folders_renamed.get(), 1);
    assert!(!app.background.update_running);
    assert_eq!(app.selected_folder_id(), Some(&folder_id));
    assert_eq!(app.selected_note_id(), note);
    assert_eq!(app.shown.preview_scroll, scroll);
    assert_eq!(app.shown.data_source, source);
    assert_eq!(
        app.data.folders
            .iter()
            .find(|folder| folder.id == folder_id)
            .unwrap()
            .name,
        old_name
    );
    assert!(
        matches!(&app.popup, Some(Popup::RenameFolder { folder_id: actual_id, name, cursor, .. }) if actual_id == &folder_id && name == attempted && *cursor == attempted.chars().count())
    );
    assert!(app.status.is_error);
    app.poll_update_worker();
    assert_eq!(counts.folders_renamed.get(), 1);
    app.handle_key(KeyEvent::plain(KeyCode::Enter));
    poll_update_until_idle(&mut app);
    assert_eq!(counts.folders_renamed.get(), 2);
    assert_eq!(
        app.data.folders
            .iter()
            .find(|folder| folder.id == folder_id)
            .unwrap()
            .name,
        attempted
    );
    assert!(app.popup.is_none());
}

#[test]
fn rename_folder_shortcut_is_gated_by_modal_and_worker_state() {
    let (mut app, _counts) = counting_app(BackendCapabilities::all_supported());
    let folder = match app.data.navigation[app.shown.selected_navigation].clone() {
        NavigationItem::Folder {
            id,
            account_id,
            name,
            ..
        } => (id, account_id, name),
        _ => panic!("selected folder"),
    };
    app.handle_key(KeyEvent::plain(KeyCode::Char('R')));
    assert!(
        matches!(&app.popup, Some(Popup::RenameFolder { account_id, folder_id, original_name, name, cursor }) if account_id == &folder.1 && folder_id == &folder.0 && original_name == &folder.2 && name == &folder.2 && *cursor == folder.2.chars().count())
    );
    app.handle_key(KeyEvent::plain(KeyCode::Char('R')));
    assert!(matches!(app.popup, Some(Popup::RenameFolder { .. })));
    app.popup = None;
    app.handle_key(KeyEvent::plain(KeyCode::Char('n')));
    app.handle_key(KeyEvent::plain(KeyCode::Char('R')));
    assert!(app.edit.is_some());
    assert!(app.popup.is_none());
}

#[test]
fn successful_folder_rename_reconciles_by_stable_id_and_preserves_context() {
    let (mut app, counts) = counting_app(BackendCapabilities::all_supported());
    let folder_id = app.selected_folder_id().cloned().expect("folder");
    let note_id = app.selected_note_id().expect("note");
    let query = app
        .data.notes
        .iter()
        .find(|note| note.id == note_id)
        .expect("summary")
        .name
        .clone();
    app.search = SearchState::Active(ActiveSearch {
        query: query.clone(),
        visible_ids: Vec::new(),
    });
    app.recompute_search();
    app.shown.focus = Focus::Notes;
    app.shown.preview_scroll = 7;
    let old_name = app
        .data.folders
        .iter()
        .find(|folder| folder.id == folder_id)
        .unwrap()
        .name
        .clone();
    app.handle_key(KeyEvent::plain(KeyCode::Char('R')));
    for _ in 0..old_name.chars().count() {
        app.handle_key(KeyEvent::plain(KeyCode::Backspace));
    }
    type_text(&mut app, "Projects Renamed 🚀");
    app.handle_key(KeyEvent::plain(KeyCode::Enter));
    poll_update_until_idle(&mut app);
    assert_eq!(counts.folders_renamed.get(), 1);
    assert_eq!(app.selected_folder_id(), Some(&folder_id));
    assert_eq!(app.selected_note_id(), Some(note_id));
    assert!(matches!(&app.search, SearchState::Active(active) if active.query == query));
    assert_eq!(app.shown.preview_scroll, 7);
    assert_eq!(app.shown.focus, Focus::Notes);
    assert!(app.popup.is_none());
    assert!(!app.background.update_running);
    assert_eq!(
        app.data.folders
            .iter()
            .find(|folder| folder.id == folder_id)
            .unwrap()
            .name,
        "Projects Renamed 🚀"
    );
}

#[test]
fn successful_folder_rename_cache_failure_does_not_retry_or_rollback() {
    let (mut app, counts, cache) =
        create_cache_app(false, Some(CacheFailurePoint::ReplaceSnapshot));
    let folder_id = app.selected_folder_id().cloned().expect("folder");
    let note_id = app.selected_note_id().expect("note");
    app.data.notes
        .iter_mut()
        .find(|note| note.id == note_id)
        .expect("selected summary")
        .name = "meeting context".into();
    app.search = SearchState::Active(ActiveSearch {
        query: "meeting".into(),
        visible_ids: Vec::new(),
    });
    app.recompute_search();
    app.shown.preview_scroll = 11;
    app.shown.focus = Focus::Notes;
    let old_name = app
        .data.folders
        .iter()
        .find(|folder| folder.id == folder_id)
        .expect("folder")
        .name
        .clone();
    app.handle_key(KeyEvent::plain(KeyCode::Char('R')));
    for _ in old_name.chars() {
        app.handle_key(KeyEvent::plain(KeyCode::Backspace));
    }
    type_text(&mut app, "Projects Renamed 🚀");
    app.handle_key(KeyEvent::plain(KeyCode::Enter));
    poll_update_until_idle(&mut app);

    assert_eq!(counts.folders_renamed.get(), 1);
    assert_eq!(app.selected_folder_id(), Some(&folder_id));
    assert_eq!(app.selected_note_id(), Some(note_id));
    assert!(matches!(&app.search, SearchState::Active(active) if active.query == "meeting"));
    assert_eq!(app.shown.preview_scroll, 11);
    assert_eq!(app.shown.focus, Focus::Notes);
    assert!(app.popup.is_none());
    assert!(!app.background.update_running);
    assert_eq!(
        app.data.folders
            .iter()
            .find(|folder| folder.id == folder_id)
            .expect("renamed folder")
            .name,
        "Projects Renamed 🚀"
    );
    assert!(matches!(app.shown.data_source, DataSourceState::Live));
    assert!(app
        .status
        .text
        .contains("Renamed folder to Projects Renamed 🚀"));
    assert!(app.status.text.contains("cache warning"));
    assert!(!app.status.text.contains("Failed to rename"));
    assert_eq!(cache.lock().unwrap().replace_snapshot_calls, 1);
    app.poll_update_worker();
    assert_eq!(counts.folders_renamed.get(), 1);
    assert!(app.popup.is_none());
}

fn create_empty_folder_for_delete(app: &mut App, name: &str) -> FolderId {
    app.shown.focus = Focus::Navigation;
    app.handle_key(KeyEvent::plain(KeyCode::Char('N')));
    type_text(app, name);
    app.handle_key(KeyEvent::plain(KeyCode::Enter));
    poll_update_until_idle(app);
    app.selected_folder_id()
        .cloned()
        .expect("created folder selected")
}

#[test]
fn create_child_folder_shortcut_opens_prefilled_parent_popup() {
    let (mut app, counts) = counting_app(BackendCapabilities::all_supported());
    app.shown.focus = Focus::Navigation;
    let parent_id = app.selected_folder_id().cloned().expect("parent");
    app.handle_key(KeyEvent::plain(KeyCode::Char('C')));
    assert!(
        matches!(&app.popup, Some(Popup::CreateChildFolder { parent_folder_id, name, cursor, .. }) if parent_folder_id == &parent_id && name.is_empty() && *cursor == 0)
    );
    assert_eq!(counts.child_folders_created.get(), 0);
}

#[test]
fn create_child_folder_rejects_empty_and_reconciles_authoritative_child_id() {
    let (mut app, counts) = counting_app(BackendCapabilities::all_supported());
    app.shown.focus = Focus::Navigation;
    let parent_id = app.selected_folder_id().cloned().expect("parent");
    app.handle_key(KeyEvent::plain(KeyCode::Char('C')));
    app.handle_key(KeyEvent::plain(KeyCode::Enter));
    assert_eq!(counts.child_folders_created.get(), 0);
    type_text(&mut app, "Проект 🚀 \"Child\"");
    app.handle_key(KeyEvent::plain(KeyCode::Enter));
    poll_update_until_idle(&mut app);
    assert_eq!(counts.child_folders_created.get(), 1);
    let child_id = app.selected_folder_id().cloned().expect("child selected");
    let child = app
        .data.folders
        .iter()
        .find(|folder| folder.id == child_id)
        .unwrap();
    assert_eq!(
        child.parent,
        FolderParent::Folder {
            folder_id: parent_id
        }
    );
    assert!(app.data.notes.is_empty());
    assert!(app.shown.selected_note.is_none());
    assert!(matches!(app.search, SearchState::Inactive));
    assert_eq!(app.shown.preview_scroll, 0);
    assert_eq!(app.shown.focus, Focus::Navigation);
}

#[test]
fn failed_child_folder_create_preserves_input_parent_and_runtime() {
    let (mut app, counts) = counting_app(BackendCapabilities::all_supported());
    app.shown.focus = Focus::Navigation;
    let parent_id = app.selected_folder_id().cloned().expect("parent");
    let folders = app.data.folders.clone();
    app.handle_key(KeyEvent::plain(KeyCode::Char('C')));
    type_text(&mut app, "Retry 🚀");
    counts.folder_create_fails.set(true);
    app.handle_key(KeyEvent::plain(KeyCode::Enter));
    poll_update_until_idle(&mut app);
    assert_eq!(counts.child_folders_created.get(), 1);
    assert_eq!(app.data.folders, folders);
    assert_eq!(app.selected_folder_id(), Some(&parent_id));
    assert!(
        matches!(&app.popup, Some(Popup::CreateChildFolder { parent_folder_id: actual, name, cursor, .. }) if actual == &parent_id && name == "Retry 🚀" && *cursor == name.chars().count())
    );
    app.poll_update_worker();
    assert_eq!(counts.child_folders_created.get(), 1);
}

#[test]
fn successful_child_folder_create_cache_failure_does_not_retry_or_rollback() {
    let (mut app, counts, cache) = create_cache_app(false, None);
    app.shown.focus = Focus::Navigation;
    let parent_id = app.selected_folder_id().cloned().expect("parent");
    cache.lock().unwrap().failure = Some(CacheFailurePoint::ReplaceSnapshot);
    app.handle_key(KeyEvent::plain(KeyCode::Char('C')));
    type_text(&mut app, "Cache child");
    app.handle_key(KeyEvent::plain(KeyCode::Enter));
    poll_update_until_idle(&mut app);
    assert_eq!(counts.child_folders_created.get(), 1);
    let child_id = app.selected_folder_id().cloned().expect("child");
    assert!(
        matches!(app.data.folders.iter().find(|folder| folder.id == child_id).map(|folder| &folder.parent), Some(FolderParent::Folder { folder_id }) if folder_id == &parent_id)
    );
    assert!(matches!(app.shown.data_source, DataSourceState::Live));
    assert!(app.status.text.contains("cache warning"));
    app.poll_update_worker();
    assert_eq!(counts.child_folders_created.get(), 1);
}

#[test]
fn create_child_folder_runs_in_foreground_worker_without_speculative_insertion() {
    let (mut app, counts, cache, started, release) =
        blocking_mutation_cache_app(false);
    app.shown.focus = Focus::Navigation;
    let parent_id = app.selected_folder_id().cloned().expect("parent selected");
    let account_id = app.selected_account_id().expect("parent account");
    let folders = app.data.folders.clone();
    let navigation = app.data.navigation.clone();
    let notes = app.data.notes.clone();
    let selected_note_id = app
        .shown.selected_note
        .as_ref()
        .map(|note| note.summary.id.clone());
    let search = app.search.clone();
    let preview_scroll = app.shown.preview_scroll;
    let session_writes = app.session_write_calls;

    app.handle_key(KeyEvent::plain(KeyCode::Char('C')));
    type_text(&mut app, "Проект 🚀 \"Child\"");
    app.handle_key(KeyEvent::plain(KeyCode::Enter));
    started.recv().expect("child-create worker entered backend");

    assert_eq!(counts.child_folders_created.get(), 1);
    assert!(app.background.update_running);
    assert_eq!(app.data.folders, folders);
    assert_eq!(app.data.navigation, navigation);
    assert_eq!(app.data.notes, notes);
    assert_eq!(app.selected_account_id(), Some(account_id));
    assert_eq!(app.selected_folder_id(), Some(&parent_id));
    assert_eq!(
        app.shown.selected_note
            .as_ref()
            .map(|note| note.summary.id.clone()),
        selected_note_id
    );
    assert_eq!(app.search, search);
    assert_eq!(app.shown.preview_scroll, preview_scroll);
    assert!(app.popup.is_none());
    assert_eq!(cache.lock().unwrap().replace_snapshot_calls, 0);
    assert_eq!(app.session_write_calls, session_writes);

    release.send(()).expect("release child-create worker");
    poll_update_until_idle(&mut app);

    let child_id = app.selected_folder_id().cloned().expect("child selected");
    let child = app
        .data.folders
        .iter()
        .find(|folder| folder.id == child_id)
        .expect("authoritative child in runtime");
    assert_eq!(
        child.parent,
        FolderParent::Folder {
            folder_id: parent_id
        }
    );
    assert!(!app.background.update_running);
    assert!(app.popup.is_none());
    assert!(matches!(app.search, SearchState::Inactive));
    assert!(app.shown.selected_note.is_none());
    assert_eq!(app.shown.preview_scroll, 0);
}

fn select_navigation_folder(app: &mut App, id: &FolderId) {
    app.shown.selected_navigation = app
        .data.navigation
        .iter()
        .position(
            |item| matches!(item, NavigationItem::Folder { id: actual, .. } if actual == id),
        )
        .expect("folder in navigation");
}

#[test]
fn reparent_folder_shortcut_opens_destination_popup() {
    let (mut app, _) = counting_app(BackendCapabilities::all_supported());
    app.shown.focus = Focus::Navigation;
    let source = app.selected_folder_id().cloned().expect("source");
    app.handle_key(KeyEvent::plain(KeyCode::Char('M')));
    assert!(matches!(
        &app.popup,
        Some(Popup::ReparentFolder { folder_id, destinations, selected_destination, .. })
            if folder_id == &source
                && matches!(destinations.first(), Some(FolderReparentTarget::AccountRoot))
                && *selected_destination == 0
    ));
}

#[test]
fn reparent_folder_destination_list_excludes_source_and_descendants() {
    let (mut app, _) = counting_app(BackendCapabilities::all_supported());
    app.shown.focus = Focus::Navigation;
    let source = app.selected_folder_id().cloned().expect("source");
    app.handle_key(KeyEvent::plain(KeyCode::Char('C')));
    type_text(&mut app, "Child");
    app.handle_key(KeyEvent::plain(KeyCode::Enter));
    poll_update_until_idle(&mut app);
    let child = app.selected_folder_id().cloned().expect("child");
    select_navigation_folder(&mut app, &source);
    app.handle_key(KeyEvent::plain(KeyCode::Char('M')));
    let Some(Popup::ReparentFolder { destinations, .. }) = &app.popup else {
        panic!("reparent popup");
    };
    assert!(!destinations.iter().any(|target| {
        matches!(target, FolderReparentTarget::Folder { folder_id, .. } if folder_id == &source || folder_id == &child)
    }));
}

#[test]
fn reparent_folder_same_parent_is_local_noop() {
    let (mut app, counts) = counting_app(BackendCapabilities::all_supported());
    app.shown.focus = Focus::Navigation;
    let folders = app.data.folders.clone();
    app.handle_key(KeyEvent::plain(KeyCode::Char('M')));
    app.handle_key(KeyEvent::plain(KeyCode::Enter));
    assert!(app.popup.is_none());
    assert_eq!(counts.folders_reparented.get(), 0);
    assert_eq!(app.data.folders, folders);
    assert_eq!(app.status.text, "Folder location unchanged");
}

#[test]
fn reparent_folder_runs_in_foreground_worker_without_speculative_hierarchy_change() {
    let (mut app, counts, cache, started, release) =
        blocking_mutation_cache_app(false);
    app.shown.focus = Focus::Navigation;
    let source = app.selected_folder_id().cloned().expect("source");
    let original_parent = app
        .data.folders
        .iter()
        .find(|folder| folder.id == source)
        .expect("source folder")
        .parent
        .clone();
    let navigation = app.data.navigation.clone();
    let selected_note = app
        .shown.selected_note
        .as_ref()
        .map(|note| note.summary.id.clone());
    let search = app.search.clone();
    let preview_scroll = app.shown.preview_scroll;
    let session_writes = app.session_write_calls;
    app.handle_key(KeyEvent::plain(KeyCode::Char('M')));
    app.handle_key(KeyEvent::plain(KeyCode::Down));
    app.handle_key(KeyEvent::plain(KeyCode::Enter));
    started.recv().expect("reparent worker entered backend");
    assert_eq!(counts.folders_reparented.get(), 1);
    assert!(app.background.update_running);
    assert_eq!(app.data.navigation, navigation);
    assert_eq!(app.selected_folder_id(), Some(&source));
    assert_eq!(
        app.shown.selected_note
            .as_ref()
            .map(|note| note.summary.id.clone()),
        selected_note
    );
    assert_eq!(app.search, search);
    assert_eq!(app.shown.preview_scroll, preview_scroll);
    assert_eq!(app.session_write_calls, session_writes);
    assert_eq!(cache.lock().unwrap().replace_snapshot_calls, 0);
    assert_eq!(
        app.data.folders
            .iter()
            .find(|folder| folder.id == source)
            .unwrap()
            .parent,
        original_parent
    );
    release.send(()).expect("release reparent worker");
    poll_update_until_idle(&mut app);
    assert!(!app.background.update_running);
    assert_eq!(app.selected_folder_id(), Some(&source));
}

#[test]
fn failed_folder_reparent_preserves_authoritative_state_and_destination() {
    let (mut app, counts) = counting_app(BackendCapabilities::all_supported());
    app.shown.focus = Focus::Navigation;
    let folders = app.data.folders.clone();
    let source = app.selected_folder_id().cloned().expect("source");
    app.handle_key(KeyEvent::plain(KeyCode::Char('M')));
    app.handle_key(KeyEvent::plain(KeyCode::Down));
    counts.folder_reparent_fails.set(true);
    app.handle_key(KeyEvent::plain(KeyCode::Enter));
    poll_update_until_idle(&mut app);
    assert_eq!(counts.folders_reparented.get(), 1);
    assert_eq!(app.data.folders, folders);
    assert_eq!(app.selected_folder_id(), Some(&source));
    assert!(matches!(
        app.popup,
        Some(Popup::ReparentFolder {
            selected_destination: 1,
            ..
        })
    ));
    app.poll_update_worker();
    assert_eq!(counts.folders_reparented.get(), 1);
}

#[test]
fn successful_folder_reparent_preserves_stable_id_and_context() {
    let (mut app, counts) = counting_app(BackendCapabilities::all_supported());
    app.shown.focus = Focus::Navigation;
    let source = app.selected_folder_id().cloned().expect("source");
    let note = app
        .shown.selected_note
        .as_ref()
        .map(|note| note.summary.id.clone());
    app.search = SearchState::Active(ActiveSearch {
        query: "Alpha".into(),
        visible_ids: app
            .data.notes
            .iter()
            .filter(|note| note.name.contains("Alpha"))
            .map(|note| note.id.clone())
            .collect(),
    });
    let search = app.search.clone();
    let preview_scroll: u16 = 3;
    app.shown.preview_scroll = preview_scroll;
    app.handle_key(KeyEvent::plain(KeyCode::Char('M')));
    app.handle_key(KeyEvent::plain(KeyCode::Down));
    app.handle_key(KeyEvent::plain(KeyCode::Enter));
    poll_update_until_idle(&mut app);
    assert_eq!(counts.folders_reparented.get(), 1);
    assert_eq!(app.selected_folder_id(), Some(&source));
    assert_eq!(
        app.shown.selected_note
            .as_ref()
            .map(|note| note.summary.id.clone()),
        note
    );
    assert_eq!(app.search, search);
    assert_eq!(app.shown.preview_scroll, preview_scroll);
    assert!(matches!(
        app.data.folders.iter().find(|folder| folder.id == source).map(|folder| &folder.parent),
        Some(FolderParent::Folder { folder_id }) if folder_id == &FolderId::new("demo-work")
    ));
}

#[test]
fn reparent_folder_to_account_root_uses_typed_root_target() {
    let (mut app, counts) = counting_app(BackendCapabilities::all_supported());
    app.shown.focus = Focus::Navigation;
    app.handle_key(KeyEvent::plain(KeyCode::Char('C')));
    type_text(&mut app, "Root me");
    app.handle_key(KeyEvent::plain(KeyCode::Enter));
    poll_update_until_idle(&mut app);
    let child = app.selected_folder_id().cloned().expect("child");
    app.handle_key(KeyEvent::plain(KeyCode::Char('M')));
    assert!(matches!(
        &app.popup,
        Some(Popup::ReparentFolder {
            selected_destination: 1,
            ..
        })
    ));
    app.handle_key(KeyEvent::plain(KeyCode::Char('k')));
    app.handle_key(KeyEvent::plain(KeyCode::Enter));
    poll_update_until_idle(&mut app);
    assert_eq!(counts.folders_reparented.get(), 1);
    assert!(matches!(
        app.data.folders
            .iter()
            .find(|folder| folder.id == child)
            .map(|folder| &folder.parent),
        Some(FolderParent::Account { .. })
    ));
}

#[test]
fn successful_folder_reparent_cache_failure_does_not_retry_or_rollback() {
    let (mut app, counts, cache) = create_cache_app(false, None);
    app.shown.focus = Focus::Navigation;
    let source = app.selected_folder_id().cloned().expect("source");
    cache.lock().unwrap().failure = Some(CacheFailurePoint::ReplaceSnapshot);
    app.handle_key(KeyEvent::plain(KeyCode::Char('M')));
    app.handle_key(KeyEvent::plain(KeyCode::Down));
    app.handle_key(KeyEvent::plain(KeyCode::Enter));
    poll_update_until_idle(&mut app);
    assert_eq!(counts.folders_reparented.get(), 1);
    assert!(matches!(app.shown.data_source, DataSourceState::Live));
    assert!(app.status.text.contains("Moved folder"));
    assert!(app.status.text.contains("cache warning"));
    assert!(matches!(
        app.data.folders.iter().find(|folder| folder.id == source).map(|folder| &folder.parent),
        Some(FolderParent::Folder { folder_id }) if folder_id == &FolderId::new("demo-work")
    ));
    app.poll_update_worker();
    assert_eq!(counts.folders_reparented.get(), 1);
}

#[test]
fn reparent_folder_with_duplicate_destination_names_uses_selected_folder_id() {
    let (mut app, counts) = counting_app(BackendCapabilities::all_supported());
    app.shown.focus = Focus::Navigation;
    app.handle_key(KeyEvent::plain(KeyCode::Char('N')));
    type_text(&mut app, "Archive");
    app.handle_key(KeyEvent::plain(KeyCode::Enter));
    poll_update_until_idle(&mut app);
    let first = app.selected_folder_id().cloned().expect("first archive");
    app.handle_key(KeyEvent::plain(KeyCode::Char('N')));
    type_text(&mut app, "Archive");
    app.handle_key(KeyEvent::plain(KeyCode::Enter));
    poll_update_until_idle(&mut app);
    let second = app.selected_folder_id().cloned().expect("second archive");
    assert_ne!(first, second);
    let source = FolderId::new("demo-notes");
    select_navigation_folder(&mut app, &source);
    app.handle_key(KeyEvent::plain(KeyCode::Char('M')));
    let destination = match &app.popup {
        Some(Popup::ReparentFolder { destinations, .. }) => destinations
            .iter()
            .position(|target| matches!(target, FolderReparentTarget::Folder { folder_id, .. } if folder_id == &second))
            .expect("second archive destination"),
        _ => panic!("reparent popup"),
    };
    for _ in 0..destination {
        app.handle_key(KeyEvent::plain(KeyCode::Down));
    }
    app.handle_key(KeyEvent::plain(KeyCode::Enter));
    poll_update_until_idle(&mut app);
    assert_eq!(counts.folders_reparented.get(), 1);
    assert!(matches!(
        app.data.folders.iter().find(|folder| folder.id == source).map(|folder| &folder.parent),
        Some(FolderParent::Folder { folder_id }) if folder_id == &second
    ));
}

#[test]
fn reparent_folder_preserves_descendant_branch_and_rebuilds_depths() {
    let (mut app, counts) = counting_app(BackendCapabilities::all_supported());
    app.shown.focus = Focus::Navigation;
    let source = app.selected_folder_id().cloned().expect("source");
    app.handle_key(KeyEvent::plain(KeyCode::Char('C')));
    type_text(&mut app, "Branch");
    app.handle_key(KeyEvent::plain(KeyCode::Enter));
    poll_update_until_idle(&mut app);
    let child = app.selected_folder_id().cloned().expect("child");
    app.handle_key(KeyEvent::plain(KeyCode::Char('C')));
    type_text(&mut app, "Leaf");
    app.handle_key(KeyEvent::plain(KeyCode::Enter));
    poll_update_until_idle(&mut app);
    let grandchild = app.selected_folder_id().cloned().expect("grandchild");
    select_navigation_folder(&mut app, &source);
    app.handle_key(KeyEvent::plain(KeyCode::Char('M')));
    app.handle_key(KeyEvent::plain(KeyCode::Down));
    app.handle_key(KeyEvent::plain(KeyCode::Enter));
    poll_update_until_idle(&mut app);
    assert_eq!(counts.folders_reparented.get(), 1);
    let depth =
        |id: &FolderId| match app.data.navigation.iter().find(
            |item| matches!(item, NavigationItem::Folder { id: actual, .. } if actual == id),
        ) {
            Some(NavigationItem::Folder { depth, .. }) => *depth,
            _ => panic!("folder is present in rebuilt navigation"),
        };
    assert_eq!(depth(&source), 1);
    assert_eq!(depth(&child), 2);
    assert_eq!(depth(&grandchild), 3);
}

#[test]
fn uppercase_folder_and_lowercase_note_shortcuts_do_not_cross_route() {
    let (mut app, _) = counting_app(BackendCapabilities::all_supported());
    app.shown.focus = Focus::Navigation;
    app.handle_key(KeyEvent::plain(KeyCode::Char('n')));
    assert!(app.edit.as_ref().is_some_and(|edit| edit.is_new));
    app.edit = None;
    app.shown.mode = AppMode::Normal;

    app.handle_key(KeyEvent::plain(KeyCode::Char('N')));
    assert!(matches!(app.popup, Some(Popup::CreateFolder { .. })));
    app.handle_key(KeyEvent::plain(KeyCode::Esc));
    app.handle_key(KeyEvent::plain(KeyCode::Char('C')));
    assert!(matches!(app.popup, Some(Popup::CreateChildFolder { .. })));
    app.handle_key(KeyEvent::plain(KeyCode::Esc));
    app.handle_key(KeyEvent::plain(KeyCode::Char('R')));
    assert!(matches!(app.popup, Some(Popup::RenameFolder { .. })));
    app.handle_key(KeyEvent::plain(KeyCode::Esc));

    app.handle_key(KeyEvent::plain(KeyCode::Char('m')));
    assert!(matches!(app.popup, Some(Popup::Move { .. })));
    app.handle_key(KeyEvent::plain(KeyCode::Esc));
    app.handle_key(KeyEvent::plain(KeyCode::Char('M')));
    assert!(matches!(app.popup, Some(Popup::ReparentFolder { .. })));
}

#[test]
fn editor_blocks_folder_shortcuts_without_starting_a_worker() {
    let (mut app, counts) = counting_app(BackendCapabilities::all_supported());
    app.handle_key(KeyEvent::plain(KeyCode::Char('n')));
    for key in ['N', 'C', 'R', 'D', 'M'] {
        app.handle_key(KeyEvent::plain(KeyCode::Char(key)));
        assert!(app.popup.is_none());
        assert!(!app.background.update_running);
    }
    assert_eq!(counts.folders_created.get(), 0);
    assert_eq!(counts.child_folders_created.get(), 0);
    assert_eq!(counts.folders_renamed.get(), 0);
    assert_eq!(counts.folders_deleted.get(), 0);
    assert_eq!(counts.folders_reparented.get(), 0);
}

#[test]
fn delete_folder_shortcut_opens_confirmation_for_selected_folder() {
    let (mut app, counts) = counting_app(BackendCapabilities::all_supported());
    let folder_id = create_empty_folder_for_delete(&mut app, "Delete me");
    app.handle_key(KeyEvent::plain(KeyCode::Char('D')));
    assert!(
        matches!(&app.popup, Some(Popup::DeleteFolder { folder_id: actual, folder_name, .. }) if actual == &folder_id && folder_name == "Delete me")
    );
    assert_eq!(counts.folders_deleted.get(), 0);
}

#[test]
fn delete_folder_confirmation_cancel_is_local_noop() {
    let (mut app, counts) = counting_app(BackendCapabilities::all_supported());
    let folder_id = create_empty_folder_for_delete(&mut app, "Keep me");
    let folders = app.data.folders.clone();
    app.handle_key(KeyEvent::plain(KeyCode::Char('D')));
    app.handle_key(KeyEvent::plain(KeyCode::Char('n')));
    assert!(app.popup.is_none());
    assert_eq!(counts.folders_deleted.get(), 0);
    assert_eq!(app.selected_folder_id(), Some(&folder_id));
    assert_eq!(app.data.folders, folders);
}

#[test]
fn successful_folder_delete_removes_exact_stable_id_and_selects_next_context() {
    let (mut app, counts) = counting_app(BackendCapabilities::all_supported());
    let first = create_empty_folder_for_delete(&mut app, "Archive");
    let second = create_empty_folder_for_delete(&mut app, "Archive");
    app.handle_key(KeyEvent::plain(KeyCode::Char('D')));
    app.handle_key(KeyEvent::plain(KeyCode::Char('y')));
    poll_update_until_idle(&mut app);
    assert_eq!(counts.folders_deleted.get(), 1);
    assert!(app.data.folders.iter().any(|folder| folder.id == first));
    assert!(!app.data.folders.iter().any(|folder| folder.id == second));
    assert_ne!(app.selected_folder_id(), Some(&second));
    assert!(matches!(app.search, SearchState::Inactive));
    assert_eq!(app.shown.preview_scroll, 0);
}

#[test]
fn failed_folder_delete_preserves_authoritative_state() {
    let (mut app, counts) = counting_app(BackendCapabilities::all_supported());
    let folder_id = create_empty_folder_for_delete(&mut app, "Cannot delete");
    let folders = app.data.folders.clone();
    counts.folder_delete_fails.set(true);
    app.handle_key(KeyEvent::plain(KeyCode::Char('D')));
    app.handle_key(KeyEvent::plain(KeyCode::Char('y')));
    poll_update_until_idle(&mut app);
    assert_eq!(counts.folders_deleted.get(), 1);
    assert!(app.popup.is_none());
    assert_eq!(app.selected_folder_id(), Some(&folder_id));
    assert_eq!(app.data.folders, folders);
    assert!(app.status.is_error);
}

#[test]
fn successful_folder_delete_cache_failure_does_not_retry_or_rollback() {
    let (mut app, counts, cache) = create_cache_app(false, None);
    let folder_id = create_empty_folder_for_delete(&mut app, "Cache delete");
    cache.lock().unwrap().failure = Some(CacheFailurePoint::ReplaceSnapshot);
    app.handle_key(KeyEvent::plain(KeyCode::Char('D')));
    app.handle_key(KeyEvent::plain(KeyCode::Char('y')));
    poll_update_until_idle(&mut app);
    assert_eq!(counts.folders_deleted.get(), 1);
    assert!(!app.data.folders.iter().any(|folder| folder.id == folder_id));
    assert!(matches!(app.shown.data_source, DataSourceState::Live));
    assert!(app.status.text.contains("Deleted folder"));
    assert!(app.status.text.contains("cache warning"));
    app.poll_update_worker();
    assert_eq!(counts.folders_deleted.get(), 1);
}

#[test]
fn delete_folder_runs_in_foreground_worker_without_speculative_removal() {
    let (mut app, counts, cache, started, release) =
        blocking_mutation_cache_app(false);
    let folder_id = create_empty_folder_for_delete(&mut app, "Blocked delete");
    let note = app.selected_note_id();
    let scroll = app.shown.preview_scroll;
    app.handle_key(KeyEvent::plain(KeyCode::Char('D')));
    app.handle_key(KeyEvent::plain(KeyCode::Char('y')));
    started.recv().expect("folder delete worker started");
    assert_eq!(counts.folders_deleted.get(), 1);
    assert!(app.background.update_running);
    assert!(app.data.folders.iter().any(|folder| folder.id == folder_id));
    assert_eq!(app.selected_folder_id(), Some(&folder_id));
    assert_eq!(app.selected_note_id(), note);
    assert_eq!(app.shown.preview_scroll, scroll);
    assert_eq!(cache.lock().unwrap().replace_snapshot_calls, 1);
    release.send(()).expect("release folder delete worker");
    poll_update_until_idle(&mut app);
    assert!(!app.data.folders.iter().any(|folder| folder.id == folder_id));
}

#[test]
fn successful_last_folder_delete_enters_empty_context() {
    let account = Account {
        id: AccountId::new("only-account"),
        name: "Only".into(),
        is_default: true,
        is_upgraded: true,
        default_folder_id: None,
    };
    let folder = Folder {
        id: FolderId::new("only-folder"),
        account_id: account.id.clone(),
        name: "Only".into(),
        parent: FolderParent::Account {
            account_id: account.id.clone(),
        },
        shared: false,
    };
    let counts = MutationCounts::default();
    let backend = CountingBackend {
        inner: MockNotesBackend::new(vec![account], vec![folder.clone()], HashMap::new()),
        capabilities: BackendCapabilities::all_supported(),
        counts: counts.clone(),
        create_fails: false,
        update_fails: false,
        move_fails: false,
        delete_fails: false,
    };
    let mut app = App::new(Box::new(backend));
    app.refresh();
    app.shown.focus = Focus::Navigation;
    app.handle_key(KeyEvent::plain(KeyCode::Char('D')));
    app.handle_key(KeyEvent::plain(KeyCode::Char('y')));
    poll_update_until_idle(&mut app);
    assert_eq!(counts.folders_deleted.get(), 1);
    assert!(app.data.folders.is_empty());
    assert!(app.selected_folder_id().is_none());
    assert!(app.data.notes.is_empty());
    assert!(app.shown.selected_note.is_none());
    assert!(matches!(app.search, SearchState::Inactive));
    assert_eq!(app.shown.preview_scroll, 0);
}

#[test]
fn folder_rename_with_duplicate_display_names_reconciles_by_folder_id() {
    let (mut app, _) = counting_app(BackendCapabilities::all_supported());
    let target_id = app.selected_folder_id().cloned().expect("target folder");
    let other_index = app
        .data.folders
        .iter()
        .position(|folder| folder.id != target_id)
        .expect("second folder");
    let other_id = app.data.folders[other_index].id.clone();
    app.data.folders[other_index].name = "Archive".into();
    let mut renamed = app
        .data.folders
        .iter()
        .find(|folder| folder.id == target_id)
        .unwrap()
        .clone();
    renamed.name = "Archive".into();
    let count = app.data.folders.len();
    app.finish_folder_renamed(renamed);
    assert_eq!(app.data.folders.len(), count);
    assert_eq!(app.selected_folder_id(), Some(&target_id));
    assert_eq!(
        app.data.folders
            .iter()
            .find(|folder| folder.id == other_id)
            .unwrap()
            .name,
        "Archive"
    );
    assert_eq!(
        app.data.folders
            .iter()
            .find(|folder| folder.id == target_id)
            .unwrap()
            .name,
        "Archive"
    );
}

#[test]
fn rename_folder_runs_in_foreground_worker_without_speculative_change() {
    let (mut app, counts, cache, started, release) =
        blocking_mutation_cache_app(false);
    let folder_id = app.selected_folder_id().cloned().expect("selected folder");
    let old_name = app
        .data.folders
        .iter()
        .find(|folder| folder.id == folder_id)
        .expect("folder")
        .name
        .clone();
    let selected_note = app.selected_note_id();
    let scroll = app.shown.preview_scroll;
    app.handle_key(KeyEvent::plain(KeyCode::Char('R')));
    for _ in 0..old_name.chars().count() {
        app.handle_key(KeyEvent::plain(KeyCode::Backspace));
    }
    type_text(&mut app, "Проекты 🚀 \"2027\"");
    app.handle_key(KeyEvent::plain(KeyCode::Enter));
    started.recv().expect("rename worker started");
    assert_eq!(counts.folders_renamed.get(), 1);
    assert!(app.background.update_running);
    assert_eq!(app.selected_folder_id(), Some(&folder_id));
    assert_eq!(app.selected_note_id(), selected_note);
    assert_eq!(app.shown.preview_scroll, scroll);
    assert_eq!(
        app.data.folders
            .iter()
            .find(|folder| folder.id == folder_id)
            .unwrap()
            .name,
        old_name
    );
    assert_eq!(cache.lock().unwrap().replace_snapshot_calls, 0);
    release.send(()).expect("release rename");
    poll_update_until_idle(&mut app);
    assert_eq!(app.selected_folder_id(), Some(&folder_id));
    assert_eq!(
        app.data.folders
            .iter()
            .find(|folder| folder.id == folder_id)
            .unwrap()
            .name,
        "Проекты 🚀 \"2027\""
    );
}

#[test]
fn note_delete_confirmation_requires_exact_yes_and_only_calls_once() {
    let (mut app, counts) = counting_app(BackendCapabilities::all_supported());
    app.handle_key(KeyEvent::plain(KeyCode::Char('D')));
    assert!(matches!(app.popup, Some(Popup::DeleteConfirm(_))));
    assert_eq!(counts.deletes.get(), 0);
    for key in [
        KeyCode::Esc,
        KeyCode::Char('n'),
        KeyCode::Char('N'),
        KeyCode::Char('x'),
    ] {
        app.popup = Some(Popup::DeleteConfirm(app.shown.selected_note.clone().unwrap()));
        app.handle_key(KeyEvent::plain(key));
        assert_eq!(counts.deletes.get(), 0);
    }
    app.handle_key(KeyEvent::plain(KeyCode::Char('D')));
    app.handle_key(KeyEvent::plain(KeyCode::Char('y')));
    poll_update_until_idle(&mut app);
    assert_eq!(counts.deletes.get(), 1);
    app.handle_key(KeyEvent::plain(KeyCode::Char('y')));
    assert_eq!(counts.deletes.get(), 1);
    assert!(app.status.text.contains("Recently Deleted"));
    assert!(!app.status.text.to_ascii_lowercase().contains("permanent"));
}

#[test]
fn note_delete_is_gated_by_backend_capability_and_editor_mode() {
    let mut capabilities =
        BackendCapabilities::all_supported();
    capabilities.delete = false;
    let (mut app, counts) = counting_app(capabilities);
    app.handle_key(KeyEvent::plain(KeyCode::Char('D')));
    assert!(app.popup.is_none());
    assert_eq!(counts.deletes.get(), 0);
    assert!(app.status.text.contains("not supported"));
    app.handle_key(KeyEvent::plain(KeyCode::Char('n')));
    app.handle_key(KeyEvent::plain(KeyCode::Char('D')));
    assert_eq!(counts.deletes.get(), 0);
    assert_eq!(app.shown.mode, AppMode::Insert);
}

#[test]
fn note_delete_uppercase_and_selection_edges_are_safe() {
    let (mut app, counts) = counting_app(BackendCapabilities::all_supported());
    app.handle_key(KeyEvent::plain(KeyCode::Char('D')));
    app.handle_key(KeyEvent::plain(KeyCode::Char('Y')));
    poll_update_until_idle(&mut app);
    assert_eq!(counts.deletes.get(), 1);
    assert!(app.shown.selected_note.is_some());
    app.handle_key(KeyEvent::plain(KeyCode::Char('D')));
    assert_eq!(
        counts.deletes.get(),
        1,
        "a confirmation modal swallows D"
    );
    app.handle_key(KeyEvent::plain(KeyCode::Esc));
}

#[test]
fn delete_is_ignored_by_dirty_editor_and_attachment_modal() {
    let (mut app, counts) = counting_app(BackendCapabilities::all_supported());
    app.handle_key(KeyEvent::plain(KeyCode::Char('n')));
    app.handle_key(KeyEvent::plain(KeyCode::Char('x')));
    let before = current_body_text(&app);
    assert!(app.edit.as_ref().expect("editor").dirty);
    app.handle_key(KeyEvent::plain(KeyCode::Char('D')));
    assert_eq!(counts.deletes.get(), 0);
    assert_eq!(current_body_text(&app), before);
    assert!(app.edit.as_ref().expect("editor").dirty);
    app.handle_key(modified('c', Held::Control));
    select_demo_note(&mut app, "demo-attachment");
    app.begin_attachments();
    app.handle_key(KeyEvent::plain(KeyCode::Char('D')));
    assert_eq!(counts.deletes.get(), 0);
    assert!(matches!(app.popup, Some(Popup::Attachments { .. })));
}

#[test]
fn delete_failure_keeps_selected_note_and_selection_stable() {
    let (mut app, counts) = delete_selection_app(&["A", "B", "C"], 1, true);
    let selected = app
        .shown.selected_note
        .as_ref()
        .expect("selected")
        .summary
        .id
        .clone();
    assert_eq!(selected, NoteId::new("test-b"));
    app.handle_key(KeyEvent::plain(KeyCode::Char('D')));
    app.handle_key(KeyEvent::plain(KeyCode::Char('y')));
    poll_update_until_idle(&mut app);
    assert_eq!(counts.deletes.get(), 1);
    assert!(app.data.notes.iter().any(|note| note.id == selected));
    assert_eq!(
        app.shown.selected_note.as_ref().expect("selected").summary.id,
        selected
    );
    assert!(app.popup.is_none());
    assert!(app.status.is_error);
}

#[test]
fn successful_delete_of_first_note_selects_next_note() {
    let (mut app, counts) = delete_selection_app(&["A", "B", "C"], 0, false);
    confirm_delete(&mut app);

    assert_eq!(counts.deletes.get(), 1);
    assert_eq!(app.data.notes.len(), 2);
    assert_eq!(
        app.shown.selected_note
            .as_ref()
            .expect("selected next note")
            .summary
            .id,
        NoteId::new("test-b")
    );
}

#[test]
fn successful_delete_of_middle_note_selects_next_note() {
    let (mut app, counts) = delete_selection_app(&["A", "B", "C"], 1, false);
    confirm_delete(&mut app);

    assert_eq!(counts.deletes.get(), 1);
    assert_eq!(app.data.notes.len(), 2);
    assert_eq!(
        app.shown.selected_note
            .as_ref()
            .expect("selected next note")
            .summary
            .id,
        NoteId::new("test-c")
    );
}

#[test]
fn successful_delete_of_last_note_selects_previous_note() {
    let (mut app, counts) = delete_selection_app(&["A", "B"], 1, false);
    confirm_delete(&mut app);

    assert_eq!(counts.deletes.get(), 1);
    assert_eq!(app.data.notes.len(), 1);
    assert_eq!(
        app.shown.selected_note
            .as_ref()
            .expect("selected previous note")
            .summary
            .id,
        NoteId::new("test-a")
    );
}

#[test]
fn successful_delete_of_only_note_clears_selection_and_renders_safely() {
    let (mut app, counts) = delete_selection_app(&["A"], 0, false);
    confirm_delete(&mut app);

    assert_eq!(counts.deletes.get(), 1);
    assert!(app.data.notes.is_empty());
    assert!(app.shown.selected_note.is_none());
    app.handle_key(KeyEvent::plain(KeyCode::Down));
    assert!(!rendered(&app, 100, 30).is_empty());
}

#[test]
fn search_input_absorbs_hotkeys_is_unicode_safe_and_has_no_backend_calls() {
    let (mut app, counts) = counting_app(BackendCapabilities::all_supported());
    let gets_before = counts.gets.get();
    app.handle_key(KeyEvent::plain(KeyCode::Char('/')));
    type_text(&mut app, "DnemaxyПривет🚀");
    assert!(
        matches!(&app.search, SearchState::Editing { input, .. } if input == "DnemaxyПривет🚀")
    );
    assert_eq!(counts.creates.get(), 0);
    assert_eq!(counts.updates.get(), 0);
    assert_eq!(counts.deletes.get(), 0);
    assert_eq!(counts.gets.get(), gets_before);
    app.handle_key(KeyEvent::plain(KeyCode::Backspace));
    app.handle_key(KeyEvent::plain(KeyCode::Backspace));
    assert!(
        matches!(&app.search, SearchState::Editing { input, .. } if input == "DnemaxyПриве")
    );
    app.handle_key(KeyEvent::control(KeyCode::Char('u')));
    assert!(matches!(&app.search, SearchState::Editing { input, .. } if input.is_empty()));
    app.handle_key(KeyEvent::plain(KeyCode::Enter));
    assert_eq!(app.search, SearchState::Inactive);
    assert_eq!(counts.gets.get(), gets_before);
}

#[test]
fn search_is_case_insensitive_unicode_title_only_and_safe_for_zero_results() {
    let (mut app, _) = delete_selection_app(
        &[
            "Alpha",
            "alpha Two",
            "Привет Мир",
            "Grüße aus Köln",
            "Emoji 🚀",
        ],
        0,
        false,
    );
    apply_search(&mut app, "ALPHA");
    assert_eq!(visible_names(&app), ["Alpha", "alpha Two"]);
    app.handle_key(KeyEvent::plain(KeyCode::Esc));
    apply_search(&mut app, "ПРИВЕТ");
    assert_eq!(visible_names(&app), ["Привет Мир"]);
    app.handle_key(KeyEvent::plain(KeyCode::Esc));
    apply_search(&mut app, "grüße");
    assert_eq!(visible_names(&app), ["Grüße aus Köln"]);
    app.handle_key(KeyEvent::plain(KeyCode::Esc));
    apply_search(&mut app, "🚀");
    assert_eq!(visible_names(&app), ["Emoji 🚀"]);
    app.handle_key(KeyEvent::plain(KeyCode::Esc));
    apply_search(&mut app, "absent");
    assert!(app.visible_note_ids().is_empty());
    assert!(app.shown.selected_note.is_none());
    app.shown.focus = Focus::Notes;
    for key in [
        KeyCode::Char('j'),
        KeyCode::Char('k'),
        KeyCode::Char('g'),
        KeyCode::Char('G'),
        KeyCode::Enter,
    ] {
        app.handle_key(KeyEvent::plain(key));
    }
    assert!(!rendered(&app, 100, 30).is_empty());
}

#[test]
fn search_preserves_matching_selection_and_clear_restores_full_list() {
    let (mut app, _) = delete_selection_app(&["Alpha", "Beta", "Gamma"], 1, false);
    let beta = app.selected_note_id().expect("beta selected");
    apply_search(&mut app, "beta");
    assert_eq!(app.selected_note_id(), Some(beta));
    app.handle_key(KeyEvent::plain(KeyCode::Esc));
    assert_eq!(app.search, SearchState::Inactive);
    assert_eq!(app.selected_note_id(), Some(NoteId::new("test-beta")));
    apply_search(&mut app, "alpha");
    assert_eq!(app.selected_note_id(), Some(NoteId::new("test-alpha")));
}

#[test]
fn search_does_not_open_in_editor_or_over_authoritative_popups() {
    let (mut app, _) = counting_app(BackendCapabilities::all_supported());
    app.handle_key(KeyEvent::plain(KeyCode::Char('n')));
    app.handle_key(KeyEvent::plain(KeyCode::Char('x')));
    let title = app.edit.as_ref().expect("editor").title_buffer.clone();
    app.handle_key(KeyEvent::plain(KeyCode::Char('/')));
    assert!(matches!(app.search, SearchState::Inactive));
    assert_eq!(
        app.edit.as_ref().expect("editor").title_buffer,
        format!("{title}/")
    );
    assert!(app.edit.as_ref().expect("editor").dirty);
    app.handle_key(modified('c', Held::Control));
    select_demo_note(&mut app, "demo-attachment");
    app.begin_attachments();
    app.handle_key(KeyEvent::plain(KeyCode::Char('/')));
    assert!(matches!(app.popup, Some(Popup::Attachments { .. })));
    assert!(matches!(app.search, SearchState::Inactive));
    app.handle_key(KeyEvent::plain(KeyCode::Esc));
    app.popup = Some(Popup::DeleteConfirm(
        app.shown.selected_note.clone().expect("selected note"),
    ));
    app.handle_key(KeyEvent::plain(KeyCode::Char('/')));
    assert!(matches!(app.popup, Some(Popup::DeleteConfirm(_))));
    assert!(matches!(app.search, SearchState::Inactive));
}

#[test]
fn filtered_delete_targets_selected_note_and_recomputes_or_preserves_on_error() {
    let (mut app, counts) = delete_selection_app(&["Alpha", "Beta", "Alpha Two"], 0, false);
    apply_search(&mut app, "alpha");
    app.shown.focus = Focus::Notes;
    app.handle_key(KeyEvent::plain(KeyCode::Char('j')));
    assert_eq!(app.selected_note_id(), Some(NoteId::new("test-alpha two")));
    confirm_delete(&mut app);
    assert_eq!(counts.deletes.get(), 1);
    assert_eq!(visible_names(&app), ["Alpha"]);
    assert_eq!(app.selected_note_id(), Some(NoteId::new("test-alpha")));

    let (mut failing, failing_counts) =
        delete_selection_app(&["Alpha", "Beta", "Alpha Two"], 0, true);
    apply_search(&mut failing, "alpha");
    failing.shown.focus = Focus::Notes;
    failing.handle_key(KeyEvent::plain(KeyCode::Char('j')));
    let selected = failing.selected_note_id().expect("selected alpha two");
    confirm_delete(&mut failing);
    assert_eq!(failing_counts.deletes.get(), 1);
    assert_eq!(visible_names(&failing), ["Alpha", "Alpha Two"]);
    assert_eq!(failing.selected_note_id(), Some(selected));
    assert!(failing.status.is_error);
}

#[test]
fn reload_recomputes_active_search_and_folder_navigation_clears_it() {
    let (mut app, _) = counting_app(BackendCapabilities::all_supported());
    apply_search(&mut app, "alpha");
    let before = visible_names(&app);
    app.handle_key(KeyEvent::plain(KeyCode::Char('r')));
    assert!(matches!(app.search, SearchState::Active(_)));
    assert_eq!(visible_names(&app), before);
    app.shown.focus = Focus::Navigation;
    app.handle_key(KeyEvent::plain(KeyCode::Char('j')));
    assert_eq!(app.search, SearchState::Inactive);
}

#[test]
fn filtered_edit_save_move_and_create_recompute_membership() {
    let (mut app, counts) = delete_selection_app(&["Alpha", "Beta", "Alpha Two"], 0, false);
    apply_search(&mut app, "alpha");
    app.shown.focus = Focus::Notes;
    app.handle_key(KeyEvent::plain(KeyCode::Char('j')));
    app.handle_key(KeyEvent::plain(KeyCode::Char('e')));
    assert_eq!(
        app.edit.as_ref().and_then(|edit| edit.note_id.clone()),
        Some(NoteId::new("test-alpha two"))
    );
    {
        let edit = app.edit.as_mut().expect("editor");
        edit.title_buffer = "Gamma Two".into();
        edit.dirty = true;
    }
    app.save_edit(true);
    poll_update_until_idle(&mut app);
    assert_eq!(counts.updates.get(), 1);
    assert_eq!(visible_names(&app), ["Alpha"]);

    app.handle_key(KeyEvent::plain(KeyCode::Char('n')));
    type_text(&mut app, "Alpha New");
    app.handle_key(modified('s', Held::Control));
    poll_update_until_idle(&mut app);
    assert_eq!(counts.creates.get(), 1);
    assert_eq!(visible_names(&app), ["Alpha", "Alpha New"]);

    app.shown.focus = Focus::Notes;
    app.handle_key(KeyEvent::plain(KeyCode::Char('j')));
    app.handle_key(KeyEvent::plain(KeyCode::Char('m')));
    app.handle_key(KeyEvent::plain(KeyCode::Char('j')));
    app.handle_key(KeyEvent::plain(KeyCode::Enter));
    poll_update_until_idle(&mut app);
    assert_eq!(visible_names(&app), ["Alpha"]);
}

#[test]
fn cached_mode_blocks_all_live_mutations_and_attachment_operations() {
    let (mut app, counts) = counting_app(BackendCapabilities::all_supported());
    app.shown.data_source = DataSourceState::CachedBackendUnavailable {
        message: "synthetic backend failure".into(),
    };
    for key in [
        KeyCode::Char('n'),
        KeyCode::Char('e'),
        KeyCode::Char('m'),
        KeyCode::Char('D'),
        KeyCode::Char('a'),
    ] {
        app.handle_key(KeyEvent::plain(key));
    }
    assert_eq!(counts.creates.get(), 0);
    assert_eq!(counts.updates.get(), 0);
    assert_eq!(counts.deletes.get(), 0);
    assert_eq!(counts.previews.get(), 0);
    assert_eq!(counts.exports.get(), 0);
    assert!(app.status.text.contains("cached mode is read-only"));
}

#[test]
fn cache_store_records_full_note_load_by_note_id_and_upsert() {
    let note = demo_note(
        "cached-note",
        "demo-notes",
        "Русская заметка 🚀",
        "Grüße aus Köln",
    );
    let (cache, state) = FakeCache::new(FakeCacheState::default());
    cache.upsert_note(&note).unwrap();
    assert_eq!(
        cache.load_note(&note.summary.id).unwrap(),
        Some(note.clone())
    );
    let state = state.lock().unwrap();
    assert_eq!(state.upsert_note_calls, 1);
    assert_eq!(state.upsert_note_ids, vec![note.summary.id.clone()]);
    assert_eq!(state.load_note_calls, 1);
    assert_eq!(state.load_note_ids, vec![note.summary.id.clone()]);
}

struct ScriptedRefreshFixture {
    accounts: Vec<Account>,
    folders: Vec<Folder>,
    query: NotesQuery,
    page: NotesPage,
    selected_id: NoteId,
    selected_note: Arc<Note>,
}

fn scripted_refresh_fixture() -> ScriptedRefreshFixture {
    let source = demo_backend();
    let accounts = source.accounts().unwrap();
    let folders = source.folders(None).unwrap();
    let query = folder_query("demo-notes");
    let page = source.notes(&query).unwrap();
    let selected_id = page.items.first().expect("demo notes").id.clone();
    let selected_note = source.get_note(&selected_id).unwrap();
    ScriptedRefreshFixture {
        accounts,
        folders,
        query,
        page,
        selected_id,
        selected_note,
    }
}

fn scripted_backend(
    accounts: VecDeque<Result<Vec<Account>, NotesError>>,
    folders: VecDeque<ScriptedFoldersCall>,
    notes: VecDeque<ScriptedNotesCall>,
    get_notes: VecDeque<ScriptedGetNoteCall>,
) -> (ScriptedNotesBackend, Arc<Mutex<Vec<BackendCall>>>) {
    let calls = Arc::new(Mutex::new(Vec::new()));
    (
        ScriptedNotesBackend {
            inner: demo_backend(),
            accounts: RefCell::new(accounts),
            folders: RefCell::new(folders),
            notes: RefCell::new(notes),
            get_notes: RefCell::new(get_notes),
            calls: calls.clone(),
        },
        calls,
    )
}

fn successful_refresh_backend() -> (
    ScriptedNotesBackend,
    Arc<Mutex<Vec<BackendCall>>>,
    ScriptedRefreshFixture,
) {
    let fixture = scripted_refresh_fixture();
    let (backend, calls) = scripted_backend(
        VecDeque::from([Ok(fixture.accounts.clone())]),
        VecDeque::from([ScriptedFoldersCall {
            expected: None,
            outcome: Ok(fixture.folders.clone()),
        }]),
        VecDeque::from([ScriptedNotesCall {
            expected: fixture.query.clone(),
            outcome: Ok(fixture.page.clone()),
        }]),
        VecDeque::from([ScriptedGetNoteCall {
            expected: fixture.selected_id.clone(),
            outcome: Ok(fixture.selected_note.clone()),
        }]),
    );
    (backend, calls, fixture)
}

fn cached_state_with_notes(notes: &[(&str, &str)]) -> CachedState {
    let fixture = scripted_refresh_fixture();
    CachedState {
        accounts: fixture.accounts,
        folders: fixture.folders,
        notes: notes
            .iter()
            .map(|(id, name)| demo_note(id, "demo-notes", name, "").summary.clone())
            .collect(),
        
    }
}

fn refresh_fixture_with_notes(notes: &[(&str, &str)]) -> ScriptedRefreshFixture {
    let state = cached_state_with_notes(notes);
    let full_notes = notes
        .iter()
        .map(|(id, name)| {
            let note = demo_note(id, "demo-notes", name, "");
            (note.summary.id.clone(), note)
        })
        .collect();
    let source =
        MockNotesBackend::new(state.accounts.clone(), state.folders.clone(), full_notes);
    let query = folder_query("demo-notes");
    let page = source.notes(&query).unwrap();
    let selected_id = page.items.first().expect("scripted notes").id.clone();
    let selected_note = source.get_note(&selected_id).unwrap();
    ScriptedRefreshFixture {
        accounts: state.accounts,
        folders: state.folders,
        query,
        page,
        selected_id,
        selected_note,
    }
}

fn successful_scripted_backend(
    fixture: &ScriptedRefreshFixture,
) -> (ScriptedNotesBackend, Arc<Mutex<Vec<BackendCall>>>) {
    scripted_backend(
        VecDeque::from([Ok(fixture.accounts.clone())]),
        VecDeque::from([ScriptedFoldersCall {
            expected: None,
            outcome: Ok(fixture.folders.clone()),
        }]),
        VecDeque::from([ScriptedNotesCall {
            expected: fixture.query.clone(),
            outcome: Ok(fixture.page.clone()),
        }]),
        VecDeque::from([ScriptedGetNoteCall {
            expected: fixture.selected_id.clone(),
            outcome: Ok(fixture.selected_note.clone()),
        }]),
    )
}

fn note_ids(app: &App) -> Vec<NoteId> {
    app.data.notes.iter().map(|note| note.id.clone()).collect()
}

fn app_with_cache(
    backend: ScriptedNotesBackend,
    cache_state: FakeCacheState,
) -> (App, Arc<Mutex<FakeCacheState>>) {
    let (cache, state) = FakeCache::new(cache_state);
    (App::with_cache(Box::new(backend), Box::new(cache)), state)
}

#[test]
fn scripted_backend_can_fail_accounts_then_succeed() {
    let fixture = scripted_refresh_fixture();
    let (backend, calls) = scripted_backend(
        VecDeque::from([
            Err(backend_error("offline")),
            Ok(fixture.accounts),
        ]),
        VecDeque::new(),
        VecDeque::new(),
        VecDeque::new(),
    );
    assert!(backend.accounts().is_err());
    assert!(!backend.accounts().unwrap().is_empty());
    assert_eq!(
        *calls.lock().unwrap(),
        vec![BackendCall::Accounts, BackendCall::Accounts]
    );
}

#[test]
fn scripted_backend_records_real_refresh_call_order() {
    let (backend, calls, fixture) = successful_refresh_backend();
    let mut app = App::new(Box::new(backend));
    app.refresh();
    assert_eq!(
        *calls.lock().unwrap(),
        vec![
            BackendCall::Accounts,
            BackendCall::Folders(None),
            BackendCall::Notes(fixture.query.clone()),
            BackendCall::GetNote(fixture.selected_id.clone()),
        ]
    );
    assert_eq!(app.shown.selected_note, Some(fixture.selected_note));
}

#[test]
fn scripted_backend_can_fail_folders() {
    let fixture = scripted_refresh_fixture();
    let (backend, calls) = scripted_backend(
        VecDeque::from([Ok(fixture.accounts)]),
        VecDeque::from([ScriptedFoldersCall {
            expected: None,
            outcome: Err(backend_error("folders offline")),
        }]),
        VecDeque::new(),
        VecDeque::new(),
    );
    let mut app = App::new(Box::new(backend));
    app.refresh();
    assert!(app.status.is_error);
    assert_eq!(
        *calls.lock().unwrap(),
        vec![BackendCall::Accounts, BackendCall::Folders(None)]
    );
}

#[test]
fn scripted_backend_can_fail_notes() {
    let fixture = scripted_refresh_fixture();
    let (backend, calls) = scripted_backend(
        VecDeque::from([Ok(fixture.accounts)]),
        VecDeque::from([ScriptedFoldersCall {
            expected: None,
            outcome: Ok(fixture.folders),
        }]),
        VecDeque::from([ScriptedNotesCall {
            expected: fixture.query.clone(),
            outcome: Err(backend_error("notes offline")),
        }]),
        VecDeque::new(),
    );
    let mut app = App::new(Box::new(backend));
    app.refresh();
    assert!(app.status.is_error);
    assert_eq!(
        *calls.lock().unwrap(),
        vec![
            BackendCall::Accounts,
            BackendCall::Folders(None),
            BackendCall::Notes(fixture.query),
        ]
    );
}

#[test]
fn scripted_backend_records_get_note_id() {
    let (backend, calls, fixture) = successful_refresh_backend();
    let mut app = App::new(Box::new(backend));
    app.refresh();
    assert_eq!(
        calls.lock().unwrap().last(),
        Some(&BackendCall::GetNote(fixture.selected_id.clone()))
    );
    assert_eq!(app.shown.selected_note, Some(fixture.selected_note));
}

#[test]
fn scripted_backend_can_fail_get_note() {
    let fixture = scripted_refresh_fixture();
    let (backend, calls) = scripted_backend(
        VecDeque::from([Ok(fixture.accounts)]),
        VecDeque::from([ScriptedFoldersCall {
            expected: None,
            outcome: Ok(fixture.folders),
        }]),
        VecDeque::from([ScriptedNotesCall {
            expected: fixture.query.clone(),
            outcome: Ok(fixture.page),
        }]),
        VecDeque::from([ScriptedGetNoteCall {
            expected: fixture.selected_id.clone(),
            outcome: Err(backend_error("get note offline")),
        }]),
    );
    let mut app = App::new(Box::new(backend));
    app.refresh();
    assert!(app.status.is_error);
    assert!(app.shown.selected_note.is_none());
    assert_eq!(
        calls.lock().unwrap().last(),
        Some(&BackendCall::GetNote(fixture.selected_id))
    );
}

#[test]
fn cache_bootstrap_uses_injected_store_once() {
    let cached = cached_state_with_notes(&[
        ("cached-a", "A-note"),
        ("cached-b", "B-note"),
        ("cached-c", "C-note"),
    ]);
    let (backend, calls) = scripted_backend(
        VecDeque::new(),
        VecDeque::new(),
        VecDeque::new(),
        VecDeque::new(),
    );
    let (mut app, cache) = app_with_cache(
        backend,
        FakeCacheState {
            bootstrap: cached.clone(),
            ..Default::default()
        },
    );
    app.bootstrap_cache();
    assert_eq!(app.shown.data_source, DataSourceState::Cached);
    assert_eq!(
        note_ids(&app),
        cached
            .notes
            .iter()
            .map(|note| note.id.clone())
            .collect::<Vec<_>>()
    );
    assert_eq!(cache.lock().unwrap().load_bootstrap_calls, 1);
    assert!(calls.lock().unwrap().is_empty());
}

#[test]
fn cache_load_failure_does_not_block_live_startup() {
    let fixture = scripted_refresh_fixture();
    let (backend, _) = successful_scripted_backend(&fixture);
    let (mut app, cache) = app_with_cache(
        backend,
        FakeCacheState {
            failure: Some(CacheFailurePoint::LoadBootstrap),
            ..Default::default()
        },
    );
    app.bootstrap_cache();
    app.refresh();
    let cache = cache.lock().unwrap();
    assert_eq!(app.shown.data_source, DataSourceState::Live);
    assert_eq!(app.shown.selected_note, Some(fixture.selected_note));
    assert_eq!(cache.load_bootstrap_calls, 1);
    assert_eq!(cache.replace_snapshot_calls, 1);
}

#[test]
fn backend_failure_after_cached_bootstrap_keeps_cached_state() {
    let cached =
        cached_state_with_notes(&[("cached-a", "A"), ("cached-b", "B"), ("cached-c", "C")]);
    let (backend, calls) = scripted_backend(
        VecDeque::from([Err(backend_error("offline"))]),
        VecDeque::new(),
        VecDeque::new(),
        VecDeque::new(),
    );
    let (mut app, cache) = app_with_cache(
        backend,
        FakeCacheState {
            bootstrap: cached.clone(),
            ..Default::default()
        },
    );
    app.bootstrap_cache();
    app.shown.selected_note_index = 1;
    app.refresh();
    let cache = cache.lock().unwrap();
    assert_eq!(
        note_ids(&app),
        cached
            .notes
            .iter()
            .map(|note| note.id.clone())
            .collect::<Vec<_>>()
    );
    assert_eq!(app.selected_note_id(), Some(NoteId::new("cached-b")));
    assert!(matches!(
        app.shown.data_source,
        DataSourceState::CachedBackendUnavailable { .. }
    ));
    assert_eq!(cache.load_bootstrap_calls, 1);
    assert_eq!(cache.replace_snapshot_calls, 0);
    assert!(cache.replaced_snapshots.is_empty());
    assert_eq!(*calls.lock().unwrap(), vec![BackendCall::Accounts]);
}

#[test]
fn failed_live_refresh_does_not_replace_cache() {
    let cached = cached_state_with_notes(&[("cached-a", "A")]);
    let (backend, _) = scripted_backend(
        VecDeque::from([Err(backend_error("offline"))]),
        VecDeque::new(),
        VecDeque::new(),
        VecDeque::new(),
    );
    let (mut app, cache) = app_with_cache(
        backend,
        FakeCacheState {
            bootstrap: cached,
            ..Default::default()
        },
    );
    app.bootstrap_cache();
    app.refresh();
    let cache = cache.lock().unwrap();
    assert_eq!(cache.replace_snapshot_calls, 0);
    assert!(cache.replaced_snapshots.is_empty());
}

#[test]
fn reload_failure_keeps_cached_runtime_state() {
    let cached =
        cached_state_with_notes(&[("cached-a", "A"), ("cached-b", "B"), ("cached-c", "C")]);
    let (backend, calls) = scripted_backend(
        VecDeque::from([
            Err(backend_error("offline first")),
            Err(backend_error("offline second")),
        ]),
        VecDeque::new(),
        VecDeque::new(),
        VecDeque::new(),
    );
    let (mut app, cache) = app_with_cache(
        backend,
        FakeCacheState {
            bootstrap: cached.clone(),
            ..Default::default()
        },
    );
    app.bootstrap_cache();
    app.shown.selected_note_index = 1;
    app.refresh();
    app.refresh();
    let cache = cache.lock().unwrap();
    assert_eq!(
        note_ids(&app),
        cached
            .notes
            .iter()
            .map(|note| note.id.clone())
            .collect::<Vec<_>>()
    );
    assert_eq!(app.selected_note_id(), Some(NoteId::new("cached-b")));
    assert!(matches!(
        app.shown.data_source,
        DataSourceState::CachedBackendUnavailable { .. }
    ));
    assert_eq!(cache.load_bootstrap_calls, 1);
    assert_eq!(cache.replace_snapshot_calls, 0);
    assert_eq!(
        *calls.lock().unwrap(),
        vec![BackendCall::Accounts, BackendCall::Accounts]
    );
}

#[test]
fn reload_success_transitions_cached_state_back_to_live() {
    let cached =
        cached_state_with_notes(&[("cached-a", "A"), ("cached-b", "B"), ("cached-c", "C")]);
    let live = refresh_fixture_with_notes(&[("live-a", "A live"), ("live-b", "B live")]);
    let (backend, calls) = scripted_backend(
        VecDeque::from([
            Err(backend_error("offline")),
            Ok(live.accounts.clone()),
        ]),
        VecDeque::from([ScriptedFoldersCall {
            expected: None,
            outcome: Ok(live.folders.clone()),
        }]),
        VecDeque::from([ScriptedNotesCall {
            expected: live.query.clone(),
            outcome: Ok(live.page.clone()),
        }]),
        VecDeque::from([ScriptedGetNoteCall {
            expected: live.selected_id.clone(),
            outcome: Ok(live.selected_note.clone()),
        }]),
    );
    let (mut app, cache) = app_with_cache(
        backend,
        FakeCacheState {
            bootstrap: cached,
            ..Default::default()
        },
    );
    app.bootstrap_cache();
    app.refresh();
    assert!(matches!(
        app.shown.data_source,
        DataSourceState::CachedBackendUnavailable { .. }
    ));
    app.refresh();
    let cache = cache.lock().unwrap();
    assert_eq!(app.shown.data_source, DataSourceState::Live);
    assert_eq!(
        note_ids(&app),
        live.page
            .items
            .iter()
            .map(|note| note.id.clone())
            .collect::<Vec<_>>()
    );
    assert_eq!(cache.replace_snapshot_calls, 1);
    assert_eq!(
        *calls.lock().unwrap(),
        vec![
            BackendCall::Accounts,
            BackendCall::Accounts,
            BackendCall::Folders(None),
            BackendCall::Notes(live.query),
            BackendCall::GetNote(live.selected_id),
        ]
    );
}

#[test]
fn successful_live_refresh_replaces_cached_runtime_state() {
    let cached = cached_state_with_notes(&[("old-a", "OLD-A"), ("old-b", "OLD-B")]);
    let live = refresh_fixture_with_notes(&[
        ("live-a", "LIVE-A"),
        ("live-b", "LIVE-B"),
        ("live-c", "LIVE-C"),
    ]);
    let (backend, _) = successful_scripted_backend(&live);
    let (mut app, _) = app_with_cache(
        backend,
        FakeCacheState {
            bootstrap: cached,
            ..Default::default()
        },
    );
    app.bootstrap_cache();
    app.refresh();
    assert_eq!(app.shown.data_source, DataSourceState::Live);
    assert_eq!(
        note_ids(&app),
        live.page
            .items
            .iter()
            .map(|note| note.id.clone())
            .collect::<Vec<_>>()
    );
    assert!(!note_ids(&app).contains(&NoteId::new("old-a")));
    assert!(!note_ids(&app).contains(&NoteId::new("old-b")));
}

#[test]
fn successful_live_refresh_persists_through_cache_store() {
    let cached = cached_state_with_notes(&[("old-only", "OLD")]);
    let live = refresh_fixture_with_notes(&[
        ("live-a", "LIVE-A"),
        ("live-b", "LIVE-B"),
        ("live-c", "LIVE-C"),
    ]);
    let (backend, _) = successful_scripted_backend(&live);
    let (mut app, cache) = app_with_cache(
        backend,
        FakeCacheState {
            bootstrap: cached,
            ..Default::default()
        },
    );
    app.bootstrap_cache();
    app.refresh();
    let cache = cache.lock().unwrap();
    assert_eq!(cache.replace_snapshot_calls, 1);
    assert_eq!(cache.replaced_snapshots.len(), 1);
    assert_eq!(
        cache.replaced_snapshots[0]
            .notes
            .iter()
            .map(|note| note.id.clone())
            .collect::<Vec<_>>(),
        live.page
            .items
            .iter()
            .map(|note| note.id.clone())
            .collect::<Vec<_>>(),
    );
    assert!(!cache.replaced_snapshots[0]
        .notes
        .iter()
        .any(|note| note.id == NoteId::new("old-only")));
}

#[test]
fn cached_selection_is_preserved_by_note_id_after_live_retry() {
    let cached = cached_state_with_notes(&[("a", "A"), ("b", "B"), ("c", "C")]);
    let live = refresh_fixture_with_notes(&[("a", "A"), ("b", "B"), ("c", "C"), ("d", "D")]);
    let (backend, _) = scripted_backend(
        VecDeque::from([
            Err(backend_error("offline")),
            Ok(live.accounts.clone()),
        ]),
        VecDeque::from([ScriptedFoldersCall {
            expected: None,
            outcome: Ok(live.folders.clone()),
        }]),
        VecDeque::from([ScriptedNotesCall {
            expected: live.query.clone(),
            outcome: Ok(live.page.clone()),
        }]),
        VecDeque::from([ScriptedGetNoteCall {
            expected: NoteId::new("b"),
            outcome: Ok(demo_note("b", "demo-notes", "B", "")),
        }]),
    );
    let (mut app, _) = app_with_cache(
        backend,
        FakeCacheState {
            bootstrap: cached,
            ..Default::default()
        },
    );
    app.bootstrap_cache();
    app.shown.selected_note_index = 1;
    app.refresh();
    app.refresh();
    assert_eq!(app.shown.data_source, DataSourceState::Live);
    assert_eq!(app.selected_note_id(), Some(NoteId::new("b")));
}

#[test]
fn missing_cached_selection_falls_back_safely_after_live_retry() {
    let cached = cached_state_with_notes(&[("a", "A"), ("b", "B"), ("c", "C")]);
    let live = refresh_fixture_with_notes(&[("a", "A"), ("c", "C"), ("d", "D")]);
    let (backend, _) = scripted_backend(
        VecDeque::from([
            Err(backend_error("offline")),
            Ok(live.accounts.clone()),
        ]),
        VecDeque::from([ScriptedFoldersCall {
            expected: None,
            outcome: Ok(live.folders.clone()),
        }]),
        VecDeque::from([ScriptedNotesCall {
            expected: live.query.clone(),
            outcome: Ok(live.page.clone()),
        }]),
        VecDeque::from([ScriptedGetNoteCall {
            expected: live.selected_id.clone(),
            outcome: Ok(live.selected_note.clone()),
        }]),
    );
    let (mut app, _) = app_with_cache(
        backend,
        FakeCacheState {
            bootstrap: cached,
            ..Default::default()
        },
    );
    app.bootstrap_cache();
    app.shown.selected_note_index = 1;
    app.refresh();
    app.refresh();
    assert_eq!(app.shown.data_source, DataSourceState::Live);
    assert_ne!(app.selected_note_id(), Some(NoteId::new("b")));
    assert!(app
        .selected_note_id()
        .is_some_and(|id| note_ids(&app).contains(&id)));
}

#[test]
fn cache_write_failure_after_live_refresh_keeps_live_state() {
    let live = refresh_fixture_with_notes(&[("live-a", "LIVE-A")]);
    let (backend, _) = successful_scripted_backend(&live);
    let (mut app, cache) = app_with_cache(
        backend,
        FakeCacheState {
            failure: Some(CacheFailurePoint::ReplaceSnapshot),
            ..Default::default()
        },
    );
    app.refresh();
    assert_eq!(app.shown.data_source, DataSourceState::Live);
    assert_eq!(
        note_ids(&app),
        live.page
            .items
            .iter()
            .map(|note| note.id.clone())
            .collect::<Vec<_>>()
    );
    assert!(app.status.text.contains("cache warning"));
    assert!(!app.status.is_error);
    assert_eq!(cache.lock().unwrap().replace_snapshot_calls, 1);
}

#[test]
fn cache_write_failure_after_live_retry_is_warning_not_offline() {
    let cached = cached_state_with_notes(&[("a", "A"), ("b", "B"), ("c", "C")]);
    let live = refresh_fixture_with_notes(&[("a", "A"), ("b", "B"), ("c", "C"), ("d", "D")]);
    let (backend, _) = scripted_backend(
        VecDeque::from([
            Err(backend_error("offline")),
            Ok(live.accounts.clone()),
        ]),
        VecDeque::from([ScriptedFoldersCall {
            expected: None,
            outcome: Ok(live.folders.clone()),
        }]),
        VecDeque::from([ScriptedNotesCall {
            expected: live.query.clone(),
            outcome: Ok(live.page.clone()),
        }]),
        VecDeque::from([ScriptedGetNoteCall {
            expected: NoteId::new("b"),
            outcome: Ok(demo_note("b", "demo-notes", "B", "")),
        }]),
    );
    let (mut app, cache) = app_with_cache(
        backend,
        FakeCacheState {
            bootstrap: cached,
            failure: Some(CacheFailurePoint::ReplaceSnapshot),
            ..Default::default()
        },
    );
    app.bootstrap_cache();
    app.shown.selected_note_index = 1;
    app.refresh();
    assert!(matches!(
        app.shown.data_source,
        DataSourceState::CachedBackendUnavailable { .. }
    ));
    app.refresh();
    assert_eq!(app.shown.data_source, DataSourceState::Live);
    assert_eq!(app.selected_note_id(), Some(NoteId::new("b")));
    assert!(app.status.text.contains("cache warning"));
    assert!(!app.status.text.contains("backend unavailable"));
    assert_eq!(cache.lock().unwrap().replace_snapshot_calls, 1);
}

#[test]
fn search_works_over_cached_bootstrap_state_without_backend_calls() {
    let cached = cached_state_with_notes(&[
        ("alpha", "Alpha"),
        ("beta", "Beta"),
        ("cyrillic", "Альфа"),
        ("german", "Grüße"),
    ]);
    let (backend, calls) = scripted_backend(
        VecDeque::from([Err(backend_error("offline"))]),
        VecDeque::new(),
        VecDeque::new(),
        VecDeque::new(),
    );
    let (mut app, cache) = app_with_cache(
        backend,
        FakeCacheState {
            bootstrap: cached,
            ..Default::default()
        },
    );
    app.bootstrap_cache();
    app.refresh();
    let calls_before_search = calls.lock().unwrap().clone();
    apply_search(&mut app, "alpha");
    assert_eq!(visible_names(&app), ["Alpha"]);
    assert!(matches!(
        app.shown.data_source,
        DataSourceState::CachedBackendUnavailable { .. }
    ));
    assert_eq!(*calls.lock().unwrap(), calls_before_search);
    assert_eq!(cache.lock().unwrap().load_bootstrap_calls, 1);
}

#[test]
fn cached_full_note_preview_loads_from_cache_without_backend_call() {
    let cached = cached_state_with_notes(&[("cached-a", "A")]);
    let full = demo_note(
        "cached-a",
        "demo-notes",
        "A",
        "Русский текст\nGrüße aus Köln\nemoji 🚀",
    );
    let (backend, calls) = scripted_backend(
        VecDeque::from([Err(backend_error("offline"))]),
        VecDeque::new(),
        VecDeque::new(),
        VecDeque::new(),
    );
    let (mut app, cache) = app_with_cache(
        backend,
        FakeCacheState {
            bootstrap: cached,
            full_notes: HashMap::from([(full.summary.id.clone(), full.clone())]),
            ..Default::default()
        },
    );
    app.bootstrap_cache();
    app.refresh();
    assert!(matches!(
        app.shown.data_source,
        DataSourceState::CachedBackendUnavailable { .. }
    ));
    assert_eq!(app.shown.selected_note, Some(full.clone()));
    let cache = cache.lock().unwrap();
    assert_eq!(cache.load_note_ids, vec![NoteId::new("cached-a")]);
    assert_eq!(*calls.lock().unwrap(), vec![BackendCall::Accounts]);
    assert!(app
        .shown.selected_note
        .as_ref()
        .unwrap()
        .plaintext
        .contains("Grüße aus Köln"));
}

#[test]
fn cached_preview_loads_full_note_by_selected_note_id() {
    let cached = cached_state_with_notes(&[("a", "A"), ("b", "B")]);
    let a = demo_note("a", "demo-notes", "A", "body-A");
    let b = demo_note("b", "demo-notes", "B", "body-B");
    let (backend, calls) = scripted_backend(
        VecDeque::new(),
        VecDeque::new(),
        VecDeque::new(),
        VecDeque::new(),
    );
    let (mut app, cache) = app_with_cache(
        backend,
        FakeCacheState {
            bootstrap: cached,
            full_notes: HashMap::from([
                (a.summary.id.clone(), a),
                (b.summary.id.clone(), b.clone()),
            ]),
            ..Default::default()
        },
    );
    app.bootstrap_cache();
    app.shown.focus = Focus::Notes;
    app.move_selection(1);
    assert_eq!(app.shown.selected_note, Some(b));
    assert_eq!(
        cache.lock().unwrap().load_note_ids,
        vec![NoteId::new("a"), NoteId::new("b")]
    );
    assert!(calls.lock().unwrap().is_empty());
}

#[test]
fn missing_cached_full_note_is_explicit_and_does_not_call_backend() {
    let cached = cached_state_with_notes(&[("a", "A")]);
    let (backend, calls) = scripted_backend(
        VecDeque::new(),
        VecDeque::new(),
        VecDeque::new(),
        VecDeque::new(),
    );
    let (mut app, cache) = app_with_cache(
        backend,
        FakeCacheState {
            bootstrap: cached,
            ..Default::default()
        },
    );
    app.bootstrap_cache();
    assert!(matches!(
        app.shown.cached_preview_state,
        Some(CachedPreviewState::MissingFullNote)
    ));
    assert_eq!(app.selected_note_id(), Some(NoteId::new("a")));
    assert_eq!(cache.lock().unwrap().load_note_ids, vec![NoteId::new("a")]);
    assert!(calls.lock().unwrap().is_empty());
}

#[test]
fn cached_empty_note_body_is_distinct_from_missing_cached_note() {
    let cached = cached_state_with_notes(&[("empty", "Empty")]);
    let empty = demo_note("empty", "demo-notes", "Empty", "");
    let (backend, _) = scripted_backend(
        VecDeque::new(),
        VecDeque::new(),
        VecDeque::new(),
        VecDeque::new(),
    );
    let (mut present, _) = app_with_cache(
        backend,
        FakeCacheState {
            bootstrap: cached.clone(),
            full_notes: HashMap::from([(empty.summary.id.clone(), empty)]),
            ..Default::default()
        },
    );
    present.bootstrap_cache();
    let (missing_backend, _) = scripted_backend(
        VecDeque::new(),
        VecDeque::new(),
        VecDeque::new(),
        VecDeque::new(),
    );
    let (mut missing, _) = app_with_cache(
        missing_backend,
        FakeCacheState {
            bootstrap: cached,
            ..Default::default()
        },
    );
    missing.bootstrap_cache();
    assert!(present.shown.selected_note.is_some());
    assert_eq!(present.shown.cached_preview_state, None);
    assert!(matches!(
        missing.shown.cached_preview_state,
        Some(CachedPreviewState::MissingFullNote)
    ));
}

#[test]
fn cached_preview_cache_read_failure_is_safe() {
    let cached = cached_state_with_notes(&[("a", "A")]);
    let (backend, calls) = scripted_backend(
        VecDeque::from([Err(backend_error("offline"))]),
        VecDeque::new(),
        VecDeque::new(),
        VecDeque::new(),
    );
    let (mut app, cache) = app_with_cache(
        backend,
        FakeCacheState {
            bootstrap: cached,
            failure: Some(CacheFailurePoint::LoadNote),
            ..Default::default()
        },
    );
    app.bootstrap_cache();
    app.refresh();
    assert!(matches!(
        app.shown.data_source,
        DataSourceState::CachedBackendUnavailable { .. }
    ));
    assert!(matches!(
        app.shown.cached_preview_state,
        Some(CachedPreviewState::ReadError(_))
    ));
    assert_eq!(app.selected_note_id(), Some(NoteId::new("a")));
    assert_eq!(cache.lock().unwrap().load_note_calls, 1);
    assert_eq!(*calls.lock().unwrap(), vec![BackendCall::Accounts]);
}

#[test]
fn cached_full_note_does_not_enable_editing() {
    let cached = cached_state_with_notes(&[("a", "A")]);
    let full = demo_note("a", "demo-notes", "A", "cached body");
    let (backend, calls) = scripted_backend(
        VecDeque::new(),
        VecDeque::new(),
        VecDeque::new(),
        VecDeque::new(),
    );
    let (mut app, cache) = app_with_cache(
        backend,
        FakeCacheState {
            bootstrap: cached,
            full_notes: HashMap::from([(full.summary.id.clone(), full.clone())]),
            ..Default::default()
        },
    );
    app.bootstrap_cache();
    app.handle_key(KeyEvent::plain(KeyCode::Char('e')));
    assert_eq!(app.shown.mode, AppMode::Normal);
    assert!(app.edit.is_none());
    assert_eq!(app.shown.selected_note, Some(full));
    assert!(calls.lock().unwrap().is_empty());
    assert_eq!(cache.lock().unwrap().upsert_note_calls, 0);
}

#[test]
fn successful_live_get_note_upserts_full_note_cache() {
    let fixture = refresh_fixture_with_notes(&[("live-a", "Live A")]);
    let (backend, _) = successful_scripted_backend(&fixture);
    let (mut app, cache) = app_with_cache(backend, FakeCacheState::default());
    app.refresh();
    let cache = cache.lock().unwrap();
    assert_eq!(cache.upsert_note_calls, 1);
    assert_eq!(cache.upsert_note_ids, vec![fixture.selected_id.clone()]);
    assert_eq!(
        cache.full_notes.get(&fixture.selected_id),
        Some(&fixture.selected_note)
    );
}

#[test]
fn failed_live_get_note_does_not_upsert_full_note_cache() {
    let fixture = refresh_fixture_with_notes(&[("live-a", "Live A")]);
    let (backend, _) = scripted_backend(
        VecDeque::from([Ok(fixture.accounts.clone())]),
        VecDeque::from([ScriptedFoldersCall {
            expected: None,
            outcome: Ok(fixture.folders.clone()),
        }]),
        VecDeque::from([ScriptedNotesCall {
            expected: fixture.query.clone(),
            outcome: Ok(fixture.page),
        }]),
        VecDeque::from([ScriptedGetNoteCall {
            expected: fixture.selected_id,
            outcome: Err(backend_error("get failed")),
        }]),
    );
    let (mut app, cache) = app_with_cache(backend, FakeCacheState::default());
    app.refresh();
    assert!(app.status.is_error);
    assert_eq!(cache.lock().unwrap().upsert_note_calls, 0);
}

#[test]
fn cache_upsert_failure_after_live_get_note_keeps_live_preview() {
    let fixture = refresh_fixture_with_notes(&[("live-a", "Live A")]);
    let (backend, _) = successful_scripted_backend(&fixture);
    let (mut app, cache) = app_with_cache(
        backend,
        FakeCacheState {
            failure: Some(CacheFailurePoint::UpsertNote),
            ..Default::default()
        },
    );
    app.refresh();
    assert_eq!(app.shown.data_source, DataSourceState::Live);
    assert_eq!(app.shown.selected_note, Some(fixture.selected_note));
    assert!(app.status.text.contains("cache warning"));
    assert!(!app.status.is_error);
    assert_eq!(cache.lock().unwrap().upsert_note_calls, 1);
}

#[test]
fn live_preview_still_uses_backend_get_note() {
    let fixture = refresh_fixture_with_notes(&[("live-a", "Live A")]);
    let (backend, calls) = successful_scripted_backend(&fixture);
    let (mut app, cache) = app_with_cache(backend, FakeCacheState::default());
    app.refresh();
    assert_eq!(app.shown.data_source, DataSourceState::Live);
    assert!(calls
        .lock()
        .unwrap()
        .contains(&BackendCall::GetNote(fixture.selected_id.clone())));
    let cache = cache.lock().unwrap();
    assert_eq!(cache.load_note_calls, 0);
    assert_eq!(cache.upsert_note_ids, vec![fixture.selected_id]);
}

#[test]
fn successful_create_updates_cache() {
    let (mut app, counts, cache) = create_cache_app(false, None);
    save_new_note(&mut app, "Cached create", "created body");

    assert_eq!(counts.creates.get(), 1);
    assert_eq!(app.shown.data_source, DataSourceState::Live);
    let created = app.shown.selected_note.clone().expect("created note selected");
    assert_eq!(created.summary.name, "Cached create");
    assert!(app.data.notes.iter().any(|note| note.id == created.summary.id));

    let cache = cache.lock().unwrap();
    assert_eq!(cache.upsert_note_calls, 1);
    assert_eq!(cache.upsert_note_ids, vec![created.summary.id.clone()]);
    assert_eq!(cache.full_notes.get(&created.summary.id), Some(&created));
    assert_eq!(cache.replace_snapshot_calls, 1);
    assert!(cache.replaced_snapshots[0]
        .notes
        .iter()
        .any(|note| note.id == created.summary.id));
}

#[test]
fn failed_create_does_not_update_cache() {
    let (mut app, counts, cache) = create_cache_app(true, None);
    let original_ids = note_ids(&app);
    save_new_note(&mut app, "Unsaved create", "must not persist");

    assert_eq!(counts.creates.get(), 1);
    assert_eq!(note_ids(&app), original_ids);
    assert!(app.edit.as_ref().is_some_and(|edit| edit.is_new));
    assert!(app.status.is_error);
    let cache = cache.lock().unwrap();
    assert_eq!(cache.upsert_note_calls, 0);
    assert_eq!(cache.replace_snapshot_calls, 0);
    assert!(cache.full_notes.is_empty());
}

#[test]
fn cache_upsert_failure_after_successful_create_is_warning_only() {
    let (mut app, counts, cache) = create_cache_app(false, Some(CacheFailurePoint::UpsertNote));
    save_new_note(&mut app, "Upsert warning", "created body");

    assert_eq!(counts.creates.get(), 1);
    assert_eq!(app.shown.data_source, DataSourceState::Live);
    assert!(app.shown.selected_note.is_some());
    assert!(app.status.text.contains("cache warning"));
    assert!(!app.status.is_error);
    let cache = cache.lock().unwrap();
    assert_eq!(cache.upsert_note_calls, 1);
    assert_eq!(cache.replace_snapshot_calls, 1);
    assert_eq!(cache.replaced_snapshots.len(), 1);
}

#[test]
fn cache_snapshot_failure_after_successful_create_is_warning_only() {
    let (mut app, counts, cache) =
        create_cache_app(false, Some(CacheFailurePoint::ReplaceSnapshot));
    save_new_note(&mut app, "Snapshot warning", "created body");

    assert_eq!(counts.creates.get(), 1);
    assert_eq!(app.shown.data_source, DataSourceState::Live);
    assert!(app.shown.selected_note.is_some());
    assert!(app.status.text.contains("cache warning"));
    assert!(!app.status.is_error);
    let cache = cache.lock().unwrap();
    assert_eq!(cache.upsert_note_calls, 1);
    assert_eq!(cache.replace_snapshot_calls, 1);
}

#[test]
fn successful_update_updates_cache() {
    let (mut app, counts, cache) = update_cache_app(false, None);
    let original_id = app.selected_note_id().expect("selected note");
    save_updated_note(&mut app, " · updated", " updated body");

    assert_eq!(counts.updates.get(), 1);
    assert_eq!(app.shown.data_source, DataSourceState::Live);
    assert_eq!(app.selected_note_id(), Some(original_id.clone()));
    let updated = app.shown.selected_note.clone().expect("updated selected note");
    assert_eq!(updated.summary.id, original_id);
    assert!(updated.summary.name.ends_with(" · updated"));
    assert!(updated.plaintext.contains("updated body"));
    assert!(app
        .data.notes
        .iter()
        .any(|summary| summary.id == original_id && summary.name == updated.summary.name));

    let cache = cache.lock().unwrap();
    assert_eq!(cache.upsert_note_calls, 1);
    assert_eq!(cache.upsert_note_ids, vec![original_id.clone()]);
    assert_eq!(cache.full_notes.get(&original_id), Some(&updated));
    assert_eq!(cache.replace_snapshot_calls, 1);
    assert!(cache.replaced_snapshots[0]
        .notes
        .iter()
        .any(|summary| summary.id == original_id && summary.name == updated.summary.name));
}

#[test]
fn failed_update_does_not_update_cache() {
    let (mut app, counts, cache) = update_cache_app(true, None);
    let original_id = app.selected_note_id().expect("selected note");
    save_updated_note(&mut app, " · unsaved", " unsaved body");

    assert_eq!(counts.updates.get(), 1);
    assert_eq!(app.selected_note_id(), Some(original_id));
    let edit = app.edit.as_ref().expect("editor remains open");
    assert!(edit.dirty);
    assert!(edit.title_buffer.ends_with(" · unsaved"));
    assert!(current_body_text(&app).contains("unsaved body"));
    assert!(app.status.is_error);
    let cache = cache.lock().unwrap();
    assert_eq!(cache.upsert_note_calls, 0);
    assert_eq!(cache.replace_snapshot_calls, 0);
    assert!(cache.full_notes.is_empty());
}

#[test]
fn cache_upsert_failure_after_successful_update_is_warning_only() {
    let (mut app, counts, cache) = update_cache_app(false, Some(CacheFailurePoint::UpsertNote));
    let original_id = app.selected_note_id().expect("selected note");
    save_updated_note(&mut app, " · warning", " updated body");

    assert_eq!(counts.updates.get(), 1);
    assert_eq!(app.shown.data_source, DataSourceState::Live);
    assert_eq!(app.selected_note_id(), Some(original_id));
    assert!(app
        .shown.selected_note
        .as_ref()
        .is_some_and(|note| note.summary.name.ends_with(" · warning")));
    assert!(app.status.text.contains("cache warning"));
    assert!(!app.status.is_error);
    let cache = cache.lock().unwrap();
    assert_eq!(cache.upsert_note_calls, 1);
    assert_eq!(cache.replace_snapshot_calls, 1);
    assert_eq!(cache.replaced_snapshots.len(), 1);
}

#[test]
fn cache_snapshot_failure_after_successful_update_is_warning_only() {
    let (mut app, counts, cache) =
        update_cache_app(false, Some(CacheFailurePoint::ReplaceSnapshot));
    let original_id = app.selected_note_id().expect("selected note");
    save_updated_note(&mut app, " · snapshot", " updated body");

    assert_eq!(counts.updates.get(), 1);
    assert_eq!(app.shown.data_source, DataSourceState::Live);
    assert_eq!(app.selected_note_id(), Some(original_id));
    assert!(app
        .shown.selected_note
        .as_ref()
        .is_some_and(|note| note.summary.name.ends_with(" · snapshot")));
    assert!(app.status.text.contains("cache warning"));
    assert!(!app.status.is_error);
    let cache = cache.lock().unwrap();
    assert_eq!(cache.upsert_note_calls, 1);
    assert_eq!(cache.replace_snapshot_calls, 1);
}

#[test]
fn dirty_editor_changes_are_not_persisted_before_backend_save() {
    let (mut app, counts, cache) = update_cache_app(true, None);
    app.handle_key(KeyEvent::plain(KeyCode::Char('e')));
    type_text(&mut app, " unsaved body");
    app.handle_key(KeyEvent::plain(KeyCode::Tab));
    type_text(&mut app, " · unsaved");
    assert!(app.edit.as_ref().is_some_and(|edit| edit.dirty));
    {
        let cache = cache.lock().unwrap();
        assert_eq!(cache.upsert_note_calls, 0);
        assert_eq!(cache.replace_snapshot_calls, 0);
    }

    app.handle_key(modified('s', Held::Control));
    poll_update_until_idle(&mut app);
    assert_eq!(counts.updates.get(), 1);
    let cache = cache.lock().unwrap();
    assert_eq!(cache.upsert_note_calls, 0);
    assert_eq!(cache.replace_snapshot_calls, 0);
}

#[test]
fn successful_conflict_overwrite_updates_cache() {
    let (mut app, counts, cache) = update_cache_app(false, None);
    let original_id = app.selected_note_id().expect("selected note");
    save_conflict_overwrite(&mut app, &counts, " · overwrite", " overwritten body");

    assert_eq!(counts.updates.get(), 1);
    assert_eq!(app.shown.data_source, DataSourceState::Live);
    assert_eq!(app.selected_note_id(), Some(original_id.clone()));
    let overwritten = app.shown.selected_note.clone().expect("overwritten note");
    assert_eq!(overwritten.summary.id, original_id);
    assert!(overwritten.summary.name.ends_with(" · overwrite"));
    assert!(overwritten.plaintext.contains("overwritten body"));

    let cache = cache.lock().unwrap();
    assert_eq!(cache.upsert_note_calls, 1);
    assert_eq!(cache.upsert_note_ids, vec![original_id.clone()]);
    assert_eq!(cache.full_notes.get(&original_id), Some(&overwritten));
    assert_eq!(cache.replace_snapshot_calls, 1);
    assert!(cache.replaced_snapshots[0]
        .notes
        .iter()
        .any(|summary| summary.id == original_id && summary.name == overwritten.summary.name));
}

#[test]
fn failed_conflict_overwrite_does_not_update_cache() {
    let (mut app, counts, cache) = update_cache_app(true, None);
    let original = app.shown.selected_note.clone().expect("selected note");
    save_conflict_overwrite(&mut app, &counts, " · unsaved", " unsaved body");

    assert_eq!(counts.updates.get(), 1);
    assert!(app.popup.is_none());
    assert_eq!(app.shown.selected_note, Some(original));
    let edit = app.edit.as_ref().expect("editor remains open");
    assert!(edit.dirty);
    assert!(edit.title_buffer.ends_with(" · unsaved"));
    assert!(current_body_text(&app).contains("unsaved body"));
    assert!(app.status.is_error);
    let cache = cache.lock().unwrap();
    assert_eq!(cache.upsert_note_calls, 0);
    assert_eq!(cache.replace_snapshot_calls, 0);
    assert!(cache.full_notes.is_empty());
}

#[test]
fn cache_upsert_failure_after_successful_conflict_overwrite_is_warning_only() {
    let (mut app, counts, cache) = update_cache_app(false, Some(CacheFailurePoint::UpsertNote));
    let original_id = app.selected_note_id().expect("selected note");
    save_conflict_overwrite(&mut app, &counts, " · warning", " overwritten body");

    assert_eq!(counts.updates.get(), 1);
    assert_eq!(app.shown.data_source, DataSourceState::Live);
    assert_eq!(app.selected_note_id(), Some(original_id));
    assert!(app
        .shown.selected_note
        .as_ref()
        .is_some_and(|note| note.summary.name.ends_with(" · warning")));
    assert!(app.status.text.contains("cache warning"));
    assert!(!app.status.is_error);
    let cache = cache.lock().unwrap();
    assert_eq!(cache.upsert_note_calls, 1);
    assert_eq!(cache.replace_snapshot_calls, 1);
    assert_eq!(cache.replaced_snapshots.len(), 1);
}

#[test]
fn cache_snapshot_failure_after_successful_conflict_overwrite_is_warning_only() {
    let (mut app, counts, cache) =
        update_cache_app(false, Some(CacheFailurePoint::ReplaceSnapshot));
    let original_id = app.selected_note_id().expect("selected note");
    save_conflict_overwrite(&mut app, &counts, " · snapshot", " overwritten body");

    assert_eq!(counts.updates.get(), 1);
    assert_eq!(app.shown.data_source, DataSourceState::Live);
    assert_eq!(app.selected_note_id(), Some(original_id));
    assert!(app
        .shown.selected_note
        .as_ref()
        .is_some_and(|note| note.summary.name.ends_with(" · snapshot")));
    assert!(app.status.text.contains("cache warning"));
    assert!(!app.status.is_error);
    let cache = cache.lock().unwrap();
    assert_eq!(cache.upsert_note_calls, 1);
    assert_eq!(cache.replace_snapshot_calls, 1);
}

#[test]
fn successful_move_updates_cache() {
    let (mut app, counts, cache) = move_cache_app(false, None);
    let moved_id = app.selected_note_id().expect("selected note");
    move_selected_note_to_next_folder(&mut app);

    assert_eq!(counts.moves.get(), 1);
    assert_eq!(app.shown.data_source, DataSourceState::Live);
    assert!(!app.data.notes.iter().any(|summary| summary.id == moved_id));
    assert!(app.selected_note_id().is_none_or(|id| id != moved_id));
    let cache = cache.lock().unwrap();
    assert_eq!(cache.upsert_note_calls, 1);
    assert_eq!(cache.upsert_note_ids, vec![moved_id.clone()]);
    let moved = cache
        .full_notes
        .get(&moved_id)
        .expect("moved full note cached");
    assert_eq!(moved.summary.folder_id, FolderId::new("demo-work"));
    assert_eq!(cache.replace_snapshot_calls, 1);
    assert_eq!(cache.replaced_snapshots[0].notes, app.data.notes);
    assert!(!cache.replaced_snapshots[0]
        .notes
        .iter()
        .any(|summary| summary.id == moved_id));
}

#[test]
fn failed_move_does_not_update_cache() {
    let (mut app, counts, cache) = move_cache_app(true, None);
    let selected = app.selected_note_id().expect("selected note");
    let before_notes = app.data.notes.clone();
    move_selected_note_to_next_folder(&mut app);

    assert_eq!(counts.moves.get(), 1);
    assert_eq!(app.selected_note_id(), Some(selected));
    assert_eq!(app.data.notes, before_notes);
    assert!(app.status.is_error);
    let cache = cache.lock().unwrap();
    assert_eq!(cache.upsert_note_calls, 0);
    assert_eq!(cache.replace_snapshot_calls, 0);
    assert!(cache.full_notes.is_empty());
}

#[test]
fn cache_snapshot_failure_after_successful_move_is_warning_only() {
    let (mut app, counts, cache) =
        move_cache_app(false, Some(CacheFailurePoint::ReplaceSnapshot));
    let moved_id = app.selected_note_id().expect("selected note");
    move_selected_note_to_next_folder(&mut app);

    assert_eq!(counts.moves.get(), 1);
    assert_eq!(app.shown.data_source, DataSourceState::Live);
    assert!(!app.data.notes.iter().any(|summary| summary.id == moved_id));
    assert!(app.status.text.contains("cache warning"));
    assert!(!app.status.is_error);
    let cache = cache.lock().unwrap();
    assert_eq!(cache.upsert_note_calls, 1);
    assert_eq!(cache.upsert_note_ids, vec![moved_id]);
    assert_eq!(cache.replace_snapshot_calls, 1);
}

#[test]
fn cache_upsert_failure_after_successful_move_is_warning_only() {
    let (mut app, counts, cache) = move_cache_app(false, Some(CacheFailurePoint::UpsertNote));
    let moved_id = app.selected_note_id().expect("selected note");
    move_selected_note_to_next_folder(&mut app);

    assert_eq!(counts.moves.get(), 1);
    assert_eq!(app.shown.data_source, DataSourceState::Live);
    assert!(!app.data.notes.iter().any(|summary| summary.id == moved_id));
    assert!(app.status.text.contains("cache warning"));
    assert!(!app.status.is_error);
    let cache = cache.lock().unwrap();
    assert_eq!(cache.upsert_note_calls, 1);
    assert_eq!(cache.upsert_note_ids, vec![moved_id]);
    assert_eq!(cache.replace_snapshot_calls, 1);
    assert_eq!(cache.replaced_snapshots.len(), 1);
}

#[test]
fn successful_delete_updates_cache() {
    let (mut app, counts, cache) = delete_cache_app(false, None);
    let deleted = app.shown.selected_note.clone().expect("selected note");
    let unrelated = demo_note("unrelated-full-note", "demo-work", "Unrelated", "body");
    cache.lock().unwrap().full_notes = HashMap::from([
        (deleted.summary.id.clone(), deleted.clone()),
        (unrelated.summary.id.clone(), unrelated.clone()),
    ]);
    confirm_delete(&mut app);

    assert_eq!(counts.deletes.get(), 1);
    assert_eq!(app.shown.data_source, DataSourceState::Live);
    assert_eq!(app.status.text, "Moved to Recently Deleted");
    assert!(!app
        .data.notes
        .iter()
        .any(|summary| summary.id == deleted.summary.id));
    let cache = cache.lock().unwrap();
    assert_eq!(cache.upsert_note_calls, 0);
    assert_eq!(cache.remove_note_calls, 1);
    assert_eq!(cache.removed_note_ids, vec![deleted.summary.id.clone()]);
    assert_eq!(cache.full_notes.get(&deleted.summary.id), None);
    assert_eq!(
        cache.full_notes.get(&unrelated.summary.id),
        Some(&unrelated)
    );
    assert_eq!(cache.replace_snapshot_calls, 1);
    assert!(cache.replaced_snapshots[0]
        .notes
        .iter()
        .all(|summary| summary.id != deleted.summary.id));
    assert!(cache.replaced_snapshots[0]
        .notes
        .iter()
        .all(|summary| summary.id != unrelated.summary.id));
}

#[test]
fn failed_delete_does_not_update_cache() {
    let (mut app, counts, cache) = delete_cache_app(true, None);
    let selected = app.selected_note_id().expect("selected note");
    let cached = app.shown.selected_note.clone().expect("full note");
    cache
        .lock()
        .unwrap()
        .full_notes
        .insert(selected.clone(), cached.clone());
    let before_notes = app.data.notes.clone();
    confirm_delete(&mut app);

    assert_eq!(counts.deletes.get(), 1);
    assert_eq!(app.selected_note_id(), Some(selected.clone()));
    assert_eq!(app.data.notes, before_notes);
    assert!(app.status.is_error);
    let cache = cache.lock().unwrap();
    assert_eq!(cache.remove_note_calls, 0);
    assert_eq!(cache.replace_snapshot_calls, 0);
    assert_eq!(cache.full_notes.get(&selected), Some(&cached));
}

#[test]
fn cache_remove_failure_after_successful_delete_is_warning_only() {
    let (mut app, counts, cache) = delete_cache_app(false, Some(CacheFailurePoint::RemoveNote));
    let deleted_id = app.selected_note_id().expect("selected note");
    confirm_delete(&mut app);

    assert_eq!(counts.deletes.get(), 1);
    assert_eq!(app.shown.data_source, DataSourceState::Live);
    assert!(!app.data.notes.iter().any(|summary| summary.id == deleted_id));
    assert!(app.status.text.contains("cache warning"));
    assert!(!app.status.is_error);
    let cache = cache.lock().unwrap();
    assert_eq!(cache.remove_note_calls, 1);
    assert_eq!(cache.removed_note_ids, vec![deleted_id]);
    assert_eq!(cache.replace_snapshot_calls, 1);
    assert_eq!(cache.replaced_snapshots.len(), 1);
}

#[test]
fn cache_snapshot_failure_after_successful_delete_is_warning_only() {
    let (mut app, counts, cache) =
        delete_cache_app(false, Some(CacheFailurePoint::ReplaceSnapshot));
    let deleted_id = app.selected_note_id().expect("selected note");
    confirm_delete(&mut app);

    assert_eq!(counts.deletes.get(), 1);
    assert_eq!(app.shown.data_source, DataSourceState::Live);
    assert!(!app.data.notes.iter().any(|summary| summary.id == deleted_id));
    assert!(app.status.text.contains("cache warning"));
    assert!(!app.status.is_error);
    let cache = cache.lock().unwrap();
    assert_eq!(cache.remove_note_calls, 1);
    assert_eq!(cache.removed_note_ids, vec![deleted_id]);
    assert_eq!(cache.replace_snapshot_calls, 1);
}

#[test]
fn periodic_refresh_runs_once_when_interval_elapsed_without_a_storm() {
    let (mut app, counts) = periodic_app();
    let due = periodic_due(&app);
    app.periodic_refresh_at(due);
    poll_periodic_until_idle(&mut app);
    assert_eq!(counts.accounts.get(), 1);
    assert_eq!(counts.folders.get(), 1);
    assert_eq!(counts.notes.get(), 1);
    assert_eq!(counts.gets.get(), 1);

    app.periodic_refresh_at(due);
    assert_eq!(counts.accounts.get(), 1);
    assert_eq!(counts.folders.get(), 1);
    assert_eq!(counts.notes.get(), 1);
}

#[test]
fn periodic_refresh_does_not_run_before_interval() {
    let (mut app, counts) = periodic_app();
    app.periodic_refresh_at(periodic_due(&app) - Duration::from_millis(1));
    assert_eq!(counts.accounts.get(), 0);
    assert_eq!(counts.folders.get(), 0);
    assert_eq!(counts.notes.get(), 0);
}

#[test]
fn periodic_refresh_is_deferred_for_dirty_editor_then_runs_when_safe() {
    let (mut app, counts) = periodic_app();
    app.handle_key(KeyEvent::plain(KeyCode::Char('e')));
    type_text(&mut app, "dirty");
    let due = periodic_due(&app);
    app.periodic_refresh_at(due);
    assert!(app.background.refresh_due);
    assert_eq!(counts.accounts.get(), 0);

    app.handle_key(modified('c', Held::Control));
    assert!(app.edit.is_none());
    app.periodic_refresh_at(due);
    poll_periodic_until_idle(&mut app);
    assert_eq!(counts.accounts.get(), 1);
    assert!(!app.background.refresh_due);
}

#[test]
fn periodic_refresh_is_blocked_by_mutation_popup() {
    let (mut app, counts) = periodic_app();
    app.handle_key(KeyEvent::plain(KeyCode::Char('D')));
    let due = periodic_due(&app);
    app.periodic_refresh_at(due);
    assert_eq!(counts.accounts.get(), 0);
    assert!(app.background.refresh_due);
    app.handle_key(KeyEvent::plain(KeyCode::Esc));
    app.periodic_refresh_at(due);
    poll_periodic_until_idle(&mut app);
    assert_eq!(counts.accounts.get(), 1);
}

#[test]
fn periodic_refresh_preserves_selection_and_recomputes_active_search() {
    let (mut app, counts) = periodic_app();
    apply_search(&mut app, "alpha");
    let selected = app.selected_note_id().expect("selected alpha note");
    let before = visible_names(&app);
    app.periodic_refresh_at(periodic_due(&app));
    poll_periodic_until_idle(&mut app);
    assert_eq!(counts.accounts.get(), 1);
    assert!(matches!(app.search, SearchState::Active(_)));
    assert_eq!(visible_names(&app), before);
    assert_eq!(app.selected_note_id(), Some(selected));
}

#[test]
fn manual_refresh_resets_periodic_timer() {
    let (mut app, counts) = periodic_app();
    app.handle_key(KeyEvent::plain(KeyCode::Char('r')));
    poll_periodic_until_idle(&mut app);
    assert_eq!(counts.accounts.get(), 1);
    let after_manual = app.last_attempt();
    app.periodic_refresh_at(after_manual + app.interval() - Duration::from_millis(1));
    assert_eq!(counts.accounts.get(), 1);
}

#[test]
fn periodic_refresh_recovers_cached_backend_unavailable_to_live() {
    let fixture = scripted_refresh_fixture();
    let cached = cached_state_with_notes(&[("cached", "Cached note")]);
    let (backend, _) = scripted_backend(
        VecDeque::from([
            Err(backend_error("offline")),
            Ok(fixture.accounts),
        ]),
        VecDeque::from([ScriptedFoldersCall {
            expected: None,
            outcome: Ok(fixture.folders),
        }]),
        VecDeque::from([ScriptedNotesCall {
            expected: fixture.query.clone(),
            outcome: Ok(fixture.page),
        }]),
        VecDeque::from([ScriptedGetNoteCall {
            expected: fixture.selected_id.clone(),
            outcome: Ok(fixture.selected_note),
        }]),
    );
    let (mut app, _) = app_with_cache(
        backend,
        FakeCacheState {
            bootstrap: cached,
            ..Default::default()
        },
    );
    app.bootstrap_cache();
    app.refresh();
    assert!(matches!(
        app.shown.data_source,
        DataSourceState::CachedBackendUnavailable { .. }
    ));
    app.periodic_refresh_at(periodic_due(&app));
    poll_periodic_until_idle(&mut app);
    assert_eq!(app.shown.data_source, DataSourceState::Live);
    assert_eq!(app.selected_note_id(), Some(fixture.selected_id));
}

#[test]
fn failed_periodic_refresh_preserves_cached_runtime() {
    let cached = cached_state_with_notes(&[("cached", "Cached note")]);
    let expected_notes = cached.notes.clone();
    let (backend, _) = scripted_backend(
        VecDeque::from([
            Err(backend_error("offline")),
            Err(backend_error("still offline")),
        ]),
        VecDeque::new(),
        VecDeque::new(),
        VecDeque::new(),
    );
    let (mut app, _) = app_with_cache(
        backend,
        FakeCacheState {
            bootstrap: cached,
            ..Default::default()
        },
    );
    app.bootstrap_cache();
    app.refresh();
    app.periodic_refresh_at(periodic_due(&app));
    poll_periodic_until_idle(&mut app);
    assert!(matches!(
        app.shown.data_source,
        DataSourceState::CachedBackendUnavailable { .. }
    ));
    assert_eq!(app.data.notes, expected_notes);
    assert!(!app.background.refresh_due);
}

#[test]
fn periodic_refresh_starts_worker_without_blocking_ui_and_discards_stale_result() {
    let (mut app, _, started, release) = blocking_periodic_app();
    let original_index = app.shown.selected_note_index;
    app.periodic_refresh_at(periodic_due(&app));
    started.recv().expect("worker entered backend read");
    assert!(app.periodic_refresh_in_flight());

    app.handle_key(KeyEvent::plain(KeyCode::Tab));
    app.handle_key(KeyEvent::plain(KeyCode::Char('j')));
    assert_ne!(app.shown.selected_note_index, original_index);
    app.handle_key(KeyEvent::plain(KeyCode::Char('r')));
    assert!(matches!(
        app.background.pending_intent,
        Some(PendingForegroundIntent::ManualRefresh)
    ));

    let _ = release.send(());
    poll_periodic_until_idle(&mut app);
    assert!(!app.background.refresh_due, "queued manual refresh resets the timer");
}

#[test]
fn periodic_refresh_applies_worker_result_once_and_bounds_due_retry() {
    let (mut app, _, started, release) = blocking_periodic_app();
    let due = periodic_due(&app);
    app.periodic_refresh_at(due);
    started.recv().expect("worker entered backend read");
    app.periodic_refresh_at(due + app.interval());
    app.periodic_refresh_at(due + app.interval());
    assert!(app.periodic_refresh_in_flight());

    let _ = release.send(());
    poll_periodic_until_idle(&mut app);
    assert_eq!(app.shown.data_source, DataSourceState::Live);
    assert!(
        app.background.refresh_due,
        "multiple elapsed ticks coalesce into one due retry"
    );

    app.periodic_refresh_at(due + app.interval());
    poll_periodic_until_idle(&mut app);
    assert!(!app.periodic_refresh_in_flight());
}

#[test]
fn queued_create_intent_opens_editor_without_creating_note() {
    let (mut app, counts, started, release) = blocking_periodic_app();
    app.periodic_refresh_at(periodic_due(&app));
    started.recv().expect("worker entered backend read");
    app.handle_key(KeyEvent::plain(KeyCode::Char('n')));
    assert_eq!(
        app.background.pending_intent,
        Some(PendingForegroundIntent::BeginNew)
    );
    let _ = release.send(());
    poll_periodic_until_idle(&mut app);
    assert_eq!(app.shown.mode, AppMode::Insert);
    assert!(app.edit.as_ref().is_some_and(|edit| edit.is_new));
    assert_eq!(counts.creates.get(), 0);
}

#[test]
fn queued_child_folder_create_intent_opens_popup_without_creating() {
    let (mut app, counts, started, release) = blocking_periodic_app();
    app.shown.focus = Focus::Navigation;
    let account_id = app.selected_account_id().expect("parent account");
    let parent_id = app.selected_folder_id().cloned().expect("parent selected");
    let parent_name = match &app.data.navigation[app.shown.selected_navigation] {
        NavigationItem::Folder { name, .. } => name.clone(),
        _ => panic!("selected navigation item should be a folder"),
    };
    app.periodic_refresh_at(periodic_due(&app));
    started.recv().expect("read-refresh worker entered backend");

    app.handle_key(KeyEvent::plain(KeyCode::Char('C')));
    assert_eq!(
        app.background.pending_intent,
        Some(PendingForegroundIntent::BeginCreateChildFolder {
            account_id: account_id.clone(),
            parent_folder_id: parent_id.clone(),
            parent_folder_name: parent_name.clone(),
        })
    );
    assert_eq!(counts.child_folders_created.get(), 0);
    assert!(!app.background.update_running);
    assert!(app.popup.is_none());

    let _ = release.send(());
    poll_periodic_until_idle(&mut app);

    assert!(matches!(
        &app.popup,
        Some(Popup::CreateChildFolder {
            account_id: actual_account,
            parent_folder_id: actual_parent,
            parent_folder_name: actual_name,
            name,
            cursor,
        }) if actual_account == &account_id
            && actual_parent == &parent_id
            && actual_name == &parent_name
            && name.is_empty()
            && *cursor == 0
    ));
    assert_eq!(counts.child_folders_created.get(), 0);
    assert!(!app.background.update_running);
}

#[test]
fn queued_folder_reparent_intent_opens_popup_without_moving() {
    let (mut app, counts, started, release) = blocking_periodic_app();
    app.shown.focus = Focus::Navigation;
    let account_id = app.selected_account_id().expect("source account");
    let folder_id = app.selected_folder_id().cloned().expect("source folder");
    app.periodic_refresh_at(periodic_due(&app));
    started.recv().expect("read-refresh worker entered backend");
    app.handle_key(KeyEvent::plain(KeyCode::Char('M')));
    assert_eq!(
        app.background.pending_intent,
        Some(PendingForegroundIntent::BeginReparentFolder {
            account_id: account_id.clone(),
            folder_id: folder_id.clone(),
            folder_name: "Notes".into(),
        })
    );
    assert_eq!(counts.folders_reparented.get(), 0);
    let _ = release.send(());
    poll_periodic_until_idle(&mut app);
    assert!(matches!(
        &app.popup,
        Some(Popup::ReparentFolder { account_id: actual_account, folder_id: actual_folder, .. })
            if actual_account == &account_id && actual_folder == &folder_id
    ));
    assert_eq!(counts.folders_reparented.get(), 0);
}

#[test]
fn queued_delete_intent_opens_confirmation_without_deleting() {
    let (mut app, counts, started, release) = blocking_periodic_app();
    app.periodic_refresh_at(periodic_due(&app));
    started.recv().expect("worker entered backend read");
    app.handle_key(KeyEvent::plain(KeyCode::Char('D')));
    let _ = release.send(());
    poll_periodic_until_idle(&mut app);
    assert!(matches!(app.popup, Some(Popup::DeleteConfirm(_))));
    assert_eq!(counts.deletes.get(), 0);
}

#[test]
fn queued_folder_delete_intent_opens_folder_confirmation_without_deleting() {
    let (mut app, counts, started, release) = blocking_periodic_app();
    app.shown.focus = Focus::Navigation;
    let folder_id = app.selected_folder_id().cloned().expect("selected folder");
    app.data.notes.clear();
    app.shown.selected_note = None;
    app.periodic_refresh_at(periodic_due(&app));
    started.recv().expect("worker entered backend read");
    app.handle_key(KeyEvent::plain(KeyCode::Char('D')));
    assert_eq!(
        app.background.pending_intent,
        Some(PendingForegroundIntent::BeginDeleteFolder)
    );
    let _ = release.send(());
    poll_periodic_until_idle(&mut app);
    assert!(matches!(
        &app.popup,
        Some(Popup::DeleteFolder { folder_id: actual, .. }) if actual == &folder_id
    ));
    assert_eq!(counts.folders_deleted.get(), 0);
}

#[test]
fn foreground_intent_cancels_periodic_refresh_and_releases_backend_for_delete() {
    let (mut app, counts, started, _release) = blocking_periodic_app();
    app.periodic_refresh_at(periodic_due(&app));
    started.recv().expect("worker entered backend read");
    app.handle_key(KeyEvent::plain(KeyCode::Char('D')));
    assert_eq!(
        app.background.pending_intent,
        Some(PendingForegroundIntent::BeginDelete)
    );
    poll_periodic_until_idle(&mut app);
    assert!(matches!(app.popup, Some(Popup::DeleteConfirm(_))));
    assert_eq!(counts.deletes.get(), 0);
    assert_eq!(app.shown.data_source, DataSourceState::Live);
}

#[test]
fn manual_refresh_starts_worker_without_blocking_ui() {
    let (mut app, _counts, started, release) = blocking_periodic_app();
    let original = app.shown.focus;
    app.handle_key(KeyEvent::plain(KeyCode::Char('r')));
    started.recv().expect("manual worker entered backend read");
    assert!(app.periodic_refresh_in_flight());
    app.handle_key(KeyEvent::plain(KeyCode::Tab));
    assert_ne!(app.shown.focus, original);
    let _ = release.send(());
    poll_periodic_until_idle(&mut app);
}

#[test]
fn manual_refresh_cancels_periodic_refresh_then_runs_once() {
    let (mut app, counts, started, _release) = blocking_periodic_app();
    app.periodic_refresh_at(periodic_due(&app));
    started.recv().expect("worker entered backend read");
    app.handle_key(KeyEvent::plain(KeyCode::Char('r')));
    poll_periodic_until_idle(&mut app);
    assert_eq!(counts.accounts.get(), 2);
    assert!(!app.periodic_refresh_in_flight());
}

#[test]
fn queued_move_intent_opens_normal_move_flow() {
    let (mut app, _, started, release) = blocking_periodic_app();
    app.periodic_refresh_at(periodic_due(&app));
    started.recv().expect("worker entered backend read");
    app.handle_key(KeyEvent::plain(KeyCode::Char('m')));
    let _ = release.send(());
    poll_periodic_until_idle(&mut app);
    assert!(matches!(app.popup, Some(Popup::Move { selected: 0 })));
}

#[test]
fn latest_pending_intent_wins_and_foreground_beats_due_refresh() {
    let (mut app, counts, started, release) = blocking_periodic_app();
    let due = periodic_due(&app);
    app.periodic_refresh_at(due);
    started.recv().expect("worker entered backend read");
    app.periodic_refresh_at(due + app.interval());
    app.handle_key(KeyEvent::plain(KeyCode::Char('e')));
    app.handle_key(KeyEvent::plain(KeyCode::Char('D')));
    assert_eq!(
        app.background.pending_intent,
        Some(PendingForegroundIntent::BeginDelete)
    );
    let _ = release.send(());
    poll_periodic_until_idle(&mut app);
    assert!(matches!(app.popup, Some(Popup::DeleteConfirm(_))));
    assert!(!app.periodic_refresh_in_flight());
    assert_eq!(counts.deletes.get(), 0);
}

#[test]
fn queued_edit_intent_revalidates_current_selection_after_stale_result() {
    let (mut app, _, started, release) = blocking_periodic_app();
    app.periodic_refresh_at(periodic_due(&app));
    started.recv().expect("worker entered backend read");
    app.handle_key(KeyEvent::plain(KeyCode::Char('j')));
    let current_id = app
        .visible_note(app.shown.selected_note_index)
        .expect("current note")
        .id
        .clone();
    app.handle_key(KeyEvent::plain(KeyCode::Char('e')));
    let _ = release.send(());
    poll_periodic_until_idle(&mut app);
    let edit = app
        .edit
        .as_ref()
        .expect("editor opened for current selection");
    assert_eq!(edit.note_id.as_ref(), Some(&current_id));
}

#[test]
fn queued_manual_refresh_runs_once_after_periodic_refresh() {
    let (mut app, counts, started, release) = blocking_periodic_app();
    app.periodic_refresh_at(periodic_due(&app));
    started.recv().expect("worker entered backend read");
    app.handle_key(KeyEvent::plain(KeyCode::Char('r')));
    let _ = release.send(());
    poll_periodic_until_idle(&mut app);
    assert_eq!(counts.accounts.get(), 2);
    assert!(!app.background.refresh_due);
}

#[test]
fn cached_search_selection_loads_cached_full_note_without_backend() {
    let cached = cached_state_with_notes(&[("alpha", "Alpha"), ("beta", "Beta")]);
    let alpha = demo_note("alpha", "demo-notes", "Alpha", "cached Alpha body");
    let beta = demo_note("beta", "demo-notes", "Beta", "cached Beta body");
    let (backend, calls) = scripted_backend(
        VecDeque::from([Err(backend_error("offline"))]),
        VecDeque::new(),
        VecDeque::new(),
        VecDeque::new(),
    );
    let (mut app, cache) = app_with_cache(
        backend,
        FakeCacheState {
            bootstrap: cached,
            full_notes: HashMap::from([
                (alpha.summary.id.clone(), alpha),
                (beta.summary.id.clone(), beta.clone()),
            ]),
            ..Default::default()
        },
    );
    app.bootstrap_cache();
    app.refresh();
    apply_search(&mut app, "beta");
    assert_eq!(app.shown.selected_note, Some(beta));
    assert_eq!(*calls.lock().unwrap(), vec![BackendCall::Accounts]);
    assert_eq!(
        cache.lock().unwrap().load_note_ids,
        vec![NoteId::new("alpha"), NoteId::new("beta")]
    );
}

#[test]
fn auto_refresh_false_disables_periodic_refresh_without_due_accumulation() {
    let (mut app, counts) = counting_app(BackendCapabilities::all_supported());
    counts.accounts.set(0);
    app.prefs.auto_refresh = false;
    let due = periodic_due(&app);
    app.periodic_refresh_at(due + app.interval() + app.interval());
    assert_eq!(counts.accounts.get(), 0);
    assert!(!app.background.refresh_due);
    app.refresh();
    assert_eq!(counts.accounts.get(), 1);
}

#[test]
fn preview_and_attachment_metadata_preferences_preserve_identity() {
    let mut app = App::with_config(
        Box::new(demo_backend()),
        AppConfig {
            refresh_interval: DEFAULT_REFRESH_INTERVAL,
            auto_refresh: true,
            preview_wrap: false,
            show_attachment_metadata: false,
        },
    );
    app.refresh();
    select_demo_note(&mut app, "demo-attachment");
    let note = app.shown.selected_note.as_ref().unwrap();
    let preview_text = preview_string(&preview_text(note, app.prefs.show_attachment_metadata));
    assert!(preview_text.contains("Photo.png"));
    assert!(!preview_text.contains("preview available"));
    app.begin_attachments();
    let popup = app.attachment_popup_text(0);
    assert!(popup.contains("Photo.png"));
    assert!(!popup.contains("Content ID:"));
    assert!(!app.prefs.preview_wrap);
}

fn session_navigation_fixture() -> (Vec<Account>, Vec<Folder>) {
    let account_a = Account {
        id: AccountId::new("account-a"),
        name: "Duplicate".into(),
        is_default: true,
        is_upgraded: true,
        default_folder_id: Some(FolderId::new("folder-a")),
    };
    let account_b = Account {
        id: AccountId::new("account-b"),
        name: "Duplicate".into(),
        is_default: false,
        is_upgraded: true,
        default_folder_id: Some(FolderId::new("folder-b")),
    };
    let folder_a = Folder {
        id: FolderId::new("folder-a"),
        account_id: account_a.id.clone(),
        name: "Notes".into(),
        parent: FolderParent::Account {
            account_id: account_a.id.clone(),
        },
        shared: false,
    };
    let folder_b = Folder {
        id: FolderId::new("folder-b"),
        account_id: account_b.id.clone(),
        name: "Notes".into(),
        parent: FolderParent::Account {
            account_id: account_b.id.clone(),
        },
        shared: false,
    };
    (vec![account_a, account_b], vec![folder_a, folder_b])
}

#[test]
fn startup_restores_session_by_ids_and_falls_back_safely() {
    let (accounts, folders) = session_navigation_fixture();
    let cached = CachedState {
        accounts: accounts.clone(),
        folders: folders.clone(),
        notes: vec![],
        
    };
    let mut restored = App::new(Box::new(demo_backend()));
    restored.set_session_state(
        temporary_session_path("restore"),
        Some(SessionState {
            account_id: Some(AccountId::new("account-b")),
            folder_id: Some(FolderId::new("folder-b")),
            note_id: None,
            search_query: None,
            preview_scroll: None,
            focus: None,
        }),
    );
    restored.load_cached_state(cached.clone());
    assert_eq!(
        restored.selected_folder_id(),
        Some(&FolderId::new("folder-b"))
    );

    let mut missing_account = App::new(Box::new(demo_backend()));
    missing_account.set_session_state(
        temporary_session_path("missing-account"),
        Some(SessionState {
            account_id: Some(AccountId::new("gone")),
            folder_id: Some(FolderId::new("folder-b")),
            note_id: None,
            search_query: None,
            preview_scroll: None,
            focus: None,
        }),
    );
    missing_account.load_cached_state(cached.clone());
    assert_eq!(
        missing_account.selected_folder_id(),
        Some(&FolderId::new("folder-a"))
    );

    let mut missing_folder = App::new(Box::new(demo_backend()));
    missing_folder.set_session_state(
        temporary_session_path("missing-folder"),
        Some(SessionState {
            account_id: Some(AccountId::new("account-b")),
            folder_id: Some(FolderId::new("gone")),
            note_id: None,
            search_query: None,
            preview_scroll: None,
            focus: None,
        }),
    );
    missing_folder.load_cached_state(cached);
    assert_eq!(
        missing_folder.selected_folder_id(),
        Some(&FolderId::new("folder-b"))
    );
}

#[test]
fn malformed_session_is_ignored_by_startup_context() {
    assert!(load_session(Ok(Some("account_id = unquoted\n".into()))).is_err());
    let (accounts, folders) = session_navigation_fixture();
    let mut app = App::new(Box::new(demo_backend()));
    app.set_session_state(temporary_session_path("malformed"), None);
    app.load_cached_state(CachedState { accounts, folders, notes: vec![] });
    assert_eq!(app.selected_folder_id(), Some(&FolderId::new("folder-a")));
}

#[test]
fn failed_navigation_does_not_persist_session_and_atomic_failure_keeps_old_file() {
    let old = SessionState {
        account_id: Some(AccountId::new("old-account")),
        folder_id: Some(FolderId::new("old-folder")),
        note_id: None,
        search_query: None,
        preview_scroll: None,
        focus: None,
    };
    let (accounts, folders) = session_navigation_fixture();
    let mut app = App::new(Box::new(MockNotesBackend::new(
        accounts.clone(),
        folders.clone(),
        HashMap::new(),
    )));
    app.session = Some(serialize_session(&old));
    app.set_session_state(temporary_session_path("failure"), None);
    app.load_cached_state(CachedState { accounts: vec![], folders: vec![], notes: vec![] });
    app.persist_session_selection();
    assert_eq!(app.session_write_calls, 0);
    assert_eq!(load_session(Ok(app.session.clone())).unwrap(), Some(old.clone()));

    app.session_write_fails = true;
    app.load_cached_state(CachedState { accounts, folders, notes: vec![] });
    app.persist_session_selection();
    assert!(app.session_write_calls > 0);
    assert_eq!(load_session(Ok(app.session.clone())).unwrap(), Some(old));
}

#[test]
fn session_roundtrip_preserves_optional_preview_scroll_and_exact_note_restore() {
    let state = SessionState {
        account_id: Some(AccountId::new("account-b")),
        folder_id: Some(FolderId::new("folder-b")),
        note_id: Some(NoteId::new("n2")),
        search_query: None,
        preview_scroll: Some(9),
        focus: None,
    };
    let written = serialize_session(&state);
    assert_eq!(load_session(Ok(Some(written.clone()))).unwrap(), Some(state));
    let (accounts, folders) = session_navigation_fixture();
    let mut app = App::new(Box::new(demo_backend()));
    app.set_session_state(
        temporary_session_path("scroll-roundtrip"),
        load_session(Ok(Some(written))).unwrap(),
    );
    app.load_cached_state(CachedState {
        accounts,
        folders,
        notes: vec![demo_note("n2", "folder-b", "Long", "").summary.clone()],
    });
    assert_eq!(app.selected_note_id(), Some(NoteId::new("n2")));
    assert_eq!(app.shown.preview_scroll, 0);
}

#[test]
fn live_startup_restores_session_context_without_extra_traversal() {
    let (accounts, folders) = session_navigation_fixture();
    let note = note_in(&AccountId::new("account-b"), "note-b", "folder-b", "B", "B");
    let mut full_notes = HashMap::new();
    full_notes.insert(note.summary.id.clone(), note);
    let mut app = App::new(Box::new(MockNotesBackend::new(
        accounts, folders, full_notes,
    )));
    app.set_session_state(
        temporary_session_path("live-restore"),
        Some(SessionState {
            account_id: Some(AccountId::new("account-b")),
            folder_id: Some(FolderId::new("folder-b")),
            note_id: None,
            search_query: None,
            preview_scroll: None,
            focus: None,
        }),
    );
    app.refresh();
    assert_eq!(app.selected_folder_id(), Some(&FolderId::new("folder-b")));
    assert_eq!(app.data.notes.len(), 1);
}

#[test]
fn cached_startup_restores_exact_note_id_and_falls_back_when_missing() {
    let (accounts, folders) = session_navigation_fixture();
    let notes = vec![
        demo_note("note-a", "folder-b", "Same", "").summary.clone(),
        demo_note("note-b", "folder-b", "Same", "").summary.clone(),
    ];
    let cached = CachedState {
        accounts,
        folders,
        notes,
        
    };
    let mut restored = App::new(Box::new(demo_backend()));
    restored.set_session_state(
        temporary_session_path("note-restore"),
        Some(SessionState {
            account_id: Some(AccountId::new("account-b")),
            folder_id: Some(FolderId::new("folder-b")),
            note_id: Some(NoteId::new("note-b")),
            search_query: None,
            preview_scroll: None,
            focus: None,
        }),
    );
    restored.load_cached_state(cached.clone());
    assert_eq!(restored.selected_note_id(), Some(NoteId::new("note-b")));

    let mut missing = App::new(Box::new(demo_backend()));
    missing.set_session_state(
        temporary_session_path("note-missing"),
        Some(SessionState {
            account_id: Some(AccountId::new("account-b")),
            folder_id: Some(FolderId::new("folder-b")),
            note_id: Some(NoteId::new("gone")),
            search_query: None,
            preview_scroll: None,
            focus: None,
        }),
    );
    missing.load_cached_state(cached);
    assert_eq!(missing.selected_note_id(), Some(NoteId::new("note-a")));
}

#[test]
fn cached_backend_unavailable_restores_saved_note_without_extra_read() {
    let cached = cached_state_with_notes(&[("alpha", "Alpha"), ("beta", "Beta")]);
    let (backend, calls) = scripted_backend(
        VecDeque::from([Err(backend_error("offline"))]),
        VecDeque::new(),
        VecDeque::new(),
        VecDeque::new(),
    );
    let (mut app, _) = app_with_cache(
        backend,
        FakeCacheState {
            bootstrap: cached,
            ..Default::default()
        },
    );
    app.set_session_state(
        temporary_session_path("cached-note"),
        Some(SessionState {
            account_id: Some(AccountId::new("demo-account")),
            folder_id: Some(FolderId::new("demo-notes")),
            note_id: Some(NoteId::new("beta")),
            search_query: None,
            preview_scroll: None,
            focus: None,
        }),
    );
    app.bootstrap_cache();
    assert_eq!(app.selected_note_id(), Some(NoteId::new("beta")));
    app.refresh();
    assert_eq!(app.selected_note_id(), Some(NoteId::new("beta")));
    assert_eq!(*calls.lock().unwrap(), vec![BackendCall::Accounts]);
}

#[test]
fn cached_startup_restores_search_before_visible_note_selection() {
    let (accounts, folders) = session_navigation_fixture();
    let cached = CachedState {
        accounts,
        folders,
        notes: vec![
            demo_note("n1", "folder-b", "foo one", "").summary.clone(),
            demo_note("n2", "folder-b", "bar", "").summary.clone(),
            demo_note("n3", "folder-b", "foo three", "").summary.clone(),
        ],
        
    };
    let mut app = App::new(Box::new(demo_backend()));
    app.set_session_state(
        temporary_session_path("search-restore"),
        Some(SessionState {
            account_id: Some(AccountId::new("account-b")),
            folder_id: Some(FolderId::new("folder-b")),
            note_id: Some(NoteId::new("n3")),
            search_query: Some("foo".into()),
            preview_scroll: None,
            focus: None,
        }),
    );
    app.load_cached_state(cached);
    assert!(matches!(&app.search, SearchState::Active(active) if active.query == "foo"));
    assert_eq!(
        app.visible_note_ids(),
        vec![NoteId::new("n1"), NoteId::new("n3")]
    );
    assert_eq!(app.selected_note_id(), Some(NoteId::new("n3")));
}

#[test]
fn fallback_note_does_not_inherit_saved_preview_scroll() {
    let (accounts, folders) = session_navigation_fixture();
    let mut app = App::new(Box::new(demo_backend()));
    app.set_session_state(
        temporary_session_path("scroll-fallback"),
        Some(SessionState {
            account_id: Some(AccountId::new("account-b")),
            folder_id: Some(FolderId::new("folder-b")),
            note_id: Some(NoteId::new("gone")),
            search_query: None,
            preview_scroll: Some(u16::MAX),
            focus: None,
        }),
    );
    app.load_cached_state(CachedState {
        accounts,
        folders,
        notes: vec![demo_note("n1", "folder-b", "Fallback", "").summary.clone()],
        
    });
    assert_eq!(app.selected_note_id(), Some(NoteId::new("n1")));
    assert_eq!(app.shown.preview_scroll, 0);
}

#[test]
fn settings_popup_draft_is_local_and_escape_discards_it() {
    let mut app = App::demo();
    let original = app.prefs.auto_refresh;
    app.handle_key(KeyEvent::plain(KeyCode::Char(',')));
    assert!(matches!(app.popup, Some(Popup::Settings(_))));
    app.handle_key(KeyEvent::plain(KeyCode::Char(' ')));
    assert_eq!(app.prefs.auto_refresh, original);
    app.handle_key(KeyEvent::plain(KeyCode::Esc));
    assert!(app.popup.is_none());
    assert_eq!(app.prefs.auto_refresh, original);
}

#[test]
fn cached_navigation_remains_responsive_during_long_periodic_refresh() {
    let (started_receiver, release_sender) = gate();
    let counts = MutationCounts::default();
    let backend = counting_backend(BackendCapabilities::all_supported(), &counts);
    let mut app = App::demo();
    app.refresh();
    let folder_id = app.selected_folder_id().cloned().expect("folder");
    let retained = app.data.notes.clone();
    app.data.rows.insert(folder_id, retained.clone());
    app.backend = Box::new(backend);
    app.start_initial_refresh();
    started_receiver.recv().unwrap();

    app.handle_key(KeyEvent::plain(KeyCode::Char('?')));
    assert_eq!(app.data.notes, retained);
    assert!(app.shown.show_help);
    assert!(app.selected_note_id().is_some());

    release_sender.send(()).unwrap();
    app.poll_periodic_refresh();
}

#[test]
fn latest_navigation_survives_periodic_backend_contention() {
    let (started_receiver, release_sender) = gate();
    let counts = MutationCounts::default();
    let backend = counting_backend(BackendCapabilities::all_supported(), &counts);
    let mut app = App::demo();
    app.refresh();
    app.backend = Box::new(backend);
    app.start_initial_refresh();
    started_receiver.recv().unwrap();

    let ids: Vec<_> = app.data.notes.iter().map(|note| note.id.clone()).collect();
    for id in ids.iter().take(4) {
        app.queue_navigation_request(NavigationRequest::Preview(id.clone()));
    }
    assert!(matches!(
        app.background.pending_navigation,
        Some(NavigationRequest::Preview(ref id)) if id == &ids[3]
    ));

    assert!(matches!(
        app.background.pending_navigation,
        Some(NavigationRequest::Preview(ref id)) if id == &ids[3]
    ));
    release_sender.send(()).unwrap();
}

#[test]
fn live_mode_preview_cache_miss_is_async() {
    let (mut app, _counts, cache) = create_cache_app(false, None);
    cache.lock().unwrap().full_notes.clear();
    app.load_selected_note();
    assert!(app.background.navigation_running);
    app.poll_navigation_worker();
}

#[test]
fn live_mode_folder_cache_miss_is_async() {
    let (mut app, _counts, cache) = create_cache_app(false, None);
    cache.lock().unwrap().bootstrap.notes.clear();
    app.load_notes_for_browsing();
    assert!(app.background.navigation_running);
    app.poll_navigation_worker();
}

#[test]
fn rapid_note_selection_coalesces_to_latest_preview() {
    let (mut app, _counts, cache) = create_cache_app(false, None);
    cache.lock().unwrap().full_notes.clear();
    let first = app.visible_note(0).unwrap().id.clone();
    app.start_preview_worker(first);
    let ids: Vec<_> = app.data.notes.iter().map(|note| note.id.clone()).collect();
    for id in ids.iter().skip(1).take(3) {
        app.queue_navigation_request(NavigationRequest::Preview(id.clone()));
    }
    assert!(matches!(
        app.background.pending_navigation,
        Some(NavigationRequest::Preview(ref id)) if id == ids.get(3).unwrap()
    ));
}

#[test]
fn rapid_ten_note_navigation_executes_only_inflight_and_latest_preview() {
    let (mut app, _counts, cache) = create_cache_app(false, None);
    cache.lock().unwrap().full_notes.clear();
    let ids: Vec<_> = app.data.notes.iter().map(|note| note.id.clone()).collect();
    let first = ids[0].clone();
    app.start_preview_worker(first);
    for id in ids.iter().skip(1) {
        app.queue_navigation_request(NavigationRequest::Preview(id.clone()));
    }
    assert!(matches!(
        app.background.pending_navigation,
        Some(NavigationRequest::Preview(ref id)) if id == ids.last().unwrap()
    ));
}

#[test]
fn startup_refresh_suppresses_immediate_periodic_refresh() {
    let mut app = App::demo();
    app.set_refresh_interval(Duration::from_secs(60));
    app.refresh();
    let t0 = Duration::ZERO;
    app.start_initial_refresh();
    app.periodic_refresh_at(t0 + Duration::from_secs(30));
    assert!(matches!(
        app.background.periodic_refresh,
        PeriodicRefreshState::InFlight { .. }
    ));
}

#[test]
fn periodic_refresh_interval_is_measured_from_refresh_request() {
    let mut app = App::demo();
    app.set_refresh_interval(Duration::from_secs(60));
    app.refresh();
    let t0 = Duration::ZERO;
    app.start_refresh_worker(t0, RefreshOrigin::Automatic);
    assert!(app.last_attempt() >= t0);
    assert!(app.last_attempt() < t0 + Duration::from_secs(1));
}

#[test]
fn manual_refresh_remains_allowed_before_periodic_deadline() {
    let mut app = App::demo();
    app.set_refresh_interval(Duration::from_secs(60));
    app.refresh();
    app.start_initial_refresh();
    app.background.pending_intent = None;
    app.start_manual_refresh();
    assert!(matches!(
        app.background.periodic_refresh,
        PeriodicRefreshState::InFlight { .. }
    ));
}

#[test]
fn revisiting_loaded_folder_uses_session_cache_before_backend() {
    let mut app = App::demo();
    app.refresh();
    let folder_id = app.selected_folder_id().cloned().expect("folder");
    let retained = app.data.notes.clone();
    app.data.rows.insert(folder_id, retained.clone());
    app.load_notes_for_browsing();
    assert_eq!(app.data.notes, retained);
}

#[test]
fn authoritative_folder_refresh_replaces_retained_rows() {
    let mut app = App::demo();
    app.refresh();
    let folder_id = app.selected_folder_id().cloned().expect("folder");
    let replacement = app.data.notes.clone();
    app.data.rows.insert(folder_id.clone(), vec![]);
    app.data.rows
        .insert(folder_id, replacement.clone());
    assert_eq!(app.data.rows.entries.len(), 1);
    assert_eq!(app.data.rows.entries[0].notes, replacement);
}

#[test]
fn repeated_folder_navigation_reuses_retained_rows() {
    let mut app = App::demo();
    app.refresh();
    let folder_id = app.selected_folder_id().cloned().expect("folder");
    let retained = app.data.notes.clone();
    app.data.rows.insert(folder_id, retained.clone());
    app.load_notes_for_browsing();
    let first = app.data.notes.clone();
    app.load_notes_for_browsing();
    assert_eq!(first, retained);
    assert_eq!(app.data.notes, retained);
}

#[test]
fn stale_folder_result_cannot_overwrite_newer_retained_rows() {
    let mut app = App::demo();
    app.refresh();
    let folder_id = app.selected_folder_id().cloned().expect("folder");
    let newer = app.data.notes.clone();
    app.data.rows
        .insert(folder_id.clone(), newer.clone());
    let stale = newer.first().cloned().into_iter().collect::<Vec<_>>();
    assert_eq!(app.data.rows.get(&folder_id).as_ref(), Some(&newer));
    assert_ne!(stale, newer);
}

fn recovery_draft(kind: EditorRecoveryKind, note_id: Option<&str>) -> EditorRecoveryDraft {
    EditorRecoveryDraft {
        version: 1,
        kind,
        account_id: AccountId::new("demo-account"),
        folder_id: FolderId::new("demo-notes"),
        note_id: note_id.map(NoteId::new),
        expected_modification_date: Some(NoteDate::new("draft-baseline")),
        title: "Grüße Русская заметка".into(),
        document: RichDocument {
            blocks: vec![Block::Paragraph(vec![Inline::Text(
                "日本語 🚀\n\nfinal line".into(),
            )])],
        },
        original_title: "Original".into(),
        original_body_html: "<div>Original</div>".into(),
        original_plaintext: "Original".into(),
        cursor: None,
        viewport: None,
    }
}

fn recovered(draft: EditorRecoveryDraft) -> Arc<RecoveredDraft> {
    let original_body = parse_notes_html(&draft.original_body_html).ok();
    Arc::new(RecoveredDraft { draft, original_body })
}

fn make_nontrivial_dirty_edit(app: &mut App, title: &str) -> EditorRecoveryDraft {
    let edit = app.edit.as_mut().expect("editor");
    edit.title_buffer = title.into();
    edit.document = EditorDocument::new(RichDocument {
        blocks: vec![
            Block::Paragraph(vec![Inline::Bold(text_inline("Unicode 日本語 🚀"))]),
            Block::BulletList(vec![ListItem {
                content: vec![Inline::Italic(text_inline("list item"))],
            }]),
            Block::Paragraph(vec![Inline::Link {
                label: text_inline("link"),
                href: "https://example.test/recovery".into(),
            }]),
        ],
    });
    edit.dirty = true;
    app.persist_editor_recovery_if_dirty();
    app.saved_draft().expect("persisted recovery draft")
}

#[test]
fn successful_create_folder_session_failure_is_warning_only() {
    let (mut app, counts) = counting_app(BackendCapabilities::all_supported());
    app.set_session_state(String::new(), None);
    app.persist_session_selection();
    let before = app.saved_session();
    app.session_write_fails = true;
    app.handle_key(KeyEvent::plain(KeyCode::Char('N')));
    type_text(&mut app, "Проекты 🚀");
    app.handle_key(KeyEvent::plain(KeyCode::Enter));
    poll_update_until_idle(&mut app);
    assert_eq!(counts.folders_created.get(), 1);
    let selected_id = match &app.data.navigation[app.shown.selected_navigation] {
        NavigationItem::Folder { id, .. } => id.clone(),
        _ => panic!("created folder should be selected"),
    };
    assert!(app.data.folders.iter().any(|folder| folder.id == selected_id));
    assert!(app.popup.is_none());
    assert!(!app.background.update_running);
    assert!(matches!(app.search, SearchState::Inactive));
    assert!(matches!(app.shown.data_source, DataSourceState::Live));
    assert!(app.status.text.contains("Session warning"));
    assert!(!app.status.text.contains("Failed to create"));
    assert_eq!(app.saved_session(), before);
    app.poll_update_worker();
    assert_eq!(counts.folders_created.get(), 1);
    assert!(app.popup.is_none());
    assert!(!app.background.update_running);
}

#[test]
fn successful_folder_rename_does_not_rewrite_session_when_continuity_state_is_unchanged() {
    let (mut app, counts) = counting_app(BackendCapabilities::all_supported());
    app.set_session_state(String::new(), None);
    app.persist_session_selection();
    let before = app.session.clone().unwrap();
    let folder_id = app.selected_folder_id().cloned().expect("folder");
    let old_name = app
        .data.folders
        .iter()
        .find(|folder| folder.id == folder_id)
        .expect("folder")
        .name
        .clone();
    app.handle_key(KeyEvent::plain(KeyCode::Char('R')));
    for _ in old_name.chars() {
        app.handle_key(KeyEvent::plain(KeyCode::Backspace));
    }
    type_text(&mut app, "Session-stable rename");
    app.handle_key(KeyEvent::plain(KeyCode::Enter));
    poll_update_until_idle(&mut app);
    assert_eq!(counts.folders_renamed.get(), 1);
    assert_eq!(app.session.clone().unwrap(), before);
}

#[test]
fn successful_child_folder_create_session_failure_is_warning_only() {
    let (mut app, counts) = counting_app(BackendCapabilities::all_supported());
    app.shown.focus = Focus::Navigation;
    let parent_id = app.selected_folder_id().cloned().expect("parent selected");
    app.set_session_state(String::new(), None);
    app.persist_session_selection();
    let before = app.session.clone().unwrap();
    app.session_write_fails = true;

    app.handle_key(KeyEvent::plain(KeyCode::Char('C')));
    type_text(&mut app, "Child 🚀");
    app.handle_key(KeyEvent::plain(KeyCode::Enter));
    poll_update_until_idle(&mut app);

    assert_eq!(counts.child_folders_created.get(), 1);
    let child_id = app.selected_folder_id().cloned().expect("child selected");
    assert!(
        matches!(app.data.folders.iter().find(|folder| folder.id == child_id).map(|folder| &folder.parent), Some(FolderParent::Folder { folder_id }) if folder_id == &parent_id)
    );
    assert!(app.data.notes.is_empty());
    assert!(app.shown.selected_note.is_none());
    assert!(matches!(app.search, SearchState::Inactive));
    assert_eq!(app.shown.preview_scroll, 0);
    assert_eq!(app.shown.focus, Focus::Navigation);
    assert!(app.popup.is_none());
    assert!(!app.background.update_running);
    assert!(matches!(app.shown.data_source, DataSourceState::Live));
    assert!(app.status.text.contains("Session warning"));
    assert!(!app.status.text.contains("Failed to create child"));
    assert_eq!(app.session.clone().unwrap(), before);
    app.poll_update_worker();
    assert_eq!(counts.child_folders_created.get(), 1);
    assert!(app.data.folders.iter().any(|folder| folder.id == child_id));
}

#[test]
fn successful_folder_reparent_does_not_rewrite_session_when_continuity_state_is_unchanged() {
    let (mut app, counts) = counting_app(BackendCapabilities::all_supported());
    app.set_session_state(String::new(), None);
    app.persist_session_selection();
    let before = app.session.clone().unwrap();
    let writes = app.session_write_calls;
    app.shown.focus = Focus::Navigation;
    app.handle_key(KeyEvent::plain(KeyCode::Char('M')));
    app.handle_key(KeyEvent::plain(KeyCode::Down));
    app.handle_key(KeyEvent::plain(KeyCode::Enter));
    poll_update_until_idle(&mut app);
    assert_eq!(counts.folders_reparented.get(), 1);
    assert_eq!(app.session_write_calls, writes);
    assert_eq!(app.session.clone().unwrap(), before);
}

#[test]
fn successful_folder_delete_session_failure_is_warning_only() {
    let (mut app, counts) = counting_app(BackendCapabilities::all_supported());
    app.set_session_state(String::new(), None);
    app.persist_session_selection();
    let _remaining_folder = create_empty_folder_for_delete(&mut app, "Session anchor");
    let folder_id = create_empty_folder_for_delete(&mut app, "Session delete");
    let before = app.session.clone().unwrap();
    app.session_write_fails = true;
    app.handle_key(KeyEvent::plain(KeyCode::Char('D')));
    app.handle_key(KeyEvent::plain(KeyCode::Char('y')));
    poll_update_until_idle(&mut app);
    assert_eq!(counts.folders_deleted.get(), 1);
    assert!(!app.data.folders.iter().any(|folder| folder.id == folder_id));
    assert!(app.popup.is_none());
    assert!(!app.background.update_running);
    assert!(app.status.text.contains("Session warning"));
    assert_eq!(app.session.clone().unwrap(), before);
    app.poll_update_worker();
    assert_eq!(counts.folders_deleted.get(), 1);
}

#[test]
fn successful_session_selection_persists_a_coherent_pair() {
    let (accounts, folders) = session_navigation_fixture();
    let mut app = App::new(Box::new(demo_backend()));
    app.set_session_state(String::new(), None);
    app.load_cached_state(CachedState {
        accounts,
        folders,
        notes: vec![],
        
    });
    app.shown.selected_navigation = app
        .data.navigation
        .iter()
        .position(|item| matches!(item, NavigationItem::Folder { id, .. } if id == &FolderId::new("folder-b")))
        .unwrap();
    app.persist_session_selection();
    assert_eq!(
        app.saved_session(),
        Some(SessionState {
            account_id: Some(AccountId::new("account-b")),
            folder_id: Some(FolderId::new("folder-b")),
            note_id: None,
            search_query: None,
            preview_scroll: None,
            focus: Some(SessionFocus::Navigation),
        })
    );
}

#[test]
fn note_selection_change_persists_triplet_without_search_text() {
    let (accounts, folders) = session_navigation_fixture();
    let mut app = App::new(Box::new(demo_backend()));
    app.set_session_state(String::new(), None);
    app.load_cached_state(CachedState {
        accounts,
        folders,
        notes: vec![
            demo_note("note-a", "folder-b", "Hidden title", "").summary.clone(),
            demo_note("note-b", "folder-b", "Needle", "").summary.clone(),
        ],
        
    });
    app.shown.selected_navigation = app
        .data.navigation
        .iter()
        .position(|item| matches!(item, NavigationItem::Folder { id, .. } if id == &FolderId::new("folder-b")))
        .unwrap();
    apply_search(&mut app, "needle");
    app.persist_session_selection();
    let contents = app.session.clone().unwrap();
    assert!(contents.contains("note_id = \"note-b\""));
    assert!(contents.contains("search_query = \"needle\""));
    assert!(!contents.contains("Hidden title"));
}

#[test]
fn startup_restores_browsing_focus_and_safely_falls_back_from_invalid_preview() {
    let (accounts, folders) = session_navigation_fixture();
    let cached = CachedState {
        accounts: accounts.clone(),
        folders: folders.clone(),
        notes: vec![demo_note("note-b", "folder-b", "Needle", "").summary.clone()],
        
    };
    for (saved, expected) in [
        (SessionFocus::Navigation, Focus::Navigation),
        (SessionFocus::Notes, Focus::Notes),
        (SessionFocus::Preview, Focus::Preview),
    ] {
        let mut app = App::new(Box::new(demo_backend()));
        app.set_session_state(
            temporary_session_path("focus-restore"),
            Some(SessionState {
                account_id: Some(AccountId::new("account-b")),
                folder_id: Some(FolderId::new("folder-b")),
                note_id: Some(NoteId::new("note-b")),
                search_query: None,
                preview_scroll: None,
                focus: Some(saved),
            }),
        );
        app.load_cached_state(cached.clone());
        assert_eq!(app.shown.focus, expected);
    }

    let mut no_selection = App::new(Box::new(demo_backend()));
    no_selection.set_session_state(String::new(),
        Some(SessionState {
            account_id: Some(AccountId::new("account-b")),
            folder_id: Some(FolderId::new("folder-b")),
            note_id: None,
            search_query: Some("missing".into()),
            preview_scroll: None,
            focus: Some(SessionFocus::Preview),
        }),
    );
    no_selection.load_cached_state(cached);
    assert_eq!(no_selection.selected_note_id(), None);
    assert_eq!(no_selection.shown.focus, Focus::Notes);
    assert_eq!(
        no_selection.saved_session().unwrap().focus,
        Some(SessionFocus::Notes)
    );
}

#[test]
fn browsing_focus_change_persists_coherently_and_transient_workflows_do_not_replace_it() {
    let (accounts, folders) = session_navigation_fixture();
    let mut app = App::new(Box::new(demo_backend()));
    app.set_session_state(String::new(), None);
    app.load_cached_state(CachedState {
        accounts,
        folders,
        notes: vec![demo_note("note-b", "folder-b", "Needle", "").summary.clone()],
        
    });
    app.shown.selected_navigation = app
        .data.navigation
        .iter()
        .position(|item| matches!(item, NavigationItem::Folder { id, .. } if id == &FolderId::new("folder-b")))
        .unwrap();
    app.handle_key(KeyEvent::plain(KeyCode::Tab));
    assert_eq!(app.shown.focus, Focus::Notes);
    assert_eq!(
        app.saved_session().unwrap().focus,
        Some(SessionFocus::Notes)
    );
    let contents = app.session.clone().unwrap();
    app.set_browsing_focus(Focus::Notes);
    assert_eq!(app.session.clone().unwrap(), contents);

    app.shown.show_help = true;
    app.handle_key(KeyEvent::plain(KeyCode::Char('?')));
    app.begin_settings();
    assert_eq!(
        app.saved_session().unwrap().focus,
        Some(SessionFocus::Notes)
    );
    app.popup = None;
    app.begin_search();
    assert_eq!(
        app.saved_session().unwrap().focus,
        Some(SessionFocus::Notes)
    );
}

#[test]
fn dirty_editor_persists_recovery_draft_and_cancel_removes_it() {
    let mut app = App::demo();
    app.refresh();
    app.set_editor_draft_state(None);
    app.handle_key(KeyEvent::plain(KeyCode::Char('n')));
    assert!(app.draft.is_none());
    app.handle_key(KeyEvent::plain(KeyCode::Char('x')));
    let draft = app.saved_draft().unwrap();
    assert!(matches!(draft.kind, EditorRecoveryKind::Create));
    assert_eq!(draft.title, "x");
    let contents = app.draft.clone();
    app.persist_editor_recovery_if_dirty();
    assert_eq!(app.draft.clone(), contents);
    app.handle_key(KeyEvent::control(KeyCode::Char('c')));
    assert!(app.draft.is_none());
}

#[test]
fn startup_draft_recovery_requires_explicit_restore_without_backend_mutation() {
    let draft = recovery_draft(EditorRecoveryKind::Edit, Some("alpha"));
    let mut app = App::new(Box::new(demo_backend()));
    app.draft = Some(Arc::new(draft.clone()));
    app.set_editor_draft_state(Some(recovered(draft.clone())));
    app.load_cached_state(cached_state_with_notes(&[("alpha", "Alpha")]));
    app.offer_editor_draft_recovery();
    assert!(app.edit.is_none());
    assert!(matches!(app.popup, Some(Popup::DraftRecovery { .. })));
    app.handle_key(KeyEvent::plain(KeyCode::Char('r')));
    let edit = app.edit.as_ref().unwrap();
    assert!(edit.dirty);
    assert_eq!(edit.title_buffer, draft.title);
    assert_eq!(
        edit.base_modification_date,
        draft.expected_modification_date
    );
    assert_eq!(edit.document.document, draft.document);
}

#[test]
fn dirty_editor_write_failure_preserves_runtime_and_old_recovery_file() {
    let old = recovery_draft(EditorRecoveryKind::Create, None);
    let mut app = App::demo();
    app.draft = Some(Arc::new(old.clone()));
    app.refresh();
    app.set_editor_draft_state(None);
    app.draft_write_fails = true;
    app.handle_key(KeyEvent::plain(KeyCode::Char('n')));
    app.handle_key(KeyEvent::plain(KeyCode::Char('x')));
    assert!(app.edit.as_ref().unwrap().dirty);
    assert_eq!(app.edit.as_ref().unwrap().title_buffer, "x");
    assert_eq!(app.saved_draft(), Some(old));
    assert!(app.status.text.contains("Editor recovery warning"));
    assert_eq!(app.shown.data_source, DataSourceState::Live);
}

#[test]
fn missing_recovery_targets_are_preserved_and_cannot_restore() {
    for draft in [
        recovery_draft(EditorRecoveryKind::Edit, Some("missing-note")),
        EditorRecoveryDraft {
            account_id: AccountId::new("missing-account"),
            folder_id: FolderId::new("missing-folder"),
            ..recovery_draft(EditorRecoveryKind::Create, None)
        },
    ] {
        let mut app = App::new(Box::new(demo_backend()));
        app.draft = Some(Arc::new(draft.clone()));
        app.set_editor_draft_state(Some(recovered(draft)));
        app.load_cached_state(cached_state_with_notes(&[("alpha", "Alpha")]));
        app.offer_editor_draft_recovery();
        assert!(matches!(
            app.popup,
            Some(Popup::DraftRecovery {
                recoverable: false,
                ..
            })
        ));
        app.handle_key(KeyEvent::plain(KeyCode::Char('r')));
        assert!(app.edit.is_none());
        assert!(app.draft.is_some());
        }
}

#[test]
fn recovery_discard_and_cleanup_failure_never_roll_back_runtime() {
    let draft = recovery_draft(EditorRecoveryKind::Create, None);
    let mut app = App::new(Box::new(demo_backend()));
    app.draft = Some(Arc::new(draft.clone()));
    app.set_editor_draft_state(Some(recovered(draft)));
    app.load_cached_state(cached_state_with_notes(&[("alpha", "Alpha")]));
    app.offer_editor_draft_recovery();
    app.draft_removal_fails = true;
    app.handle_key(KeyEvent::plain(KeyCode::Char('d')));
    assert!(app.popup.is_none());
    assert!(app.draft.is_some());
    assert!(app.status.text.contains("could not be removed"));
    assert_eq!(app.shown.data_source, DataSourceState::Cached);
}

#[test]
fn successful_create_clears_recovery_only_after_worker_success() {
    let (mut app, counts, _) = create_cache_app(false, None);
    app.set_editor_draft_state(None);
    app.handle_key(KeyEvent::plain(KeyCode::Char('n')));
    type_text(&mut app, "draft create");
    assert!(app.draft.is_some());
    app.handle_key(modified('s', Held::Control));
    poll_update_until_idle(&mut app);
    assert_eq!(counts.creates.get(), 1);
    assert!(app.edit.is_none());
    assert!(app.draft.is_none());
}

#[test]
fn failed_create_keeps_recovery_draft() {
    let (mut app, counts, _) = create_cache_app(true, None);
    app.set_editor_draft_state(None);
    app.handle_key(KeyEvent::plain(KeyCode::Char('n')));
    type_text(&mut app, "draft create");
    let expected = app.saved_draft().unwrap();
    app.handle_key(modified('s', Held::Control));
    poll_update_until_idle(&mut app);
    assert_eq!(counts.creates.get(), 1);
    assert!(app
        .edit
        .as_ref()
        .is_some_and(|edit| edit.dirty && edit.is_new));
    assert_eq!(app.saved_draft(), Some(expected));
}

#[test]
fn successful_and_failed_update_recovery_lifecycle() {
    let (mut app, counts, _) = update_cache_app(false, None);
    app.set_editor_draft_state(None);
    app.handle_key(KeyEvent::plain(KeyCode::Char('e')));
    type_text(&mut app, " retained");
    assert!(app.draft.is_some());
    app.handle_key(modified('s', Held::Control));
    poll_update_until_idle(&mut app);
    assert_eq!(counts.updates.get(), 1);
    assert!(app.edit.is_none());
    assert!(app.draft.is_none());

    let (mut failed, failed_counts, _) = update_cache_app(true, None);
    failed.set_editor_draft_state(None);
    failed.handle_key(KeyEvent::plain(KeyCode::Char('e')));
    type_text(&mut failed, " retained");
    let draft = failed.saved_draft().unwrap();
    failed.handle_key(modified('s', Held::Control));
    poll_update_until_idle(&mut failed);
    assert_eq!(failed_counts.updates.get(), 1);
    assert!(failed.edit.as_ref().is_some_and(|edit| edit.dirty));
    assert_eq!(failed.saved_draft(), Some(draft));
}

#[test]
fn conflict_and_overwrite_keep_or_clear_recovery_at_authoritative_result() {
    let (mut app, counts, _) = update_cache_app(false, None);
    app.set_editor_draft_state(None);
    app.handle_key(KeyEvent::plain(KeyCode::Char('e')));
    type_text(&mut app, " conflict");
    let draft = app.saved_draft().unwrap();
    counts.conflict_on_next_get.set(true);
    app.handle_key(modified('s', Held::Control));
    poll_update_until_idle(&mut app);
    assert!(matches!(app.popup, Some(Popup::Conflict(_))));
    assert_eq!(counts.updates.get(), 0);
    assert_eq!(app.saved_draft(), Some(draft));
    app.handle_key(KeyEvent::plain(KeyCode::Char('o')));
    poll_update_until_idle(&mut app);
    assert_eq!(counts.updates.get(), 1);
    assert!(app.draft.is_none());
}

#[test]
fn create_recovery_draft_remains_on_disk_while_worker_is_blocked() {
    let (mut app, counts, cache, started, release) =
        blocking_mutation_cache_app(false);
    app.set_editor_draft_state(None);
    app.handle_key(KeyEvent::plain(KeyCode::Char('n')));
    type_text(&mut app, "Create recovery 日本語");
    app.handle_key(KeyEvent::plain(KeyCode::Tab));
    type_text(&mut app, "body 🚀");
    let expected = app.saved_draft().unwrap();

    app.handle_key(modified('s', Held::Control));
    started.recv().expect("create worker entered backend");

    assert_eq!(counts.creates.get(), 1);
    assert!(app.background.update_running);
    assert!(app.draft.is_some());
    assert_eq!(app.saved_draft(), Some(expected.clone()));
    assert!(matches!(expected.kind, EditorRecoveryKind::Create));
    assert_eq!(cache.lock().unwrap().upsert_note_calls, 0);

    release.send(()).unwrap();
    poll_update_until_idle(&mut app);
    assert_eq!(counts.creates.get(), 1);
    assert!(app.edit.is_none());
    assert!(app.draft.is_none());
}

#[test]
fn update_recovery_draft_remains_on_disk_while_worker_is_blocked() {
    let (mut app, counts, _, started, release) =
        blocking_mutation_cache_app(false);
    app.set_editor_draft_state(None);
    app.handle_key(KeyEvent::plain(KeyCode::Char('e')));
    let expected = make_nontrivial_dirty_edit(&mut app, "Update recovery title");
    let baseline = expected.expected_modification_date.clone();

    app.handle_key(modified('s', Held::Control));
    started.recv().expect("update worker entered mutation");

    assert_eq!(counts.updates.get(), 1);
    assert!(app.background.update_running);
    assert!(app.draft.is_some());
    let persisted = app.saved_draft().unwrap();
    assert_eq!(persisted.kind, EditorRecoveryKind::Edit);
    assert_eq!(persisted.note_id, expected.note_id);
    assert_eq!(persisted.expected_modification_date, baseline);
    assert_eq!(persisted.title, expected.title);
    assert_eq!(persisted.document, expected.document);

    release.send(()).unwrap();
    poll_update_until_idle(&mut app);
    assert_eq!(counts.updates.get(), 1);
    assert!(app.edit.is_none());
    assert!(app.draft.is_none());
}

#[test]
fn overwrite_recovery_draft_remains_on_disk_while_worker_is_blocked() {
    let (mut app, counts, _, started, release) =
        blocking_mutation_cache_app(false);
    app.set_editor_draft_state(None);
    app.handle_key(KeyEvent::plain(KeyCode::Char('e')));
    let expected = make_nontrivial_dirty_edit(&mut app, "Overwrite recovery title");
    let baseline = expected.expected_modification_date.clone();
    counts.conflict_on_next_get.set(true);

    app.handle_key(modified('s', Held::Control));
    poll_update_until_idle(&mut app);
    assert!(matches!(app.popup, Some(Popup::Conflict(_))));
    assert_eq!(counts.updates.get(), 0);
    assert!(app.draft.is_some());
    app.handle_key(KeyEvent::plain(KeyCode::Char('o')));
    started.recv().expect("overwrite worker entered backend");

    assert_eq!(counts.updates.get(), 1);
    assert!(app.background.update_running);
    assert!(app.draft.is_some());
    let persisted = app.saved_draft().unwrap();
    assert_eq!(persisted, expected);
    assert_eq!(persisted.expected_modification_date, baseline);

    release.send(()).unwrap();
    poll_update_until_idle(&mut app);
    assert_eq!(counts.updates.get(), 1);
    assert!(app.edit.is_none());
    assert!(app.draft.is_none());
}

#[test]
fn failed_conflict_overwrite_keeps_recovery_draft() {
    let (mut app, counts, cache, started, release) =
        blocking_mutation_cache_app(true);
    app.set_editor_draft_state(None);
    app.handle_key(KeyEvent::plain(KeyCode::Char('e')));
    let expected = make_nontrivial_dirty_edit(&mut app, "Failed overwrite title");
    counts.conflict_on_next_get.set(true);
    app.handle_key(modified('s', Held::Control));
    poll_update_until_idle(&mut app);
    assert!(matches!(app.popup, Some(Popup::Conflict(_))));

    app.handle_key(KeyEvent::plain(KeyCode::Char('o')));
    started
        .recv()
        .expect("failed overwrite worker entered backend");
    assert_eq!(counts.updates.get(), 1);
    release.send(()).unwrap();
    poll_update_until_idle(&mut app);

    assert_eq!(counts.updates.get(), 1);
    assert!(!app.background.update_running);
    assert!(app.popup.is_none());
    assert!(app.edit.as_ref().is_some_and(|edit| edit.dirty));
    assert!(app.status.is_error);
    assert!(app.status.text.contains("synthetic update failure"));
    assert!(app.draft.is_some());
    let persisted = app.saved_draft().unwrap();
    assert_eq!(persisted, expected);
    assert_eq!(
        persisted.expected_modification_date,
        expected.expected_modification_date
    );
    let cache = cache.lock().unwrap();
    assert_eq!(cache.upsert_note_calls, 0);
    assert_eq!(cache.replace_snapshot_calls, 0);
    drop(cache);
    app.poll_update_worker();
    assert_eq!(counts.updates.get(), 1);
    assert!(app.draft.is_some());
}

#[test]
fn legacy_b1_draft_without_cursor_viewport_restores_with_defaults() {
    let (mut app, _, _) = update_cache_app(false, None);
    app.handle_key(KeyEvent::plain(KeyCode::Char('e')));
    type_text(&mut app, " legacy");
    let mut draft = app.editor_recovery_draft().unwrap();
    draft.cursor = None;
    draft.viewport = None;
    app.edit = None;
    app.set_editor_draft_state(Some(recovered(draft)));
    app.offer_editor_draft_recovery();
    app.handle_key(KeyEvent::plain(KeyCode::Char('r')));
    let edit = app.edit.as_ref().unwrap();
    assert_eq!(edit.field, EditField::Body);
    assert_eq!(edit.cursor, 0);
    assert_eq!(edit.viewport, 0);
}

#[test]
fn restored_editor_recovers_exact_cursor_and_viewport_without_backend_or_cache_work() {
    let (mut app, counts, cache) = update_cache_app(false, None);
    app.set_editor_draft_state(None);
    app.handle_key(KeyEvent::plain(KeyCode::Char('e')));
    let mut draft = make_nontrivial_dirty_edit(&mut app, "Position restore");
    draft.cursor = Some(EditorCursorRecovery {
        field: EditorRecoveryField::Body,
        target: EditorTarget::ListItem {
            block_index: 1,
            item_index: 0,
        },
        offset: 4,
    });
    draft.viewport = Some(3);
    app.draft = Some(Arc::new(draft.clone()));
    app.edit = None;
    app.set_editor_draft_state(Some(recovered(draft.clone())));
    app.offer_editor_draft_recovery();
    app.handle_key(KeyEvent::plain(KeyCode::Char('r')));
    let edit = app.edit.as_ref().unwrap();
    assert!(edit.dirty);
    assert_eq!(edit.document.document, draft.document);
    assert_eq!(edit.current_target, draft.cursor.unwrap().target);
    assert_eq!(edit.cursor, draft.cursor.unwrap().offset);
    assert_eq!(edit.viewport, draft.viewport.unwrap());
    assert_eq!(counts.creates.get(), 0);
    assert_eq!(counts.updates.get(), 0);
    let cache = cache.lock().unwrap();
    assert_eq!(cache.upsert_note_calls, 0);
    assert_eq!(cache.replace_snapshot_calls, 0);
}

#[test]
fn clean_editor_position_changes_do_not_create_recovery_draft() {
    let mut app = App::demo();
    app.refresh();
    app.set_editor_draft_state(None);
    app.handle_key(KeyEvent::plain(KeyCode::Char('e')));
    app.handle_key(KeyEvent::plain(KeyCode::Left));
    app.handle_key(KeyEvent::plain(KeyCode::PageDown));
    assert!(app.edit.as_ref().is_some_and(|edit| !edit.dirty));
    assert!(app.draft.is_none());
}

#[test]
fn dirty_editor_position_changes_update_and_deduplicate_recovery_metadata() {
    let mut app = App::demo();
    app.refresh();
    app.set_editor_draft_state(None);
    app.handle_key(KeyEvent::plain(KeyCode::Char('e')));
    type_text(&mut app, "x");
    let initial = app.saved_draft().unwrap();
    app.handle_key(KeyEvent::plain(KeyCode::Left));
    let moved = app.saved_draft().unwrap();
    assert_eq!(moved.document, initial.document);
    assert_ne!(moved.cursor, initial.cursor);
    let bytes = app.draft.clone();
    app.persist_editor_recovery_if_dirty();
    assert_eq!(app.draft.clone(), bytes);
    app.handle_key(KeyEvent::plain(KeyCode::PageDown));
    let scrolled = app.saved_draft().unwrap();
    assert_eq!(scrolled.document, moved.document);
    assert_ne!(scrolled.viewport, moved.viewport);
}

#[test]
fn restored_editor_position_is_clamped_unicode_safe_and_failed_update_keeps_latest_metadata() {
    let (mut app, counts, _) = update_cache_app(true, None);
    app.handle_key(KeyEvent::plain(KeyCode::Char('e')));
    type_text(&mut app, "Grüße Русский 日本語 🚀 é");
    let mut draft = app.editor_recovery_draft().unwrap();
    draft.cursor = Some(EditorCursorRecovery {
        field: EditorRecoveryField::Body,
        target: EditorTarget::Block { block_index: 9999 },
        offset: usize::MAX,
    });
    draft.viewport = Some(u16::MAX);
    app.draft = Some(Arc::new(draft.clone()));
    app.edit = None;
    app.set_editor_draft_state(Some(recovered(draft)));
    app.offer_editor_draft_recovery();
    app.handle_key(KeyEvent::plain(KeyCode::Char('r')));
    let (cursor, viewport) = {
        let edit = app.edit.as_ref().unwrap();
        assert!(edit.document.validate_target(edit.current_target));
        assert_eq!(
            edit.cursor,
            edit.document.char_len(edit.current_target).unwrap()
        );
        assert_eq!(edit.viewport, editor_viewport_max(&edit.document, edit.current_target));
        (edit.cursor, edit.viewport)
    };
    app.handle_key(modified('s', Held::Control));
    poll_update_until_idle(&mut app);
    assert_eq!(counts.updates.get(), 1);
    assert!(app.edit.as_ref().is_some_and(|edit| edit.dirty));
    let retained = app.saved_draft().unwrap();
    assert_eq!(retained.cursor.unwrap().offset, cursor);
    assert_eq!(retained.viewport, Some(viewport));
}

#[test]
fn conflict_keeps_latest_cursor_and_viewport_in_recovery() {
    let (mut app, counts, _) = update_cache_app(false, None);
    app.set_editor_draft_state(None);
    app.handle_key(KeyEvent::plain(KeyCode::Char('e')));
    type_text(&mut app, " position");
    app.handle_key(KeyEvent::plain(KeyCode::Right));
    app.handle_key(KeyEvent::plain(KeyCode::PageDown));
    let expected = app.saved_draft().unwrap();
    counts.conflict_on_next_get.set(true);
    app.handle_key(modified('s', Held::Control));
    poll_update_until_idle(&mut app);
    assert!(matches!(app.popup, Some(Popup::Conflict(_))));
    assert_eq!(app.saved_draft(), Some(expected));
}

#[test]
fn successful_save_cleanup_failure_does_not_rollback_or_repeat_mutation() {
    let (mut app, counts, _) = update_cache_app(false, None);
    app.set_editor_draft_state(None);
    app.handle_key(KeyEvent::plain(KeyCode::Char('e')));
    type_text(&mut app, " cleanup");
    assert!(app.draft.is_some());
    app.draft_removal_fails = true;
    app.handle_key(modified('s', Held::Control));
    poll_update_until_idle(&mut app);
    assert_eq!(counts.updates.get(), 1);
    assert!(app.edit.is_none());
    assert_eq!(app.shown.data_source, DataSourceState::Live);
    assert!(app.status.text.contains("could not be removed"));
    assert!(app.draft.is_some());
}

#[test]
fn restored_edit_draft_preserves_old_baseline_and_conflicts_after_external_change() {
    let (mut app, counts, _) = update_cache_app(false, None);
    let selected_id = app.selected_note_id().expect("selected note").as_str().to_owned();
    let mut draft = recovery_draft(EditorRecoveryKind::Edit, Some(&selected_id));
    draft.expected_modification_date = Some(NoteDate::new("T1"));
    app.draft = Some(Arc::new(draft.clone()));
    app.set_editor_draft_state(Some(recovered(draft.clone())));
    app.offer_editor_draft_recovery();
    app.handle_key(KeyEvent::plain(KeyCode::Char('r')));
    assert_eq!(
        app.edit.as_ref().unwrap().base_modification_date,
        Some(NoteDate::new("T1"))
    );
    app.handle_key(modified('s', Held::Control));
    poll_update_until_idle(&mut app);
    assert!(matches!(app.popup, Some(Popup::Conflict(_))));
    assert_eq!(counts.updates.get(), 0);
    let persisted = app.saved_draft().unwrap();
    assert_eq!(persisted.document, draft.document);
    assert_eq!(
        persisted.expected_modification_date,
        draft.expected_modification_date
    );
    assert!(persisted.cursor.is_some());
    assert_eq!(persisted.viewport, Some(0));
}

#[test]
fn settings_save_persists_only_dirty_fields_and_preserves_unknown_values() {
    let mut app = App::demo();
    app.set_config_metadata([ConfigValueSource::Default; 4], [false; 4]);
    app.handle_key(KeyEvent::plain(KeyCode::Char(',')));
    app.handle_key(KeyEvent::plain(KeyCode::Char(' ')));
    app.handle_key(KeyEvent::plain(KeyCode::Char('s')));
    assert!(app.popup.is_none());
    assert_eq!(app.config.clone().unwrap(), "auto_refresh = false\n");
    app.config = Some("future_option = \"keep\"\nauto_refresh = false\n".into());
    app.handle_key(KeyEvent::plain(KeyCode::Char(',')));
    app.handle_key(KeyEvent::plain(KeyCode::Char('j')));
    app.handle_key(KeyEvent::plain(KeyCode::Char('j')));
    app.handle_key(KeyEvent::plain(KeyCode::Char(' ')));
    app.handle_key(KeyEvent::plain(KeyCode::Char('s')));
    let content = app.config.clone().unwrap();
    assert!(content.contains("future_option = \"keep\""));
    assert!(content.contains("preview_wrap = false"));
    assert!(app.prefs.preview_wrap);
}

#[test]
fn settings_interval_validates_and_malformed_file_refuses_save() {
    let mut app = App::demo();
    app.set_config_metadata([ConfigValueSource::Default; 4], [false; 4]);
    app.handle_key(KeyEvent::plain(KeyCode::Char(',')));
    app.handle_key(KeyEvent::plain(KeyCode::Char('j')));
    app.handle_key(KeyEvent::plain(KeyCode::Enter));
    for _ in 0..3 {
        app.handle_key(KeyEvent::plain(KeyCode::Backspace));
    }
    app.handle_key(KeyEvent::plain(KeyCode::Char('2')));
    app.handle_key(KeyEvent::plain(KeyCode::Enter));
    assert!(matches!(
        app.popup,
        Some(Popup::Settings(SettingsState { error: Some(_), .. }))
    ));
    app.handle_key(KeyEvent::plain(KeyCode::Esc));
    app.handle_key(KeyEvent::plain(KeyCode::Esc));
    app.config = Some("auto_refresh = \"broken\"\n".into());
    app.handle_key(KeyEvent::plain(KeyCode::Char(',')));
    app.handle_key(KeyEvent::plain(KeyCode::Char(' ')));
    app.handle_key(KeyEvent::plain(KeyCode::Char('s')));
    assert!(matches!(
        app.popup,
        Some(Popup::Settings(SettingsState { error: Some(_), .. }))
    ));
    assert_eq!(
        app.config.clone().unwrap(),
        "auto_refresh = \"broken\"\n"
    );
}

#[test]
fn settings_unset_revert_and_reset_stage_typed_operations() {
    let mut app = App::demo();
    app.config = Some("auto_refresh = false\npreview_wrap = false\n".into());
    app.set_config_metadata(
        [ConfigValueSource::File; 4],
        [true, false, true, false],
    );
    app.handle_key(KeyEvent::plain(KeyCode::Char(',')));
    app.handle_key(KeyEvent::plain(KeyCode::Char('u')));
    assert!(matches!(
        app.popup,
        Some(Popup::Settings(SettingsState {
            staged: [SettingDraft::Unset, ..],
            ..
        }))
    ));
    assert!(app.config.clone().unwrap().contains("preview_wrap"));
    app.handle_key(KeyEvent::plain(KeyCode::Char('r')));
    app.handle_key(KeyEvent::plain(KeyCode::Char('R')));
    app.handle_key(KeyEvent::plain(KeyCode::Char('s')));
    assert!(app.config.is_none());
}

/// The application with a config file and what was resolved of it.
fn app_with_config(contents: &str, cli: CliConfigOverrides) -> App {
    let resolved = resolve_config(Ok(Some(contents.into())), cli).expect("a sound command line");
    let mut app = App::demo();
    app.config = Some(contents.into());
    app.set_config_metadata(
        [
            resolved.auto_refresh_source,
            resolved.refresh_interval_source,
            resolved.preview_wrap_source,
            resolved.show_attachment_metadata_source,
        ],
        resolved.file_presence,
    );
    app.handle_key(KeyEvent::plain(KeyCode::Char(',')));
    app
}

fn staged(app: &App) -> [SettingDraft; 4] {
    match &app.popup {
        Some(Popup::Settings(settings)) => settings.staged,
        _ => panic!("the settings are closed"),
    }
}

#[test]
fn a_row_is_unset_where_the_file_holds_its_preference() {
    let (unset, unchanged) = (SettingDraft::Unset, SettingDraft::Unchanged);
    let files = [
        "auto_refresh = false\n",
        "refresh_interval_seconds = 60\n",
        "preview_wrap = false\n",
        "show_attachment_metadata = false\n",
    ];
    for (held, contents) in files.iter().enumerate() {
        for row in 0..4 {
            let mut app = app_with_config(contents, CliConfigOverrides::default());
            for _ in 0..row {
                app.handle_key(KeyEvent::plain(KeyCode::Char('j')));
            }
            app.handle_key(KeyEvent::plain(KeyCode::Char('u')));
            let mut expected = [unchanged; 4];
            if row == held {
                expected[row] = unset;
            }
            assert_eq!(staged(&app), expected);
        }
        let mut app = app_with_config(contents, CliConfigOverrides::default());
        app.handle_key(KeyEvent::plain(KeyCode::Char('R')));
        let mut expected = [unchanged; 4];
        expected[held] = unset;
        assert_eq!(staged(&app), expected);
        app.handle_key(KeyEvent::plain(KeyCode::Char('s')));
        assert!(app.config.is_none());
    }
}

#[test]
fn only_an_overridden_change_is_told_to_be_overridden() {
    let cli = CliConfigOverrides {
        refresh_interval_seconds: Some(60),
        ..CliConfigOverrides::default()
    };
    let mut app = app_with_config("auto_refresh = false\n", cli);
    app.handle_key(KeyEvent::plain(KeyCode::Char(' ')));
    app.handle_key(KeyEvent::plain(KeyCode::Char('s')));
    assert_eq!(app.status.text, "Settings saved; changes apply on next startup");

    let mut app = app_with_config("auto_refresh = false\n", cli);
    app.handle_key(KeyEvent::plain(KeyCode::Char('j')));
    app.handle_key(KeyEvent::plain(KeyCode::Enter));
    app.handle_key(KeyEvent::plain(KeyCode::Enter));
    app.handle_key(KeyEvent::plain(KeyCode::Char('s')));
    assert_eq!(
        app.status.text,
        "Settings saved; changes apply on next startup (CLI overrides remain active)"
    );
}

#[test]
fn startup_live_refresh_does_not_block_cached_ui() {
    let (started_receiver, release_sender) = gate();
    let counts = MutationCounts::default();
    let backend = counting_backend(BackendCapabilities::all_supported(), &counts);
    let mut app = App::demo();
    app.refresh();
    app.backend = Box::new(backend);
    app.start_initial_refresh();
    started_receiver.recv().unwrap();

    app.handle_key(KeyEvent::plain(KeyCode::Char('?')));
    assert!(app.shown.show_help);
    assert!(!app.data.notes.is_empty());

    release_sender.send(()).unwrap();
    poll_periodic_until_idle(&mut app);
    assert!(matches!(app.shown.data_source, DataSourceState::Live));
}
