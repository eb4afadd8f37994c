//! What the application shows, and the tree and texts behind it.

use std::sync::Arc;

use notes_tui::config::ConfigValueSource;
use notes_tui::demo::demo_backend;
use notes_tui::document::{Block, Inline, ListItem, RichDocument};
use notes_tui::edit::{
    cursor_position, edit_cursor, editor_blocks, editor_text, editor_viewport_max,
    mixed_list_boundary_count, open_body, original_document, text_before_cursor, Area, EditField,
    EditSession,
};
use notes_tui::editor::{EditorDocument, EditorTarget, TargetKind};
use notes_tui::jobs::{
    LiveRead, LiveStage, ReadCall, ReadFailure, ReadReply, ReadStep, ServiceCall, ServiceReply,
    UpdateJob, UpdateStep, UpdateWorkerResult,
};
use notes_tui::keys::{KeyCode, KeyEvent};
use notes_tui::model::{
    Account, AccountId, Editability, Folder, FolderId, FolderParent, Note, NoteDate, NoteId,
    NoteSummary, NotesError, NotesPage,
};
use notes_tui::navigation::{
    build_navigation, default_navigation_index, edge_index, find_current_target,
    folder_is_descendant_of, move_index, reparent_destinations, session_context_for_data,
    FolderReparentTarget, NavigationItem, RefreshContext,
};
use notes_tui::popups::list_move_targets;
use notes_tui::preview::{preview_text, rich_preview_lines, PreviewLine, StyledSpan, TextStyle};
use notes_tui::rows::RowCache;
use notes_tui::screen::{help_text, navigation_label, settings_popup_text, too_small};
use notes_tui::session::SessionState;
use notes_tui::settings::settings_edits;
use notes_tui::workflow::{Popup, SettingDraft, SettingsState};

fn text(value: &str) -> Vec<Inline> {
    vec![Inline::Text(value.into())]
}

fn item(value: &str) -> ListItem {
    ListItem { content: text(value) }
}

fn account(id: &str, home: Option<&str>) -> Account {
    Account {
        id: AccountId::new(id),
        name: format!("Account {id}"),
        is_default: false,
        is_upgraded: true,
        default_folder_id: home.map(FolderId::new),
    }
}

fn folder(id: &str, account: &str, parent: Option<&str>) -> Folder {
    Folder {
        id: FolderId::new(id),
        account_id: AccountId::new(account),
        name: format!("Folder {id}"),
        parent: match parent {
            Some(parent) => FolderParent::Folder { folder_id: FolderId::new(parent) },
            None => FolderParent::Account { account_id: AccountId::new(account) },
        },
        shared: false,
    }
}

fn summary(id: &str, folder: &str) -> NoteSummary {
    NoteSummary {
        id: NoteId::new(id),
        folder_id: FolderId::new(folder),
        name: format!("Note {id}"),
        creation_date: NoteDate::new("created"),
        modification_date: NoteDate::new("modified"),
        password_protected: false,
        shared: false,
        attachment_count: 0,
    }
}

fn note(id: &str, document: RichDocument) -> Arc<Note> {
    Arc::new(Note {
        summary: summary(id, "f"),
        account_id: AccountId::new("a"),
        body_html: String::new(),
        plaintext: String::new(),
        body: Ok(document),
        editability: Editability::RichTextSupported,
        attachments: vec![],
    })
}

fn failure(message: &str) -> NotesError {
    NotesError { cancelled: false, message: message.into() }
}

fn tree() -> (Vec<Account>, Vec<Folder>) {
    let accounts = vec![account("a", Some("a2")), account("b", None)];
    let folders = vec![
        folder("a1", "a", None),
        folder("a1x", "a", Some("a1")),
        folder("b1", "b", None),
        folder("a2", "a", None),
        folder("a1y", "a", Some("a1x")),
    ];
    (accounts, folders)
}

// ---------------------------------------------------------------------------
// The tree
// ---------------------------------------------------------------------------

#[test]
fn the_tree_shows_each_folder_once_under_its_parent() {
    let (accounts, folders) = tree();
    let labels: Vec<String> =
        build_navigation(&accounts, &folders).iter().map(navigation_label).collect();
    assert_eq!(
        labels,
        [
            "Account a",
            "  └─ Folder a1",
            "    └─ Folder a1x",
            "      └─ Folder a1y",
            "  └─ Folder a2",
            "Account b",
            "  └─ Folder b1",
        ]
    );
}

#[test]
fn folders_in_a_ring_are_left_out() {
    let accounts = vec![account("a", None)];
    let ring = vec![folder("x", "a", Some("y")), folder("y", "a", Some("x"))];
    assert_eq!(build_navigation(&accounts, &ring).len(), 1);
    assert!(folder_is_descendant_of(&ring, &FolderId::new("x"), &FolderId::new("y")));
    assert!(!folder_is_descendant_of(&ring, &FolderId::new("x"), &FolderId::new("z")));
}

#[test]
fn a_folder_can_be_put_anywhere_but_into_itself() {
    let (accounts, folders) = tree();
    let items = build_navigation(&accounts, &folders);
    let a = AccountId::new("a");
    let targets = reparent_destinations(&folders, &items, &a, &FolderId::new("a1x"));
    let ids: Vec<Option<String>> = targets
        .iter()
        .map(|target| target.parent_id().map(|id| id.as_str().to_owned()))
        .collect();
    assert_eq!(ids, [None, Some("a1".into()), Some("a2".into())]);
    let here = FolderParent::Folder { folder_id: FolderId::new("a1") };
    assert_eq!(find_current_target(&targets, &here), 1);
    assert!(matches!(targets[0], FolderReparentTarget::AccountRoot));
}

#[test]
fn notes_can_go_to_every_folder_of_the_tree() {
    let (accounts, folders) = tree();
    let targets = list_move_targets(&build_navigation(&accounts, &folders));
    let ids: Vec<&str> = targets.iter().map(|(id, _)| id.as_str()).collect();
    assert_eq!(ids, ["a1", "a1x", "a1y", "a2", "b1"]);
}

#[test]
fn places_stay_inside_their_list() {
    assert_eq!(move_index(0, 3, -1), 0);
    assert_eq!(move_index(2, 3, 1), 2);
    assert_eq!(move_index(1, 3, 1), 2);
    assert_eq!(move_index(5, 0, 1), 0);
    assert_eq!(edge_index(4, true), 3);
    assert_eq!(edge_index(4, false), 0);
    assert_eq!(edge_index(0, true), 0);
    let (accounts, folders) = tree();
    let items = build_navigation(&accounts, &folders);
    assert!(matches!(items[default_navigation_index(&items)], NavigationItem::Folder { .. }));
}

#[test]
fn a_session_points_at_what_is_still_there() {
    let (accounts, folders) = tree();
    let context = |account: &str, folder: &str| {
        let session = SessionState {
            account_id: Some(AccountId::new(account)),
            folder_id: Some(FolderId::new(folder)),
            note_id: None,
            search_query: None,
            preview_scroll: None,
            focus: None,
        };
        session_context_for_data(&accounts, &folders, &session)
    };
    assert_eq!(context("a", "a1x"), Some(RefreshContext::Folder(FolderId::new("a1x"))));
    assert_eq!(context("a", "gone"), Some(RefreshContext::Folder(FolderId::new("a2"))));
    assert_eq!(context("gone", "a1"), None);
}

#[test]
fn rows_are_kept_by_folder() {
    let mut rows = RowCache::from_notes(&vec![
        summary("n1", "f"),
        summary("n2", "g"),
        summary("n3", "f"),
    ]);
    let ids = |rows: &RowCache, folder: &str| -> Option<Vec<String>> {
        let notes = rows.get(&FolderId::new(folder))?;
        Some(notes.iter().map(|note| note.id.as_str().to_owned()).collect())
    };
    assert_eq!(ids(&rows, "f"), Some(vec!["n1".into(), "n3".into()]));
    rows.insert(FolderId::new("f"), vec![summary("n4", "f")]);
    assert_eq!(ids(&rows, "f"), Some(vec!["n4".into()]));
    rows.remove(&FolderId::new("f"));
    assert_eq!(ids(&rows, "f"), None);
    assert_eq!(ids(&rows, "g"), Some(vec!["n2".into()]));
}

// ---------------------------------------------------------------------------
// Texts
// ---------------------------------------------------------------------------

#[test]
fn the_screen_has_a_least_size() {
    assert!(too_small(79, 24).is_some());
    assert!(too_small(80, 23).is_some());
    assert_eq!(too_small(80, 24), None);
    assert!(help_text().starts_with("Navigation\n"));
}

#[test]
fn a_note_is_shown_line_by_line() {
    let document = RichDocument {
        blocks: vec![
            Block::Heading1(text("Head")),
            Block::Paragraph(vec![
                Inline::Text("see ".into()),
                Inline::Bold(text("this")),
                Inline::Link { label: text("link"), href: "https://x.test".into() },
            ]),
            Block::BulletList(vec![item("one"), item("two")]),
            Block::NumberedList(vec![item("first")]),
            Block::Quote(text("said")),
            Block::CodeBlock("a\nb".into()),
        ],
    };
    let shown: Vec<String> = rich_preview_lines(&document)
        .iter()
        .map(|line| match line {
            PreviewLine::Plain(text) => text.clone(),
            PreviewLine::Spans(spans) => spans.iter().map(|span| span.content.clone()).collect(),
        })
        .filter(|line: &String| !line.is_empty())
        .collect();
    assert_eq!(shown[0], "Head");
    assert_eq!(shown[1], "see thislink");
    assert!(shown.contains(&"• one".to_string()));
    assert!(shown.contains(&"1. first".to_string()));
    assert!(shown.contains(&"> said".to_string()));
    assert_eq!(shown[shown.len() - 2..], ["    a", "    b"]);
    let bold = StyledSpan {
        content: "this".into(),
        style: TextStyle { bold: true, ..TextStyle::plain() },
    };
    let spans = rich_preview_lines(&document);
    assert!(spans
        .iter()
        .any(|line| matches!(line, PreviewLine::Spans(spans) if spans.contains(&bold))));
    let whole = preview_text(&note("n1", document), true);
    assert!(whole.len() > spans.len());
}

#[test]
fn the_demo_has_an_account_three_folders_and_its_notes() {
    let demo = demo_backend();
    assert_eq!(demo.accounts.len(), 1);
    assert_eq!(demo.accounts[0].default_folder_id, Some(FolderId::new("demo-notes")));
    let folders: Vec<&str> = demo.folders.iter().map(|folder| folder.name.as_str()).collect();
    assert_eq!(folders, ["Notes", "Work", "Семья"]);
    let list = demo.notes.iter().find(|note| note.id == NoteId::new("demo-note-3")).unwrap();
    assert_eq!(list.plaintext, "Хлеб\nМолоко\nЯблоки");
    let plain = demo.notes.iter().find(|note| note.id == NoteId::new("demo-plain")).unwrap();
    assert_eq!(plain.plaintext, " div Plain text /div ");
    let locked =
        demo.notes.iter().find(|note| note.id == NoteId::new("demo-locked-attachment")).unwrap();
    assert!(locked.locked);
    assert_eq!(locked.attachments.len(), 1);
}

// ---------------------------------------------------------------------------
// The editor pane
// ---------------------------------------------------------------------------

fn edit(title: &str, body: &str, field: EditField, cursor: usize) -> EditSession {
    let document = EditorDocument::from_plaintext(body);
    EditSession {
        note_id: None,
        folder_id: FolderId::new("f"),
        original_title: String::new(),
        original_body_html: String::new(),
        original_plaintext: String::new(),
        base_modification_date: None,
        title_buffer: title.into(),
        original: document.document.clone(),
        current_target: document.first_target(),
        document,
        dirty: false,
        is_new: true,
        field,
        cursor,
        viewport: 0,
    }
}

#[test]
fn wide_letters_move_the_cursor_by_two_cells() {
    let area = Area { x: 10, y: 5, width: 40, height: 12 };
    let (narrow, y) = edit_cursor(area, &edit("ab", "", EditField::Title, 2));
    let (wide, _) = edit_cursor(area, &edit("日本", "", EditField::Title, 2));
    assert_eq!(y, 6);
    assert_eq!(wide, narrow + 2);
    let (line, before) = text_before_cursor(&edit("ab", "", EditField::Title, 1));
    assert_eq!((line, before.as_str()), (0, "Title: a"));
}

#[test]
fn the_cursor_stays_inside_the_pane() {
    let area = Area { x: 0, y: 0, width: 10, height: 5 };
    assert_eq!(cursor_position(area, 1, 2, 0), (3, 2));
    assert_eq!(cursor_position(area, 1, 50, 0), (8, 2));
    assert_eq!(cursor_position(area, 30, 2, 0), (3, 3));
    assert_eq!(cursor_position(area, 30, 2, 29), (3, 2));
}

#[test]
fn the_pane_names_the_field_and_marks_the_line() {
    let session = edit("Title", "one\ntwo", EditField::Body, 0);
    let shown = editor_text(&session);
    assert!(shown.starts_with("Title: Title\n\nBody:\n"));
    assert!(shown.contains("Editing Body"));
    let blocks = editor_blocks(&session.document, session.current_target);
    assert_eq!(blocks.lines().count(), 2);
    assert!(blocks.contains("one") && blocks.contains("two"));
    assert!(editor_viewport_max(&session.document, session.current_target) >= 1);
}

#[test]
fn the_title_is_no_part_of_the_body() {
    let body = RichDocument {
        blocks: vec![Block::Paragraph(text("Title")), Block::Paragraph(text("Body"))],
    };
    let opened = open_body(&body, "Title");
    assert_eq!(opened.document.blocks, vec![Block::Paragraph(text("Body"))]);
    let other = open_body(&body, "Another");
    assert_eq!(other.document, body);
    let kept = original_document(false, &Some(body), "Title", "");
    assert_eq!(kept.blocks, vec![Block::Paragraph(text("Body"))]);
}

#[test]
fn lists_of_two_kinds_that_touch_are_counted() {
    let lists = RichDocument {
        blocks: vec![
            Block::BulletList(vec![item("a")]),
            Block::NumberedList(vec![item("b")]),
            Block::BulletList(vec![item("c")]),
            Block::Paragraph(text("d")),
            Block::NumberedList(vec![item("e")]),
        ],
    };
    assert_eq!(mixed_list_boundary_count(&lists), 2);
}

#[test]
fn a_conversion_that_would_mix_lists_is_undone() {
    let mut session = edit("t", "", EditField::Body, 0);
    session.document = EditorDocument::new(RichDocument {
        blocks: vec![Block::BulletList(vec![item("one"), item("two")])],
    });
    session.current_target = EditorTarget::ListItem { block_index: 0, item_index: 0 };
    let before = session.document.document.clone();
    assert_eq!(session.convert(TargetKind::Numbered, false), Ok(true));
    assert_eq!(session.document.document, before);
    assert!(!session.dirty);
    assert_eq!(session.convert(TargetKind::Numbered, true), Ok(false));
    assert_eq!(session.document.document.blocks.len(), 2);
    assert!(session.dirty);
}

// ---------------------------------------------------------------------------
// Settings
// ---------------------------------------------------------------------------

#[test]
fn settings_that_were_not_touched_edit_nothing() {
    let mut app = notes_tui::app::App::new(notes_tui::model::BackendCapabilities::all_supported());
    app.begin_settings();
    let Some(Popup::Settings(settings)) = &app.popup else {
        panic!("settings are open");
    };
    assert!(settings_edits(settings).is_empty());
    let shown = settings_popup_text(settings, &[ConfigValueSource::Default; 4]);
    assert!(shown.starts_with("Settings (changes apply next startup)\n\n"));
    let staged = SettingsState {
        selected: settings.selected,
        draft: settings.draft,
        staged: [SettingDraft::Unset; 4],
        interval_input: None,
        error: None,
    };
    assert_eq!(settings_edits(&staged).len(), 4);
}

// ---------------------------------------------------------------------------
// Work in the background
// ---------------------------------------------------------------------------

fn save_job(base: &str) -> UpdateJob {
    UpdateJob::SaveNote {
        id: NoteId::new("n1"),
        title: "New".into(),
        document: RichDocument { blocks: vec![] },
        base_date: Some(NoteDate::new(base)),
        checked: false,
    }
}

#[test]
fn a_note_that_changed_meanwhile_is_not_written() {
    let job = save_job("older");
    assert!(matches!(job.call(), ServiceCall::GetNote(id) if id == NoteId::new("n1")));
    let remote = note("n1", RichDocument { blocks: vec![] });
    assert!(matches!(
        job.answer(ServiceReply::Note(Ok(remote))),
        UpdateStep::Done(UpdateWorkerResult::Conflict(_))
    ));
}

#[test]
fn a_note_that_did_not_change_is_written() {
    let remote = note("n1", RichDocument { blocks: vec![] });
    let UpdateStep::Again(job) = save_job("modified").answer(ServiceReply::Note(Ok(remote.clone())))
    else {
        panic!("the note is to be written");
    };
    assert!(matches!(
        job.call(),
        ServiceCall::UpdateNote { name, expected_modification_date: Some(date), .. }
            if name == "New" && date == NoteDate::new("modified")
    ));
    assert!(matches!(
        job.answer(ServiceReply::Note(Ok(remote))),
        UpdateStep::Done(UpdateWorkerResult::Saved(_))
    ));
    assert!(matches!(
        save_job("x").answer(ServiceReply::Note(Err(failure("offline")))),
        UpdateStep::Done(UpdateWorkerResult::Failed(error)) if error.message == "offline"
    ));
}

#[test]
fn a_reading_ends_at_the_first_failure() {
    let read = LiveRead { context: None, session: None, preferred: None, stage: LiveStage::Accounts };
    assert!(matches!(read.call(), ReadCall::Accounts));
    assert!(matches!(
        read.answer(ReadReply::Accounts(Err(failure("offline")))),
        ReadStep::Done(Err(ReadFailure::Service(error))) if error.message == "offline"
    ));
}

#[test]
fn a_reading_with_no_account_has_nothing_to_show() {
    let read = LiveRead { context: None, session: None, preferred: None, stage: LiveStage::Accounts };
    let ReadStep::Again(read) = read.answer(ReadReply::Accounts(Ok(vec![]))) else {
        panic!("the folders are to be read");
    };
    assert!(matches!(
        read.answer(ReadReply::Folders(Ok(vec![]))),
        ReadStep::Done(Err(ReadFailure::NothingToShow))
    ));
}

#[test]
fn a_reading_goes_to_the_home_folder_and_its_preferred_note() {
    let (accounts, folders) = tree();
    let read = LiveRead {
        context: None,
        session: None,
        preferred: Some(NoteId::new("n2")),
        stage: LiveStage::Accounts,
    };
    let ReadStep::Again(read) = read.answer(ReadReply::Accounts(Ok(accounts))) else {
        panic!("the folders are to be read");
    };
    assert!(matches!(read.call(), ReadCall::Folders));
    let ReadStep::Again(read) = read.answer(ReadReply::Folders(Ok(folders))) else {
        panic!("the notes are to be read");
    };
    let ReadCall::Notes(query) = read.call() else {
        panic!("the notes are to be read");
    };
    assert_eq!(query.account_id, None);
    let shown = query.folder_id.expect("a folder");
    let page = NotesPage {
        items: vec![summary("n1", shown.as_str()), summary("n2", shown.as_str())],
        total: 2,
    };
    let ReadStep::Again(read) = read.answer(ReadReply::Notes(Ok(page))) else {
        panic!("a note is to be read");
    };
    assert!(matches!(read.call(), ReadCall::Note(id) if id == NoteId::new("n2")));
    let found = note("n2", RichDocument { blocks: vec![] });
    assert!(matches!(
        read.answer(ReadReply::Note(Ok(found))),
        ReadStep::Done(Ok(read)) if read.notes.len() == 2 && read.selected_note.is_some()
    ));
}

#[test]
fn keys_carry_what_is_held() {
    let plain = KeyEvent::plain(KeyCode::Char('a'));
    assert!(!plain.modifiers.control && !plain.modifiers.alt);
    assert!(KeyEvent::control(KeyCode::Char('a')).modifiers.control);
    assert!(KeyEvent::alt(KeyCode::Char('a')).modifiers.alt);
}
