//! The files of the application: its preferences, its session and its editor draft.

use notes_tui::config::{
    edit_config, edit_config_batch, edit_config_values, interval, parse_config_document,
    parse_config_edit_command, parse_config_overrides, parse_config_set, parse_file_config,
    resolve_config, serialize_config_document, AppConfig, CliConfigOverrides, ConfigEdit,
    ConfigEditCommand, ConfigEditValue, ConfigKey, ConfigPlan, ConfigValueSource,
    ResolvedConfig, DEFAULT_REFRESH_INTERVAL,
};
use notes_tui::document::{Block, Inline, RichDocument};
use notes_tui::draft::{
    check_editor_draft, classify_editor_draft, describe_inspection, format_editor_draft_info,
    inspect_editor_draft, load_editor_draft, DraftFile, EditorCursorRecovery,
    EditorDraftInspection, EditorRecoveryDraft, EditorRecoveryField, EditorRecoveryKind,
};
use notes_tui::editor::EditorTarget;
use notes_tui::model::{AccountId, FolderId, NoteDate, NoteId};
use notes_tui::session::{
    load_session, parse_session, parse_session_string, serialize_session, session_string,
    SessionFocus, SessionState,
};

// ---------------------------------------------------------------------------
// Preferences
// ---------------------------------------------------------------------------

fn written(plan: ConfigPlan) -> String {
    match plan {
        ConfigPlan::Write(text) => text,
        ConfigPlan::Remove => panic!("the file should stay"),
    }
}

fn strings(args: &[&str]) -> Vec<String> {
    args.iter().map(|arg| arg.to_string()).collect()
}

#[test]
fn config_set_unset_and_reset_preserve_unknown_fields() {
    let file = written(edit_config(Ok(None), parse_config_set("auto_refresh=false").unwrap()).unwrap());
    let file =
        written(edit_config(Ok(Some(file)), parse_config_set("preview_wrap=false").unwrap()).unwrap());
    assert!(file.contains("auto_refresh = false"));
    assert!(file.contains("preview_wrap = false"));
    let file = format!("future_option = \"keep\"\n{file}");
    let file = written(
        edit_config(Ok(Some(file)), ConfigEditCommand::Unset(ConfigKey::PreviewWrap)).unwrap(),
    );
    assert!(file.contains("future_option = \"keep\""));
    assert!(!file.contains("preview_wrap"));
    let file = written(edit_config(Ok(Some(file)), ConfigEditCommand::Reset).unwrap());
    assert_eq!(file, "future_option = \"keep\"\n");
}

#[test]
fn config_reset_removes_supported_only_file_and_malformed_file_is_untouched() {
    let file = written(edit_config(Ok(None), parse_config_set("auto_refresh=false").unwrap()).unwrap());
    assert_eq!(
        edit_config(Ok(Some(file)), ConfigEditCommand::Reset).unwrap(),
        ConfigPlan::Remove
    );
    let malformed = "auto_refresh = \"banana\"\n".to_string();
    assert_eq!(
        edit_config(Ok(Some(malformed)), parse_config_set("preview_wrap=false").unwrap()),
        Err("auto_refresh must be true or false".into())
    );
    assert_eq!(
        edit_config(Err("denied".into()), ConfigEditCommand::Reset),
        Err("could not read config: denied".into())
    );
}

#[test]
fn one_preference_is_set_and_the_others_stay() {
    let before = "auto_refresh = false\nrefresh_interval_seconds = 30\n";
    let after = written(
        edit_config(Ok(Some(before.into())), parse_config_set("preview_wrap=false").unwrap())
            .unwrap(),
    );
    let file = parse_file_config(&after).unwrap();
    assert_eq!(file.auto_refresh, Some(false));
    assert_eq!(file.refresh_interval_seconds, Some(30));
    assert_eq!(file.preview_wrap, Some(false));
    assert_eq!(file.show_attachment_metadata, None);
}

#[test]
fn a_written_file_reads_back() {
    let text = "# mine\nfuture = 1\nauto_refresh = true\nrefresh_interval_seconds = 5\n";
    let document = parse_config_document(text).unwrap();
    let again = parse_config_document(&serialize_config_document(&document)).unwrap();
    assert_eq!(again.file, document.file);
    assert_eq!(again.unknown_lines, document.unknown_lines);
    assert_eq!(again.has_unknown_keys, document.has_unknown_keys);
}

#[test]
fn a_line_that_ends_in_a_lone_return_loses_it_and_says_the_same() {
    let contents = "future = 1\r\r\npreview_wrap = false\r\r\n# end\r";
    let change = ConfigEditCommand::Assign(ConfigKey::AutoRefresh, ConfigEditValue::Boolean(false));
    let text = written(edit_config(Ok(Some(contents.into())), change).unwrap());
    assert_eq!(
        text,
        "auto_refresh = false\npreview_wrap = false\nfuture = 1\r\n# end\r\n"
    );
    let again = written(edit_config(Ok(Some(text)), change).unwrap());
    assert_eq!(again, "auto_refresh = false\npreview_wrap = false\nfuture = 1\n# end\n");
}

fn sources(resolved: &ResolvedConfig) -> [ConfigValueSource; 4] {
    [
        resolved.auto_refresh_source,
        resolved.refresh_interval_source,
        resolved.preview_wrap_source,
        resolved.show_attachment_metadata_source,
    ]
}

#[test]
fn a_preference_that_was_set_is_in_force() {
    let cases = [
        (ConfigKey::AutoRefresh, ConfigEditValue::Boolean(false)),
        (ConfigKey::RefreshIntervalSeconds, ConfigEditValue::RefreshIntervalSeconds(77)),
        (ConfigKey::PreviewWrap, ConfigEditValue::Boolean(false)),
        (ConfigKey::ShowAttachmentMetadata, ConfigEditValue::Boolean(false)),
    ];
    for (row, (key, value)) in cases.into_iter().enumerate() {
        for contents in [None, Some("# mine\rx\r\r\npreview_wrap = true\n".to_string())] {
            let cli = CliConfigOverrides::default();
            let before = resolve_config(Ok(contents.clone()), cli).unwrap();
            let text = written(
                edit_config(Ok(contents), ConfigEditCommand::Assign(key, value)).unwrap(),
            );
            let after = resolve_config(Ok(Some(text)), cli).unwrap();
            assert_eq!(after.warning, None);
            for other in 0..4 {
                if other == row {
                    assert_eq!(sources(&after)[row], ConfigValueSource::File);
                    assert!(after.file_presence[row]);
                } else {
                    assert_eq!(sources(&after)[other], sources(&before)[other]);
                    assert_eq!(after.file_presence[other], before.file_presence[other]);
                }
            }
            let (a, b) = (after.config, before.config);
            assert_eq!(a.auto_refresh, row != 0 && b.auto_refresh);
            assert_eq!(a.refresh_interval, if row == 1 { 77 } else { b.refresh_interval });
            assert_eq!(a.preview_wrap, row != 2 && b.preview_wrap);
            assert_eq!(a.show_attachment_metadata, row != 3 && b.show_attachment_metadata);
        }
    }
}

#[test]
fn changes_at_once_leave_no_empty_file_behind() {
    let text = "auto_refresh = false\n".to_string();
    let unset = [ConfigEdit::Unset(ConfigKey::AutoRefresh)];
    assert_eq!(edit_config_batch(Ok(Some(text.clone())), &unset).unwrap(), ConfigPlan::Remove);
    let both = [
        ConfigEdit::Unset(ConfigKey::AutoRefresh),
        ConfigEdit::Assign(
            ConfigKey::RefreshIntervalSeconds,
            ConfigEditValue::RefreshIntervalSeconds(90),
        ),
    ];
    assert_eq!(
        edit_config_batch(Ok(Some(text)), &both).unwrap(),
        ConfigPlan::Write("refresh_interval_seconds = 90\n".into())
    );
    let values = [(ConfigKey::PreviewWrap, ConfigEditValue::Boolean(true))];
    assert_eq!(
        edit_config_values(Ok(None), &values).unwrap(),
        ConfigPlan::Write("preview_wrap = true\n".into())
    );
}

#[test]
fn preferences_are_found_by_their_names() {
    for key in [
        ConfigKey::RefreshIntervalSeconds,
        ConfigKey::AutoRefresh,
        ConfigKey::PreviewWrap,
        ConfigKey::ShowAttachmentMetadata,
    ] {
        assert_eq!(ConfigKey::parse(key.name()), Ok(key));
    }
    assert_eq!(ConfigKey::parse("colour"), Err("unsupported config key: colour".into()));
}

#[test]
fn the_interval_has_bounds() {
    assert_eq!(interval(5), Ok(5));
    assert_eq!(interval(86_400), Ok(86_400));
    let refused = Err("refresh_interval_seconds must be between 5 and 86400".to_string());
    assert_eq!(interval(4), refused);
    assert_eq!(interval(86_401), refused);
}

#[test]
fn commands_that_make_no_sense_are_refused() {
    let set = |args: &[&str]| parse_config_edit_command(&strings(args));
    assert_eq!(set(&["--config-set"]), Err("--config-set requires key=value".into()));
    assert_eq!(
        parse_config_set("auto_refresh"),
        Err("--config-set requires key=value".into())
    );
    assert_eq!(
        parse_config_set("refresh_interval_seconds=soon"),
        Err("refresh_interval_seconds must be an integer".into())
    );
    assert_eq!(
        parse_config_set("preview_wrap=maybe"),
        Err("preview_wrap must be true or false".into())
    );
    assert_eq!(
        set(&["--config-unset"]),
        Err("--config-unset requires a supported key".into())
    );
    assert_eq!(
        set(&["--config-reset", "--config-unset", "auto_refresh"]),
        Err("only one config write command may be used at a time".into())
    );
    assert_eq!(
        set(&["--config-reset", "--auto-refresh"]),
        Err("config write commands cannot be combined with runtime overrides".into())
    );
    assert_eq!(
        parse_config_overrides(&strings(&["--refresh-interval", "x"])).err(),
        Some("--refresh-interval requires an integer".into())
    );
    assert_eq!(parse_file_config("no pair").err(), Some("malformed config line".into()));
}

#[test]
fn a_broken_file_is_told_and_left_out() {
    let resolved =
        resolve_config(Ok(Some("preview_wrap = 3".into())), CliConfigOverrides::default()).unwrap();
    assert_eq!(
        resolved.warning,
        Some("Config warning: preview_wrap must be true or false".into())
    );
    assert_eq!(
        resolved.config,
        AppConfig {
            refresh_interval: DEFAULT_REFRESH_INTERVAL,
            auto_refresh: true,
            preview_wrap: true,
            show_attachment_metadata: true,
        }
    );
    assert_eq!(resolved.preview_wrap_source, ConfigValueSource::Default);
    assert_eq!(resolved.file_presence, [false; 4]);
}

// ---------------------------------------------------------------------------
// The session
// ---------------------------------------------------------------------------

fn session(note_id: Option<&str>) -> SessionState {
    SessionState {
        account_id: Some(AccountId::new("account-b")),
        folder_id: Some(FolderId::new("folder-b")),
        note_id: note_id.map(NoteId::new),
        search_query: None,
        preview_scroll: None,
        focus: None,
    }
}

fn reads_back(state: &SessionState) -> String {
    let text = serialize_session(state);
    assert_eq!(load_session(Ok(Some(text.clone()))).unwrap().as_ref(), Some(state));
    text
}

#[test]
fn missing_session_is_none_and_roundtrip_preserves_stable_ids() {
    assert_eq!(load_session(Ok(None)).unwrap(), None);
    let contents = reads_back(&session(None));
    assert!(contents.contains("account_id"));
    assert!(contents.contains("folder_id"));
    assert!(!contents.contains("note"));
}

#[test]
fn session_roundtrip_preserves_optional_note_id_and_legacy_files_load() {
    reads_back(&session(Some("note-b")));
    let legacy = "account_id = \"account-b\"\nfolder_id = \"folder-b\"\n";
    assert_eq!(load_session(Ok(Some(legacy.into()))).unwrap(), Some(session(None)));
}

#[test]
fn session_roundtrip_preserves_completed_unicode_search_and_legacy_is_none() {
    let mut state = session(Some("note-b"));
    state.search_query = Some("Grüße 日本語 🚀".into());
    reads_back(&state);
    let legacy = "account_id = \"account-b\"\nfolder_id = \"folder-b\"\nnote_id = \"note-b\"\n";
    assert_eq!(parse_session(legacy).unwrap().search_query, None);
}

#[test]
fn session_roundtrip_preserves_optional_browsing_focus_and_legacy_files_load() {
    let mut state = session(Some("note-b"));
    state.search_query = Some("needle".into());
    state.preview_scroll = Some(3);
    state.focus = Some(SessionFocus::Preview);
    assert!(reads_back(&state).contains("focus = \"preview\""));
    let legacy = "account_id = \"account-b\"\nfolder_id = \"folder-b\"\nnote_id = \"note-b\"\n\
                  search_query = \"needle\"\npreview_scroll = 3\n";
    assert_eq!(parse_session(legacy).unwrap().focus, None);
    assert!(parse_session("focus = \"editor\"\n").is_err());
}

#[test]
fn quoted_text_reads_back() {
    for text in ["", "plain", "a \"quoted\" \\ back", "line\nbreak\ttab\r", "日本語 🚀"] {
        assert_eq!(parse_session_string(&session_string(text)), Ok(text.to_string()));
    }
    assert_eq!(session_string("a\"b"), "\"a\\\"b\"");
}

#[test]
fn a_broken_session_says_what_is_wrong() {
    let wrong = |text: &str| parse_session(text).unwrap_err();
    assert_eq!(wrong("account_id = unquoted\n"), "session values must be quoted strings");
    assert_eq!(wrong("account_id\n"), "session contains an invalid line");
    assert_eq!(wrong("colour = \"red\"\n"), "session contains an unknown key: colour");
    assert_eq!(wrong("focus = \"editor\"\n"), "session contains an unsupported focus");
    assert_eq!(
        wrong("preview_scroll = 70000\n"),
        "preview_scroll must be an unsigned 16-bit integer"
    );
    assert_eq!(wrong("note_id = \"a\\q\"\n"), "session contains an unsupported escape");
    assert_eq!(
        parse_session_string("\"a\\\""),
        Err("session ends with an incomplete escape".into())
    );
    assert_eq!(
        load_session(Err("denied".into())),
        Err("could not read session: denied".into())
    );
}

// ---------------------------------------------------------------------------
// The editor draft
// ---------------------------------------------------------------------------

fn draft(kind: EditorRecoveryKind, note_id: Option<&str>) -> EditorRecoveryDraft {
    EditorRecoveryDraft {
        version: 1,
        kind,
        account_id: AccountId::new("demo-account"),
        folder_id: FolderId::new("demo-notes"),
        note_id: note_id.map(NoteId::new),
        expected_modification_date: Some(NoteDate::new("draft-baseline")),
        title: "Visible title".into(),
        document: RichDocument {
            blocks: vec![Block::Paragraph(vec![Inline::Text("hidden body".into())])],
        },
        original_title: "Original".into(),
        original_body_html: "<div>Original</div>".into(),
        original_plaintext: "Original".into(),
        cursor: None,
        viewport: None,
    }
}

fn file(contents: &str, parsed: Result<EditorRecoveryDraft, String>) -> DraftFile {
    DraftFile { contents: contents.as_bytes().to_vec(), parsed }
}

#[test]
fn draft_info_reports_valid_create_and_edit_metadata_without_body() {
    let mut create = draft(EditorRecoveryKind::Create, None);
    create.cursor = Some(EditorCursorRecovery {
        field: EditorRecoveryField::Title,
        target: EditorTarget::Block { block_index: 0 },
        offset: 3,
    });
    create.viewport = Some(2);
    let read = Ok(Some(file("{\"version\":1}", Ok(create))));
    let info = format_editor_draft_info("draft.json", read).unwrap();
    assert!(info.starts_with("Draft path: draft.json\n"));
    assert!(info.contains("Status: valid\nVersion: 1\nKind: create"));
    assert!(info.contains("Account ID: demo-account"));
    assert!(info.contains("Title: Visible title"));
    assert!(info.contains("Viewport: 2"));
    assert!(!info.contains("Note ID:"));
    assert!(!info.contains("Baseline:"));
    assert!(!info.contains("hidden body"));

    let edit = draft(EditorRecoveryKind::Edit, Some("demo-alpha"));
    let read = Ok(Some(file("{\"version\":1}", Ok(edit))));
    let info = format_editor_draft_info("draft.json", read).unwrap();
    assert!(info.contains("Kind: edit"));
    assert!(info.contains("Viewport: default"));
    assert!(info.contains("Note ID: demo-alpha"));
    assert!(info.contains("Baseline: draft-baseline"));
}

#[test]
fn draft_info_missing_malformed_and_unsupported_preserve_file() {
    assert_eq!(format_editor_draft_info("draft.json", Ok(None)).unwrap(), "Draft: none");
    let read = Ok(Some(file("not valid json", Err("expected ident".into()))));
    let info = format_editor_draft_info("draft.json", read).unwrap();
    assert!(info.contains("Status: malformed"));

    let mut unsupported = draft(EditorRecoveryKind::Create, None);
    unsupported.version = 77;
    let read = Ok(Some(file("{\"version\":77}", Ok(unsupported.clone()))));
    let info = format_editor_draft_info("draft.json", read).unwrap();
    assert!(info.contains("Status: unsupported version\nVersion: 77"));
    let read = Ok(Some(file("{\"version\":77}", Ok(unsupported))));
    assert_eq!(
        inspect_editor_draft(read).unwrap(),
        EditorDraftInspection::UnsupportedVersion { version: 77 }
    );
    assert_eq!(
        format_editor_draft_info("draft.json", Err("denied".into())),
        Err("could not read editor recovery draft: denied".into())
    );
}

#[test]
fn a_draft_is_found_as_it_was_written() {
    for (kind, id) in [(EditorRecoveryKind::Create, None), (EditorRecoveryKind::Edit, Some("n1"))] {
        let mut written = draft(kind, id);
        written.cursor = Some(EditorCursorRecovery {
            field: EditorRecoveryField::Body,
            target: EditorTarget::Block { block_index: 0 },
            offset: 7,
        });
        written.viewport = Some(4);
        let read = Ok(Some(file("{\"version\":1}", Ok(written.clone()))));
        assert_eq!(load_editor_draft(read), Ok(Some(written)));
    }
    assert_eq!(load_editor_draft(Ok(None)), Ok(None));
    assert_eq!(
        load_editor_draft(Ok(Some(file("x", Err("bad".into()))))),
        Err("could not parse editor recovery draft: bad".into())
    );
}

#[test]
fn a_draft_that_does_not_fit_is_refused() {
    let mut old = draft(EditorRecoveryKind::Create, None);
    old.version = 2;
    assert_eq!(
        check_editor_draft(old),
        Err("unsupported editor recovery draft version: 2".into())
    );
    let odd = "editor recovery draft has incompatible kind and note identity";
    for (kind, id) in [(EditorRecoveryKind::Create, Some("n1")), (EditorRecoveryKind::Edit, None)] {
        assert_eq!(check_editor_draft(draft(kind, id)), Err(odd.into()));
    }
    assert!(!draft(EditorRecoveryKind::Create, None)
        .same(&draft(EditorRecoveryKind::Edit, Some("n1"))));
}

#[test]
fn a_draft_that_loads_is_found_valid() {
    let create = || Ok(draft(EditorRecoveryKind::Create, None));
    let look = |contents: &str| inspect_editor_draft(Ok(Some(file(contents, create()))));
    let load = |contents: &str| load_editor_draft(Ok(Some(file(contents, create()))));
    for contents in ["{\"version\":1}", "[1]"] {
        let loaded = load(contents).unwrap().expect("a draft");
        assert_eq!(look(contents), Ok(EditorDraftInspection::Valid(Box::new(loaded))));
    }
    let mut odd = draft(EditorRecoveryKind::Create, None);
    odd.version = 2;
    assert!(load_editor_draft(Ok(Some(file("{\"version\":2}", Ok(odd.clone()))))).is_err());
    assert_eq!(
        inspect_editor_draft(Ok(Some(file("{\"version\":2}", Ok(odd))))),
        Ok(EditorDraftInspection::UnsupportedVersion { version: 2 })
    );
    let beyond = "{\"version\":1,\"unknown\":1e999}";
    assert!(load(beyond).is_ok());
    assert!(matches!(look(beyond), Ok(EditorDraftInspection::Malformed { .. })));
}

#[test]
fn a_version_that_is_no_number_is_left_to_the_draft() {
    let found =
        classify_editor_draft(Ok(None), Err("missing field `version`".into()));
    assert_eq!(
        describe_inspection("d", &found),
        "Draft path: d\nStatus: malformed\n\
         Error: could not parse editor recovery draft: missing field `version`"
    );
    let read = Ok(Some(file("{\"version\":\"1\"}", Err("bad version".into()))));
    assert!(matches!(
        inspect_editor_draft(read).unwrap(),
        EditorDraftInspection::Malformed { error } if error.ends_with("bad version")
    ));
}
