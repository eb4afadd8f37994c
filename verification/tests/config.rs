use notes_tui::config::{
    parse_config_edit_command, parse_config_overrides, parse_config_set, parse_draft_cli_command,
    parse_file_config, resolve_config_from_file, CliConfigOverrides, ConfigEditCommand,
    ConfigEditValue, ConfigKey, ConfigValueSource, DraftCliCommand,
};

#[test]
fn file_preferences_override_defaults_independently() {
    let parsed = parse_file_config("preview_wrap = false\nunknown_key = 42\n").unwrap();
    let resolved = resolve_config_from_file(parsed, CliConfigOverrides::default()).unwrap();
    assert!(resolved.config.auto_refresh);
    assert!(!resolved.config.preview_wrap);
    assert!(resolved.config.show_attachment_metadata);
    assert_eq!(resolved.preview_wrap_source, ConfigValueSource::File);
    assert_eq!(resolved.auto_refresh_source, ConfigValueSource::Default);
}

#[test]
fn cli_preferences_override_file_and_conflicts_are_rejected() {
    let file = parse_file_config(
        "auto_refresh = true\npreview_wrap = false\nshow_attachment_metadata = true",
    )
    .unwrap();
    let cli = parse_config_overrides(&[
        "--no-auto-refresh".into(),
        "--preview-wrap".into(),
        "--hide-attachment-metadata".into(),
    ])
    .unwrap();
    let resolved = resolve_config_from_file(file, cli).unwrap();
    assert!(!resolved.config.auto_refresh);
    assert!(resolved.config.preview_wrap);
    assert!(!resolved.config.show_attachment_metadata);
    assert_eq!(resolved.auto_refresh_source, ConfigValueSource::Cli);
    assert!(parse_config_overrides(&["--auto-refresh".into(), "--no-auto-refresh".into()]).is_err());
}

#[test]
fn malformed_boolean_config_falls_back_to_defaults() {
    assert!(parse_file_config("auto_refresh = \"yes\"").is_err());
}

#[test]
fn config_set_parses_and_rejects_invalid_values() {
    assert_eq!(
        parse_config_set("auto_refresh=false").unwrap(),
        ConfigEditCommand::Assign(ConfigKey::AutoRefresh, ConfigEditValue::Boolean(false))
    );
    assert_eq!(
        parse_config_set("refresh_interval_seconds=120").unwrap(),
        ConfigEditCommand::Assign(
            ConfigKey::RefreshIntervalSeconds,
            ConfigEditValue::RefreshIntervalSeconds(120)
        )
    );
    assert!(parse_config_set("unknown=true").is_err());
    assert!(parse_config_set("preview_wrap=yes").is_err());
    assert!(parse_config_set("refresh_interval_seconds=2").is_err());
}

#[test]
fn config_edit_parser_rejects_mixed_runtime_mode() {
    assert!(parse_config_edit_command(&[
        "--config-set".into(),
        "auto_refresh=false".into(),
        "--auto-refresh".into()
    ])
    .is_err());
    assert_eq!(
        parse_config_edit_command(&["--config-unset".into(), "preview_wrap".into()]).unwrap(),
        Some(ConfigEditCommand::Unset(ConfigKey::PreviewWrap))
    );
}

#[test]
fn draft_cli_commands_are_standalone_and_mutually_exclusive() {
    assert_eq!(
        parse_draft_cli_command(&["--draft-info".into()]).unwrap(),
        Some(DraftCliCommand::Info)
    );
    assert_eq!(
        parse_draft_cli_command(&["--draft-clear".into()]).unwrap(),
        Some(DraftCliCommand::Clear)
    );
    assert!(parse_draft_cli_command(&["--draft-info".into(), "--draft-clear".into()]).is_err());
    assert!(parse_draft_cli_command(&["--draft-clear".into(), "--config-reset".into()]).is_err());
    assert!(parse_draft_cli_command(&[
        "--draft-info".into(),
        "--refresh-interval".into(),
        "60".into()
    ])
    .is_err());
}
