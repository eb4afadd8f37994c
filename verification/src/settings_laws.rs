//! Laws of the preferences: how they are set, in the settings and on the command line, and
//! which of them are in force.

use vstd::prelude::*;

use crate::config::{
    cli_allowed, config_set, draft_command, edit_command, edit_from, edited_all, interval_allowed,
    key_name, line_entry, overrides_from, read_line, resolves, runtime_option, with_value,
    without_value, CliConfigOverrides, ConfigEdit, ConfigEditCommand, ConfigEditValue, ConfigKey,
    ConfigText, DraftCliCommand, FileConfig, ResolvedConfig,
};
use crate::keys::{KeyCode, KeyEvent};
use crate::settings::{
    config_edited, edits_upto, interval_typed, setting_chosen, setting_key, settings_begun, settings_pressed,
    SettingsTurn,
};
use crate::app::{AppModel, Preferences};
use crate::text::{decimal, index_of, lemma_index_of, lemma_index_of_joined, occurs};
use crate::text_laws::law_numbers_read_back;
use crate::workflow::{settings_sound, Effect, PopupModel, SettingDraft, Settings};

verus! {

// ---------------------------------------------------------------------------
// The settings
// ---------------------------------------------------------------------------

/// The settings begin with the preferences in force, the first of them selected, and
/// nothing staged.
pub proof fn law_settings_begin_unchanged(p: Preferences, i: int)
    requires
        0 <= i < 4,
    ensures
        settings_begun(p).draft.auto_refresh == p.auto_refresh,
        settings_begun(p).draft.refresh_interval == p.refresh_interval,
        settings_begun(p).draft.preview_wrap == p.preview_wrap,
        settings_begun(p).draft.show_attachment_metadata == p.show_attachment_metadata,
        settings_begun(p).selected == 0,
        settings_begun(p).staged.len() == 4,
        settings_begun(p).staged[i] is Unchanged,
        settings_begun(p).interval_input is None,
        settings_begun(p).error is None,
{
}

/// Down goes to the next preference, up to the one before, and neither goes past the ends.
pub proof fn law_keys_select_a_preference(s: Settings, presence: Seq<bool>, key: KeyEvent)
    requires
        settings_sound(s),
        key.code is Down || key.code is Up || key.code == KeyCode::Char('j') || key.code
            == KeyCode::Char('k'),
    ensures
        setting_chosen(s, presence, key) matches SettingsTurn::Stay(next) && {
            &&& key.code is Down || key.code == KeyCode::Char('j') ==> next.selected == if s.selected
                < 3 {
                s.selected + 1
            } else {
                3
            }
            &&& key.code is Up || key.code == KeyCode::Char('k') ==> next.selected == if s.selected
                > 0 {
                s.selected - 1
            } else {
                0
            }
            &&& next.draft == s.draft
            &&& next.staged == s.staged
        },
{
}

/// Space turns the switch that is selected, and no other: the value that is shown, and what
/// is staged for it. It does nothing to the interval.
pub proof fn law_space_turns_the_selected_switch(
    s: Settings,
    presence: Seq<bool>,
    key: KeyEvent,
    i: int,
)
    requires
        settings_sound(s),
        key.code == KeyCode::Char(' '),
        0 <= i < 4,
    ensures
        setting_chosen(s, presence, key) matches SettingsTurn::Stay(next) && {
            &&& next.selected == s.selected
            &&& next.draft.refresh_interval == s.draft.refresh_interval
            &&& (next.draft.auto_refresh != s.draft.auto_refresh) == (s.selected == 0)
            &&& (next.draft.preview_wrap != s.draft.preview_wrap) == (s.selected == 2)
            &&& (next.draft.show_attachment_metadata != s.draft.show_attachment_metadata) == (
            s.selected == 3)
            &&& next.staged.len() == 4
            &&& i != s.selected || i == 1 ==> next.staged[i] == s.staged[i]
            &&& s.selected == 0 ==> next.staged[0] == SettingDraft::Assign(
                ConfigEditValue::Boolean(next.draft.auto_refresh),
            )
            &&& s.selected == 2 ==> next.staged[2] == SettingDraft::Assign(
                ConfigEditValue::Boolean(next.draft.preview_wrap),
            )
            &&& s.selected == 3 ==> next.staged[3] == SettingDraft::Assign(
                ConfigEditValue::Boolean(next.draft.show_attachment_metadata),
            )
        },
{
}

/// Turning a switch twice leaves the value that it had.
pub proof fn law_switch_turned_twice(s: Settings, presence: Seq<bool>, key: KeyEvent)
    requires
        settings_sound(s),
        key.code == KeyCode::Char(' '),
    ensures
        setting_chosen(s, presence, key) matches SettingsTurn::Stay(once) && (setting_chosen(
            once,
            presence,
            key,
        ) matches SettingsTurn::Stay(twice) && twice.draft == s.draft),
{
}

/// Enter opens the interval for typing, with the seconds that it has.
pub proof fn law_enter_opens_the_interval(s: Settings, presence: Seq<bool>, key: KeyEvent)
    requires
        settings_sound(s),
        key.code is Enter,
    ensures
        setting_chosen(s, presence, key) matches SettingsTurn::Stay(next) && {
            &&& s.selected == 1 ==> next.interval_input == Some(
                decimal(s.draft.refresh_interval as nat),
            )
            &&& s.selected != 1 ==> next == s
            &&& next.staged == s.staged
            &&& next.draft == s.draft
        },
{
}

/// Digits are typed into the interval, and nothing else is; the last can be taken again.
pub proof fn law_interval_takes_digits(s: Settings, input: Seq<char>, key: KeyEvent, c: char)
    ensures
        key.code == KeyCode::Char(c) && '0' <= c <= '9' ==> interval_typed(s, input, key) == (
        Settings { interval_input: Some(input.push(c)), ..s }),
        key.code == KeyCode::Char(c) && !('0' <= c <= '9') ==> interval_typed(s, input, key) == s,
        key.code is Backspace && input.len() > 0 ==> interval_typed(s, input, key) == (Settings {
            interval_input: Some(input.drop_last()),
            ..s
        }),
        key.code is Esc ==> interval_typed(s, input, key) == (Settings { interval_input: None, ..s }),
{
}

/// An interval from five seconds to a day is taken and staged. Any other is refused, and
/// leaves what was set.
pub proof fn law_interval_is_taken_within_its_bounds(s: Settings, n: u64, key: KeyEvent)
    requires
        settings_sound(s),
        key.code is Enter,
    ensures
        ({
            let next = interval_typed(s, decimal(n as nat), key);
            &&& 5 <= n <= 86_400 ==> {
                &&& next.draft.refresh_interval == n
                &&& next.staged[1] == SettingDraft::Assign(
                    ConfigEditValue::RefreshIntervalSeconds(n),
                )
                &&& next.interval_input is None
                &&& next.error is None
                &&& forall|i: int|
                    0 <= i < 4 && i != 1 ==> #[trigger] next.staged[i] == s.staged[i]
            }
            &&& n < 5 || n > 86_400 ==> {
                &&& next.error is Some
                &&& next.draft == s.draft
                &&& next.staged == s.staged
                &&& next.interval_input == s.interval_input
            }
            &&& next.draft.auto_refresh == s.draft.auto_refresh
            &&& next.draft.preview_wrap == s.draft.preview_wrap
            &&& next.draft.show_attachment_metadata == s.draft.show_attachment_metadata
        }),
{
    law_numbers_read_back(n as nat, u64::MAX as nat);
}

/// What is staged for a preference, applied to what the file has of it.
pub open spec fn staged_on<T>(draft: SettingDraft, file: Option<T>, value: T) -> Option<T> {
    match draft {
        SettingDraft::Unchanged => file,
        SettingDraft::Assign(_) => Some(value),
        SettingDraft::Unset => None,
    }
}

/// The truth value that is staged.
pub open spec fn staged_truth(draft: SettingDraft) -> bool {
    draft->Assign_0->Boolean_0
}

proof fn lemma_edits_one_more(file: FileConfig, staged: Seq<SettingDraft>, n: nat)
    requires
        0 < n <= staged.len(),
    ensures
        edited_all(file, edits_upto(staged, n)) == match staged[n - 1] {
            SettingDraft::Unchanged => edited_all(file, edits_upto(staged, (n - 1) as nat)),
            SettingDraft::Assign(value) => with_value(
                edited_all(file, edits_upto(staged, (n - 1) as nat)),
                setting_key(n - 1),
                value,
            ),
            SettingDraft::Unset => without_value(
                edited_all(file, edits_upto(staged, (n - 1) as nat)),
                setting_key(n - 1),
            ),
        },
{
    let before = edits_upto(staged, (n - 1) as nat);
    match staged[n - 1] {
        SettingDraft::Unchanged => {},
        SettingDraft::Assign(value) => {
            assert(before.push(ConfigEdit::Assign(setting_key(n - 1), value)).drop_last()
                =~= before);
        },
        SettingDraft::Unset => {
            assert(before.push(ConfigEdit::Unset(setting_key(n - 1))).drop_last() =~= before);
        },
    }
}

/// What is staged is what becomes of the file: a preference that was set gets its value,
/// one that was unset goes, and one that was left alone stays as the file has it.
pub proof fn law_staged_settings_reach_the_file(s: Settings, file: FileConfig)
    requires
        settings_sound(s),
    ensures
        ({
            let after = edited_all(file, edits_upto(s.staged, 4));
            &&& after.auto_refresh == staged_on(
                s.staged[0],
                file.auto_refresh,
                staged_truth(s.staged[0]),
            )
            &&& after.refresh_interval_seconds == staged_on(
                s.staged[1],
                file.refresh_interval_seconds,
                s.staged[1]->Assign_0->RefreshIntervalSeconds_0,
            )
            &&& after.preview_wrap == staged_on(
                s.staged[2],
                file.preview_wrap,
                staged_truth(s.staged[2]),
            )
            &&& after.show_attachment_metadata == staged_on(
                s.staged[3],
                file.show_attachment_metadata,
                staged_truth(s.staged[3]),
            )
        }),
{
    lemma_edits_one_more(file, s.staged, 4);
    lemma_edits_one_more(file, s.staged, 3);
    lemma_edits_one_more(file, s.staged, 2);
    lemma_edits_one_more(file, s.staged, 1);
    assert(edits_upto(s.staged, 0) =~= Seq::<ConfigEdit>::empty());
    assert(edited_all(file, edits_upto(s.staged, 0)) == file);
    assert(s.staged[0] is Assign ==> s.staged[0]->Assign_0 is Boolean);
    assert(s.staged[1] is Assign ==> s.staged[1]->Assign_0 is RefreshIntervalSeconds);
    assert(s.staged[2] is Assign ==> s.staged[2]->Assign_0 is Boolean);
    assert(s.staged[3] is Assign ==> s.staged[3]->Assign_0 is Boolean);
}

/// The key for it asks for the file to be changed where anything is staged, and only then;
/// escape leaves the file and what is in force alone.
pub proof fn law_staged_settings_are_saved(v: AppModel, s: Settings, key: KeyEvent, i: int)
    requires
        settings_sound(s),
        s.interval_input is None,
        0 <= i < 4,
    ensures
        key.code == KeyCode::Char('s') && !(s.staged[i] is Unchanged) ==> settings_pressed(
            v,
            s,
            key,
        ).1 == Some(Effect::EditConfig) && settings_pressed(v, s, key).0.popup == Some(
            PopupModel::Settings(s),
        ),
        key.code == KeyCode::Char('s') && (forall|k: int|
            0 <= k < 4 ==> (#[trigger] s.staged[k]) is Unchanged) ==> settings_pressed(
            v,
            s,
            key,
        ).1 is None,
        key.code is Esc ==> settings_pressed(v, s, key) == (v, None::<Effect>),
        settings_pressed(v, s, key).0.prefs == v.prefs,
        settings_pressed(v, s, key).0.orders == v.orders,
{
    reveal(settings_pressed);
    reveal_with_fuel(edits_upto, 5);
    assert(s.staged[0] is Unchanged || !(s.staged[0] is Unchanged));
    assert(s.staged[1] is Unchanged || !(s.staged[1] is Unchanged));
    assert(s.staged[2] is Unchanged || !(s.staged[2] is Unchanged));
    assert(s.staged[3] is Unchanged || !(s.staged[3] is Unchanged));
}

// ---------------------------------------------------------------------------
// What is in force
// ---------------------------------------------------------------------------

/// A preference of the command line comes before that of the file, and that of the file
/// before the default: refreshing by itself every minute, wrapped previews, and all that is
/// known of attachments.
pub proof fn law_command_line_before_file_before_default(
    r: ResolvedConfig,
    file: FileConfig,
    cli: CliConfigOverrides,
)
    requires
        resolves(r, file, cli),
    ensures
        cli.refresh_interval_seconds matches Some(n) ==> r.config.refresh_interval == n
            && r.refresh_interval_source is Cli,
        cli.refresh_interval_seconds is None ==> (file.refresh_interval_seconds matches Some(n)
            ==> r.config.refresh_interval == n && r.refresh_interval_source is File),
        cli.refresh_interval_seconds is None && file.refresh_interval_seconds is None
            ==> r.config.refresh_interval == 60 && r.refresh_interval_source is Default,
        cli.auto_refresh matches Some(b) ==> r.config.auto_refresh == b && r.auto_refresh_source
            is Cli,
        cli.auto_refresh is None ==> (file.auto_refresh matches Some(b) ==> r.config.auto_refresh
            == b && r.auto_refresh_source is File),
        cli.auto_refresh is None && file.auto_refresh is None ==> r.config.auto_refresh
            && r.auto_refresh_source is Default,
        cli.preview_wrap matches Some(b) ==> r.config.preview_wrap == b && r.preview_wrap_source
            is Cli,
        cli.preview_wrap is None ==> (file.preview_wrap matches Some(b) ==> r.config.preview_wrap
            == b && r.preview_wrap_source is File),
        cli.preview_wrap is None && file.preview_wrap is None ==> r.config.preview_wrap
            && r.preview_wrap_source is Default,
        cli.show_attachment_metadata matches Some(b) ==> r.config.show_attachment_metadata == b
            && r.show_attachment_metadata_source is Cli,
        cli.show_attachment_metadata is None ==> (file.show_attachment_metadata matches Some(b)
            ==> r.config.show_attachment_metadata == b && r.show_attachment_metadata_source
            is File),
        cli.show_attachment_metadata is None && file.show_attachment_metadata is None
            ==> r.config.show_attachment_metadata && r.show_attachment_metadata_source is Default,
{
}

/// An interval may be set from five seconds to a day.
pub proof fn law_interval_bounds(seconds: u64)
    ensures
        interval_allowed(seconds) <==> 5 <= seconds <= 86_400,
{
}

// ---------------------------------------------------------------------------
// The command line
// ---------------------------------------------------------------------------

/// The name of an option that turns a switch.
pub open spec fn is_option(args: Seq<String>, i: int, name: Seq<char>) -> bool {
    0 <= i < args.len() && args[i]@ == name
}

proof fn lemma_options_differ()
    ensures
        "--refresh-interval"@ != "--auto-refresh"@,
        "--refresh-interval"@ != "--no-auto-refresh"@,
        "--refresh-interval"@ != "--preview-wrap"@,
        "--refresh-interval"@ != "--no-preview-wrap"@,
        "--refresh-interval"@ != "--show-attachment-metadata"@,
        "--refresh-interval"@ != "--hide-attachment-metadata"@,
        "--auto-refresh"@ != "--no-auto-refresh"@,
        "--auto-refresh"@ != "--preview-wrap"@,
        "--auto-refresh"@ != "--no-preview-wrap"@,
        "--auto-refresh"@ != "--show-attachment-metadata"@,
        "--auto-refresh"@ != "--hide-attachment-metadata"@,
        "--no-auto-refresh"@ != "--preview-wrap"@,
        "--no-auto-refresh"@ != "--no-preview-wrap"@,
        "--no-auto-refresh"@ != "--show-attachment-metadata"@,
        "--no-auto-refresh"@ != "--hide-attachment-metadata"@,
        "--preview-wrap"@ != "--no-preview-wrap"@,
        "--preview-wrap"@ != "--show-attachment-metadata"@,
        "--preview-wrap"@ != "--hide-attachment-metadata"@,
        "--no-preview-wrap"@ != "--show-attachment-metadata"@,
        "--no-preview-wrap"@ != "--hide-attachment-metadata"@,
        "--show-attachment-metadata"@ != "--hide-attachment-metadata"@,
{
    reveal_strlit("--refresh-interval");
    reveal_strlit("--auto-refresh");
    reveal_strlit("--no-auto-refresh");
    reveal_strlit("--preview-wrap");
    reveal_strlit("--no-preview-wrap");
    reveal_strlit("--show-attachment-metadata");
    reveal_strlit("--hide-attachment-metadata");
    assert("--refresh-interval"@.len() == 18);
    assert("--auto-refresh"@.len() == 14);
    assert("--no-auto-refresh"@.len() == 17);
    assert("--preview-wrap"@.len() == 14);
    assert("--no-preview-wrap"@.len() == 17);
    assert("--auto-refresh"@[2] == 'a');
    assert("--preview-wrap"@[2] == 'p');
    assert("--no-auto-refresh"@[5] == 'a');
    assert("--no-preview-wrap"@[5] == 'p');
    assert("--show-attachment-metadata"@[2] == 's');
    assert("--hide-attachment-metadata"@[2] == 'h');
}

/// Each option sets its own preference and no other, before the options behind it are read.
pub proof fn law_option_sets_its_own(args: Seq<String>, i: int, o: CliConfigOverrides)
    ensures
        is_option(args, i, "--auto-refresh"@) && o.auto_refresh != Some(false) ==> overrides_from(
            args,
            i,
            o,
        ) == overrides_from(args, i + 1, CliConfigOverrides { auto_refresh: Some(true), ..o }),
        is_option(args, i, "--no-auto-refresh"@) && o.auto_refresh != Some(true)
            ==> overrides_from(args, i, o) == overrides_from(
            args,
            i + 1,
            CliConfigOverrides { auto_refresh: Some(false), ..o },
        ),
        is_option(args, i, "--preview-wrap"@) && o.preview_wrap != Some(false) ==> overrides_from(
            args,
            i,
            o,
        ) == overrides_from(args, i + 1, CliConfigOverrides { preview_wrap: Some(true), ..o }),
        is_option(args, i, "--no-preview-wrap"@) && o.preview_wrap != Some(true)
            ==> overrides_from(args, i, o) == overrides_from(
            args,
            i + 1,
            CliConfigOverrides { preview_wrap: Some(false), ..o },
        ),
        is_option(args, i, "--show-attachment-metadata"@) && o.show_attachment_metadata != Some(
            false,
        ) ==> overrides_from(args, i, o) == overrides_from(
            args,
            i + 1,
            CliConfigOverrides { show_attachment_metadata: Some(true), ..o },
        ),
        is_option(args, i, "--hide-attachment-metadata"@) && o.show_attachment_metadata != Some(
            true,
        ) ==> overrides_from(args, i, o) == overrides_from(
            args,
            i + 1,
            CliConfigOverrides { show_attachment_metadata: Some(false), ..o },
        ),
{
    lemma_options_differ();
}

/// An option and its opposite cannot both be given.
pub proof fn law_opposite_options_conflict(args: Seq<String>, i: int, o: CliConfigOverrides)
    ensures
        is_option(args, i, "--auto-refresh"@) && o.auto_refresh == Some(false) ==> overrides_from(
            args,
            i,
            o,
        ) is Err,
        is_option(args, i, "--no-auto-refresh"@) && o.auto_refresh == Some(true)
            ==> overrides_from(args, i, o) is Err,
        is_option(args, i, "--preview-wrap"@) && o.preview_wrap == Some(false) ==> overrides_from(
            args,
            i,
            o,
        ) is Err,
        is_option(args, i, "--no-preview-wrap"@) && o.preview_wrap == Some(true)
            ==> overrides_from(args, i, o) is Err,
        is_option(args, i, "--show-attachment-metadata"@) && o.show_attachment_metadata == Some(
            false,
        ) ==> overrides_from(args, i, o) is Err,
        is_option(args, i, "--hide-attachment-metadata"@) && o.show_attachment_metadata == Some(
            true,
        ) ==> overrides_from(args, i, o) is Err,
{
    lemma_options_differ();
}

/// The option for the interval takes the number behind it, and needs one.
pub proof fn law_interval_option_takes_a_number(
    args: Seq<String>,
    i: int,
    o: CliConfigOverrides,
    n: u64,
)
    requires
        is_option(args, i, "--refresh-interval"@),
    ensures
        is_option(args, i + 1, decimal(n as nat)) ==> overrides_from(args, i, o) == overrides_from(
            args,
            i + 2,
            CliConfigOverrides { refresh_interval_seconds: Some(n), ..o },
        ),
        i + 1 == args.len() ==> overrides_from(args, i, o) is Err,
{
    law_numbers_read_back(n as nat, u64::MAX as nat);
}

/// An argument that is no option is passed over, and at the end what was given counts.
pub proof fn law_other_arguments_are_passed_over(
    args: Seq<String>,
    i: int,
    o: CliConfigOverrides,
)
    ensures
        0 <= i < args.len() && !runtime_option(args[i]@) ==> overrides_from(args, i, o)
            == overrides_from(args, i + 1, o),
        i == args.len() ==> overrides_from(args, i, o) == Ok::<CliConfigOverrides, Seq<char>>(o),
{
}

/// A command for the draft stands alone.
pub proof fn law_draft_commands_stand_alone(args: Seq<String>, i: int)
    ensures
        is_option(args, i, "--draft-info"@) && args.len() == 1 ==> draft_command(args)
            == Ok::<Option<DraftCliCommand>, Seq<char>>(Some(DraftCliCommand::Info)),
        is_option(args, i, "--draft-clear"@) && args.len() == 1 ==> draft_command(args)
            == Ok::<Option<DraftCliCommand>, Seq<char>>(Some(DraftCliCommand::Clear)),
        (is_option(args, i, "--draft-info"@) || is_option(args, i, "--draft-clear"@))
            && args.len() > 1 ==> draft_command(args) is Err,
        (forall|k: int|
            0 <= k < args.len() ==> (#[trigger] args[k])@ != "--draft-info"@ && args[k]@
                != "--draft-clear"@) ==> draft_command(args)
            == Ok::<Option<DraftCliCommand>, Seq<char>>(None),
{
    reveal_strlit("--draft-info");
    reveal_strlit("--draft-clear");
    assert("--draft-info"@.len() != "--draft-clear"@.len());
}

proof fn lemma_key_names_whole(key: ConfigKey)
    ensures
        !key_name(key).contains('='),
{
    reveal_strlit("refresh_interval_seconds");
    reveal_strlit("auto_refresh");
    reveal_strlit("preview_wrap");
    reveal_strlit("show_attachment_metadata");
}

/// A preference is set on the command line by its name, an equals sign and its value: true
/// or false for a switch, seconds within the bounds for the interval.
pub proof fn law_set_reads_its_key_and_value(key: ConfigKey, b: bool, n: u64)
    ensures
        !(key is RefreshIntervalSeconds) ==> config_set(
            key_name(key) + seq!['='] + (if b {
                "true"@
            } else {
                "false"@
            }),
        ) == Ok::<ConfigEditCommand, Seq<char>>(
            ConfigEditCommand::Assign(key, ConfigEditValue::Boolean(b)),
        ),
        5 <= n <= 86_400 ==> config_set(
            key_name(ConfigKey::RefreshIntervalSeconds) + seq!['='] + decimal(n as nat),
        ) == Ok::<ConfigEditCommand, Seq<char>>(
            ConfigEditCommand::Assign(
                ConfigKey::RefreshIntervalSeconds,
                ConfigEditValue::RefreshIntervalSeconds(n),
            ),
        ),
        n < 5 || n > 86_400 ==> config_set(
            key_name(ConfigKey::RefreshIntervalSeconds) + seq!['='] + decimal(n as nat),
        ) is Err,
{
    reveal_strlit("true");
    reveal_strlit("false");
    let word = if b {
        "true"@
    } else {
        "false"@
    };
    let interval = ConfigKey::RefreshIntervalSeconds;
    lemma_key_names_whole(key);
    lemma_key_names_whole(interval);
    crate::config_laws::law_keys_are_found_by_name(key);
    crate::config_laws::law_keys_are_found_by_name(interval);
    crate::text::lemma_split_once_joined(key_name(key), '=', word);
    crate::text::lemma_split_once_joined(key_name(interval), '=', decimal(n as nat));
    law_numbers_read_back(n as nat, u64::MAX as nat);
    assert("true"@.len() != "false"@.len());
}

// ---------------------------------------------------------------------------
// Lines of the file
// ---------------------------------------------------------------------------

/// What stands behind a hash sign makes no difference to a line.
pub proof fn law_comments_do_not_count(line: Seq<char>, comment: Seq<char>)
    requires
        !line.contains('#'),
    ensures
        line_entry(line + seq!['#'] + comment) == line_entry(line),
{
    lemma_index_of(line, '#');
    lemma_index_of_joined(line, '#', comment);
    let all = line + seq!['#'] + comment;
    assert(all.take(line.len() as int) =~= line);
    assert(line.take(line.len() as int) =~= line);
    let i = index_of(line, '#') as int;
    if i < line.len() {
        assert(line[i] == '#');
    }
}

/// Behind the first section no line sets a preference: such a line is kept as it is.
pub proof fn law_preferences_stand_before_sections(doc: ConfigText, line: Seq<char>)
    ensures
        read_line(doc, false, line) matches Ok((next, root)) ==> next.file == doc.file
            && next.lines == doc.lines.push(line) && !root,
        line_entry(line) is Section ==> (read_line(doc, true, line) matches Ok((next, root))
            && !root && next.file == doc.file && next.foreign),
{
}

// ---------------------------------------------------------------------------
// Commands that change the file
// ---------------------------------------------------------------------------

proof fn lemma_edit_words_differ()
    ensures
        "--config-set"@ != "--config-unset"@,
        "--config-set"@ != "--config-reset"@,
        "--config-unset"@ != "--config-reset"@,
{
    reveal_strlit("--config-set");
    reveal_strlit("--config-unset");
    reveal_strlit("--config-reset");
    assert("--config-set"@.len() == 12);
    assert("--config-unset"@.len() == 14);
    assert("--config-reset"@.len() == 14);
    assert("--config-unset"@[9] == 'u');
    assert("--config-reset"@[9] == 'r');
}

/// A command that changes the file is read from its arguments: what is set behind the one
/// word, what is unset behind the other, and a reset by itself. Where no such word is
/// given, no change is asked for.
pub proof fn law_write_commands_are_read(args: Seq<String>, key: ConfigKey)
    ensures
        args.len() == 2 && args[0]@ == "--config-set"@ ==> match config_set(args[1]@) {
            Ok(command) => edit_from(args, 0, None) == Ok::<Option<ConfigEditCommand>, Seq<char>>(
                Some(command),
            ),
            Err(e) => edit_from(args, 0, None) == Err::<Option<ConfigEditCommand>, Seq<char>>(e),
        },
        args.len() == 2 && args[0]@ == "--config-unset"@ && args[1]@ == key_name(key) ==> edit_from(
            args,
            0,
            None,
        ) == Ok::<Option<ConfigEditCommand>, Seq<char>>(Some(ConfigEditCommand::Unset(key))),
        args.len() == 1 && args[0]@ == "--config-reset"@ ==> edit_from(args, 0, None) == Ok::<
            Option<ConfigEditCommand>,
            Seq<char>,
        >(Some(ConfigEditCommand::Reset)),
        args.len() == 1 && (args[0]@ == "--config-set"@ || args[0]@ == "--config-unset"@)
            ==> edit_from(args, 0, None) is Err,
{
    reveal_with_fuel(edit_from, 3);
    lemma_edit_words_differ();
    crate::config_laws::law_keys_are_found_by_name(key);
}

/// Arguments that change nothing are passed over.
pub proof fn law_other_words_change_nothing(
    args: Seq<String>,
    i: int,
    found: Option<ConfigEditCommand>,
)
    requires
        0 <= i <= args.len(),
        forall|k: int|
            i <= k < args.len() ==> (#[trigger] args[k])@ != "--config-set"@ && args[k]@
                != "--config-unset"@ && args[k]@ != "--config-reset"@,
    ensures
        edit_from(args, i, found) == Ok::<Option<ConfigEditCommand>, Seq<char>>(found),
    decreases args.len() - i,
{
    if i < args.len() {
        assert(args[i]@ != "--config-set"@);
        law_other_words_change_nothing(args, i + 1, found);
    }
}

/// Only one change can be asked for at a time.
pub proof fn law_one_change_of_the_file_at_a_time(
    args: Seq<String>,
    i: int,
    found: ConfigEditCommand,
)
    requires
        0 <= i < args.len(),
        args[i]@ == "--config-set"@ || args[i]@ == "--config-unset"@ || args[i]@
            == "--config-reset"@,
    ensures
        edit_from(args, i, Some(found)) is Err,
{
    lemma_edit_words_differ();
}

/// A change of the file cannot be asked for together with a preference for this run alone;
/// without one it counts.
pub proof fn law_change_of_the_file_stands_apart(args: Seq<String>, command: ConfigEditCommand, i: int)
    requires
        edit_from(args, 0, None) == Ok::<Option<ConfigEditCommand>, Seq<char>>(Some(command)),
    ensures
        0 <= i < args.len() && (args[i]@ == "--refresh-interval"@ || args[i]@ == "--auto-refresh"@
            || args[i]@ == "--no-auto-refresh"@ || args[i]@ == "--preview-wrap"@ || args[i]@
            == "--no-preview-wrap"@ || args[i]@ == "--show-attachment-metadata"@ || args[i]@
            == "--hide-attachment-metadata"@) ==> edit_command(args) is Err,
        (forall|k: int| 0 <= k < args.len() ==> !runtime_option((#[trigger] args[k])@))
            ==> edit_command(args) == Ok::<Option<ConfigEditCommand>, Seq<char>>(Some(command)),
{
    if 0 <= i < args.len() && runtime_option(args[i]@) {
        assert(crate::config::runtime_option_given(args));
    }
}

/// A preference that the command line gives is accepted just where it is within bounds.
pub proof fn law_command_line_keeps_the_bounds(cli: CliConfigOverrides)
    ensures
        cli_allowed(cli) <==> (cli.refresh_interval_seconds matches Some(n) ==> 5 <= n <= 86_400),
{
}

/// Once the file has been changed the settings close, and what was staged is told to come
/// into force later; a preference that the command line goes on to override is mentioned.
/// Where the file could not be changed they stay open, and tell why.
pub proof fn law_saved_settings_close(v: AppModel, s: Settings, e: String, i: int)
    requires
        v.popup == Some(PopupModel::Settings(s)),
        settings_sound(s),
        0 <= i < 4,
    ensures
        config_edited(v, Ok(())).popup is None,
        config_edited(v, Ok(())).prefs == v.prefs,
        !(s.staged[i] is Unchanged) && v.prefs.config_sources@[i] is Cli ==> occurs(
            config_edited(v, Ok(())).status.text,
            "CLI overrides"@,
        ),
        config_edited(v, Err(e)).popup matches Some(PopupModel::Settings(next)) && next.error
            == Some(e@) && next.staged == s.staged && next.draft == s.draft,
{
    reveal(config_edited);
    let words = "Settings saved; changes apply on next startup (CLI overrides remain active)"@;
    reveal_strlit("Settings saved; changes apply on next startup (CLI overrides remain active)");
    reveal_strlit("CLI overrides");
    assert(words.subrange(47, 47int + "CLI overrides"@.len()) =~= "CLI overrides"@);
    if !(s.staged[i] is Unchanged) && v.prefs.config_sources@[i] is Cli {
        assert(crate::settings::cli_overrides(s.staged, v.prefs.config_sources@));
    }
}

} // verus!
