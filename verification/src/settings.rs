//! The settings: preferences that are changed in the config file.

use vstd::prelude::*;

use crate::app::{first_do, say, App, AppModel, Preferences};
use crate::browsing::{ask, go_on};
use crate::config::{
    edit_fits, holds, interval, interval_allowed, resolves, AppConfig, CliConfigOverrides,
    ConfigEdit, ConfigEditValue, ConfigKey, ConfigValueSource, FileConfig, ResolvedConfig,
};
use crate::folders::with_popup;
use crate::keys::{KeyCode, KeyEvent};
use crate::navigation::{move_index, moved_index};
use crate::text::{decimal, decimal_text, owned, parse_unsigned, pop_char, read_unsigned, shortened};
use crate::workflow::{
    settings_sound, Await, Effect, Popup, PopupModel, SettingDraft, Settings, SettingsState, Step,
};

verus! {

/// The settings as they open.
pub open spec fn settings_begun(p: Preferences) -> Settings {
    Settings {
        selected: 0,
        draft: AppConfig {
            refresh_interval: p.refresh_interval,
            auto_refresh: p.auto_refresh,
            preview_wrap: p.preview_wrap,
            show_attachment_metadata: p.show_attachment_metadata,
        },
        staged: seq![
            SettingDraft::Unchanged,
            SettingDraft::Unchanged,
            SettingDraft::Unchanged,
            SettingDraft::Unchanged,
        ],
        interval_input: None,
        error: None,
    }
}

#[verifier::opaque]
pub open spec fn settings_opened(v: AppModel) -> AppModel {
    if v.background.update_running || v.edit is Some || v.popup is Some || v.shown.show_help {
        say(v, "Settings are unavailable during an active workflow"@)
    } else {
        with_popup(v, PopupModel::Settings(settings_begun(v.prefs)))
    }
}

/// The preference at a position of the settings.
pub open spec fn setting_key(i: int) -> ConfigKey {
    if i == 0 {
        ConfigKey::AutoRefresh
    } else if i == 1 {
        ConfigKey::RefreshIntervalSeconds
    } else if i == 2 {
        ConfigKey::PreviewWrap
    } else {
        ConfigKey::ShowAttachmentMetadata
    }
}

/// The changes that are staged for the first `n` preferences, in their order.
pub open spec fn edits_upto(staged: Seq<SettingDraft>, n: nat) -> Seq<ConfigEdit>
    decreases n,
{
    if n == 0 {
        seq![]
    } else {
        let before = edits_upto(staged, (n - 1) as nat);
        match staged[n - 1] {
            SettingDraft::Unchanged => before,
            SettingDraft::Assign(value) => before.push(
                ConfigEdit::Assign(setting_key(n - 1), value),
            ),
            SettingDraft::Unset => before.push(ConfigEdit::Unset(setting_key(n - 1))),
        }
    }
}

fn find_setting_key(i: usize) -> (r: ConfigKey)
    ensures
        r == setting_key(i as int),
{
    match i {
        0 => ConfigKey::AutoRefresh,
        1 => ConfigKey::RefreshIntervalSeconds,
        2 => ConfigKey::PreviewWrap,
        _ => ConfigKey::ShowAttachmentMetadata,
    }
}

/// The changes to the config file that are staged in the settings.
pub fn settings_edits(settings: &SettingsState) -> (r: Vec<ConfigEdit>)
    requires
        settings_sound(settings@),
    ensures
        r@ == edits_upto(settings@.staged, 4),
        forall|i: int| 0 <= i < r@.len() ==> edit_fits(#[trigger] r@[i]),
{
    let mut out: Vec<ConfigEdit> = Vec::new();
    let mut i: usize = 0;
    while i < 4
        invariant
            i <= 4,
            settings_sound(settings@),
            out@ == edits_upto(settings@.staged, i as nat),
            forall|k: int| 0 <= k < out@.len() ==> edit_fits(#[trigger] out@[k]),
        decreases 4 - i,
    {
        assert(settings@.staged[i as int] == settings.staged[i as int]);
        match settings.staged[i] {
            SettingDraft::Unchanged => {},
            SettingDraft::Assign(value) => out.push(
                ConfigEdit::Assign(find_setting_key(i), value),
            ),
            SettingDraft::Unset => out.push(ConfigEdit::Unset(find_setting_key(i))),
        }
        i = i + 1;
    }
    out
}

/// Settings that have nothing staged make no changes.
pub proof fn law_unchanged_settings_edit_nothing(staged: Seq<SettingDraft>, n: nat)
    requires
        n <= staged.len(),
    ensures
        edits_upto(staged, n).len() == 0 <==> forall|i: int|
            0 <= i < n ==> #[trigger] staged[i] is Unchanged,
    decreases n,
{
    if n > 0 {
        law_unchanged_settings_edit_nothing(staged, (n - 1) as nat);
        if edits_upto(staged, n).len() == 0 {
            assert forall|i: int| 0 <= i < n implies #[trigger] staged[i] is Unchanged by {}
        } else if forall|i: int| 0 <= i < n ==> #[trigger] staged[i] is Unchanged {
            assert(staged[n - 1] is Unchanged);
        }
    }
}

// ---------------------------------------------------------------------------
// Keys
// ---------------------------------------------------------------------------

/// What a key does to the settings.
pub ghost enum SettingsTurn {
    Stay(Settings),
    Close,
    Save,
}

/// What a key does to the settings.
#[derive(Clone, Copy, Debug, PartialEq, Eq, Structural)]
pub enum SettingsReaction {
    Stay,
    Close,
    Save,
}

/// The settings while the interval is typed.
pub open spec fn interval_typed(s: Settings, input: Seq<char>, key: KeyEvent) -> Settings {
    match key.code {
        KeyCode::Esc => Settings { interval_input: None, ..s },
        KeyCode::Backspace => Settings { interval_input: Some(shortened(input)), ..s },
        KeyCode::Char(c) => if '0' <= c <= '9' {
            Settings { interval_input: Some(input.push(c)), ..s }
        } else {
            s
        },
        KeyCode::Enter => match parse_unsigned(input, u64::MAX as nat) {
            Some(n) if interval_allowed(n as u64) => Settings {
                draft: AppConfig { refresh_interval: n as u64, ..s.draft },
                staged: s.staged.update(
                    1,
                    SettingDraft::Assign(ConfigEditValue::RefreshIntervalSeconds(n as u64)),
                ),
                interval_input: None,
                error: None,
                ..s
            },
            _ => Settings { error: Some("Refresh interval must be 5–86400 seconds"@), ..s },
        },
        _ => s,
    }
}

/// The settings with the selected switch turned.
pub open spec fn switch_turned(s: Settings) -> Settings {
    let (draft, value) = if s.selected == 0 {
        (AppConfig { auto_refresh: !s.draft.auto_refresh, ..s.draft }, !s.draft.auto_refresh)
    } else if s.selected == 2 {
        (AppConfig { preview_wrap: !s.draft.preview_wrap, ..s.draft }, !s.draft.preview_wrap)
    } else {
        (
            AppConfig {
                show_attachment_metadata: !s.draft.show_attachment_metadata,
                ..s.draft
            },
            !s.draft.show_attachment_metadata,
        )
    };
    Settings {
        draft,
        staged: s.staged.update(
            s.selected as int,
            SettingDraft::Assign(ConfigEditValue::Boolean(value)),
        ),
        ..s
    }
}

/// What is staged once all that the config file holds is to go.
pub open spec fn all_unset(staged: Seq<SettingDraft>, presence: Seq<bool>) -> Seq<SettingDraft> {
    Seq::new(
        staged.len(),
        |i: int|
            if presence[i] {
                SettingDraft::Unset
            } else {
                staged[i]
            },
    )
}

pub open spec fn staged_as(s: Settings, draft: SettingDraft) -> Settings {
    Settings { staged: s.staged.update(s.selected as int, draft), ..s }
}

/// What a key does to the settings while no interval is typed.
pub open spec fn setting_chosen(s: Settings, presence: Seq<bool>, key: KeyEvent) -> SettingsTurn {
    match key.code {
        KeyCode::Esc => SettingsTurn::Close,
        KeyCode::Down => SettingsTurn::Stay(
            Settings { selected: moved_index(s.selected as int, 4, 1) as usize, ..s },
        ),
        KeyCode::Up => SettingsTurn::Stay(
            Settings { selected: moved_index(s.selected as int, 4, -1) as usize, ..s },
        ),
        KeyCode::Enter => if s.selected == 1 {
            SettingsTurn::Stay(
                Settings { interval_input: Some(decimal(s.draft.refresh_interval as nat)), ..s },
            )
        } else {
            SettingsTurn::Stay(s)
        },
        KeyCode::Char(c) => if c == 'j' {
            SettingsTurn::Stay(
                Settings { selected: moved_index(s.selected as int, 4, 1) as usize, ..s },
            )
        } else if c == 'k' {
            SettingsTurn::Stay(
                Settings { selected: moved_index(s.selected as int, 4, -1) as usize, ..s },
            )
        } else if c == ' ' && s.selected != 1 {
            SettingsTurn::Stay(switch_turned(s))
        } else if c == 'u' && presence[s.selected as int] {
            SettingsTurn::Stay(staged_as(s, SettingDraft::Unset))
        } else if c == 'r' {
            SettingsTurn::Stay(staged_as(s, SettingDraft::Unchanged))
        } else if c == 'R' {
            SettingsTurn::Stay(Settings { staged: all_unset(s.staged, presence), ..s })
        } else if c == 's' {
            SettingsTurn::Save
        } else {
            SettingsTurn::Stay(s)
        },
        _ => SettingsTurn::Stay(s),
    }
}

/// Whether a reaction and the settings after it are a turn.
pub open spec fn turned(turn: SettingsTurn, reaction: SettingsReaction, before: Settings, after:
    Settings) -> bool {
    match turn {
        SettingsTurn::Stay(s) => reaction is Stay && after == s,
        SettingsTurn::Close => reaction is Close && after == before,
        SettingsTurn::Save => reaction is Save && after == before,
    }
}

impl SettingsState {
    /// Types the interval.
    fn type_interval(&mut self, key: KeyEvent)
        requires
            settings_sound(old(self)@),
            old(self)@.interval_input is Some,
        ensures
            settings_sound(final(self)@),
            final(self)@ == interval_typed(old(self)@, old(self)@.interval_input->0, key),
    {
        let mut taken: Option<String> = None;
        std::mem::swap(&mut taken, &mut self.interval_input);
        if let Some(text) = taken {
            let mut input = text;
            match key.code {
                KeyCode::Esc => {},
                KeyCode::Backspace => {
                    pop_char(&mut input);
                    self.interval_input = Some(input);
                },
                KeyCode::Char(c) => {
                    if '0' <= c && c <= '9' {
                        input.push(c);
                    }
                    self.interval_input = Some(input);
                },
                KeyCode::Enter => {
                    let value = match read_unsigned(input.as_str(), u64::MAX) {
                        Some(seconds) => interval(seconds),
                        None => Err(owned("")),
                    };
                    match value {
                        Ok(seconds) => {
                            self.draft.refresh_interval = seconds;
                            self.staged[1] = SettingDraft::Assign(
                                ConfigEditValue::RefreshIntervalSeconds(seconds),
                            );
                            self.error = None;
                        },
                        Err(_) => {
                            self.interval_input = Some(input);
                            self.error = Some(owned("Refresh interval must be 5–86400 seconds"));
                        },
                    }
                },
                _ => {
                    self.interval_input = Some(input);
                },
            }
        }
        proof {
            let s = old(self)@;
            assert(self@.staged =~= interval_typed(s, s.interval_input->0, key).staged);
            assert(self@ =~= interval_typed(s, s.interval_input->0, key));
        }
    }

    fn turn_switch(&mut self)
        requires
            settings_sound(old(self)@),
            old(self)@.selected != 1,
        ensures
            settings_sound(final(self)@),
            final(self)@ == switch_turned(old(self)@),
    {
        let value = match self.selected {
            0 => {
                self.draft.auto_refresh = !self.draft.auto_refresh;
                self.draft.auto_refresh
            },
            2 => {
                self.draft.preview_wrap = !self.draft.preview_wrap;
                self.draft.preview_wrap
            },
            _ => {
                self.draft.show_attachment_metadata = !self.draft.show_attachment_metadata;
                self.draft.show_attachment_metadata
            },
        };
        let selected = self.selected;
        self.staged[selected] = SettingDraft::Assign(ConfigEditValue::Boolean(value));
        assert(self@.staged =~= switch_turned(old(self)@).staged);
    }

    fn unset_all(&mut self, presence: &[bool; 4])
        requires
            settings_sound(old(self)@),
        ensures
            settings_sound(final(self)@),
            final(self)@ == (Settings {
                staged: all_unset(old(self)@.staged, presence@),
                ..old(self)@
            }),
    {
        let mut i: usize = 0;
        while i < 4
            invariant
                i <= 4,
                settings_sound(self@),
                self@ == (Settings { staged: self@.staged, ..old(self)@ }),
                settings_sound(old(self)@),
                forall|k: int|
                    0 <= k < 4 ==> #[trigger] self@.staged[k] == if k < i {
                        all_unset(old(self)@.staged, presence@)[k]
                    } else {
                        old(self)@.staged[k]
                    },
            decreases 4 - i,
        {
            assert(presence@[i as int] == presence[i as int]);
            if presence[i] {
                self.staged[i] = SettingDraft::Unset;
            }
            i = i + 1;
        }
        assert(self@.staged =~= all_unset(old(self)@.staged, presence@));
    }

    /// Chooses among the settings.
    fn react(&mut self, presence: &[bool; 4], key: KeyEvent) -> (r: SettingsReaction)
        requires
            settings_sound(old(self)@),
        ensures
            settings_sound(final(self)@),
            turned(setting_chosen(old(self)@, presence@, key), r, old(self)@, final(self)@),
    {
        let selected = self.selected;
        assert(presence@[selected as int] == presence[selected as int]);
        match key.code {
            KeyCode::Esc => return SettingsReaction::Close,
            KeyCode::Down | KeyCode::Char('j') => {
                self.selected = move_index(selected, 4, 1);
            },
            KeyCode::Up | KeyCode::Char('k') => {
                self.selected = move_index(selected, 4, -1);
            },
            KeyCode::Enter => {
                if selected == 1 {
                    self.interval_input = Some(decimal_text(self.draft.refresh_interval));
                }
            },
            KeyCode::Char(' ') => {
                if selected != 1 {
                    self.turn_switch();
                }
            },
            KeyCode::Char('u') => {
                if presence[selected] {
                    self.staged[selected] = SettingDraft::Unset;
                    assert(self@.staged =~= staged_as(old(self)@, SettingDraft::Unset).staged);
                }
            },
            KeyCode::Char('r') => {
                self.staged[selected] = SettingDraft::Unchanged;
                assert(self@.staged =~= staged_as(old(self)@, SettingDraft::Unchanged).staged);
            },
            KeyCode::Char('R') => self.unset_all(presence),
            KeyCode::Char('s') => return SettingsReaction::Save,
            _ => {},
        }
        SettingsReaction::Stay
    }

    fn overrides_stay(&self, sources: &[ConfigValueSource; 4]) -> (r: bool)
        ensures
            r == cli_overrides(self@.staged, sources@),
    {
        let mut i: usize = 0;
        while i < 4
            invariant
                i <= 4,
                forall|k: int|
                    0 <= k < i ==> self@.staged[k] is Unchanged || !(#[trigger] sources@[k] is Cli),
            decreases 4 - i,
        {
            assert(self@.staged[i as int] == self.staged[i as int]);
            assert(sources@[i as int] == sources[i as int]);
            let changed = match self.staged[i] {
                SettingDraft::Unchanged => false,
                _ => true,
            };
            if changed {
                if let ConfigValueSource::Cli = sources[i] {
                    assert(sources@[i as int] is Cli);
                    return true;
                }
            }
            i = i + 1;
        }
        false
    }
}

/// Whether a preference was changed that the command line goes on to override.
pub open spec fn cli_overrides(
    staged: Seq<SettingDraft>,
    sources: Seq<ConfigValueSource>,
) -> bool {
    exists|i: int| 0 <= i < 4 && !(staged[i] is Unchanged) && #[trigger] sources[i] is Cli
}

// ---------------------------------------------------------------------------
// The popup
// ---------------------------------------------------------------------------

/// A key in the settings, whose popup was taken from the screen.
#[verifier::opaque]
pub open spec fn settings_pressed(v: AppModel, s: Settings, key: KeyEvent) -> (
    AppModel,
    Option<Effect>,
) {
    match s.interval_input {
        Some(input) => go_on(
            with_popup(v, PopupModel::Settings(interval_typed(s, input, key))),
        ),
        None => match setting_chosen(s, v.prefs.config_file_presence@, key) {
            SettingsTurn::Close => go_on(v),
            SettingsTurn::Stay(next) => go_on(
                first_do(with_popup(v, PopupModel::Settings(next)), Step::PersistRecovery),
            ),
            SettingsTurn::Save => if edits_upto(s.staged, 4).len() == 0 {
                go_on(say(v, "No settings changes"@))
            } else {
                ask(
                    with_popup(v, PopupModel::Settings(s)),
                    Await::ConfigEdited,
                    Effect::EditConfig,
                )
            },
        },
    }
}

/// The config file was changed, or could not be.
#[verifier::opaque]
pub open spec fn config_edited(v: AppModel, done: Result<(), String>) -> AppModel {
    match v.popup {
        Some(PopupModel::Settings(s)) => match done {
            Ok(_) => say(
                AppModel { popup: None, ..v },
                if cli_overrides(s.staged, v.prefs.config_sources@) {
                    "Settings saved; changes apply on next startup (CLI overrides remain active)"@
                } else {
                    "Settings saved; changes apply on next startup"@
                },
            ),
            Err(e) => first_do(
                with_popup(v, PopupModel::Settings(Settings { error: Some(e@), ..s })),
                Step::PersistRecovery,
            ),
        },
        _ => v,
    }
}

impl App {
    pub fn begin_settings(&mut self)
        ensures
            final(self)@ == settings_opened(old(self)@),
            old(self).wf() ==> final(self).wf(),
    {
        proof {
            reveal(settings_opened);
        }
        if self.background.update_running || self.edit.is_some() || self.popup.is_some() || self.shown.show_help {
            self.say(owned("Settings are unavailable during an active workflow"));
            return;
        }
        let u = SettingDraft::Unchanged;
        let settings = SettingsState {
            selected: 0,
            draft: AppConfig {
                refresh_interval: self.prefs.refresh_interval,
                auto_refresh: self.prefs.auto_refresh,
                preview_wrap: self.prefs.preview_wrap,
                show_attachment_metadata: self.prefs.show_attachment_metadata,
            },
            staged: [u, u, u, u],
            interval_input: None,
            error: None,
        };
        assert(settings@.staged =~= settings_begun(self.prefs).staged);
        self.open_popup(Popup::Settings(settings));
    }

    pub fn press_settings(&mut self, settings: SettingsState, key: KeyEvent) -> (r: Option<Effect>)
        requires
            settings_sound(settings@),
        ensures
            (final(self)@, r) == settings_pressed(old(self)@, settings@, key),
            old(self).wf() ==> final(self).wf(),
    {
        proof {
            reveal(settings_pressed);
        }
        let mut settings = settings;
        if settings.interval_input.is_some() {
            settings.type_interval(key);
            self.open_popup(Popup::Settings(settings));
            return None;
        }
        match settings.react(&self.prefs.config_file_presence, key) {
            SettingsReaction::Close => None,
            SettingsReaction::Stay => {
                self.open_popup(Popup::Settings(settings));
                self.first_do(Step::PersistRecovery);
                None
            },
            SettingsReaction::Save => {
                if settings_edits(&settings).len() == 0 {
                    self.say(owned("No settings changes"));
                    return None;
                }
                self.open_popup(Popup::Settings(settings));
                self.ask(Await::ConfigEdited, Effect::EditConfig)
            },
        }
    }

    pub fn end_config_edit(&mut self, done: Result<(), String>)
        ensures
            final(self)@ == config_edited(old(self)@, done),
            old(self).wf() ==> final(self).wf(),
    {
        proof {
            reveal(config_edited);
        }
        let mut taken: Option<Popup> = None;
        std::mem::swap(&mut taken, &mut self.popup);
        match taken {
            Some(Popup::Settings(settings)) => match done {
                Ok(_) => {
                    if settings.overrides_stay(&self.prefs.config_sources) {
                        self.say(
                            owned(
                                "Settings saved; changes apply on next startup (CLI overrides remain active)",
                            ),
                        );
                    } else {
                        self.say(owned("Settings saved; changes apply on next startup"));
                    }
                },
                Err(e) => {
                    let mut settings = settings;
                    settings.error = Some(e);
                    self.open_popup(Popup::Settings(settings));
                    self.first_do(Step::PersistRecovery);
                },
            },
            other => {
                self.popup = other;
            },
        }
    }
}

/// A row of the settings is taken to be in the config file just where the file holds its
/// preference.
pub proof fn law_rows_tell_of_their_preference(
    resolved: ResolvedConfig,
    file: FileConfig,
    cli: CliConfigOverrides,
    i: int,
)
    requires
        resolves(resolved, file, cli),
        0 <= i < 4,
    ensures
        resolved.file_presence@[i] == holds(file, setting_key(i)),
{
}

/// With what was resolved handed to the settings, a row can be staged for removal just
/// where the config file holds its preference, and a reset stages for removal just what
/// the file holds.
pub proof fn law_only_what_the_file_holds_is_unset(
    resolved: ResolvedConfig,
    file: FileConfig,
    cli: CliConfigOverrides,
    s: Settings,
    key: KeyEvent,
)
    requires
        resolves(resolved, file, cli),
        settings_sound(s),
    ensures
        key.code == KeyCode::Char('u') ==> setting_chosen(s, resolved.file_presence@, key)
            == SettingsTurn::Stay(
            if holds(file, setting_key(s.selected as int)) {
                staged_as(s, SettingDraft::Unset)
            } else {
                s
            },
        ),
        key.code == KeyCode::Char('R') ==> setting_chosen(s, resolved.file_presence@, key)
            == SettingsTurn::Stay(
            Settings {
                staged: Seq::new(
                    s.staged.len(),
                    |i: int|
                        if holds(file, setting_key(i)) {
                            SettingDraft::Unset
                        } else {
                            s.staged[i]
                        },
                ),
                ..s
            },
        ),
{
    let staged = Seq::new(
        s.staged.len(),
        |i: int|
            if holds(file, setting_key(i)) {
                SettingDraft::Unset
            } else {
                s.staged[i]
            },
    );
    assert(all_unset(s.staged, resolved.file_presence@) =~= staged);
}

} // verus!
