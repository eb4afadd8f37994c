//! Preferences: the command line, the config file, and what the two make together.

use vstd::prelude::*;

use crate::text;
use crate::text::{cat, cat3, decimal_text, joined, owned, read_unsigned, text_lines};

verus! {

/// The refresh interval without any preference, in seconds.
pub const DEFAULT_REFRESH_INTERVAL: u64 = 60;

/// The shortest refresh interval, in seconds.
pub const MIN_REFRESH_INTERVAL_SECONDS: u64 = 5;

/// The longest refresh interval, in seconds.
pub const MAX_REFRESH_INTERVAL_SECONDS: u64 = 86_400;

/// A result whose error is a message: equal values, or equal message texts.
pub open spec fn same_result<T>(r: Result<T, String>, s: Result<T, Seq<char>>) -> bool {
    match (r, s) {
        (Ok(a), Ok(b)) => a == b,
        (Err(a), Err(b)) => a@ == b,
        _ => false,
    }
}

// ---------------------------------------------------------------------------
// Types
// ---------------------------------------------------------------------------

/// The preferences in force. The interval is in seconds.
#[derive(Clone, Copy, Debug, PartialEq, Eq, Structural)]
pub struct AppConfig {
    pub refresh_interval: u64,
    pub auto_refresh: bool,
    pub preview_wrap: bool,
    pub show_attachment_metadata: bool,
}

pub open spec fn default_config() -> AppConfig {
    AppConfig {
        refresh_interval: DEFAULT_REFRESH_INTERVAL,
        auto_refresh: true,
        preview_wrap: true,
        show_attachment_metadata: true,
    }
}

impl Default for AppConfig {
    fn default() -> (r: Self)
        ensures
            r == default_config(),
    {
        AppConfig {
            refresh_interval: DEFAULT_REFRESH_INTERVAL,
            auto_refresh: true,
            preview_wrap: true,
            show_attachment_metadata: true,
        }
    }
}

/// Where a preference comes from.
#[derive(Clone, Copy, Debug, PartialEq, Eq, Structural)]
pub enum ConfigValueSource {
    Default,
    File,
    Cli,
}

/// The preferences in force, with where each comes from. `file_presence` says which of
/// them the config file holds, in the order of the settings: auto refresh, refresh
/// interval, preview wrap, attachment metadata.
#[derive(Debug)]
pub struct ResolvedConfig {
    pub config: AppConfig,
    pub refresh_interval_source: ConfigValueSource,
    pub auto_refresh_source: ConfigValueSource,
    pub preview_wrap_source: ConfigValueSource,
    pub show_attachment_metadata_source: ConfigValueSource,
    pub file_presence: [bool; 4],
    pub warning: Option<String>,
}

/// The preferences that the command line gives.
#[derive(Clone, Copy, Debug, PartialEq, Eq)]
pub struct CliConfigOverrides {
    pub refresh_interval_seconds: Option<u64>,
    pub auto_refresh: Option<bool>,
    pub preview_wrap: Option<bool>,
    pub show_attachment_metadata: Option<bool>,
}

pub open spec fn no_overrides() -> CliConfigOverrides {
    CliConfigOverrides {
        refresh_interval_seconds: None,
        auto_refresh: None,
        preview_wrap: None,
        show_attachment_metadata: None,
    }
}

impl Default for CliConfigOverrides {
    fn default() -> (r: Self)
        ensures
            r == no_overrides(),
    {
        CliConfigOverrides {
            refresh_interval_seconds: None,
            auto_refresh: None,
            preview_wrap: None,
            show_attachment_metadata: None,
        }
    }
}

/// A preference that the config file can hold.
#[derive(Clone, Copy, Debug, PartialEq, Eq, Structural)]
pub enum ConfigKey {
    RefreshIntervalSeconds,
    AutoRefresh,
    PreviewWrap,
    ShowAttachmentMetadata,
}

/// One change to the config file, as the command line asks for it.
#[derive(Clone, Copy, Debug, PartialEq, Eq, Structural)]
pub enum ConfigEditCommand {
    Assign(ConfigKey, ConfigEditValue),
    Unset(ConfigKey),
    Reset,
}

/// One of several changes that are made to the config file at once.
#[derive(Clone, Copy, Debug, PartialEq, Eq, Structural)]
pub enum ConfigEdit {
    Assign(ConfigKey, ConfigEditValue),
    Unset(ConfigKey),
}

/// A value that a preference can have.
#[derive(Clone, Copy, Debug, PartialEq, Eq, Structural)]
pub enum ConfigEditValue {
    RefreshIntervalSeconds(u64),
    Boolean(bool),
}

/// What to do with the recovery draft, instead of running the client.
#[derive(Clone, Copy, Debug, PartialEq, Eq, Structural)]
pub enum DraftCliCommand {
    Info,
    Clear,
}

/// The preferences that a config file gives.
#[derive(Clone, Copy, Debug, PartialEq, Eq)]
pub struct FileConfig {
    pub refresh_interval_seconds: Option<u64>,
    pub auto_refresh: Option<bool>,
    pub preview_wrap: Option<bool>,
    pub show_attachment_metadata: Option<bool>,
}

pub open spec fn empty_file() -> FileConfig {
    FileConfig {
        refresh_interval_seconds: None,
        auto_refresh: None,
        preview_wrap: None,
        show_attachment_metadata: None,
    }
}

impl Default for FileConfig {
    fn default() -> (r: Self)
        ensures
            r == empty_file(),
    {
        FileConfig {
            refresh_interval_seconds: None,
            auto_refresh: None,
            preview_wrap: None,
            show_attachment_metadata: None,
        }
    }
}

/// A config file: the preferences, and the lines that hold none.
#[derive(Debug)]
pub struct ConfigDocument {
    pub file: FileConfig,
    pub unknown_lines: Vec<String>,
    pub has_unknown_keys: bool,
}

/// The model of a config file.
#[verifier::ext_equal]
pub ghost struct ConfigText {
    pub file: FileConfig,
    pub lines: Seq<Seq<char>>,
    pub foreign: bool,
}

impl View for ConfigDocument {
    type V = ConfigText;

    open spec fn view(&self) -> ConfigText {
        ConfigText {
            file: self.file,
            lines: text::texts(self.unknown_lines@),
            foreign: self.has_unknown_keys,
        }
    }
}

/// What is to become of the config file.
#[derive(Debug, PartialEq, Eq)]
pub enum ConfigPlan {
    /// The file goes.
    Remove,
    /// The file gets this text.
    Write(String),
}

// ---------------------------------------------------------------------------
// Keys and values
// ---------------------------------------------------------------------------

/// The name of a preference in the file and on the command line.
pub open spec fn key_name(key: ConfigKey) -> Seq<char> {
    match key {
        ConfigKey::RefreshIntervalSeconds => "refresh_interval_seconds"@,
        ConfigKey::AutoRefresh => "auto_refresh"@,
        ConfigKey::PreviewWrap => "preview_wrap"@,
        ConfigKey::ShowAttachmentMetadata => "show_attachment_metadata"@,
    }
}

/// The preference with a name.
pub open spec fn key_named(name: Seq<char>) -> Option<ConfigKey> {
    if name == "refresh_interval_seconds"@ {
        Some(ConfigKey::RefreshIntervalSeconds)
    } else if name == "auto_refresh"@ {
        Some(ConfigKey::AutoRefresh)
    } else if name == "preview_wrap"@ {
        Some(ConfigKey::PreviewWrap)
    } else if name == "show_attachment_metadata"@ {
        Some(ConfigKey::ShowAttachmentMetadata)
    } else {
        None
    }
}

/// The preference with a name, or the message for a name that none has.
pub open spec fn parsed_key(name: Seq<char>) -> Result<ConfigKey, Seq<char>> {
    match key_named(name) {
        Some(key) => Ok(key),
        None => Err("unsupported config key: "@ + name),
    }
}

impl ConfigKey {
    fn named(value: &str) -> (r: Option<Self>)
        ensures
            r == key_named(value@),
    {
        if value.eq("refresh_interval_seconds") {
            Some(ConfigKey::RefreshIntervalSeconds)
        } else if value.eq("auto_refresh") {
            Some(ConfigKey::AutoRefresh)
        } else if value.eq("preview_wrap") {
            Some(ConfigKey::PreviewWrap)
        } else if value.eq("show_attachment_metadata") {
            Some(ConfigKey::ShowAttachmentMetadata)
        } else {
            None
        }
    }

    pub fn parse(value: &str) -> (r: Result<Self, String>)
        ensures
            same_result(r, parsed_key(value@)),
    {
        match ConfigKey::named(value) {
            Some(key) => Ok(key),
            None => Err(cat("unsupported config key: ", value)),
        }
    }

    pub fn name(self) -> (r: &'static str)
        ensures
            r@ == key_name(self),
    {
        match self {
            ConfigKey::RefreshIntervalSeconds => "refresh_interval_seconds",
            ConfigKey::AutoRefresh => "auto_refresh",
            ConfigKey::PreviewWrap => "preview_wrap",
            ConfigKey::ShowAttachmentMetadata => "show_attachment_metadata",
        }
    }
}

/// Whether an interval is one that may be set.
pub open spec fn interval_allowed(seconds: u64) -> bool {
    MIN_REFRESH_INTERVAL_SECONDS <= seconds <= MAX_REFRESH_INTERVAL_SECONDS
}

pub open spec fn interval_message() -> Seq<char> {
    "refresh_interval_seconds must be between 5 and 86400"@
}

/// An interval in seconds, where it may be set.
pub fn interval(seconds: u64) -> (r: Result<u64, String>)
    ensures
        same_result(
            r,
            if interval_allowed(seconds) {
                Ok(seconds)
            } else {
                Err(interval_message())
            },
        ),
{
    if seconds < MIN_REFRESH_INTERVAL_SECONDS || MAX_REFRESH_INTERVAL_SECONDS < seconds {
        return Err(owned("refresh_interval_seconds must be between 5 and 86400"));
    }
    Ok(seconds)
}

/// The truth value that a text stands for.
pub open spec fn parse_bool(s: Seq<char>) -> Option<bool> {
    if s == "true"@ {
        Some(true)
    } else if s == "false"@ {
        Some(false)
    } else {
        None
    }
}

fn read_bool(s: &str) -> (r: Option<bool>)
    ensures
        r == parse_bool(s@),
{
    if s.eq("true") {
        Some(true)
    } else if s.eq("false") {
        Some(false)
    } else {
        proof {
            reveal_strlit("true");
            reveal_strlit("false");
        }
        None
    }
}

/// The value that a text stands for, of the type that belongs to the preference.
pub open spec fn value_of(key: ConfigKey, s: Seq<char>) -> Option<ConfigEditValue> {
    match key {
        ConfigKey::RefreshIntervalSeconds => match text::parse_unsigned(s, u64::MAX as nat) {
            Some(n) => Some(ConfigEditValue::RefreshIntervalSeconds(n as u64)),
            None => None,
        },
        _ => match parse_bool(s) {
            Some(b) => Some(ConfigEditValue::Boolean(b)),
            None => None,
        },
    }
}

/// The message for a text that stands for no value of a preference.
pub open spec fn value_message(key: ConfigKey) -> Seq<char> {
    match key {
        ConfigKey::RefreshIntervalSeconds => "refresh_interval_seconds must be an integer"@,
        _ => key_name(key) + " must be true or false"@,
    }
}

/// Whether a value is of the type that belongs to a preference.
pub open spec fn value_fits(key: ConfigKey, value: ConfigEditValue) -> bool {
    key is RefreshIntervalSeconds <==> value is RefreshIntervalSeconds
}

fn read_value(key: ConfigKey, s: &str) -> (r: Result<ConfigEditValue, String>)
    ensures
        match r {
            Ok(value) => value_of(key, s@) == Some(value) && value_fits(key, value),
            Err(e) => value_of(key, s@) is None && e@ == value_message(key),
        },
{
    match key {
        ConfigKey::RefreshIntervalSeconds => match read_unsigned(s, u64::MAX) {
            Some(n) => Ok(ConfigEditValue::RefreshIntervalSeconds(n)),
            None => Err(owned("refresh_interval_seconds must be an integer")),
        },
        _ => match read_bool(s) {
            Some(b) => Ok(ConfigEditValue::Boolean(b)),
            None => Err(cat(key.name(), " must be true or false")),
        },
    }
}

// ---------------------------------------------------------------------------
// The command line
// ---------------------------------------------------------------------------

/// Whether an argument is given, at `from` or later.
fn given_from(args: &[String], from: usize, name: &str) -> (r: bool)
    requires
        from <= args@.len(),
    ensures
        r == exists|i: int| from <= i < args@.len() && (#[trigger] args@[i])@ == name@,
{
    let mut i: usize = from;
    while i < args.len()
        invariant
            from <= i <= args@.len(),
            forall|k: int| from <= k < i ==> (#[trigger] args@[k])@ != name@,
        decreases args@.len() - i,
    {
        if args[i].as_str().eq(name) {
            return true;
        }
        i = i + 1;
    }
    false
}

/// Whether an argument is given.
pub open spec fn given(args: Seq<String>, name: Seq<char>) -> bool {
    exists|i: int| 0 <= i < args.len() && (#[trigger] args[i])@ == name
}

/// The draft command that the arguments ask for. It stands alone on its command line.
pub open spec fn draft_command(args: Seq<String>) -> Result<Option<DraftCliCommand>, Seq<char>> {
    let info = given(args, "--draft-info"@);
    let clear = given(args, "--draft-clear"@);
    if info && clear {
        Err("--draft-info and --draft-clear cannot be combined"@)
    } else if !info && !clear {
        Ok(None)
    } else if args.len() != 1 {
        Err("draft commands are standalone and cannot be combined with runtime options"@)
    } else if info {
        Ok(Some(DraftCliCommand::Info))
    } else {
        Ok(Some(DraftCliCommand::Clear))
    }
}

/// The draft command on the command line. It reads and clears a local file, so it is
/// told apart before anything else is set up.
pub fn parse_draft_cli_command(args: &[String]) -> (r: Result<Option<DraftCliCommand>, String>)
    ensures
        same_result(r, draft_command(args@)),
{
    let info = given_from(args, 0, "--draft-info");
    let clear = given_from(args, 0, "--draft-clear");
    let command = if info && clear {
        return Err(owned("--draft-info and --draft-clear cannot be combined"));
    } else if info {
        DraftCliCommand::Info
    } else if clear {
        DraftCliCommand::Clear
    } else {
        return Ok(None);
    };
    if args.len() != 1 {
        return Err(
            owned("draft commands are standalone and cannot be combined with runtime options"),
        );
    }
    Ok(Some(command))
}

/// What `key=value` asks for.
pub open spec fn config_set(s: Seq<char>) -> Result<ConfigEditCommand, Seq<char>> {
    match text::split_once(s, '=') {
        None => Err("--config-set requires key=value"@),
        Some((name, value)) => match parsed_key(name) {
            Err(e) => Err(e),
            Ok(key) => match value_of(key, value) {
                None => Err(value_message(key)),
                Some(ConfigEditValue::RefreshIntervalSeconds(n)) if !interval_allowed(n) => Err(
                    interval_message(),
                ),
                Some(v) => Ok(ConfigEditCommand::Assign(key, v)),
            },
        },
    }
}

pub fn parse_config_set(value: &str) -> (r: Result<ConfigEditCommand, String>)
    ensures
        same_result(r, config_set(value@)),
        r matches Ok(ConfigEditCommand::Assign(k, v)) ==> value_fits(k, v),
        r is Ok ==> r->Ok_0 is Assign,
{
    let (key, value) = match text::split_at_char(value, '=') {
        Some(parts) => parts,
        None => return Err(owned("--config-set requires key=value")),
    };
    let key = match ConfigKey::parse(key.as_str()) {
        Ok(key) => key,
        Err(e) => return Err(e),
    };
    let value = match read_value(key, value.as_str()) {
        Ok(value) => value,
        Err(e) => return Err(e),
    };
    if let ConfigEditValue::RefreshIntervalSeconds(seconds) = value {
        match interval(seconds) {
            Ok(_) => {},
            Err(e) => return Err(e),
        }
    }
    Ok(ConfigEditCommand::Assign(key, value))
}

/// Whether the argument at `i` begins a command that changes the config file.
pub open spec fn edit_word(s: Seq<char>) -> bool {
    s == "--config-set"@ || s == "--config-unset"@ || s == "--config-reset"@
}

/// The change that the argument at `i` asks for, together with the argument behind it
/// where it takes one.
pub open spec fn edit_at(args: Seq<String>, i: int) -> Result<ConfigEditCommand, Seq<char>> {
    let more = i + 1 < args.len();
    if args[i]@ == "--config-set"@ {
        if more {
            config_set(args[i + 1]@)
        } else {
            Err("--config-set requires key=value"@)
        }
    } else if args[i]@ == "--config-unset"@ {
        if more {
            match parsed_key(args[i + 1]@) {
                Ok(key) => Ok(ConfigEditCommand::Unset(key)),
                Err(e) => Err(e),
            }
        } else {
            Err("--config-unset requires a supported key"@)
        }
    } else {
        Ok(ConfigEditCommand::Reset)
    }
}

/// The one change that the arguments from `i` on ask for, where `found` was asked for
/// before.
pub open spec fn edit_from(args: Seq<String>, i: int, found: Option<ConfigEditCommand>) -> Result<
    Option<ConfigEditCommand>,
    Seq<char>,
>
    decreases args.len() - i,
{
    if i >= args.len() {
        Ok(found)
    } else if !edit_word(args[i]@) {
        edit_from(args, i + 1, found)
    } else {
        match edit_at(args, i) {
            Err(e) => Err(e),
            Ok(command) => if found is Some {
                Err("only one config write command may be used at a time"@)
            } else if args[i]@ == "--config-reset"@ {
                edit_from(args, i + 1, Some(command))
            } else {
                edit_from(args, i + 2, Some(command))
            },
        }
    }
}

/// Whether an argument changes a preference for this run only.
pub open spec fn runtime_option(s: Seq<char>) -> bool {
    ||| s == "--refresh-interval"@
    ||| s == "--auto-refresh"@
    ||| s == "--no-auto-refresh"@
    ||| s == "--preview-wrap"@
    ||| s == "--no-preview-wrap"@
    ||| s == "--show-attachment-metadata"@
    ||| s == "--hide-attachment-metadata"@
}

pub open spec fn runtime_option_given(args: Seq<String>) -> bool {
    exists|i: int| 0 <= i < args.len() && runtime_option((#[trigger] args[i])@)
}

/// The change to the config file that the command line asks for.
pub open spec fn edit_command(args: Seq<String>) -> Result<Option<ConfigEditCommand>, Seq<char>> {
    match edit_from(args, 0, None) {
        Ok(Some(_)) if runtime_option_given(args) => Err(
            "config write commands cannot be combined with runtime overrides"@,
        ),
        r => r,
    }
}

fn has_runtime_option(args: &[String]) -> (r: bool)
    ensures
        r == runtime_option_given(args@),
{
    let mut i: usize = 0;
    while i < args.len()
        invariant
            i <= args@.len(),
            forall|k: int| 0 <= k < i ==> !runtime_option((#[trigger] args@[k])@),
        decreases args@.len() - i,
    {
        let a = args[i].as_str();
        if a.eq("--refresh-interval") || a.eq("--auto-refresh") || a.eq("--no-auto-refresh")
            || a.eq("--preview-wrap") || a.eq("--no-preview-wrap") || a.eq(
            "--show-attachment-metadata",
        ) || a.eq("--hide-attachment-metadata") {
            assert(runtime_option(args@[i as int]@));
            return true;
        }
        i = i + 1;
    }
    false
}

fn read_edit(args: &[String], i: usize) -> (r: Result<ConfigEditCommand, String>)
    requires
        i < args@.len(),
        edit_word(args@[i as int]@),
    ensures
        same_result(r, edit_at(args@, i as int)),
        r matches Ok(ConfigEditCommand::Assign(k, v)) ==> value_fits(k, v),
{
    let a = args[i].as_str();
    let more = i < args.len() - 1;
    if a.eq("--config-set") {
        if more {
            parse_config_set(args[i + 1].as_str())
        } else {
            Err(owned("--config-set requires key=value"))
        }
    } else if a.eq("--config-unset") {
        if more {
            match ConfigKey::parse(args[i + 1].as_str()) {
                Ok(key) => Ok(ConfigEditCommand::Unset(key)),
                Err(e) => Err(e),
            }
        } else {
            Err(owned("--config-unset requires a supported key"))
        }
    } else {
        Ok(ConfigEditCommand::Reset)
    }
}

pub fn parse_config_edit_command(args: &[String]) -> (r: Result<Option<ConfigEditCommand>, String>)
    ensures
        same_result(r, edit_command(args@)),
        r matches Ok(Some(ConfigEditCommand::Assign(k, v))) ==> value_fits(k, v),
{
    let mut command: Option<ConfigEditCommand> = None;
    let mut index: usize = 0;
    while index < args.len()
        invariant
            edit_from(args@, 0, None) == edit_from(args@, index as int, command),
            command matches Some(ConfigEditCommand::Assign(k, v)) ==> value_fits(k, v),
        decreases args@.len() - index,
    {
        let argument = args[index].as_str();
        let reset = argument.eq("--config-reset");
        if reset || argument.eq("--config-set") || argument.eq("--config-unset") {
            let parsed = match read_edit(args, index) {
                Ok(parsed) => parsed,
                Err(e) => return Err(e),
            };
            if command.is_some() {
                return Err(owned("only one config write command may be used at a time"));
            }
            command = Some(parsed);
            if !reset {
                index = index + 1;
            }
        }
        index = index + 1;
    }
    if command.is_some() && has_runtime_option(args) {
        return Err(owned("config write commands cannot be combined with runtime overrides"));
    }
    Ok(command)
}

/// What becomes of a switch that is turned on or off; it cannot be both.
pub open spec fn switched(
    slot: Option<bool>,
    value: bool,
    positive: Seq<char>,
    negative: Seq<char>,
) -> Result<Option<bool>, Seq<char>> {
    if slot == Some(!value) {
        Err(positive + " conflicts with "@ + negative)
    } else {
        Ok(Some(value))
    }
}

pub fn set_boolean_override(
    slot: &mut Option<bool>,
    value: bool,
    positive: &str,
    negative: &str,
) -> (r: Result<(), String>)
    ensures
        match switched(*old(slot), value, positive@, negative@) {
            Ok(next) => r is Ok && *final(slot) == next,
            Err(e) => r is Err && r->Err_0@ == e && *final(slot) == *old(slot),
        },
{
    match *slot {
        Some(current) if current != value => Err(cat3(positive, " conflicts with ", negative)),
        _ => {
            *slot = Some(value);
            Ok(())
        },
    }
}

/// What the argument at `i` makes of the preferences given so far.
pub open spec fn override_at(args: Seq<String>, i: int, o: CliConfigOverrides) -> Result<
    CliConfigOverrides,
    Seq<char>,
> {
    let a = args[i]@;
    if a == "--refresh-interval"@ {
        if i + 1 < args.len() {
            match text::parse_unsigned(args[i + 1]@, u64::MAX as nat) {
                Some(n) => Ok(
                    CliConfigOverrides { refresh_interval_seconds: Some(n as u64), ..o },
                ),
                None => Err("--refresh-interval requires an integer"@),
            }
        } else {
            Err("--refresh-interval requires an integer"@)
        }
    } else if a == "--auto-refresh"@ || a == "--no-auto-refresh"@ {
        match switched(
            o.auto_refresh,
            a == "--auto-refresh"@,
            "--auto-refresh"@,
            "--no-auto-refresh"@,
        ) {
            Ok(v) => Ok(CliConfigOverrides { auto_refresh: v, ..o }),
            Err(e) => Err(e),
        }
    } else if a == "--preview-wrap"@ || a == "--no-preview-wrap"@ {
        match switched(
            o.preview_wrap,
            a == "--preview-wrap"@,
            "--preview-wrap"@,
            "--no-preview-wrap"@,
        ) {
            Ok(v) => Ok(CliConfigOverrides { preview_wrap: v, ..o }),
            Err(e) => Err(e),
        }
    } else if a == "--show-attachment-metadata"@ || a == "--hide-attachment-metadata"@ {
        match switched(
            o.show_attachment_metadata,
            a == "--show-attachment-metadata"@,
            "--show-attachment-metadata"@,
            "--hide-attachment-metadata"@,
        ) {
            Ok(v) => Ok(CliConfigOverrides { show_attachment_metadata: v, ..o }),
            Err(e) => Err(e),
        }
    } else {
        Ok(o)
    }
}

/// What the arguments from `i` on make of the preferences given so far. The interval
/// takes the argument behind it; every other argument stands for itself.
pub open spec fn overrides_from(args: Seq<String>, i: int, o: CliConfigOverrides) -> Result<
    CliConfigOverrides,
    Seq<char>,
>
    decreases args.len() - i,
{
    if i >= args.len() {
        Ok(o)
    } else {
        match override_at(args, i, o) {
            Err(e) => Err(e),
            Ok(next) => if args[i]@ == "--refresh-interval"@ {
                overrides_from(args, i + 2, next)
            } else {
                overrides_from(args, i + 1, next)
            },
        }
    }
}

fn read_switch(a: &str, o: &mut CliConfigOverrides) -> (r: Result<(), String>)
    requires
        a@ != "--refresh-interval"@,
    ensures
        forall|args: Seq<String>, i: int|
            (#[trigger] args[i])@ == a@ ==> match override_at(args, i, *old(o)) {
                Ok(next) => r is Ok && *final(o) == next,
                Err(e) => r is Err && r->Err_0@ == e,
            },
{
    proof {
        lemma_switches_differ();
    }
    if a.eq("--auto-refresh") {
        set_boolean_override(&mut o.auto_refresh, true, "--auto-refresh", "--no-auto-refresh")
    } else if a.eq("--no-auto-refresh") {
        set_boolean_override(&mut o.auto_refresh, false, "--auto-refresh", "--no-auto-refresh")
    } else if a.eq("--preview-wrap") {
        set_boolean_override(&mut o.preview_wrap, true, "--preview-wrap", "--no-preview-wrap")
    } else if a.eq("--no-preview-wrap") {
        set_boolean_override(&mut o.preview_wrap, false, "--preview-wrap", "--no-preview-wrap")
    } else if a.eq("--show-attachment-metadata") {
        set_boolean_override(
            &mut o.show_attachment_metadata,
            true,
            "--show-attachment-metadata",
            "--hide-attachment-metadata",
        )
    } else if a.eq("--hide-attachment-metadata") {
        set_boolean_override(
            &mut o.show_attachment_metadata,
            false,
            "--show-attachment-metadata",
            "--hide-attachment-metadata",
        )
    } else {
        Ok(())
    }
}

proof fn lemma_switches_differ()
    ensures
        "--auto-refresh"@ != "--no-auto-refresh"@,
        "--preview-wrap"@ != "--no-preview-wrap"@,
        "--show-attachment-metadata"@ != "--hide-attachment-metadata"@,
{
    reveal_strlit("--auto-refresh");
    reveal_strlit("--no-auto-refresh");
    reveal_strlit("--preview-wrap");
    reveal_strlit("--no-preview-wrap");
    reveal_strlit("--show-attachment-metadata");
    reveal_strlit("--hide-attachment-metadata");
    assert("--auto-refresh"@[2] == 'a' && "--no-auto-refresh"@[2] == 'n');
    assert("--preview-wrap"@[2] == 'p' && "--no-preview-wrap"@[2] == 'n');
    assert("--show-attachment-metadata"@[2] == 's' && "--hide-attachment-metadata"@[2] == 'h');
}

/// The preferences that the command line gives.
pub fn parse_config_overrides(args: &[String]) -> (r: Result<CliConfigOverrides, String>)
    ensures
        same_result(r, overrides_from(args@, 0, no_overrides())),
{
    let mut overrides = CliConfigOverrides::default();
    let mut index: usize = 0;
    while index < args.len()
        invariant
            overrides_from(args@, 0, no_overrides()) == overrides_from(
                args@,
                index as int,
                overrides,
            ),
        decreases args@.len() - index,
    {
        let argument = args[index].as_str();
        assert(args@[index as int]@ == argument@);
        if argument.eq("--refresh-interval") {
            if index >= args.len() - 1 {
                return Err(owned("--refresh-interval requires an integer"));
            }
            match read_unsigned(args[index + 1].as_str(), u64::MAX) {
                Some(n) => {
                    overrides.refresh_interval_seconds = Some(n);
                },
                None => return Err(owned("--refresh-interval requires an integer")),
            }
            index = index + 1;
        } else {
            match read_switch(argument, &mut overrides) {
                Ok(_) => {},
                Err(e) => return Err(e),
            }
        }
        index = index + 1;
    }
    Ok(overrides)
}

// ---------------------------------------------------------------------------
// The config file
// ---------------------------------------------------------------------------

/// What a line of the file is, without its comment and the white space around it.
pub enum LineEntry {
    Blank,
    Section,
    Pair(Seq<char>, Seq<char>),
    Malformed,
}

/// A line up to its comment, without white space at either end.
pub open spec fn line_body(line: Seq<char>) -> Seq<char> {
    text::trim(line.take(text::index_of(line, '#') as int))
}

pub open spec fn line_entry(line: Seq<char>) -> LineEntry {
    let body = line_body(line);
    if body.len() == 0 {
        LineEntry::Blank
    } else if body[0] == '[' && body.last() == ']' {
        LineEntry::Section
    } else {
        match text::split_once(body, '=') {
            Some((key, value)) => LineEntry::Pair(text::trim(key), text::trim(value)),
            None => LineEntry::Malformed,
        }
    }
}

/// The preferences with one of them set.
pub open spec fn with_value(file: FileConfig, key: ConfigKey, value: ConfigEditValue) -> FileConfig {
    match (key, value) {
        (
            ConfigKey::RefreshIntervalSeconds,
            ConfigEditValue::RefreshIntervalSeconds(n),
        ) => FileConfig { refresh_interval_seconds: Some(n), ..file },
        (ConfigKey::AutoRefresh, ConfigEditValue::Boolean(b)) => FileConfig {
            auto_refresh: Some(b),
            ..file
        },
        (ConfigKey::PreviewWrap, ConfigEditValue::Boolean(b)) => FileConfig {
            preview_wrap: Some(b),
            ..file
        },
        (ConfigKey::ShowAttachmentMetadata, ConfigEditValue::Boolean(b)) => FileConfig {
            show_attachment_metadata: Some(b),
            ..file
        },
        _ => file,
    }
}

/// The preferences without one of them.
pub open spec fn without_value(file: FileConfig, key: ConfigKey) -> FileConfig {
    match key {
        ConfigKey::RefreshIntervalSeconds => FileConfig { refresh_interval_seconds: None, ..file },
        ConfigKey::AutoRefresh => FileConfig { auto_refresh: None, ..file },
        ConfigKey::PreviewWrap => FileConfig { preview_wrap: None, ..file },
        ConfigKey::ShowAttachmentMetadata => FileConfig { show_attachment_metadata: None, ..file },
    }
}

/// The file with a line that is kept as it is; `foreign` where it is someone else's.
pub open spec fn keeping(doc: ConfigText, line: Seq<char>, foreign: bool) -> ConfigText {
    ConfigText { lines: doc.lines.push(line), foreign: doc.foreign || foreign, ..doc }
}

/// What one more line makes of the file read so far. Preferences stand before the first
/// section; `root` tells whether none has begun yet.
pub open spec fn read_line(doc: ConfigText, root: bool, line: Seq<char>) -> Result<
    (ConfigText, bool),
    Seq<char>,
> {
    match line_entry(line) {
        LineEntry::Blank => Ok((keeping(doc, line, false), root)),
        LineEntry::Section => Ok((keeping(doc, line, true), false)),
        LineEntry::Malformed => Err("malformed config line"@),
        LineEntry::Pair(name, value) => match key_named(name) {
            Some(key) if root => match value_of(key, value) {
                Some(v) => Ok((ConfigText { file: with_value(doc.file, key, v), ..doc }, root)),
                None => Err(value_message(key)),
            },
            _ => Ok((keeping(doc, line, true), root)),
        },
    }
}

/// What more lines make of the file read so far.
pub open spec fn read_lines(doc: ConfigText, root: bool, lines: Seq<Seq<char>>) -> Result<
    ConfigText,
    Seq<char>,
>
    decreases lines.len(),
{
    if lines.len() == 0 {
        Ok(doc)
    } else {
        match read_line(doc, root, lines[0]) {
            Ok((next, at_root)) => read_lines(next, at_root, lines.drop_first()),
            Err(e) => Err(e),
        }
    }
}

pub open spec fn empty_document() -> ConfigText {
    ConfigText { file: empty_file(), lines: seq![], foreign: false }
}

/// The file that a text holds.
pub open spec fn config_document(contents: Seq<char>) -> Result<ConfigText, Seq<char>> {
    read_lines(empty_document(), true, text::lines(contents))
}

impl Default for ConfigDocument {
    fn default() -> (r: Self)
        ensures
            r@ == empty_document(),
    {
        let r = ConfigDocument {
            file: FileConfig::default(),
            unknown_lines: Vec::new(),
            has_unknown_keys: false,
        };
        assert(r@ =~= empty_document());
        r
    }
}

impl ConfigDocument {
    fn keep(&mut self, line: &String, foreign: bool)
        ensures
            final(self)@ == keeping(old(self)@, line@, foreign),
    {
        let kept = line.clone();
        proof {
            text::lemma_texts_push(self.unknown_lines@, kept);
        }
        self.unknown_lines.push(kept);
        if foreign {
            self.has_unknown_keys = true;
        }
    }

    fn take_line(&mut self, root: bool, line: &String) -> (r: Result<bool, String>)
        ensures
            match read_line(old(self)@, root, line@) {
                Ok((doc, at_root)) => r is Ok && final(self)@ == doc && r->Ok_0 == at_root,
                Err(e) => r is Err && r->Err_0@ == e,
            },
    {
        let cs = text::chars_of(line.as_str());
        let end = text::find_char(&cs, 0, cs.len(), '#');
        let (from, to) = text::trim_range(&cs, 0, end);
        let ghost body = line_body(line@);
        proof {
            assert(cs@.subrange(0, cs@.len() as int) =~= line@);
            assert(cs@.subrange(0, end as int) =~= line@.take(end as int));
            assert(body == cs@.subrange(from as int, to as int));
        }
        if from == to {
            self.keep(line, false);
            return Ok(root);
        }
        if cs[from] == '[' && cs[to - 1] == ']' {
            self.keep(line, true);
            return Ok(false);
        }
        let at = text::find_char(&cs, from, to, '=');
        if at == to {
            return Err(owned("malformed config line"));
        }
        let (key_from, key_to) = text::trim_range(&cs, from, at);
        let (value_from, value_to) = text::trim_range(&cs, at + 1, to);
        proof {
            assert(body.take(at - from) =~= cs@.subrange(from as int, at as int));
            assert(body.skip(at - from + 1) =~= cs@.subrange(at + 1, to as int));
        }
        if root {
            let name = text::string_range(&cs, key_from, key_to);
            if let Some(key) = ConfigKey::named(name.as_str()) {
                let value = text::string_range(&cs, value_from, value_to);
                match read_value(key, value.as_str()) {
                    Ok(v) => {
                        set_config_value(&mut self.file, key, v);
                        return Ok(root);
                    },
                    Err(e) => return Err(e),
                }
            }
        }
        self.keep(line, true);
        Ok(root)
    }
}

/// Reads a config file.
pub fn parse_config_document(contents: &str) -> (r: Result<ConfigDocument, String>)
    ensures
        match config_document(contents@) {
            Ok(doc) => r is Ok && r->Ok_0@ == doc,
            Err(e) => r is Err && r->Err_0@ == e,
        },
{
    let lines = text_lines(contents);
    let ghost all = text::texts(lines@);
    let mut document = ConfigDocument::default();
    let mut root_section = true;
    let mut i: usize = 0;
    assert(all.skip(0) =~= all);
    while i < lines.len()
        invariant
            all == text::texts(lines@),
            all == text::lines(contents@),
            i <= lines@.len(),
            config_document(contents@) == read_lines(
                document@,
                root_section,
                all.skip(i as int),
            ),
        decreases lines@.len() - i,
    {
        assert(all.skip(i as int)[0] == lines@[i as int]@);
        assert(all.skip(i as int).drop_first() =~= all.skip(i + 1));
        match document.take_line(root_section, &lines[i]) {
            Ok(root) => {
                root_section = root;
            },
            Err(e) => return Err(e),
        }
        i = i + 1;
    }
    Ok(document)
}

/// Reads the preferences of a config file.
pub fn parse_file_config(contents: &str) -> (r: Result<FileConfig, String>)
    ensures
        match config_document(contents@) {
            Ok(doc) => r is Ok && r->Ok_0 == doc.file,
            Err(e) => r is Err && r->Err_0@ == e,
        },
{
    match parse_config_document(contents) {
        Ok(document) => Ok(document.file),
        Err(e) => Err(e),
    }
}

/// Whether the interval of a file, where it has one, may be set.
pub open spec fn file_allowed(file: FileConfig) -> bool {
    file.refresh_interval_seconds matches Some(n) ==> interval_allowed(n)
}

pub fn validate_file_config(file: FileConfig) -> (r: Result<FileConfig, String>)
    ensures
        same_result(
            r,
            if file_allowed(file) {
                Ok(file)
            } else {
                Err(interval_message())
            },
        ),
{
    if let Some(seconds) = file.refresh_interval_seconds {
        match interval(seconds) {
            Ok(_) => {},
            Err(e) => return Err(e),
        }
    }
    Ok(file)
}

pub fn set_config_value(file: &mut FileConfig, key: ConfigKey, value: ConfigEditValue)
    requires
        value_fits(key, value),
    ensures
        *final(file) == with_value(*old(file), key, value),
{
    match (key, value) {
        (ConfigKey::RefreshIntervalSeconds, ConfigEditValue::RefreshIntervalSeconds(n)) => {
            file.refresh_interval_seconds = Some(n);
        },
        (ConfigKey::AutoRefresh, ConfigEditValue::Boolean(b)) => {
            file.auto_refresh = Some(b);
        },
        (ConfigKey::PreviewWrap, ConfigEditValue::Boolean(b)) => {
            file.preview_wrap = Some(b);
        },
        (ConfigKey::ShowAttachmentMetadata, ConfigEditValue::Boolean(b)) => {
            file.show_attachment_metadata = Some(b);
        },
        _ => {},
    }
}

pub fn unset_config_value(file: &mut FileConfig, key: ConfigKey)
    ensures
        *final(file) == without_value(*old(file), key),
{
    match key {
        ConfigKey::RefreshIntervalSeconds => {
            file.refresh_interval_seconds = None;
        },
        ConfigKey::AutoRefresh => {
            file.auto_refresh = None;
        },
        ConfigKey::PreviewWrap => {
            file.preview_wrap = None;
        },
        ConfigKey::ShowAttachmentMetadata => {
            file.show_attachment_metadata = None;
        },
    }
}

pub fn config_file_is_empty(file: &FileConfig) -> (r: bool)
    ensures
        r == (*file == empty_file()),
{
    file.refresh_interval_seconds.is_none() && file.auto_refresh.is_none()
        && file.preview_wrap.is_none() && file.show_attachment_metadata.is_none()
}

pub open spec fn bool_text(b: bool) -> Seq<char> {
    if b {
        "true"@
    } else {
        "false"@
    }
}

/// The line that sets a preference.
pub open spec fn setting_line(key: ConfigKey, value: Seq<char>) -> Seq<char> {
    key_name(key) + " = "@ + value
}

pub open spec fn switch_lines(key: ConfigKey, value: Option<bool>) -> Seq<Seq<char>> {
    match value {
        Some(b) => seq![setting_line(key, bool_text(b))],
        None => seq![],
    }
}

pub open spec fn interval_lines(value: Option<u64>) -> Seq<Seq<char>> {
    match value {
        Some(n) => seq![
            setting_line(ConfigKey::RefreshIntervalSeconds, text::decimal(n as nat)),
        ],
        None => seq![],
    }
}

/// The lines that set the preferences of a file.
pub open spec fn setting_lines(file: FileConfig) -> Seq<Seq<char>> {
    interval_lines(file.refresh_interval_seconds) + switch_lines(
        ConfigKey::AutoRefresh,
        file.auto_refresh,
    ) + switch_lines(ConfigKey::PreviewWrap, file.preview_wrap) + switch_lines(
        ConfigKey::ShowAttachmentMetadata,
        file.show_attachment_metadata,
    )
}

/// The lines that hold more than white space.
pub open spec fn solid_lines(lines: Seq<Seq<char>>) -> Seq<Seq<char>>
    decreases lines.len(),
{
    if lines.len() == 0 {
        seq![]
    } else if text::trim(lines[0]).len() == 0 {
        solid_lines(lines.drop_first())
    } else {
        seq![lines[0]] + solid_lines(lines.drop_first())
    }
}

/// The text of a file: its preferences, then the lines it keeps that are not blank.
pub open spec fn config_text(doc: ConfigText) -> Seq<char> {
    text::with_feeds(setting_lines(doc.file) + solid_lines(doc.lines))
}

fn push_switch(lines: &mut Vec<String>, key: ConfigKey, value: Option<bool>)
    ensures
        text::texts(final(lines)@) == text::texts(old(lines)@) + switch_lines(key, value),
{
    if let Some(b) = value {
        let shown = if b {
            "true"
        } else {
            "false"
        };
        let line = cat3(key.name(), " = ", shown);
        proof {
            text::lemma_texts_push(lines@, line);
        }
        lines.push(line);
    }
    assert(text::texts(lines@) =~= text::texts(old(lines)@) + switch_lines(key, value));
}

/// The text of a config file.
pub fn serialize_config_document(document: &ConfigDocument) -> (r: String)
    ensures
        r@ == config_text(document@),
{
    let mut lines: Vec<String> = Vec::new();
    if let Some(n) = document.file.refresh_interval_seconds {
        let digits = decimal_text(n);
        let line = cat3(ConfigKey::RefreshIntervalSeconds.name(), " = ", digits.as_str());
        lines.push(line);
    }
    assert(text::texts(lines@) =~= interval_lines(document.file.refresh_interval_seconds));
    push_switch(&mut lines, ConfigKey::AutoRefresh, document.file.auto_refresh);
    push_switch(&mut lines, ConfigKey::PreviewWrap, document.file.preview_wrap);
    push_switch(
        &mut lines,
        ConfigKey::ShowAttachmentMetadata,
        document.file.show_attachment_metadata,
    );
    let ghost kept = document@.lines;
    let ghost want = setting_lines(document.file) + solid_lines(kept);
    let mut i: usize = 0;
    assert(kept.skip(0) =~= kept);
    while i < document.unknown_lines.len()
        invariant
            kept == text::texts(document.unknown_lines@),
            i <= document.unknown_lines@.len(),
            text::texts(lines@) + solid_lines(kept.skip(i as int)) == want,
        decreases document.unknown_lines@.len() - i,
    {
        let line = &document.unknown_lines[i];
        let ghost before = text::texts(lines@);
        let ghost rest = kept.skip(i as int);
        assert(rest[0] == line@);
        assert(rest.drop_first() =~= kept.skip(i + 1));
        if !text::trimmed(line.as_str()).as_str().is_empty() {
            let copy = line.clone();
            proof {
                text::lemma_texts_push(lines@, copy);
                assert(before.push(line@) + solid_lines(rest.drop_first()) =~= before + (
                seq![line@] + solid_lines(rest.drop_first())));
            }
            lines.push(copy);
        }
        i = i + 1;
    }
    assert(text::texts(lines@) =~= want) by {
        assert(kept.skip(i as int) =~= Seq::<Seq<char>>::empty());
    }
    if lines.len() == 0 {
        proof {
            assert(want.len() == 0);
        }
        let r = String::new();
        assert(r@ =~= text::with_feeds(want));
        r
    } else {
        proof {
            text::lemma_join_with_feeds(want);
            reveal_strlit("\n");
            assert("\n"@ =~= seq!['\n']);
        }
        cat(joined(&lines, "\n").as_str(), "\n")
    }
}

/// What one change makes of the preferences of a file.
pub open spec fn edited(file: FileConfig, edit: ConfigEdit) -> FileConfig {
    match edit {
        ConfigEdit::Assign(key, value) => with_value(file, key, value),
        ConfigEdit::Unset(key) => without_value(file, key),
    }
}

/// What changes in order make of the preferences of a file.
pub open spec fn edited_all(file: FileConfig, edits: Seq<ConfigEdit>) -> FileConfig
    decreases edits.len(),
{
    if edits.len() == 0 {
        file
    } else {
        edited(edited_all(file, edits.drop_last()), edits.last())
    }
}

pub open spec fn edit_fits(edit: ConfigEdit) -> bool {
    match edit {
        ConfigEdit::Assign(key, value) => value_fits(key, value),
        ConfigEdit::Unset(_) => true,
    }
}

pub open spec fn command_fits(command: ConfigEditCommand) -> bool {
    match command {
        ConfigEditCommand::Assign(key, value) => value_fits(key, value),
        _ => true,
    }
}

/// The file that is there: what was read of it, or the message for what could not be
/// read. A file that does not exist reads as none.
pub open spec fn file_found(read: Result<Option<String>, String>) -> Result<ConfigText, Seq<char>> {
    match read {
        Ok(None) => Ok(empty_document()),
        Ok(Some(contents)) => match config_document(contents@) {
            Ok(doc) if !file_allowed(doc.file) => Err(interval_message()),
            r => r,
        },
        Err(e) => Err("could not read config: "@ + e@),
    }
}

fn find_file(read: Result<Option<String>, String>) -> (r: Result<ConfigDocument, String>)
    ensures
        match file_found(read) {
            Ok(doc) => r is Ok && r->Ok_0@ == doc,
            Err(e) => r is Err && r->Err_0@ == e,
        },
{
    let document = match read {
        Ok(Some(contents)) => match parse_config_document(contents.as_str()) {
            Ok(document) => document,
            Err(e) => return Err(e),
        },
        Ok(None) => ConfigDocument::default(),
        Err(e) => return Err(cat("could not read config: ", e.as_str())),
    };
    match validate_file_config(document.file) {
        Ok(_) => Ok(document),
        Err(e) => Err(e),
    }
}

/// What a plan comes to, against a text that is to be written, or none.
pub open spec fn plan_is(plan: ConfigPlan, contents: Option<Seq<char>>) -> bool {
    match (plan, contents) {
        (ConfigPlan::Remove, None) => true,
        (ConfigPlan::Write(s), Some(t)) => s@ == t,
        _ => false,
    }
}

/// What becomes of the file by a command: none where it goes.
pub open spec fn command_outcome(doc: ConfigText, command: ConfigEditCommand) -> Option<Seq<char>> {
    match command {
        ConfigEditCommand::Assign(key, value) => Some(
            config_text(ConfigText { file: with_value(doc.file, key, value), ..doc }),
        ),
        ConfigEditCommand::Unset(key) => Some(
            config_text(ConfigText { file: without_value(doc.file, key), ..doc }),
        ),
        ConfigEditCommand::Reset => if doc.foreign {
            Some(config_text(ConfigText { file: empty_file(), ..doc }))
        } else {
            None
        },
    }
}

/// What one command makes of the config file, given what was read of it.
pub fn edit_config(read: Result<Option<String>, String>, command: ConfigEditCommand) -> (r: Result<
    ConfigPlan,
    String,
>)
    requires
        command_fits(command),
    ensures
        match file_found(read) {
            Ok(doc) => r is Ok && plan_is(r->Ok_0, command_outcome(doc, command)),
            Err(e) => r is Err && r->Err_0@ == e,
        },
{
    let mut document = match find_file(read) {
        Ok(document) => document,
        Err(e) => return Err(e),
    };
    match command {
        ConfigEditCommand::Assign(key, value) => set_config_value(&mut document.file, key, value),
        ConfigEditCommand::Unset(key) => unset_config_value(&mut document.file, key),
        ConfigEditCommand::Reset => {
            document.file = FileConfig::default();
            if !document.has_unknown_keys {
                return Ok(ConfigPlan::Remove);
            }
        },
    }
    Ok(ConfigPlan::Write(serialize_config_document(&document)))
}

/// What becomes of the file by changes that are made at once: none where it goes.
pub open spec fn batch_outcome(doc: ConfigText, edits: Seq<ConfigEdit>) -> Option<Seq<char>> {
    let file = edited_all(doc.file, edits);
    if file == empty_file() && !doc.foreign {
        None
    } else {
        Some(config_text(ConfigText { file, ..doc }))
    }
}

/// What changes that are made at once make of the config file, given what was read
/// of it.
pub fn edit_config_batch(read: Result<Option<String>, String>, edits: &[ConfigEdit]) -> (r: Result<
    ConfigPlan,
    String,
>)
    requires
        forall|i: int| 0 <= i < edits@.len() ==> edit_fits(#[trigger] edits@[i]),
    ensures
        match file_found(read) {
            Ok(doc) => r is Ok && plan_is(r->Ok_0, batch_outcome(doc, edits@)),
            Err(e) => r is Err && r->Err_0@ == e,
        },
{
    let mut document = match find_file(read) {
        Ok(document) => document,
        Err(e) => return Err(e),
    };
    let ghost start = document@;
    let mut i: usize = 0;
    assert(edits@.take(0) =~= Seq::<ConfigEdit>::empty());
    while i < edits.len()
        invariant
            i <= edits@.len(),
            forall|i: int| 0 <= i < edits@.len() ==> edit_fits(#[trigger] edits@[i]),
            document@ == (ConfigText {
                file: edited_all(start.file, edits@.take(i as int)),
                ..start
            }),
        decreases edits@.len() - i,
    {
        assert(edits@.take(i + 1).drop_last() =~= edits@.take(i as int));
        assert(edit_fits(edits@[i as int]));
        match edits[i] {
            ConfigEdit::Assign(key, value) => set_config_value(&mut document.file, key, value),
            ConfigEdit::Unset(key) => unset_config_value(&mut document.file, key),
        }
        i = i + 1;
    }
    assert(edits@.take(i as int) =~= edits@);
    if config_file_is_empty(&document.file) && !document.has_unknown_keys {
        return Ok(ConfigPlan::Remove);
    }
    Ok(ConfigPlan::Write(serialize_config_document(&document)))
}

/// The changes that set preferences.
pub open spec fn assignments(values: Seq<(ConfigKey, ConfigEditValue)>) -> Seq<ConfigEdit> {
    Seq::new(values.len(), |i: int| ConfigEdit::Assign(values[i].0, values[i].1))
}

/// What becomes of the config file where preferences are set at once.
pub fn edit_config_values(
    read: Result<Option<String>, String>,
    values: &[(ConfigKey, ConfigEditValue)],
) -> (r: Result<ConfigPlan, String>)
    requires
        forall|i: int| 0 <= i < values@.len() ==> value_fits((#[trigger] values@[i]).0, values@[i].1),
    ensures
        match file_found(read) {
            Ok(doc) => r is Ok && plan_is(r->Ok_0, batch_outcome(doc, assignments(values@))),
            Err(e) => r is Err && r->Err_0@ == e,
        },
{
    let mut edits: Vec<ConfigEdit> = Vec::new();
    let mut i: usize = 0;
    while i < values.len()
        invariant
            i <= values@.len(),
            edits@ == assignments(values@).take(i as int),
        decreases values@.len() - i,
    {
        let (key, value) = values[i];
        edits.push(ConfigEdit::Assign(key, value));
        assert(edits@ =~= assignments(values@).take(i + 1));
        i = i + 1;
    }
    assert(edits@ =~= assignments(values@));
    edit_config_batch(read, edits.as_slice())
}

// ---------------------------------------------------------------------------
// The preferences in force
// ---------------------------------------------------------------------------

/// The command line comes before the file, and the file before the default.
pub open spec fn chosen<T>(cli: Option<T>, file: Option<T>, default: T) -> (T, ConfigValueSource) {
    match (cli, file) {
        (Some(v), _) => (v, ConfigValueSource::Cli),
        (None, Some(v)) => (v, ConfigValueSource::File),
        (None, None) => (default, ConfigValueSource::Default),
    }
}

/// Whether a resolved configuration is the one that a file and the command line make.
pub open spec fn resolves(r: ResolvedConfig, file: FileConfig, cli: CliConfigOverrides) -> bool {
    let d = default_config();
    &&& (r.config.refresh_interval, r.refresh_interval_source) == chosen(
        cli.refresh_interval_seconds,
        file.refresh_interval_seconds,
        d.refresh_interval,
    )
    &&& (r.config.auto_refresh, r.auto_refresh_source) == chosen(
        cli.auto_refresh,
        file.auto_refresh,
        d.auto_refresh,
    )
    &&& (r.config.preview_wrap, r.preview_wrap_source) == chosen(
        cli.preview_wrap,
        file.preview_wrap,
        d.preview_wrap,
    )
    &&& (r.config.show_attachment_metadata, r.show_attachment_metadata_source) == chosen(
        cli.show_attachment_metadata,
        file.show_attachment_metadata,
        d.show_attachment_metadata,
    )
    &&& r.file_presence@ == seq![
        file.auto_refresh is Some,
        file.refresh_interval_seconds is Some,
        file.preview_wrap is Some,
        file.show_attachment_metadata is Some,
    ]
}

/// Whether a file holds a preference.
pub open spec fn holds(file: FileConfig, key: ConfigKey) -> bool {
    match key {
        ConfigKey::RefreshIntervalSeconds => file.refresh_interval_seconds is Some,
        ConfigKey::AutoRefresh => file.auto_refresh is Some,
        ConfigKey::PreviewWrap => file.preview_wrap is Some,
        ConfigKey::ShowAttachmentMetadata => file.show_attachment_metadata is Some,
    }
}

/// The value in force of a preference.
pub open spec fn value_in_force(r: ResolvedConfig, key: ConfigKey) -> ConfigEditValue {
    match key {
        ConfigKey::RefreshIntervalSeconds => ConfigEditValue::RefreshIntervalSeconds(
            r.config.refresh_interval,
        ),
        ConfigKey::AutoRefresh => ConfigEditValue::Boolean(r.config.auto_refresh),
        ConfigKey::PreviewWrap => ConfigEditValue::Boolean(r.config.preview_wrap),
        ConfigKey::ShowAttachmentMetadata => ConfigEditValue::Boolean(
            r.config.show_attachment_metadata,
        ),
    }
}

/// Where the value in force of a preference comes from.
pub open spec fn source_in_force(r: ResolvedConfig, key: ConfigKey) -> ConfigValueSource {
    match key {
        ConfigKey::RefreshIntervalSeconds => r.refresh_interval_source,
        ConfigKey::AutoRefresh => r.auto_refresh_source,
        ConfigKey::PreviewWrap => r.preview_wrap_source,
        ConfigKey::ShowAttachmentMetadata => r.show_attachment_metadata_source,
    }
}

/// Whether the config file holds a preference, as it was resolved.
pub open spec fn presence_in_force(r: ResolvedConfig, key: ConfigKey) -> bool {
    match key {
        ConfigKey::AutoRefresh => r.file_presence@[0],
        ConfigKey::RefreshIntervalSeconds => r.file_presence@[1],
        ConfigKey::PreviewWrap => r.file_presence@[2],
        ConfigKey::ShowAttachmentMetadata => r.file_presence@[3],
    }
}

pub open spec fn cli_allowed(cli: CliConfigOverrides) -> bool {
    cli.refresh_interval_seconds matches Some(n) ==> interval_allowed(n)
}

fn choose_switch(cli: Option<bool>, file: Option<bool>, default: bool) -> (r: (
    bool,
    ConfigValueSource,
))
    ensures
        r == chosen(cli, file, default),
{
    match cli {
        Some(value) => (value, ConfigValueSource::Cli),
        None => match file {
            Some(value) => (value, ConfigValueSource::File),
            None => (default, ConfigValueSource::Default),
        },
    }
}

/// The preferences that a valid file and the command line make together.
pub fn resolve_config_from_file(file: FileConfig, cli: CliConfigOverrides) -> (r: Result<
    ResolvedConfig,
    String,
>)
    requires
        file_allowed(file),
    ensures
        match r {
            Ok(resolved) => cli_allowed(cli) && resolves(resolved, file, cli)
                && resolved.warning is None && interval_allowed(resolved.config.refresh_interval),
            Err(e) => !cli_allowed(cli) && e@ == interval_message(),
        },
{
    let defaults = AppConfig::default();
    let (refresh_interval, refresh_interval_source) = match cli.refresh_interval_seconds {
        Some(seconds) => match interval(seconds) {
            Ok(seconds) => (seconds, ConfigValueSource::Cli),
            Err(e) => return Err(e),
        },
        None => match file.refresh_interval_seconds {
            Some(seconds) => (seconds, ConfigValueSource::File),
            None => (defaults.refresh_interval, ConfigValueSource::Default),
        },
    };
    let (auto_refresh, auto_refresh_source) = choose_switch(
        cli.auto_refresh,
        file.auto_refresh,
        defaults.auto_refresh,
    );
    let (preview_wrap, preview_wrap_source) = choose_switch(
        cli.preview_wrap,
        file.preview_wrap,
        defaults.preview_wrap,
    );
    let (show_attachment_metadata, show_attachment_metadata_source) = choose_switch(
        cli.show_attachment_metadata,
        file.show_attachment_metadata,
        defaults.show_attachment_metadata,
    );
    let resolved = ResolvedConfig {
        config: AppConfig {
            refresh_interval,
            auto_refresh,
            preview_wrap,
            show_attachment_metadata,
        },
        refresh_interval_source,
        auto_refresh_source,
        preview_wrap_source,
        show_attachment_metadata_source,
        file_presence: [
            file.auto_refresh.is_some(),
            file.refresh_interval_seconds.is_some(),
            file.preview_wrap.is_some(),
            file.show_attachment_metadata.is_some(),
        ],
        warning: None,
    };
    assert(resolved.file_presence@ =~= seq![
        file.auto_refresh is Some,
        file.refresh_interval_seconds is Some,
        file.preview_wrap is Some,
        file.show_attachment_metadata is Some,
    ]);
    Ok(resolved)
}

/// The preferences that count of a config file, and the warning for a file that does
/// not count.
pub open spec fn file_taken(read: Result<Option<String>, String>) -> (
    FileConfig,
    Option<Seq<char>>,
) {
    match read {
        Ok(None) => (empty_file(), None),
        Ok(Some(contents)) => match config_document(contents@) {
            Ok(doc) => if file_allowed(doc.file) {
                (doc.file, None)
            } else {
                (empty_file(), Some("Config warning: "@ + interval_message()))
            },
            Err(e) => (empty_file(), Some("Config warning: "@ + e)),
        },
        Err(e) => (empty_file(), Some("Config warning: "@ + e@)),
    }
}

/// The preferences in force, given what was read of the config file. A file that
/// cannot be read or does not hold valid preferences counts as empty, with a warning.
pub fn resolve_config(read: Result<Option<String>, String>, cli: CliConfigOverrides) -> (r: Result<
    ResolvedConfig,
    String,
>)
    ensures
        match r {
            Ok(resolved) => {
                &&& cli_allowed(cli)
                &&& resolves(resolved, file_taken(read).0, cli)
                &&& match resolved.warning {
                    Some(w) => file_taken(read).1 == Some(w@),
                    None => file_taken(read).1 is None,
                }
                &&& interval_allowed(resolved.config.refresh_interval)
            },
            Err(e) => !cli_allowed(cli) && e@ == interval_message(),
        },
{
    let (file, warning) = match read {
        Ok(Some(contents)) => match parse_file_config(contents.as_str()) {
            Ok(file) => match validate_file_config(file) {
                Ok(file) => (file, None),
                Err(e) => (FileConfig::default(), Some(cat("Config warning: ", e.as_str()))),
            },
            Err(e) => (FileConfig::default(), Some(cat("Config warning: ", e.as_str()))),
        },
        Ok(None) => (FileConfig::default(), None),
        Err(e) => (FileConfig::default(), Some(cat("Config warning: ", e.as_str()))),
    };
    match resolve_config_from_file(file, cli) {
        Ok(resolved) => {
            let mut resolved = resolved;
            resolved.warning = warning;
            Ok(resolved)
        },
        Err(e) => Err(e),
    }
}

} // verus!
