//! The recovery draft: an edit that was not saved, kept in a file of its own.

use vstd::prelude::*;

use crate::document::{same_document, Piece, RichDocument};
use crate::editor::EditorTarget;
use crate::model::{AccountId, FolderId, NoteDate, NoteId};
use crate::text;
use crate::text::{cat, cat3, decimal_text, joined, owned};

verus! {

/// Whether a draft is of a new note or of one that exists.
#[derive(Clone, Copy, Debug, PartialEq, Eq, Structural)]
pub enum EditorRecoveryKind {
    Create,
    Edit,
}

/// The field of the editor that the cursor was in.
#[derive(Clone, Copy, Debug, PartialEq, Eq, Structural)]
pub enum EditorRecoveryField {
    Title,
    Body,
}

/// Where the cursor was.
#[derive(Clone, Copy, Debug, PartialEq, Eq, Structural)]
pub struct EditorCursorRecovery {
    pub field: EditorRecoveryField,
    pub target: EditorTarget,
    pub offset: usize,
}

/// An edit that was not saved.
#[derive(Clone, Debug, PartialEq, Eq)]
pub struct EditorRecoveryDraft {
    pub version: u8,
    pub kind: EditorRecoveryKind,
    pub account_id: AccountId,
    pub folder_id: FolderId,
    pub note_id: Option<NoteId>,
    pub expected_modification_date: Option<NoteDate>,
    pub title: String,
    pub document: RichDocument,
    pub original_title: String,
    pub original_body_html: String,
    pub original_plaintext: String,
    pub cursor: Option<EditorCursorRecovery>,
    pub viewport: Option<u16>,
}

/// The model of a draft.
#[verifier::ext_equal]
pub ghost struct Draft {
    pub version: u8,
    pub kind: EditorRecoveryKind,
    pub account_id: Seq<char>,
    pub folder_id: Seq<char>,
    pub note_id: Option<Seq<char>>,
    pub expected_modification_date: Option<Seq<char>>,
    pub title: Seq<char>,
    pub document: Seq<Piece>,
    pub original_title: Seq<char>,
    pub original_body_html: Seq<char>,
    pub original_plaintext: Seq<char>,
    pub cursor: Option<EditorCursorRecovery>,
    pub viewport: Option<u16>,
}

impl View for EditorRecoveryDraft {
    type V = Draft;

    open spec fn view(&self) -> Draft {
        Draft {
            version: self.version,
            kind: self.kind,
            account_id: self.account_id@,
            folder_id: self.folder_id@,
            note_id: match self.note_id {
                Some(id) => Some(id@),
                None => None,
            },
            expected_modification_date: match self.expected_modification_date {
                Some(date) => Some(date@),
                None => None,
            },
            title: self.title@,
            document: self.document@,
            original_title: self.original_title@,
            original_body_html: self.original_body_html@,
            original_plaintext: self.original_plaintext@,
            cursor: self.cursor,
            viewport: self.viewport,
        }
    }
}

impl EditorRecoveryDraft {
    pub fn same(&self, other: &Self) -> (r: bool)
        ensures
            r == (self@ == other@),
    {
        let note = match (&self.note_id, &other.note_id) {
            (Some(a), Some(b)) => a.same(b),
            (None, None) => true,
            _ => false,
        };
        let date = match (&self.expected_modification_date, &other.expected_modification_date) {
            (Some(a), Some(b)) => a.same(b),
            (None, None) => true,
            _ => false,
        };
        let cursor = match (self.cursor, other.cursor) {
            (Some(a), Some(b)) => a == b,
            (None, None) => true,
            _ => false,
        };
        let viewport = match (self.viewport, other.viewport) {
            (Some(a), Some(b)) => a == b,
            (None, None) => true,
            _ => false,
        };
        self.version == other.version && self.kind == other.kind && self.account_id.same(
            &other.account_id,
        ) && self.folder_id.same(&other.folder_id) && note && date && self.title.as_str().eq(
            other.title.as_str(),
        ) && same_document(&self.document, &other.document) && self.original_title.as_str().eq(
            other.original_title.as_str(),
        ) && self.original_body_html.as_str().eq(other.original_body_html.as_str())
            && self.original_plaintext.as_str().eq(other.original_plaintext.as_str()) && cursor
            && viewport
    }
}

// ---------------------------------------------------------------------------
// Reading a draft
// ---------------------------------------------------------------------------

/// What is wrong with a draft that was read: its version, or a note that its kind does
/// not go with.
pub open spec fn draft_fault(draft: Draft) -> Option<Seq<char>> {
    if draft.version != 1 {
        Some("unsupported editor recovery draft version: "@ + text::decimal(draft.version as nat))
    } else if draft.kind is Create != draft.note_id is None {
        Some("editor recovery draft has incompatible kind and note identity"@)
    } else {
        None
    }
}

/// A draft that was read, where it can be used.
pub fn check_editor_draft(draft: EditorRecoveryDraft) -> (r: Result<EditorRecoveryDraft, String>)
    ensures
        match draft_fault(draft@) {
            None => r == Ok::<EditorRecoveryDraft, String>(draft),
            Some(e) => r is Err && r->Err_0@ == e,
        },
{
    if draft.version != 1 {
        let version = decimal_text(draft.version as u64);
        return Err(cat("unsupported editor recovery draft version: ", version.as_str()));
    }
    let fits = match (draft.kind, &draft.note_id) {
        (EditorRecoveryKind::Create, None) => true,
        (EditorRecoveryKind::Edit, Some(_)) => true,
        _ => false,
    };
    if fits {
        Ok(draft)
    } else {
        Err(owned("editor recovery draft has incompatible kind and note identity"))
    }
}

/// A draft file: its bytes, and the draft that they hold or why they hold none.
pub struct DraftFile {
    pub contents: Vec<u8>,
    pub parsed: Result<EditorRecoveryDraft, String>,
}

/// The draft of a file that can be used, or why it cannot.
pub open spec fn draft_of(parsed: Result<EditorRecoveryDraft, String>) -> Result<
    EditorRecoveryDraft,
    Seq<char>,
> {
    match parsed {
        Err(e) => Err("could not parse editor recovery draft: "@ + e@),
        Ok(draft) => match draft_fault(draft@) {
            Some(e) => Err(e),
            None => Ok(draft),
        },
    }
}

fn take_draft(parsed: Result<EditorRecoveryDraft, String>) -> (r: Result<
    EditorRecoveryDraft,
    String,
>)
    ensures
        match draft_of(parsed) {
            Ok(draft) => r == Ok::<EditorRecoveryDraft, String>(draft),
            Err(e) => r is Err && r->Err_0@ == e,
        },
{
    match parsed {
        Ok(draft) => check_editor_draft(draft),
        Err(e) => Err(cat("could not parse editor recovery draft: ", e.as_str())),
    }
}

/// What is loaded, given what was read of a file: its draft, none where there is no file,
/// or why it cannot be used.
pub open spec fn loaded(
    read: Result<Option<DraftFile>, String>,
    r: Result<Option<EditorRecoveryDraft>, String>,
) -> bool {
    match read {
        Ok(None) => r == Ok::<Option<EditorRecoveryDraft>, String>(None),
        Ok(Some(file)) => match draft_of(file.parsed) {
            Ok(draft) => r == Ok::<Option<EditorRecoveryDraft>, String>(Some(draft)),
            Err(e) => r is Err && r->Err_0@ == e,
        },
        Err(e) => r is Err && r->Err_0@ == "could not read editor recovery draft: "@ + e@,
    }
}

/// The draft of a file, given what was read of it: none where there is no file.
pub fn load_editor_draft(read: Result<Option<DraftFile>, String>) -> (r: Result<
    Option<EditorRecoveryDraft>,
    String,
>)
    ensures
        loaded(read, r),
{
    match read {
        Ok(None) => Ok(None),
        Ok(Some(file)) => match take_draft(file.parsed) {
            Ok(draft) => Ok(Some(draft)),
            Err(e) => Err(e),
        },
        Err(e) => Err(cat("could not read editor recovery draft: ", e.as_str())),
    }
}

/// What a look at the draft file finds.
#[derive(Debug, PartialEq, Eq)]
pub enum EditorDraftInspection {
    Missing,
    Valid(Box<EditorRecoveryDraft>),
    Malformed { error: String },
    UnsupportedVersion { version: u64 },
}

/// What `serde_json` makes of a text of JSON: the number under a key of the outermost
/// object, none where there is no such number, or the message for a text that is no JSON.
pub uninterp spec fn json_number(contents: Seq<u8>, key: Seq<char>) -> Result<
    Option<u64>,
    Seq<char>,
>;

/// Reads bytes with `serde_json::from_slice` and looks up a key with `Value::get` and
/// `Value::as_u64`. The result is a function of the bytes and the key, which
/// `json_number` names; the grammar of JSON is not restated.
#[verifier::external_body]
fn read_json_number(contents: &Vec<u8>, key: &str) -> (r: Result<Option<u64>, String>)
    ensures
        match r {
            Ok(n) => json_number(contents@, key@) == Ok::<Option<u64>, Seq<char>>(n),
            Err(e) => json_number(contents@, key@) == Err::<Option<u64>, Seq<char>>(e@),
        },
{
    match serde_json::from_slice::<serde_json::Value>(contents) {
        Ok(value) => Ok(value.get(key).and_then(serde_json::Value::as_u64)),
        Err(error) => Err(error.to_string()),
    }
}

/// The finding for a file that is there, from its version number and its draft.
pub open spec fn finding(
    version: Result<Option<u64>, Seq<char>>,
    parsed: Result<EditorRecoveryDraft, String>,
    found: EditorDraftInspection,
) -> bool {
    match version {
        Err(e) => found matches EditorDraftInspection::Malformed { error } && error@
            == "could not parse editor recovery draft: "@ + e,
        Ok(Some(n)) if n != 1 => found == (EditorDraftInspection::UnsupportedVersion { version: n }),
        _ => match draft_of(parsed) {
            Ok(draft) => found == EditorDraftInspection::Valid(Box::new(draft)),
            Err(e) => found matches EditorDraftInspection::Malformed { error } && error@ == e,
        },
    }
}

/// The finding for a file that is there, from its version number and its draft.
pub fn classify_editor_draft(
    version: Result<Option<u64>, String>,
    parsed: Result<EditorRecoveryDraft, String>,
) -> (r: EditorDraftInspection)
    ensures
        finding(
            match version {
                Ok(n) => Ok(n),
                Err(e) => Err(e@),
            },
            parsed,
            r,
        ),
{
    match version {
        Err(e) => {
            return EditorDraftInspection::Malformed {
                error: cat("could not parse editor recovery draft: ", e.as_str()),
            };
        },
        Ok(Some(n)) => {
            if n != 1 {
                return EditorDraftInspection::UnsupportedVersion { version: n };
            }
        },
        Ok(None) => {},
    }
    match take_draft(parsed) {
        Ok(draft) => EditorDraftInspection::Valid(Box::new(draft)),
        Err(error) => EditorDraftInspection::Malformed { error },
    }
}

/// What a look at the draft file comes to, given what was read of it.
pub open spec fn inspected(
    read: Result<Option<DraftFile>, String>,
    r: Result<EditorDraftInspection, String>,
) -> bool {
    match read {
        Ok(None) => r == Ok::<EditorDraftInspection, String>(EditorDraftInspection::Missing),
        Ok(Some(file)) => r is Ok && finding(
            json_number(file.contents@, "version"@),
            file.parsed,
            r->Ok_0,
        ),
        Err(e) => r is Err && r->Err_0@ == "could not read editor recovery draft: "@ + e@,
    }
}

/// Looks at the draft file, given what was read of it.
pub fn inspect_editor_draft(read: Result<Option<DraftFile>, String>) -> (r: Result<
    EditorDraftInspection,
    String,
>)
    ensures
        inspected(read, r),
{
    match read {
        Ok(None) => Ok(EditorDraftInspection::Missing),
        Ok(Some(file)) => {
            let version = read_json_number(&file.contents, "version");
            Ok(classify_editor_draft(version, file.parsed))
        },
        Err(e) => Err(cat("could not read editor recovery draft: ", e.as_str())),
    }
}

/// Whether the bytes of a file are JSON where they hold a draft, and give no other version
/// than the draft has.
pub open spec fn version_agrees(file: DraftFile) -> bool {
    match file.parsed {
        Ok(draft) => match json_number(file.contents@, "version"@) {
            Ok(Some(n)) => n == draft.version,
            Ok(None) => true,
            Err(_) => false,
        },
        Err(_) => true,
    }
}

/// The version that a file gives as a number, where it is not the one that can be used.
pub open spec fn other_version(read: Result<Option<DraftFile>, String>) -> Option<u64> {
    match read {
        Ok(Some(file)) => match json_number(file.contents@, "version"@) {
            Ok(Some(n)) if n != 1 => Some(n),
            _ => None,
        },
        _ => None,
    }
}

/// A look at the draft file finds it missing just where there is none, and fails just
/// where it cannot be read. It finds an unsupported version just where the version in
/// the file is a number other than one, whatever else the file holds. A draft that it
/// finds valid is the one that loads; a draft that loads is found valid, where the bytes
/// of the file agree with it on the version. A file of which none of this holds is
/// malformed.
pub proof fn law_look_finds_what_loads(
    read: Result<Option<DraftFile>, String>,
    look: Result<EditorDraftInspection, String>,
    load: Result<Option<EditorRecoveryDraft>, String>,
)
    requires
        inspected(read, look),
        loaded(read, load),
    ensures
        look == Ok::<EditorDraftInspection, String>(EditorDraftInspection::Missing) <==> read == Ok::<
            Option<DraftFile>,
            String,
        >(None),
        load == Ok::<Option<EditorRecoveryDraft>, String>(None) <==> read == Ok::<
            Option<DraftFile>,
            String,
        >(None),
        look is Err <==> read is Err,
        other_version(read) matches Some(version) ==> look == Ok::<EditorDraftInspection, String>(
            EditorDraftInspection::UnsupportedVersion { version },
        ),
        look matches Ok(EditorDraftInspection::UnsupportedVersion { version }) ==> other_version(
            read,
        ) == Some(version),
        look matches Ok(EditorDraftInspection::Valid(draft)) ==> load == Ok::<
            Option<EditorRecoveryDraft>,
            String,
        >(Some(*draft)),
        load matches Ok(Some(draft)) ==> (read matches Ok(Some(file)) ==> version_agrees(file))
            ==> look == Ok::<EditorDraftInspection, String>(
            EditorDraftInspection::Valid(Box::new(draft)),
        ),
        (load is Err && read is Ok && other_version(read) is None) ==> (look matches Ok(found)
            && found is Malformed),
{
}

// ---------------------------------------------------------------------------
// Telling about a draft
// ---------------------------------------------------------------------------

pub open spec fn target_text(target: EditorTarget) -> Seq<char> {
    match target {
        EditorTarget::Block { block_index } => "Block { block_index: "@ + text::decimal(
            block_index as nat,
        ) + " }"@,
        EditorTarget::ListItem { block_index, item_index } => "ListItem { block_index: "@
            + text::decimal(block_index as nat) + ", item_index: "@ + text::decimal(
            item_index as nat,
        ) + " }"@,
    }
}

fn describe_target(target: EditorTarget) -> (r: String)
    ensures
        r@ == target_text(target),
{
    match target {
        EditorTarget::Block { block_index } => {
            let block = decimal_text(block_index as u64);
            cat3("Block { block_index: ", block.as_str(), " }")
        },
        EditorTarget::ListItem { block_index, item_index } => {
            let block = decimal_text(block_index as u64);
            let item = decimal_text(item_index as u64);
            let front = cat3("ListItem { block_index: ", block.as_str(), ", item_index: ");
            cat3(front.as_str(), item.as_str(), " }")
        },
    }
}

pub open spec fn cursor_text(cursor: Option<EditorCursorRecovery>) -> Seq<char> {
    match cursor {
        None => "default"@,
        Some(c) => (match c.field {
            EditorRecoveryField::Title => "Title"@,
            EditorRecoveryField::Body => "Body"@,
        }) + " "@ + target_text(c.target) + " char "@ + text::decimal(c.offset as nat),
    }
}

fn describe_cursor(cursor: Option<EditorCursorRecovery>) -> (r: String)
    ensures
        r@ == cursor_text(cursor),
{
    match cursor {
        None => owned("default"),
        Some(c) => {
            let field = match c.field {
                EditorRecoveryField::Title => "Title",
                EditorRecoveryField::Body => "Body",
            };
            let target = describe_target(c.target);
            let offset = decimal_text(c.offset as u64);
            let front = cat3(field, " ", target.as_str());
            cat3(front.as_str(), " char ", offset.as_str())
        },
    }
}

/// The lines that tell about a draft that can be used.
pub open spec fn draft_lines(path: Seq<char>, draft: Draft) -> Seq<Seq<char>> {
    let common = seq![
        "Draft path: "@ + path,
        "Status: valid"@,
        "Version: "@ + text::decimal(draft.version as nat),
        "Kind: "@ + (match draft.kind {
            EditorRecoveryKind::Create => "create"@,
            EditorRecoveryKind::Edit => "edit"@,
        }),
        "Account ID: "@ + draft.account_id,
        "Folder ID: "@ + draft.folder_id,
        "Title: "@ + draft.title,
        "Dirty content: yes"@,
        "Cursor: "@ + cursor_text(draft.cursor),
        "Viewport: "@ + (match draft.viewport {
            Some(n) => text::decimal(n as nat),
            None => "default"@,
        }),
    ];
    match (draft.kind, draft.note_id) {
        (EditorRecoveryKind::Edit, Some(note_id)) => common + seq![
            "Note ID: "@ + note_id,
            "Baseline: "@ + (match draft.expected_modification_date {
                Some(date) => date,
                None => "none"@,
            }),
        ],
        _ => common,
    }
}

fn describe_draft(path: &str, draft: &EditorRecoveryDraft) -> (r: String)
    ensures
        r@ == text::join(draft_lines(path@, draft@), "\n"@),
{
    let mut lines: Vec<String> = Vec::new();
    lines.push(cat("Draft path: ", path));
    lines.push(owned("Status: valid"));
    let version = decimal_text(draft.version as u64);
    lines.push(cat("Version: ", version.as_str()));
    let kind = match draft.kind {
        EditorRecoveryKind::Create => "create",
        EditorRecoveryKind::Edit => "edit",
    };
    lines.push(cat("Kind: ", kind));
    lines.push(cat("Account ID: ", draft.account_id.as_str()));
    lines.push(cat("Folder ID: ", draft.folder_id.as_str()));
    lines.push(cat("Title: ", draft.title.as_str()));
    lines.push(owned("Dirty content: yes"));
    let cursor = describe_cursor(draft.cursor);
    lines.push(cat("Cursor: ", cursor.as_str()));
    let viewport = match draft.viewport {
        Some(n) => decimal_text(n as u64),
        None => owned("default"),
    };
    lines.push(cat("Viewport: ", viewport.as_str()));
    if let EditorRecoveryKind::Edit = draft.kind {
        if let Some(note_id) = &draft.note_id {
            lines.push(cat("Note ID: ", note_id.as_str()));
            let date = match &draft.expected_modification_date {
                Some(date) => date.as_str(),
                None => "none",
            };
            lines.push(cat("Baseline: ", date));
        }
    }
    assert(text::texts(lines@) =~= draft_lines(path@, draft@));
    joined(&lines, "\n")
}

/// What is told about a finding.
pub open spec fn inspection_text(path: Seq<char>, found: EditorDraftInspection) -> Seq<char> {
    match found {
        EditorDraftInspection::Missing => "Draft: none"@,
        EditorDraftInspection::Malformed { error } => malformed_text(path, error@),
        EditorDraftInspection::UnsupportedVersion { version } => unsupported_text(path, version),
        EditorDraftInspection::Valid(draft) => text::join(draft_lines(path, draft@), "\n"@),
    }
}

pub open spec fn malformed_text(path: Seq<char>, error: Seq<char>) -> Seq<char> {
    "Draft path: "@ + path + "\nStatus: malformed\nError: "@ + error
}

pub open spec fn unsupported_text(path: Seq<char>, version: u64) -> Seq<char> {
    "Draft path: "@ + path + "\nStatus: unsupported version\nVersion: "@ + text::decimal(
        version as nat,
    )
}

/// What is told about a file that is there, from its version number and its draft.
pub open spec fn file_text(
    path: Seq<char>,
    version: Result<Option<u64>, Seq<char>>,
    parsed: Result<EditorRecoveryDraft, String>,
) -> Seq<char> {
    match version {
        Err(e) => malformed_text(path, "could not parse editor recovery draft: "@ + e),
        Ok(Some(n)) if n != 1 => unsupported_text(path, n),
        _ => match draft_of(parsed) {
            Ok(draft) => text::join(draft_lines(path, draft@), "\n"@),
            Err(e) => malformed_text(path, e),
        },
    }
}

/// What is told about a finding.
pub fn describe_inspection(path: &str, found: &EditorDraftInspection) -> (r: String)
    ensures
        r@ == inspection_text(path@, *found),
{
    match found {
        EditorDraftInspection::Missing => owned("Draft: none"),
        EditorDraftInspection::Malformed { error } => {
            let front = cat3("Draft path: ", path, "\nStatus: malformed\nError: ");
            cat(front.as_str(), error.as_str())
        },
        EditorDraftInspection::UnsupportedVersion { version } => {
            let front = cat3("Draft path: ", path, "\nStatus: unsupported version\nVersion: ");
            let number = decimal_text(*version);
            cat(front.as_str(), number.as_str())
        },
        EditorDraftInspection::Valid(draft) => describe_draft(path, draft),
    }
}

/// What is told about the draft file, given what was read of it.
pub fn format_editor_draft_info(path: &str, read: Result<Option<DraftFile>, String>) -> (r: Result<
    String,
    String,
>)
    ensures
        match read {
            Ok(None) => r is Ok && r->Ok_0@ == "Draft: none"@,
            Ok(Some(file)) => r is Ok && r->Ok_0@ == file_text(
                path@,
                json_number(file.contents@, "version"@),
                file.parsed,
            ),
            Err(e) => r is Err && r->Err_0@ == "could not read editor recovery draft: "@ + e@,
        },
{
    match inspect_editor_draft(read) {
        Ok(found) => Ok(describe_inspection(path, &found)),
        Err(e) => Err(e),
    }
}

} // verus!
