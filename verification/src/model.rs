//! Accounts, folders, notes and attachments, as the notes service reports them.


use vstd::prelude::*;

use crate::document::RichDocument;
use crate::text::owned;

verus! {

/// What tells one account from another.
#[derive(Debug, PartialEq, Eq, Hash)]
pub struct AccountId {
    pub text: String,
}

impl View for AccountId {
    type V = Seq<char>;

    open spec fn view(&self) -> Seq<char> {
        self.text@
    }
}

impl Clone for AccountId {
    fn clone(&self) -> (r: Self)
        ensures
            r == *self,
    {
        AccountId { text: self.text.clone() }
    }
}

impl AccountId {
    pub fn new(text: &str) -> (r: Self)
        ensures
            r@ == text@,
    {
        AccountId { text: owned(text) }
    }

    pub fn as_str(&self) -> (r: &str)
        ensures
            r@ == self@,
    {
        self.text.as_str()
    }

    pub fn same(&self, other: &Self) -> (r: bool)
        ensures
            r == (self@ == other@),
    {
        self.text == other.text
    }
}

/// What tells one folder from another.
#[derive(Debug, PartialEq, Eq, Hash)]
pub struct FolderId {
    pub text: String,
}

impl View for FolderId {
    type V = Seq<char>;

    open spec fn view(&self) -> Seq<char> {
        self.text@
    }
}

impl Clone for FolderId {
    fn clone(&self) -> (r: Self)
        ensures
            r == *self,
    {
        FolderId { text: self.text.clone() }
    }
}

impl FolderId {
    pub fn new(text: &str) -> (r: Self)
        ensures
            r@ == text@,
    {
        FolderId { text: owned(text) }
    }

    pub fn as_str(&self) -> (r: &str)
        ensures
            r@ == self@,
    {
        self.text.as_str()
    }

    pub fn same(&self, other: &Self) -> (r: bool)
        ensures
            r == (self@ == other@),
    {
        self.text == other.text
    }
}

/// What tells one note from another.
#[derive(Debug, PartialEq, Eq, Hash)]
pub struct NoteId {
    pub text: String,
}

impl View for NoteId {
    type V = Seq<char>;

    open spec fn view(&self) -> Seq<char> {
        self.text@
    }
}

impl Clone for NoteId {
    fn clone(&self) -> (r: Self)
        ensures
            r == *self,
    {
        NoteId { text: self.text.clone() }
    }
}

impl NoteId {
    pub fn new(text: &str) -> (r: Self)
        ensures
            r@ == text@,
    {
        NoteId { text: owned(text) }
    }

    pub fn as_str(&self) -> (r: &str)
        ensures
            r@ == self@,
    {
        self.text.as_str()
    }

    pub fn same(&self, other: &Self) -> (r: bool)
        ensures
            r == (self@ == other@),
    {
        self.text == other.text
    }
}

/// What tells one attachment from another.
#[derive(Debug, PartialEq, Eq, Hash)]
pub struct AttachmentId {
    pub text: String,
}

impl View for AttachmentId {
    type V = Seq<char>;

    open spec fn view(&self) -> Seq<char> {
        self.text@
    }
}

impl Clone for AttachmentId {
    fn clone(&self) -> (r: Self)
        ensures
            r == *self,
    {
        AttachmentId { text: self.text.clone() }
    }
}

impl AttachmentId {
    pub fn new(text: &str) -> (r: Self)
        ensures
            r@ == text@,
    {
        AttachmentId { text: owned(text) }
    }

    pub fn as_str(&self) -> (r: &str)
        ensures
            r@ == self@,
    {
        self.text.as_str()
    }

    pub fn same(&self, other: &Self) -> (r: bool)
        ensures
            r == (self@ == other@),
    {
        self.text == other.text
    }
}

/// A date as the notes service words it.
#[derive(Debug, PartialEq, Eq, Hash)]
pub struct NoteDate {
    pub text: String,
}

impl View for NoteDate {
    type V = Seq<char>;

    open spec fn view(&self) -> Seq<char> {
        self.text@
    }
}

impl Clone for NoteDate {
    fn clone(&self) -> (r: Self)
        ensures
            r == *self,
    {
        NoteDate { text: self.text.clone() }
    }
}

impl NoteDate {
    pub fn new(text: &str) -> (r: Self)
        ensures
            r@ == text@,
    {
        NoteDate { text: owned(text) }
    }

    pub fn as_str(&self) -> (r: &str)
        ensures
            r@ == self@,
    {
        self.text.as_str()
    }

    pub fn same(&self, other: &Self) -> (r: bool)
        ensures
            r == (self@ == other@),
    {
        self.text == other.text
    }
}

/// An account of the notes service.
#[derive(Debug, PartialEq, Eq)]
pub struct Account {
    pub id: AccountId,
    pub name: String,
    pub is_default: bool,
    pub is_upgraded: bool,
    pub default_folder_id: Option<FolderId>,
}

impl Clone for Account {
    fn clone(&self) -> (r: Self)
        ensures
            r == *self,
    {
        Account {
            id: self.id.clone(),
            name: self.name.clone(),
            is_default: self.is_default,
            is_upgraded: self.is_upgraded,
            default_folder_id: match &self.default_folder_id {
                Some(id) => Some(id.clone()),
                None => None,
            },
        }
    }
}

/// What a folder lies in.
#[derive(Debug, PartialEq, Eq)]
pub enum FolderParent {
    Account { account_id: AccountId },
    Folder { folder_id: FolderId },
}

impl Clone for FolderParent {
    fn clone(&self) -> (r: Self)
        ensures
            r == *self,
    {
        match self {
            FolderParent::Account { account_id } => FolderParent::Account {
                account_id: account_id.clone(),
            },
            FolderParent::Folder { folder_id } => FolderParent::Folder {
                folder_id: folder_id.clone(),
            },
        }
    }
}

/// Whether two parents are the same account or the same folder.
pub open spec fn parent_is(a: FolderParent, b: FolderParent) -> bool {
    match (a, b) {
        (
            FolderParent::Account { account_id: x },
            FolderParent::Account { account_id: y },
        ) => x@ == y@,
        (FolderParent::Folder { folder_id: x }, FolderParent::Folder { folder_id: y }) => x@ == y@,
        _ => false,
    }
}

impl FolderParent {
    pub fn same(&self, other: &Self) -> (r: bool)
        ensures
            r == parent_is(*self, *other),
    {
        match (self, other) {
            (
                FolderParent::Account { account_id: x },
                FolderParent::Account { account_id: y },
            ) => x.same(y),
            (
                FolderParent::Folder { folder_id: x },
                FolderParent::Folder { folder_id: y },
            ) => x.same(y),
            _ => false,
        }
    }
}

/// A folder of an account.
#[derive(Debug, PartialEq, Eq)]
pub struct Folder {
    pub id: FolderId,
    pub account_id: AccountId,
    pub name: String,
    pub parent: FolderParent,
    pub shared: bool,
}

impl Clone for Folder {
    fn clone(&self) -> (r: Self)
        ensures
            r == *self,
    {
        Folder {
            id: self.id.clone(),
            account_id: self.account_id.clone(),
            name: self.name.clone(),
            parent: self.parent.clone(),
            shared: self.shared,
        }
    }
}

/// What a list of notes shows of a note.
#[derive(Debug, PartialEq, Eq)]
pub struct NoteSummary {
    pub id: NoteId,
    pub folder_id: FolderId,
    pub name: String,
    pub creation_date: NoteDate,
    pub modification_date: NoteDate,
    pub password_protected: bool,
    pub shared: bool,
    pub attachment_count: usize,
}

impl Clone for NoteSummary {
    fn clone(&self) -> (r: Self)
        ensures
            r == *self,
    {
        NoteSummary {
            id: self.id.clone(),
            folder_id: self.folder_id.clone(),
            name: self.name.clone(),
            creation_date: self.creation_date.clone(),
            modification_date: self.modification_date.clone(),
            password_protected: self.password_protected,
            shared: self.shared,
            attachment_count: self.attachment_count,
        }
    }
}

/// Why an attachment cannot be reached, as the notes service words it.
#[derive(Debug, PartialEq, Eq)]
pub struct AttachmentUnavailableReason {
    pub text: String,
}

impl Clone for AttachmentUnavailableReason {
    fn clone(&self) -> (r: Self)
        ensures
            r == *self,
    {
        AttachmentUnavailableReason { text: self.text.clone() }
    }
}

/// Whether an attachment can be reached in one way.
#[derive(Debug, PartialEq, Eq)]
pub enum AttachmentAccessStatus {
    Available,
    Unavailable(AttachmentUnavailableReason),
}

impl Clone for AttachmentAccessStatus {
    fn clone(&self) -> (r: Self)
        ensures
            r == *self,
    {
        match self {
            AttachmentAccessStatus::Available => AttachmentAccessStatus::Available,
            AttachmentAccessStatus::Unavailable(reason) => AttachmentAccessStatus::Unavailable(
                reason.clone(),
            ),
        }
    }
}

/// An attachment of a note. The labels are the words of the notes service for its kind
/// and for the two ways to reach it.
#[derive(Debug, PartialEq, Eq)]
pub struct AttachmentSummary {
    pub id: AttachmentId,
    pub note_id: NoteId,
    pub display_name: String,
    pub content_identifier: Option<String>,
    pub source_url: Option<String>,
    pub kind_label: String,
    pub preview_status: AttachmentAccessStatus,
    pub preview_label: String,
    pub export_status: AttachmentAccessStatus,
    pub export_label: String,
}

/// A copy of an optional text.
pub fn clone_text(text: &Option<String>) -> (r: Option<String>)
    ensures
        r == *text,
{
    match text {
        Some(s) => Some(s.clone()),
        None => None,
    }
}

impl Clone for AttachmentSummary {
    fn clone(&self) -> (r: Self)
        ensures
            r == *self,
    {
        AttachmentSummary {
            id: self.id.clone(),
            note_id: self.note_id.clone(),
            display_name: self.display_name.clone(),
            content_identifier: clone_text(&self.content_identifier),
            source_url: clone_text(&self.source_url),
            kind_label: self.kind_label.clone(),
            preview_status: self.preview_status.clone(),
            preview_label: self.preview_label.clone(),
            export_status: self.export_status.clone(),
            export_label: self.export_label.clone(),
        }
    }
}

/// Whether a note can be edited without losing any of it.
#[derive(Debug, PartialEq, Eq)]
pub enum Editability {
    PlainText,
    RichTextSupported,
    ReadOnlyUnsupported { reasons: Vec<String> },
}

/// A whole note: its summary, its body as the service keeps it, what that body reads as
/// (or why it cannot be read), and whether it can be edited.
#[derive(Debug, PartialEq, Eq)]
pub struct Note {
    pub summary: NoteSummary,
    pub account_id: AccountId,
    pub body_html: String,
    pub plaintext: String,
    pub body: Result<RichDocument, String>,
    pub editability: Editability,
    pub attachments: Vec<AttachmentSummary>,
}

/// Which notes are asked for.
#[derive(Clone, Debug, PartialEq, Eq)]
pub struct NotesQuery {
    pub account_id: Option<AccountId>,
    pub folder_id: Option<FolderId>,
}

/// The notes that a query found.
#[derive(Clone, Debug, PartialEq, Eq)]
pub struct NotesPage {
    pub items: Vec<NoteSummary>,
    pub total: usize,
}

/// What the local cache holds of accounts, folders and notes.
#[derive(Clone, Debug, PartialEq, Eq)]
pub struct CachedState {
    pub accounts: Vec<Account>,
    pub folders: Vec<Folder>,
    pub notes: Vec<NoteSummary>,
}

/// A failure of the notes service, in its words.
#[derive(Clone, Debug, PartialEq, Eq)]
pub struct NotesError {
    pub cancelled: bool,
    pub message: String,
}

/// A folder that was deleted.
#[derive(Clone, Debug, PartialEq, Eq)]
pub struct DeletedFolder {
    pub account_id: AccountId,
    pub folder_id: FolderId,
}

/// A part of rich text that the notes service may not be able to keep.
#[derive(Clone, Copy, Debug, PartialEq, Eq, Structural)]
pub enum RichFeature {
    Bold,
    Italic,
    Underline,
    Strikethrough,
    Hyperlink,
    Heading1,
    Heading2,
    Heading3,
    BulletList,
    NumberedList,
    Quote,
    Code,
    MixedAdjacentListTypes,
}

/// What the notes service can do.
#[derive(Clone, Copy, Debug, PartialEq, Eq, Structural)]
pub struct BackendCapabilities {
    pub delete: bool,
    pub bold: bool,
    pub italic: bool,
    pub underline: bool,
    pub strikethrough: bool,
    pub hyperlink: bool,
    pub heading1: bool,
    pub heading2: bool,
    pub heading3: bool,
    pub bullet_list: bool,
    pub numbered_list: bool,
    pub quote: bool,
    pub code: bool,
    pub mixed_adjacent_list_types: bool,
}

/// Whether the notes service keeps a part of rich text.
pub open spec fn supports(c: BackendCapabilities, feature: RichFeature) -> bool {
    match feature {
        RichFeature::Bold => c.bold,
        RichFeature::Italic => c.italic,
        RichFeature::Underline => c.underline,
        RichFeature::Strikethrough => c.strikethrough,
        RichFeature::Hyperlink => c.hyperlink,
        RichFeature::Heading1 => c.heading1,
        RichFeature::Heading2 => c.heading2,
        RichFeature::Heading3 => c.heading3,
        RichFeature::BulletList => c.bullet_list,
        RichFeature::NumberedList => c.numbered_list,
        RichFeature::Quote => c.quote,
        RichFeature::Code => c.code,
        RichFeature::MixedAdjacentListTypes => c.mixed_adjacent_list_types,
    }
}

impl BackendCapabilities {
    pub fn all_supported() -> (r: Self)
        ensures
            r.delete,
            forall|f: RichFeature| supports(r, f),
    {
        BackendCapabilities {
            delete: true,
            bold: true,
            italic: true,
            underline: true,
            strikethrough: true,
            hyperlink: true,
            heading1: true,
            heading2: true,
            heading3: true,
            bullet_list: true,
            numbered_list: true,
            quote: true,
            code: true,
            mixed_adjacent_list_types: true,
        }
    }

    pub fn supports(&self, feature: RichFeature) -> (r: bool)
        ensures
            r == supports(*self, feature),
    {
        match feature {
            RichFeature::Bold => self.bold,
            RichFeature::Italic => self.italic,
            RichFeature::Underline => self.underline,
            RichFeature::Strikethrough => self.strikethrough,
            RichFeature::Hyperlink => self.hyperlink,
            RichFeature::Heading1 => self.heading1,
            RichFeature::Heading2 => self.heading2,
            RichFeature::Heading3 => self.heading3,
            RichFeature::BulletList => self.bullet_list,
            RichFeature::NumberedList => self.numbered_list,
            RichFeature::Quote => self.quote,
            RichFeature::Code => self.code,
            RichFeature::MixedAdjacentListTypes => self.mixed_adjacent_list_types,
        }
    }
}

// ---------------------------------------------------------------------------
// Lists of these
// ---------------------------------------------------------------------------

pub fn clone_accounts(v: &Vec<Account>) -> (r: Vec<Account>)
    ensures
        r@ == v@,
{
    let mut out: Vec<Account> = Vec::new();
    let mut i: usize = 0;
    while i < v.len()
        invariant
            i <= v@.len(),
            out@ == v@.take(i as int),
        decreases v@.len() - i,
    {
        out.push(v[i].clone());
        assert(out@ =~= v@.take(i + 1));
        i = i + 1;
    }
    assert(out@ =~= v@);
    out
}

pub fn clone_folders(v: &Vec<Folder>) -> (r: Vec<Folder>)
    ensures
        r@ == v@,
{
    let mut out: Vec<Folder> = Vec::new();
    let mut i: usize = 0;
    while i < v.len()
        invariant
            i <= v@.len(),
            out@ == v@.take(i as int),
        decreases v@.len() - i,
    {
        out.push(v[i].clone());
        assert(out@ =~= v@.take(i + 1));
        i = i + 1;
    }
    assert(out@ =~= v@);
    out
}

pub fn clone_summaries(v: &Vec<NoteSummary>) -> (r: Vec<NoteSummary>)
    ensures
        r@ == v@,
{
    let mut out: Vec<NoteSummary> = Vec::new();
    let mut i: usize = 0;
    while i < v.len()
        invariant
            i <= v@.len(),
            out@ == v@.take(i as int),
        decreases v@.len() - i,
    {
        out.push(v[i].clone());
        assert(out@ =~= v@.take(i + 1));
        i = i + 1;
    }
    assert(out@ =~= v@);
    out
}

pub fn clone_note_ids(v: &Vec<NoteId>) -> (r: Vec<NoteId>)
    ensures
        r@ == v@,
{
    let mut out: Vec<NoteId> = Vec::new();
    let mut i: usize = 0;
    while i < v.len()
        invariant
            i <= v@.len(),
            out@ == v@.take(i as int),
        decreases v@.len() - i,
    {
        out.push(v[i].clone());
        assert(out@ =~= v@.take(i + 1));
        i = i + 1;
    }
    assert(out@ =~= v@);
    out
}

/// The position of the first with an id, or the length where none has it.
pub open spec fn account_at(v: Seq<Account>, id: Seq<char>) -> nat
    decreases v.len(),
{
    if v.len() == 0 {
        0
    } else if v[0].id@ == id {
        0
    } else {
        1 + account_at(v.drop_first(), id)
    }
}

pub proof fn lemma_account_at(v: Seq<Account>, id: Seq<char>)
    ensures
        account_at(v, id) <= v.len(),
        account_at(v, id) < v.len() ==> v[account_at(v, id) as int].id@ == id,
        forall|i: int| 0 <= i < account_at(v, id) ==> (#[trigger] v[i]).id@ != id,
    decreases v.len(),
{
    if v.len() > 0 && v[0].id@ != id {
        lemma_account_at(v.drop_first(), id);
        assert forall|i: int| 0 <= i < account_at(v, id) implies (#[trigger] v[i]).id@ != id by {
            if i > 0 {
                assert(v.drop_first()[i - 1] == v[i]);
            }
        }
    }
}

/// The position of the first with an id.
pub fn find_account(v: &Vec<Account>, id: &AccountId) -> (r: Option<usize>)
    ensures
        match r {
            Some(i) => i < v@.len() && i == account_at(v@, id@),
            None => account_at(v@, id@) == v@.len(),
        },
{
    let mut i: usize = 0;
    assert(v@.skip(0) =~= v@);
    while i < v.len()
        invariant
            i <= v@.len(),
            account_at(v@, id@) == i + account_at(v@.skip(i as int), id@),
        decreases v@.len() - i,
    {
        assert(v@.skip(i as int).drop_first() =~= v@.skip(i + 1));
        if v[i].id.same(id) {
            return Some(i);
        }
        i = i + 1;
    }
    None
}

/// The position of the first with an id, or the length where none has it.
pub open spec fn folder_at(v: Seq<Folder>, id: Seq<char>) -> nat
    decreases v.len(),
{
    if v.len() == 0 {
        0
    } else if v[0].id@ == id {
        0
    } else {
        1 + folder_at(v.drop_first(), id)
    }
}

pub proof fn lemma_folder_at(v: Seq<Folder>, id: Seq<char>)
    ensures
        folder_at(v, id) <= v.len(),
        folder_at(v, id) < v.len() ==> v[folder_at(v, id) as int].id@ == id,
        forall|i: int| 0 <= i < folder_at(v, id) ==> (#[trigger] v[i]).id@ != id,
    decreases v.len(),
{
    if v.len() > 0 && v[0].id@ != id {
        lemma_folder_at(v.drop_first(), id);
        assert forall|i: int| 0 <= i < folder_at(v, id) implies (#[trigger] v[i]).id@ != id by {
            if i > 0 {
                assert(v.drop_first()[i - 1] == v[i]);
            }
        }
    }
}

/// The position of the first with an id.
pub fn find_folder(v: &Vec<Folder>, id: &FolderId) -> (r: Option<usize>)
    ensures
        match r {
            Some(i) => i < v@.len() && i == folder_at(v@, id@),
            None => folder_at(v@, id@) == v@.len(),
        },
{
    let mut i: usize = 0;
    assert(v@.skip(0) =~= v@);
    while i < v.len()
        invariant
            i <= v@.len(),
            folder_at(v@, id@) == i + folder_at(v@.skip(i as int), id@),
        decreases v@.len() - i,
    {
        assert(v@.skip(i as int).drop_first() =~= v@.skip(i + 1));
        if v[i].id.same(id) {
            return Some(i);
        }
        i = i + 1;
    }
    None
}

/// The position of the first with an id, or the length where none has it.
pub open spec fn summary_at(v: Seq<NoteSummary>, id: Seq<char>) -> nat
    decreases v.len(),
{
    if v.len() == 0 {
        0
    } else if v[0].id@ == id {
        0
    } else {
        1 + summary_at(v.drop_first(), id)
    }
}

pub proof fn lemma_summary_at(v: Seq<NoteSummary>, id: Seq<char>)
    ensures
        summary_at(v, id) <= v.len(),
        summary_at(v, id) < v.len() ==> v[summary_at(v, id) as int].id@ == id,
        forall|i: int| 0 <= i < summary_at(v, id) ==> (#[trigger] v[i]).id@ != id,
    decreases v.len(),
{
    if v.len() > 0 && v[0].id@ != id {
        lemma_summary_at(v.drop_first(), id);
        assert forall|i: int| 0 <= i < summary_at(v, id) implies (#[trigger] v[i]).id@ != id by {
            if i > 0 {
                assert(v.drop_first()[i - 1] == v[i]);
            }
        }
    }
}

/// The position of the first with an id.
pub fn find_summary(v: &Vec<NoteSummary>, id: &NoteId) -> (r: Option<usize>)
    ensures
        match r {
            Some(i) => i < v@.len() && i == summary_at(v@, id@),
            None => summary_at(v@, id@) == v@.len(),
        },
{
    let mut i: usize = 0;
    assert(v@.skip(0) =~= v@);
    while i < v.len()
        invariant
            i <= v@.len(),
            summary_at(v@, id@) == i + summary_at(v@.skip(i as int), id@),
        decreases v@.len() - i,
    {
        assert(v@.skip(i as int).drop_first() =~= v@.skip(i + 1));
        if v[i].id.same(id) {
            return Some(i);
        }
        i = i + 1;
    }
    None
}

} // verus!
