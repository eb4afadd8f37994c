//! Made-up notes to try the client with.

use vstd::prelude::*;

use crate::model::{Account, AccountId, AttachmentId, Folder, FolderId, FolderParent, NoteDate, NoteId};
use crate::text::{cat3, chars_of, owned};

verus! {

/// An attachment of a made-up note.
#[derive(Debug)]
pub struct DemoAttachment {
    pub id: AttachmentId,
    pub note_id: NoteId,
    pub display_name: String,
    pub content_identifier: String,
    pub date: NoteDate,
    pub locked: bool,
}

/// A made-up note.
#[derive(Debug)]
pub struct DemoNote {
    pub id: NoteId,
    pub folder_id: FolderId,
    pub account_id: AccountId,
    pub name: String,
    pub date: NoteDate,
    pub body_html: String,
    pub plaintext: String,
    pub attachment_count: usize,
    pub locked: bool,
    pub attachments: Vec<DemoAttachment>,
}

/// Made-up accounts, folders and notes.
#[derive(Debug)]
pub struct DemoBackend {
    pub accounts: Vec<Account>,
    pub folders: Vec<Folder>,
    pub notes: Vec<DemoNote>,
}

/// The model of an attachment.
#[verifier::ext_equal]
pub ghost struct AttachmentModel {
    pub id: Seq<char>,
    pub note_id: Seq<char>,
    pub display_name: Seq<char>,
    pub content_identifier: Seq<char>,
    pub date: Seq<char>,
    pub locked: bool,
}

/// The model of a note.
#[verifier::ext_equal]
pub ghost struct NoteModel {
    pub id: Seq<char>,
    pub folder_id: Seq<char>,
    pub account_id: Seq<char>,
    pub name: Seq<char>,
    pub date: Seq<char>,
    pub body_html: Seq<char>,
    pub plaintext: Seq<char>,
    pub attachment_count: nat,
    pub locked: bool,
    pub attachments: Seq<AttachmentModel>,
}

impl View for DemoAttachment {
    type V = AttachmentModel;

    open spec fn view(&self) -> AttachmentModel {
        AttachmentModel {
            id: self.id@,
            note_id: self.note_id@,
            display_name: self.display_name@,
            content_identifier: self.content_identifier@,
            date: self.date@,
            locked: self.locked,
        }
    }
}

impl View for DemoNote {
    type V = NoteModel;

    open spec fn view(&self) -> NoteModel {
        NoteModel {
            id: self.id@,
            folder_id: self.folder_id@,
            account_id: self.account_id@,
            name: self.name@,
            date: self.date@,
            body_html: self.body_html@,
            plaintext: self.plaintext@,
            attachment_count: self.attachment_count as nat,
            locked: self.locked,
            attachments: Seq::new(self.attachments@.len(), |i: int| self.attachments@[i]@),
        }
    }
}

/// A text with spaces in place of angle brackets.
pub open spec fn without_brackets(s: Seq<char>) -> Seq<char> {
    Seq::new(
        s.len(),
        |i: int|
            if s[i] == '<' || s[i] == '>' {
                ' '
            } else {
                s[i]
            },
    )
}

fn remove_brackets(s: &str) -> (r: String)
    ensures
        r@ == without_brackets(s@),
{
    let cs = chars_of(s);
    let mut out = String::new();
    let mut i: usize = 0;
    while i < cs.len()
        invariant
            cs@ == s@,
            i <= cs@.len(),
            out@ == without_brackets(s@).take(i as int),
        decreases cs@.len() - i,
    {
        let c = cs[i];
        if c == '<' || c == '>' {
            out.push(' ');
        } else {
            out.push(c);
        }
        assert(out@ =~= without_brackets(s@).take(i + 1));
        i = i + 1;
    }
    assert(without_brackets(s@).take(i as int) =~= without_brackets(s@));
    out
}

#[verifier::opaque]
pub open spec fn plain_note(
    id: Seq<char>,
    folder_id: Seq<char>,
    name: Seq<char>,
    plaintext: Seq<char>,
) -> NoteModel {
    NoteModel {
        id,
        folder_id,
        account_id: "demo-account"@,
        name,
        date: "Synthetic demo date"@,
        body_html: "<div>"@ + plaintext + "</div>"@,
        plaintext,
        attachment_count: 0,
        locked: false,
        attachments: seq![],
    }
}

#[verifier::opaque]
pub open spec fn html_note(
    id: Seq<char>,
    name: Seq<char>,
    body_html: Seq<char>,
    attachment_count: nat,
) -> NoteModel {
    NoteModel {
        body_html,
        plaintext: without_brackets(body_html),
        attachment_count,
        ..plain_note(id, "demo-notes"@, name, ""@)
    }
}

pub open spec fn attachment(
    id: Seq<char>,
    note_id: Seq<char>,
    display_name: Seq<char>,
    locked: bool,
) -> AttachmentModel {
    AttachmentModel {
        id,
        note_id,
        display_name,
        content_identifier: "cid:"@ + id + "@demo.invalid"@,
        date: "Synthetic attachment date"@,
        locked,
    }
}

/// The note with attachments of three kinds.
#[verifier::opaque]
pub open spec fn attachment_note() -> NoteModel {
    NoteModel {
        attachments: seq![
            attachment("demo-image"@, "demo-attachment"@, "Photo.png"@, false),
            attachment("demo-pdf"@, "demo-attachment"@, "Manual.pdf"@, false),
            attachment("demo-unknown"@, "demo-attachment"@, "Opaque payload"@, false),
        ],
        ..html_note(
            "demo-attachment"@,
            "Attachment example"@,
            "<div>Attachment preview is read-only</div>"@,
            3,
        )
    }
}

/// The locked note, whose attachment cannot be reached.
#[verifier::opaque]
pub open spec fn locked_note() -> NoteModel {
    NoteModel {
        locked: true,
        attachments: seq![
            attachment("demo-locked-file"@, "demo-locked-attachment"@, "Locked.pdf"@, true),
        ],
        ..html_note("demo-locked-attachment"@, "Locked attachment example"@, ""@, 1)
    }
}

/// The made-up notes that are plain text.
pub open spec fn plain_demo_notes() -> Seq<NoteModel> {
    seq![
        plain_note(
            "demo-note-1"@,
            "demo-notes"@,
            "Welcome to Apple Notes TUI"@,
            "This is synthetic demo data.\n\nUse j/k to select notes."@,
        ),
        plain_note("demo-search-alpha"@, "demo-notes"@, "Alpha Project"@, ""@),
        plain_note("demo-search-alpha-lower"@, "demo-notes"@, "alpha lowercase"@, ""@),
        plain_note("demo-search-beta"@, "demo-notes"@, "Beta Project"@, ""@),
        plain_note("demo-search-russian"@, "demo-notes"@, "Русская заметка"@, "Привет Мир"@),
        plain_note("demo-search-german"@, "demo-notes"@, "Grüße aus Köln"@, ""@),
        plain_note("demo-search-emoji"@, "demo-notes"@, "Emoji 🚀 Note"@, ""@),
        plain_note(
            "demo-search-body"@,
            "demo-notes"@,
            "Search Body Example"@,
            "secret-phase-seven-token"@,
        ),
        plain_note(
            "demo-note-2"@,
            "demo-work"@,
            "Project ideas"@,
            "A read-only Phase 2 preview.\n\nNo real Notes data is used in --demo."@,
        ),
        plain_note("demo-note-3"@, "demo-family"@, "Список покупок"@, "Хлеб\nМолоко\nЯблоки"@),
    ]
}

/// The made-up notes that are more than plain text.
pub open spec fn rich_demo_notes() -> Seq<NoteModel> {
    seq![
        html_note("demo-plain"@, "Plain note"@, "<div>Plain text</div>"@, 0),
        html_note(
            "demo-rich"@,
            "Rich formatting"@,
            "<h1>Heading</h1><div><b>Bold</b> <i>italic</i> <u>underlined</u></div>"@,
            0,
        ),
        html_note(
            "demo-bullet"@,
            "Bullet list"@,
            "<ul><li>item one</li><li>item two</li></ul>"@,
            0,
        ),
        html_note(
            "demo-numbered"@,
            "Numbered list"@,
            "<ol><li>item one</li><li>item two</li></ol>"@,
            0,
        ),
        html_note(
            "demo-link"@,
            "Link example"@,
            "<div><a href=\"https://example.com\">example</a></div>"@,
            0,
        ),
        attachment_note(),
        locked_note(),
        html_note(
            "demo-table"@,
            "Unsupported table"@,
            "<table><tr><td>unsafe</td></tr></table>"@,
            0,
        ),
    ]
}

/// The made-up notes.
pub open spec fn demo_notes() -> Seq<NoteModel> {
    plain_demo_notes() + rich_demo_notes()
}

pub open spec fn notes_view(notes: Seq<DemoNote>) -> Seq<NoteModel> {
    Seq::new(notes.len(), |i: int| notes[i]@)
}

/// Whether an account is the made-up one.
pub open spec fn is_demo_account(a: Account) -> bool {
    &&& a.id@ == "demo-account"@
    &&& a.name@ == "iCloud"@
    &&& a.is_default
    &&& a.is_upgraded
    &&& a.default_folder_id matches Some(id) && id@ == "demo-notes"@
}

/// Whether a folder is one of the account with an id and a name.
pub open spec fn is_demo_folder(f: Folder, id: Seq<char>, name: Seq<char>) -> bool {
    &&& f.id@ == id
    &&& f.account_id@ == "demo-account"@
    &&& f.name@ == name
    &&& f.parent matches FolderParent::Account { account_id } && account_id@ == "demo-account"@
    &&& !f.shared
}

fn demo_note(id: &str, folder_id: &str, name: &str, plaintext: &str) -> (r: DemoNote)
    ensures
        r@ == plain_note(id@, folder_id@, name@, plaintext@),
{
    reveal(plain_note);
    let r = DemoNote {
        id: NoteId::new(id),
        folder_id: FolderId::new(folder_id),
        account_id: AccountId::new("demo-account"),
        name: owned(name),
        date: NoteDate::new("Synthetic demo date"),
        body_html: cat3("<div>", plaintext, "</div>"),
        plaintext: owned(plaintext),
        attachment_count: 0,
        locked: false,
        attachments: Vec::new(),
    };
    assert(r@.attachments =~= Seq::<AttachmentModel>::empty());
    r
}

fn demo_html_note(id: &str, name: &str, body_html: &str, attachment_count: usize) -> (r: DemoNote)
    ensures
        r@ == html_note(id@, name@, body_html@, attachment_count as nat),
{
    reveal(html_note);
    reveal(plain_note);
    let mut note = demo_note(id, "demo-notes", name, "");
    note.attachment_count = attachment_count;
    note.body_html = owned(body_html);
    note.plaintext = remove_brackets(body_html);
    note
}

fn demo_attachment(id: &str, note_id: &str, display_name: &str, locked: bool) -> (r: DemoAttachment)
    ensures
        r@ == attachment(id@, note_id@, display_name@, locked),
{
    DemoAttachment {
        id: AttachmentId::new(id),
        note_id: NoteId::new(note_id),
        display_name: owned(display_name),
        content_identifier: cat3("cid:", id, "@demo.invalid"),
        date: NoteDate::new("Synthetic attachment date"),
        locked,
    }
}

fn demo_attachment_note() -> (r: DemoNote)
    ensures
        r@ == attachment_note(),
{
    reveal(attachment_note);
    let mut note = demo_html_note(
        "demo-attachment",
        "Attachment example",
        "<div>Attachment preview is read-only</div>",
        3,
    );
    assert(note@.attachments.len() == 0) by {
        reveal(html_note);
        reveal(plain_note);
    }
    note.attachments.push(demo_attachment("demo-image", "demo-attachment", "Photo.png", false));
    note.attachments.push(demo_attachment("demo-pdf", "demo-attachment", "Manual.pdf", false));
    note.attachments.push(
        demo_attachment("demo-unknown", "demo-attachment", "Opaque payload", false),
    );
    assert(note@.attachments =~= attachment_note().attachments);
    note
}

fn demo_locked_note() -> (r: DemoNote)
    ensures
        r@ == locked_note(),
{
    reveal(locked_note);
    let mut note = demo_html_note(
        "demo-locked-attachment",
        "Locked attachment example",
        "",
        1,
    );
    assert(note@.attachments.len() == 0) by {
        reveal(html_note);
        reveal(plain_note);
    }
    note.locked = true;
    note.attachments.push(
        demo_attachment("demo-locked-file", "demo-locked-attachment", "Locked.pdf", true),
    );
    assert(note@.attachments =~= locked_note().attachments);
    note
}

fn demo_folder(id: &str, name: &str) -> (r: Folder)
    ensures
        is_demo_folder(r, id@, name@),
{
    Folder {
        id: FolderId::new(id),
        account_id: AccountId::new("demo-account"),
        name: owned(name),
        parent: FolderParent::Account { account_id: AccountId::new("demo-account") },
        shared: false,
    }
}

fn push_note(notes: &mut Vec<DemoNote>, note: DemoNote)
    ensures
        notes_view(final(notes)@) == notes_view(old(notes)@).push(note@),
{
    let ghost before = notes_view(notes@);
    notes.push(note);
    assert(notes_view(notes@) =~= before.push(note@));
}

fn list_plain_notes() -> (r: Vec<DemoNote>)
    ensures
        notes_view(r@) == plain_demo_notes(),
{
    let mut notes: Vec<DemoNote> = Vec::new();
    assert(notes_view(notes@) =~= Seq::<NoteModel>::empty());
    push_note(
        &mut notes,
        demo_note(
            "demo-note-1",
            "demo-notes",
            "Welcome to Apple Notes TUI",
            "This is synthetic demo data.\n\nUse j/k to select notes.",
        ),
    );
    push_note(&mut notes, demo_note("demo-search-alpha", "demo-notes", "Alpha Project", ""));
    push_note(
        &mut notes,
        demo_note("demo-search-alpha-lower", "demo-notes", "alpha lowercase", ""),
    );
    push_note(&mut notes, demo_note("demo-search-beta", "demo-notes", "Beta Project", ""));
    push_note(
        &mut notes,
        demo_note("demo-search-russian", "demo-notes", "Русская заметка", "Привет Мир"),
    );
    push_note(&mut notes, demo_note("demo-search-german", "demo-notes", "Grüße aus Köln", ""));
    push_note(&mut notes, demo_note("demo-search-emoji", "demo-notes", "Emoji 🚀 Note", ""));
    push_note(
        &mut notes,
        demo_note(
            "demo-search-body",
            "demo-notes",
            "Search Body Example",
            "secret-phase-seven-token",
        ),
    );
    push_note(
        &mut notes,
        demo_note(
            "demo-note-2",
            "demo-work",
            "Project ideas",
            "A read-only Phase 2 preview.\n\nNo real Notes data is used in --demo.",
        ),
    );
    push_note(
        &mut notes,
        demo_note("demo-note-3", "demo-family", "Список покупок", "Хлеб\nМолоко\nЯблоки"),
    );
    assert(notes_view(notes@) =~= plain_demo_notes());
    notes
}

fn push_rich_notes(notes: &mut Vec<DemoNote>)
    ensures
        notes_view(final(notes)@) == notes_view(old(notes)@) + rich_demo_notes(),
{
    let ghost before = notes_view(notes@);
    push_note(
        notes,
        demo_html_note("demo-plain", "Plain note", "<div>Plain text</div>", 0),
    );
    push_note(
        notes,
        demo_html_note(
            "demo-rich",
            "Rich formatting",
            "<h1>Heading</h1><div><b>Bold</b> <i>italic</i> <u>underlined</u></div>",
            0,
        ),
    );
    push_note(
        notes,
        demo_html_note(
            "demo-bullet",
            "Bullet list",
            "<ul><li>item one</li><li>item two</li></ul>",
            0,
        ),
    );
    push_note(
        notes,
        demo_html_note(
            "demo-numbered",
            "Numbered list",
            "<ol><li>item one</li><li>item two</li></ol>",
            0,
        ),
    );
    push_note(
        notes,
        demo_html_note(
            "demo-link",
            "Link example",
            "<div><a href=\"https://example.com\">example</a></div>",
            0,
        ),
    );
    push_note(notes, demo_attachment_note());
    push_note(notes, demo_locked_note());
    push_note(
        notes,
        demo_html_note(
            "demo-table",
            "Unsupported table",
            "<table><tr><td>unsafe</td></tr></table>",
            0,
        ),
    );
    assert(notes_view(notes@) =~= before + rich_demo_notes());
}

/// Made-up accounts, folders and notes.
pub fn demo_backend() -> (r: DemoBackend)
    ensures
        r.accounts@.len() == 1,
        is_demo_account(r.accounts@[0]),
        r.folders@.len() == 3,
        is_demo_folder(r.folders@[0], "demo-notes"@, "Notes"@),
        is_demo_folder(r.folders@[1], "demo-work"@, "Work"@),
        is_demo_folder(r.folders@[2], "demo-family"@, "Семья"@),
        notes_view(r.notes@) == demo_notes(),
{
    let account = Account {
        id: AccountId::new("demo-account"),
        name: owned("iCloud"),
        is_default: true,
        is_upgraded: true,
        default_folder_id: Some(FolderId::new("demo-notes")),
    };
    let mut accounts: Vec<Account> = Vec::new();
    accounts.push(account);
    let mut folders: Vec<Folder> = Vec::new();
    folders.push(demo_folder("demo-notes", "Notes"));
    folders.push(demo_folder("demo-work", "Work"));
    folders.push(demo_folder("demo-family", "Семья"));
    let mut notes = list_plain_notes();
    push_rich_notes(&mut notes);
    assert(notes_view(notes@) =~= demo_notes());
    DemoBackend { accounts, folders, notes }
}

/// In the plain text of a made-up note every angle bracket has become a space, and nothing
/// else has changed.
pub proof fn law_brackets_become_spaces(s: Seq<char>, i: int)
    requires
        0 <= i < s.len(),
    ensures
        without_brackets(s).len() == s.len(),
        s[i] == '<' || s[i] == '>' ==> without_brackets(s)[i] == ' ',
        s[i] != '<' && s[i] != '>' ==> without_brackets(s)[i] == s[i],
{
}

/// Every made-up note belongs to the made-up account and lies in one of its folders, and
/// its attachments are its own.
pub proof fn law_made_up_notes_have_their_place(k: int, j: int)
    requires
        0 <= k < demo_notes().len(),
    ensures
        demo_notes()[k].account_id == "demo-account"@,
        demo_notes()[k].folder_id == "demo-notes"@ || demo_notes()[k].folder_id == "demo-work"@
            || demo_notes()[k].folder_id == "demo-family"@,
        demo_notes()[k].attachment_count == demo_notes()[k].attachments.len(),
        0 <= j < demo_notes()[k].attachments.len() ==> demo_notes()[k].attachments[j].note_id
            == demo_notes()[k].id && demo_notes()[k].attachments[j].locked
            == demo_notes()[k].locked,
{
    reveal(plain_note);
    reveal(html_note);
    reveal(attachment_note);
    reveal(locked_note);
}

} // verus!
