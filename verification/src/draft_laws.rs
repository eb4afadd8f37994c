//! Laws of the draft file: which drafts can be used, and what is told about them.

use vstd::prelude::*;

use crate::draft::{
    draft_lines, draft_of, file_text, finding, inspection_text, loaded, Draft, DraftFile,
    EditorDraftInspection, EditorRecoveryDraft,
};
use crate::text::{decimal, join, occurs};

verus! {

/// A draft can be used just where it has version one, and names a note just where it is of a
/// note that exists.
pub proof fn law_usable_drafts(draft: EditorRecoveryDraft)
    ensures
        draft_of(Ok(draft)) is Ok <==> draft@.version == 1 && (draft@.kind is Create
            ==> draft@.note_id is None) && (draft@.kind is Edit ==> draft@.note_id is Some),
        draft_of(Ok(draft)) matches Ok(used) ==> used == draft,
{
}

/// What is loaded of a file is its draft, where that can be used; nothing of no file; and a
/// failure of anything else, which names what went wrong.
pub proof fn law_usable_draft_is_loaded(
    file: DraftFile,
    draft: EditorRecoveryDraft,
    e: String,
    r: Result<Option<EditorRecoveryDraft>, String>,
)
    ensures
        loaded(Ok(Some(file)), r) && file.parsed == Ok::<EditorRecoveryDraft, String>(draft)
            && draft@.version == 1 && (draft@.kind is Create <==> draft@.note_id is None)
            ==> r == Ok::<Option<EditorRecoveryDraft>, String>(Some(draft)),
        loaded(Ok(Some(file)), r) && file.parsed == Ok::<EditorRecoveryDraft, String>(draft)
            && draft@.version != 1 ==> r is Err && occurs(
            r->Err_0@,
            decimal(draft@.version as nat),
        ),
        loaded(Ok(Some(file)), r) && file.parsed == Err::<EditorRecoveryDraft, String>(e) ==> r
            is Err && occurs(r->Err_0@, e@),
        loaded(Ok(None), r) ==> r == Ok::<Option<EditorRecoveryDraft>, String>(None),
        loaded(Err(e), r) ==> r is Err && occurs(r->Err_0@, e@),
{
    if r is Err {
        let s = r->Err_0@;
        let n = s.len() - e@.len();
        let d = decimal(draft@.version as nat);
        let m = s.len() - d.len();
        if loaded(Err(e), r) || loaded(Ok(Some(file)), r) && file.parsed == Err::<
            EditorRecoveryDraft,
            String,
        >(e) {
            assert(s.subrange(n, n + e@.len()) =~= e@);
        }
        if loaded(Ok(Some(file)), r) && file.parsed == Ok::<EditorRecoveryDraft, String>(draft)
            && draft@.version != 1 {
            assert(s.subrange(m, m + d.len()) =~= d);
        }
    }
}

proof fn lemma_line_of(lines: Seq<Seq<char>>, i: int, head: Seq<char>, part: Seq<char>)
    requires
        0 <= i < lines.len(),
        lines[i] == head + part,
    ensures
        occurs(join(lines, "\n"@), part),
    decreases lines.len(),
{
    let all = join(lines, "\n"@);
    if lines.len() == 1 {
        let n = head.len() as int;
        assert(all.subrange(n, n + part.len()) =~= part);
    } else if i == lines.len() - 1 {
        let n = all.len() - part.len();
        assert(all.subrange(n, n + part.len()) =~= part);
    } else {
        lemma_line_of(lines.drop_last(), i, head, part);
        let before = join(lines.drop_last(), "\n"@);
        let n = choose|n: int|
            0 <= n <= before.len() - part.len() && #[trigger] before.subrange(n, n + part.len())
                == part;
        assert(all.subrange(n, n + part.len()) =~= before.subrange(n, n + part.len()));
    }
}

/// What is told about a draft that can be used names its file, its account, its folder and
/// its title; that of a note also the note.
pub proof fn law_draft_is_told_of(path: Seq<char>, draft: Box<EditorRecoveryDraft>)
    ensures
        ({
            let told = inspection_text(path, EditorDraftInspection::Valid(draft));
            &&& occurs(told, path)
            &&& occurs(told, draft@.account_id)
            &&& occurs(told, draft@.folder_id)
            &&& occurs(told, draft@.title)
            &&& occurs(told, decimal(draft@.version as nat))
            &&& draft@.kind is Create ==> occurs(told, "create"@)
            &&& draft@.kind is Edit ==> occurs(told, "edit"@)
            &&& draft@.kind is Edit ==> (draft@.note_id matches Some(id) ==> occurs(told, id))
            &&& draft@.kind is Edit && draft@.note_id is Some ==> (
            draft@.expected_modification_date matches Some(date) ==> occurs(told, date))
            &&& draft@.viewport matches Some(n) ==> occurs(told, decimal(n as nat))
        }),
{
    let d = draft@;
    let lines = draft_lines(path, d);
    lemma_line_of(lines, 0, "Draft path: "@, path);
    lemma_line_of(lines, 2, "Version: "@, decimal(d.version as nat));
    lemma_line_of(lines, 4, "Account ID: "@, d.account_id);
    lemma_line_of(lines, 5, "Folder ID: "@, d.folder_id);
    lemma_line_of(lines, 6, "Title: "@, d.title);
    if d.kind is Create {
        lemma_line_of(lines, 3, "Kind: "@, "create"@);
    } else {
        lemma_line_of(lines, 3, "Kind: "@, "edit"@);
        if d.note_id is Some {
            lemma_line_of(lines, 10, "Note ID: "@, d.note_id->0);
            if d.expected_modification_date is Some {
                lemma_line_of(lines, 11, "Baseline: "@, d.expected_modification_date->0);
            }
        }
    }
    if d.viewport is Some {
        lemma_line_of(lines, 9, "Viewport: "@, decimal(d.viewport->0 as nat));
    }
}

/// What is told about a file that cannot be used names the file and what is wrong with it.
pub proof fn law_unusable_draft_is_told_of(path: Seq<char>, error: String, version: u64)
    ensures
        occurs(inspection_text(path, EditorDraftInspection::Malformed { error }), path),
        occurs(inspection_text(path, EditorDraftInspection::Malformed { error }), error@),
        occurs(inspection_text(path, EditorDraftInspection::UnsupportedVersion { version }), path),
        occurs(
            inspection_text(path, EditorDraftInspection::UnsupportedVersion { version }),
            decimal(version as nat),
        ),
{
    let bad = inspection_text(path, EditorDraftInspection::Malformed { error });
    let old = inspection_text(path, EditorDraftInspection::UnsupportedVersion { version });
    let n = "Draft path: "@.len() as int;
    assert(bad.subrange(n, n + path.len()) =~= path);
    assert(old.subrange(n, n + path.len()) =~= path);
    let m = bad.len() - error@.len();
    assert(bad.subrange(m, m + error@.len()) =~= error@);
    let d = decimal(version as nat);
    let k = old.len() - d.len();
    assert(old.subrange(k, k + d.len()) =~= d);
}

/// A look at a file tells what was found in it.
pub proof fn law_look_tells_the_finding(
    path: Seq<char>,
    version: Result<Option<u64>, Seq<char>>,
    parsed: Result<EditorRecoveryDraft, String>,
    found: EditorDraftInspection,
)
    requires
        finding(version, parsed, found),
    ensures
        file_text(path, version, parsed) == inspection_text(path, found),
        version matches Ok(Some(n)) && n != 1 ==> found is UnsupportedVersion,
        version is Err ==> found is Malformed,
        found matches EditorDraftInspection::Valid(draft) ==> parsed == Ok::<
            EditorRecoveryDraft,
            String,
        >(*draft),
{
}

} // verus!
