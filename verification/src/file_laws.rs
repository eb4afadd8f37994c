//! Laws of the files: how the lines of a session are read, and which config files count.

use vstd::prelude::*;

use crate::config::{
    config_document, empty_file, file_found, file_taken, line_entry, read_line, with_value,
    ConfigEditValue, ConfigKey, ConfigText, LineEntry,
};
use crate::session::{
    quoted, read_entry, read_session_line, read_session_lines, session_lines, Session, SessionFocus,
};
use crate::text::{decimal, occurs, trim};

verus! {

// ---------------------------------------------------------------------------
// The session
// ---------------------------------------------------------------------------

/// Blank lines and comments of a session are passed over. A line without an equals sign is
/// refused, and so is one with a key that a session does not have.
pub proof fn law_session_lines_that_say_nothing(s: Session, line: Seq<char>)
    ensures
        trim(line).len() == 0 ==> read_session_line(s, line) == Ok::<Session, Seq<char>>(s),
        trim(line).len() > 0 && trim(line)[0] == '#' ==> read_session_line(s, line) == Ok::<
            Session,
            Seq<char>,
        >(s),
        trim(line).len() > 0 && trim(line)[0] != '#' && !trim(line).contains('=')
            ==> read_session_line(s, line) is Err,
{
    crate::text_laws::law_text_is_split_at_the_first(trim(line), '=');
}

/// A key that a session does not have is refused by its name.
pub proof fn law_unknown_session_key_is_refused(s: Session, key: Seq<char>, value: Seq<char>)
    requires
        key != "account_id"@,
        key != "folder_id"@,
        key != "note_id"@,
        key != "search_query"@,
        key != "preview_scroll"@,
        key != "focus"@,
    ensures
        read_entry(s, key, value) matches Err(e) && occurs(e, key),
{
    let e = read_entry(s, key, value)->Err_0;
    let n = e.len() - key.len();
    assert(e.subrange(n, n + key.len()) =~= key);
}

/// Reading stops at the first line that is refused, and each line before it counts.
pub proof fn law_session_is_read_line_by_line(s: Session, line: Seq<char>, rest: Seq<Seq<char>>)
    ensures
        read_session_lines(s, seq![line] + rest) == match read_session_line(s, line) {
            Ok(next) => read_session_lines(next, rest),
            Err(e) => Err(e),
        },
        read_session_lines(s, seq![]) == Ok::<Session, Seq<char>>(s),
{
    let all = seq![line] + rest;
    assert(all.drop_first() =~= rest);
}

/// A session file has a line for each thing that is kept, by its name, and none for what is
/// not.
pub proof fn law_session_file_names_what_it_keeps(s: Session, id: Seq<char>, n: u16)
    ensures
        s.account_id == Some(id) ==> session_lines(s).contains(
            "account_id"@ + " = "@ + quoted(id),
        ),
        s.folder_id == Some(id) ==> session_lines(s).contains("folder_id"@ + " = "@ + quoted(id)),
        s.note_id == Some(id) ==> session_lines(s).contains("note_id"@ + " = "@ + quoted(id)),
        s.search_query == Some(id) ==> session_lines(s).contains(
            "search_query"@ + " = "@ + quoted(id),
        ),
        s.preview_scroll == Some(n) ==> session_lines(s).contains(
            "preview_scroll"@ + " = "@ + decimal(n as nat),
        ),
        s.focus == Some(SessionFocus::Navigation) ==> session_lines(s).contains(
            "focus"@ + " = "@ + quoted("navigation"@),
        ),
        s.focus == Some(SessionFocus::Notes) ==> session_lines(s).contains(
            "focus"@ + " = "@ + quoted("notes"@),
        ),
        s.focus == Some(SessionFocus::Preview) ==> session_lines(s).contains(
            "focus"@ + " = "@ + quoted("preview"@),
        ),
        session_lines(s).len() == kept_count(s),
{
    let l1 = crate::session::quoted_line("account_id"@, s.account_id);
    let l2 = crate::session::quoted_line("folder_id"@, s.folder_id);
    let l3 = crate::session::quoted_line("note_id"@, s.note_id);
    let l4 = crate::session::quoted_line("search_query"@, s.search_query);
    let l5 = crate::session::scroll_line(s.preview_scroll);
    let l6 = crate::session::quoted_line("focus"@, crate::session::focus_text(s.focus));
    let all = session_lines(s);
    assert(all == l1 + l2 + l3 + l4 + l5 + l6);
    let a = l1.len() as int;
    let b = a + l2.len();
    let c = b + l3.len();
    let d = c + l4.len();
    let e = d + l5.len();
    if s.account_id is Some {
        assert(all[0] == l1[0]);
    }
    if s.folder_id is Some {
        assert(all[a] == l2[0]);
    }
    if s.note_id is Some {
        assert(all[b] == l3[0]);
    }
    if s.search_query is Some {
        assert(all[c] == l4[0]);
    }
    if s.preview_scroll is Some {
        assert(all[d] == l5[0]);
    }
    if s.focus is Some {
        assert(all[e] == l6[0]);
    }
}

/// How many things a session keeps.
pub open spec fn kept_count(s: Session) -> nat {
    one_if(s.account_id is Some) + one_if(s.folder_id is Some) + one_if(s.note_id is Some) + one_if(
        s.search_query is Some,
    ) + one_if(s.preview_scroll is Some) + one_if(s.focus is Some)
}

/// One where something is the case.
pub open spec fn one_if(b: bool) -> nat {
    if b {
        1
    } else {
        0
    }
}

// ---------------------------------------------------------------------------
// The config file
// ---------------------------------------------------------------------------

/// A config file counts where it can be read and its interval is within bounds. One that
/// does not counts for nothing at all, with a warning that tells why; one that does not
/// exist counts for nothing without a warning.
pub proof fn law_config_file_counts_or_not(contents: String, e: String)
    ensures
        file_taken(Ok(None)) == (empty_file(), None::<Seq<char>>),
        config_document(contents@) matches Ok(doc) ==> {
            let bad = doc.file.refresh_interval_seconds matches Some(n) && (n < 5 || n > 86_400);
            &&& !bad ==> file_taken(Ok(Some(contents))) == (doc.file, None::<Seq<char>>)
            &&& bad ==> file_taken(Ok(Some(contents))).0 == empty_file() && file_taken(
                Ok(Some(contents)),
            ).1 is Some
        },
        config_document(contents@) matches Err(why) ==> file_taken(Ok(Some(contents))).0
            == empty_file() && (file_taken(Ok(Some(contents))).1 matches Some(warning) && occurs(
            warning,
            why,
        )),
        file_taken(Err(e)).0 == empty_file() && (file_taken(Err(e)).1 matches Some(warning)
            && occurs(warning, e@)),
        empty_file().refresh_interval_seconds is None && empty_file().auto_refresh is None
            && empty_file().preview_wrap is None && empty_file().show_attachment_metadata is None,
{
    if config_document(contents@) is Err {
        let why = config_document(contents@)->Err_0;
        let w = file_taken(Ok(Some(contents))).1->0;
        let n = w.len() - why.len();
        assert(w.subrange(n, n + why.len()) =~= why);
    }
    let w = file_taken(Err(e)).1->0;
    let n = w.len() - e@.len();
    assert(w.subrange(n, n + e@.len()) =~= e@);
}

/// Before a file is changed it has to be one that counts.
pub proof fn law_only_a_good_file_is_changed(contents: String, e: String)
    ensures
        file_found(Ok(None)) is Ok,
        config_document(contents@) matches Ok(doc) ==> {
            let bad = doc.file.refresh_interval_seconds matches Some(n) && (n < 5 || n > 86_400);
            &&& !bad ==> file_found(Ok(Some(contents))) == Ok::<ConfigText, Seq<char>>(doc)
            &&& bad ==> file_found(Ok(Some(contents))) is Err
        },
        config_document(contents@) is Err ==> file_found(Ok(Some(contents))) is Err,
        file_found(Err(e)) matches Err(why) && occurs(why, e@),
{
    let w = file_found(Err(e))->Err_0;
    let n = w.len() - e@.len();
    assert(w.subrange(n, n + e@.len()) =~= e@);
}

/// A line with the name of a preference sets it to the value of its type, before the first
/// section; a value of another type is refused. A line with another name is kept, and so is
/// a blank one; anything else is refused.
pub proof fn law_config_lines(
    doc: ConfigText,
    line: Seq<char>,
    name: Seq<char>,
    value: Seq<char>,
    key: ConfigKey,
    b: bool,
    n: u64,
)
    ensures
        line_entry(line) == LineEntry::Pair(crate::config::key_name(key), value) && !(key
            is RefreshIntervalSeconds) && value == (if b {
            "true"@
        } else {
            "false"@
        }) ==> read_line(doc, true, line) == Ok::<(ConfigText, bool), Seq<char>>(
            (
                ConfigText {
                    file: with_value(doc.file, key, ConfigEditValue::Boolean(b)),
                    ..doc
                },
                true,
            ),
        ),
        line_entry(line) == LineEntry::Pair(crate::config::key_name(key), value) && !(key
            is RefreshIntervalSeconds) && value != "true"@ && value != "false"@ ==> read_line(
            doc,
            true,
            line,
        ) is Err,
        line_entry(line) == LineEntry::Pair(
            crate::config::key_name(ConfigKey::RefreshIntervalSeconds),
            decimal(n as nat),
        ) ==> (read_line(doc, true, line) matches Ok((next, root)) && root
            && next.file.refresh_interval_seconds == Some(n) && next.file.auto_refresh
            == doc.file.auto_refresh && next.file.preview_wrap == doc.file.preview_wrap
            && next.file.show_attachment_metadata == doc.file.show_attachment_metadata),
        line_entry(line) is Blank ==> (read_line(doc, true, line) matches Ok((next, root)) && root
            && next.file == doc.file && next.foreign == doc.foreign && next.lines
            == doc.lines.push(line)),
        line_entry(line) is Malformed ==> read_line(doc, true, line) is Err,
        line_entry(line) is Malformed ==> read_line(doc, false, line) is Err,
        line_entry(line) == LineEntry::Pair(name, value) && name != crate::config::key_name(
            ConfigKey::RefreshIntervalSeconds,
        ) && name != crate::config::key_name(ConfigKey::AutoRefresh) && name
            != crate::config::key_name(ConfigKey::PreviewWrap) && name != crate::config::key_name(
            ConfigKey::ShowAttachmentMetadata,
        ) ==> (read_line(doc, true, line) matches Ok((next, root)) && root && next.file == doc.file
            && next.foreign && next.lines == doc.lines.push(line)),
{
    reveal_strlit("true");
    reveal_strlit("false");
    assert("true"@.len() != "false"@.len());
    crate::config_laws::law_keys_are_found_by_name(key);
    crate::config_laws::law_keys_are_found_by_name(ConfigKey::RefreshIntervalSeconds);
    crate::text_laws::law_numbers_read_back(n as nat, u64::MAX as nat);
}

/// A line is a preference by its name, an equals sign and its value, with white space around
/// each of them or without; it is a section between square brackets.
pub proof fn law_config_line_is_name_and_value(line: Seq<char>, name: Seq<char>, value: Seq<char>)
    requires
        !line.contains('#'),
        trim(line) == name + seq!['='] + value,
        !name.contains('='),
        name.len() > 0,
        name[0] != '[',
    ensures
        line_entry(line) == LineEntry::Pair(trim(name), trim(value)),
{
    crate::text::lemma_index_of(line, '#');
    let i = crate::text::index_of(line, '#') as int;
    if i < line.len() {
        assert(line[i] == '#');
    }
    assert(line.take(line.len() as int) =~= line);
    crate::text::lemma_split_once_joined(name, '=', value);
    assert((name + seq!['='] + value)[0] == name[0]);
}

} // verus!
