//! The session file: where the user was, and nothing of the notes themselves.

use vstd::prelude::*;

use crate::model::{AccountId, FolderId, NoteId};
use crate::text;
use crate::text::{cat, cat3, decimal_text, joined, owned, read_unsigned, text_lines};

verus! {

/// The panes that can be returned to after a restart.
#[derive(Clone, Copy, Debug, PartialEq, Eq, Structural)]
pub enum SessionFocus {
    Navigation,
    Notes,
    Preview,
}

pub open spec fn focus_name(focus: SessionFocus) -> Seq<char> {
    match focus {
        SessionFocus::Navigation => "navigation"@,
        SessionFocus::Notes => "notes"@,
        SessionFocus::Preview => "preview"@,
    }
}

pub open spec fn focus_named(name: Seq<char>) -> Result<SessionFocus, Seq<char>> {
    if name == "navigation"@ {
        Ok(SessionFocus::Navigation)
    } else if name == "notes"@ {
        Ok(SessionFocus::Notes)
    } else if name == "preview"@ {
        Ok(SessionFocus::Preview)
    } else {
        Err("session contains an unsupported focus"@)
    }
}

impl SessionFocus {
    pub fn parse(value: &str) -> (r: Result<Self, String>)
        ensures
            match focus_named(value@) {
                Ok(focus) => r is Ok && r->Ok_0 == focus,
                Err(e) => r is Err && r->Err_0@ == e,
            },
    {
        if value.eq("navigation") {
            Ok(SessionFocus::Navigation)
        } else if value.eq("notes") {
            Ok(SessionFocus::Notes)
        } else if value.eq("preview") {
            Ok(SessionFocus::Preview)
        } else {
            Err(owned("session contains an unsupported focus"))
        }
    }

    pub fn as_str(self) -> (r: &'static str)
        ensures
            r@ == focus_name(self),
    {
        match self {
            SessionFocus::Navigation => "navigation",
            SessionFocus::Notes => "notes",
            SessionFocus::Preview => "preview",
        }
    }
}

/// Where the user was. The ids are held against the data at hand before they are used.
#[derive(Debug, PartialEq, Eq)]
pub struct SessionState {
    pub account_id: Option<AccountId>,
    pub folder_id: Option<FolderId>,
    pub note_id: Option<NoteId>,
    pub search_query: Option<String>,
    pub preview_scroll: Option<u16>,
    pub focus: Option<SessionFocus>,
}

/// The model of a session.
#[verifier::ext_equal]
pub ghost struct Session {
    pub account_id: Option<Seq<char>>,
    pub folder_id: Option<Seq<char>>,
    pub note_id: Option<Seq<char>>,
    pub search_query: Option<Seq<char>>,
    pub preview_scroll: Option<u16>,
    pub focus: Option<SessionFocus>,
}

impl View for SessionState {
    type V = Session;

    open spec fn view(&self) -> Session {
        Session {
            account_id: match self.account_id {
                Some(id) => Some(id@),
                None => None,
            },
            folder_id: match self.folder_id {
                Some(id) => Some(id@),
                None => None,
            },
            note_id: match self.note_id {
                Some(id) => Some(id@),
                None => None,
            },
            search_query: match self.search_query {
                Some(query) => Some(query@),
                None => None,
            },
            preview_scroll: self.preview_scroll,
            focus: self.focus,
        }
    }
}

impl Clone for SessionState {
    fn clone(&self) -> (r: Self)
        ensures
            r == *self,
    {
        SessionState {
            account_id: match &self.account_id {
                Some(id) => Some(id.clone()),
                None => None,
            },
            folder_id: match &self.folder_id {
                Some(id) => Some(id.clone()),
                None => None,
            },
            note_id: match &self.note_id {
                Some(id) => Some(id.clone()),
                None => None,
            },
            search_query: match &self.search_query {
                Some(query) => Some(query.clone()),
                None => None,
            },
            preview_scroll: self.preview_scroll,
            focus: self.focus,
        }
    }
}

pub open spec fn no_session() -> Session {
    Session {
        account_id: None,
        folder_id: None,
        note_id: None,
        search_query: None,
        preview_scroll: None,
        focus: None,
    }
}

impl Default for SessionState {
    fn default() -> (r: Self)
        ensures
            r@ == no_session(),
    {
        SessionState {
            account_id: None,
            folder_id: None,
            note_id: None,
            search_query: None,
            preview_scroll: None,
            focus: None,
        }
    }
}

fn same_focus(a: Option<SessionFocus>, b: Option<SessionFocus>) -> (r: bool)
    ensures
        r == (a == b),
{
    match (a, b) {
        (Some(x), Some(y)) => x == y,
        (None, None) => true,
        _ => false,
    }
}

fn same_scroll(a: Option<u16>, b: Option<u16>) -> (r: bool)
    ensures
        r == (a == b),
{
    match (a, b) {
        (Some(x), Some(y)) => x == y,
        (None, None) => true,
        _ => false,
    }
}

impl SessionState {
    pub fn same(&self, other: &Self) -> (r: bool)
        ensures
            r == (self@ == other@),
    {
        let account = match (&self.account_id, &other.account_id) {
            (Some(a), Some(b)) => a.same(b),
            (None, None) => true,
            _ => false,
        };
        let folder = match (&self.folder_id, &other.folder_id) {
            (Some(a), Some(b)) => a.same(b),
            (None, None) => true,
            _ => false,
        };
        let note = match (&self.note_id, &other.note_id) {
            (Some(a), Some(b)) => a.same(b),
            (None, None) => true,
            _ => false,
        };
        let query = match (&self.search_query, &other.search_query) {
            (Some(a), Some(b)) => a.as_str().eq(b.as_str()),
            (None, None) => true,
            _ => false,
        };
        account && folder && note && query && same_scroll(self.preview_scroll, other.preview_scroll)
            && same_focus(self.focus, other.focus)
    }
}

// ---------------------------------------------------------------------------
// Quoted texts
// ---------------------------------------------------------------------------

/// A character as it stands between quotation marks.
pub open spec fn escaped_char(c: char) -> Seq<char> {
    if c == '\\' || c == '"' {
        seq!['\\', c]
    } else {
        seq![c]
    }
}

/// A text as it stands between quotation marks.
pub open spec fn escaped(s: Seq<char>) -> Seq<char>
    decreases s.len(),
{
    if s.len() == 0 {
        seq![]
    } else {
        escaped(s.drop_last()) + escaped_char(s.last())
    }
}

/// A text between quotation marks.
pub open spec fn quoted(s: Seq<char>) -> Seq<char> {
    seq!['"'] + escaped(s) + seq!['"']
}

/// The text that stands between quotation marks, from left to right.
pub open spec fn unescaped(s: Seq<char>) -> Result<Seq<char>, Seq<char>>
    decreases s.len(),
{
    if s.len() == 0 {
        Ok(seq![])
    } else if s[0] != '\\' {
        match unescaped(s.drop_first()) {
            Ok(rest) => Ok(seq![s[0]] + rest),
            Err(e) => Err(e),
        }
    } else if s.len() == 1 {
        Err("session ends with an incomplete escape"@)
    } else if s[1] == '\\' || s[1] == '"' {
        match unescaped(s.skip(2)) {
            Ok(rest) => Ok(seq![s[1]] + rest),
            Err(e) => Err(e),
        }
    } else {
        Err("session contains an unsupported escape"@)
    }
}

/// The text that a quoted value stands for.
pub open spec fn unquoted(value: Seq<char>) -> Result<Seq<char>, Seq<char>> {
    let s = text::trim(value);
    if s.len() >= 2 && s[0] == '"' && s.last() == '"' {
        unescaped(s.subrange(1, s.len() - 1))
    } else {
        Err("session values must be quoted strings"@)
    }
}

/// A text between quotation marks.
pub fn session_string(value: &str) -> (r: String)
    ensures
        r@ == quoted(value@),
{
    let cs = text::chars_of(value);
    let mut out = String::new();
    out.push('"');
    let mut i: usize = 0;
    assert(cs@.take(0) =~= Seq::<char>::empty());
    while i < cs.len()
        invariant
            cs@ == value@,
            i <= cs@.len(),
            out@ == seq!['"'] + escaped(cs@.take(i as int)),
        decreases cs@.len() - i,
    {
        let ghost before = out@;
        assert(cs@.take(i + 1).drop_last() =~= cs@.take(i as int));
        let c = cs[i];
        if c == '\\' || c == '"' {
            out.push('\\');
        }
        out.push(c);
        assert(out@ =~= before + escaped_char(c));
        i = i + 1;
    }
    assert(cs@.take(i as int) =~= value@);
    out.push('"');
    assert(out@ =~= quoted(value@));
    out
}

/// The text that a quoted value stands for.
pub fn parse_session_string(value: &str) -> (r: Result<String, String>)
    ensures
        match unquoted(value@) {
            Ok(s) => r is Ok && r->Ok_0@ == s,
            Err(e) => r is Err && r->Err_0@ == e,
        },
{
    let trimmed = text::trimmed(value);
    let cs = text::chars_of(trimmed.as_str());
    let n = cs.len();
    if n < 2 || cs[0] != '"' || cs[n - 1] != '"' {
        return Err(owned("session values must be quoted strings"));
    }
    let ghost inner = cs@.subrange(1, n - 1);
    let mut output = String::new();
    let mut escaped = false;
    let mut i: usize = 1;
    assert(inner.skip(0) =~= inner);
    assert(unquoted(value@) == unescaped(inner));
    while i < n - 1
        invariant
            n == cs@.len(),
            n >= 2,
            unquoted(value@) == unescaped(inner),
            1 <= i <= n - 1,
            inner == cs@.subrange(1, n - 1),
            escaped ==> i >= 2 && cs@[i - 1] == '\\',
            ({
                let rest = unescaped(inner.skip(if escaped { i - 2 } else { i - 1 }));
                match unescaped(inner) {
                    Ok(s) => rest is Ok && s == output@ + rest->Ok_0,
                    Err(e) => rest is Err && rest->Err_0 == e,
                }
            }),
        decreases n - i,
    {
        let c = cs[i];
        let ghost at = inner.skip(if escaped { i - 2 } else { i - 1 });
        let ghost before = output@;
        assert(inner[i - 1] == c);
        if escaped {
            assert(inner[i - 2] == cs@[i - 1]);
            assert(at[0] == '\\' && at[1] == c);
            assert(at.skip(2) =~= inner.skip(i as int));
            if c == '\\' || c == '"' {
                output.push(c);
                proof {
                    let rest = unescaped(inner.skip(i as int));
                    if rest is Ok {
                        assert(before + (seq![c] + rest->Ok_0) =~= output@ + rest->Ok_0);
                    }
                }
            } else {
                return Err(owned("session contains an unsupported escape"));
            }
            escaped = false;
        } else if c == '\\' {
            escaped = true;
        } else {
            assert(at[0] == c);
            assert(at.drop_first() =~= inner.skip(i as int));
            output.push(c);
            proof {
                let rest = unescaped(inner.skip(i as int));
                if rest is Ok {
                    assert(before + (seq![c] + rest->Ok_0) =~= output@ + rest->Ok_0);
                }
            }
        }
        i = i + 1;
    }
    if escaped {
        proof {
            let at = inner.skip(i - 2);
            assert(at.len() == 1);
            assert(at[0] == inner[i - 2]);
            assert(inner[i - 2] == cs@[i - 1]);
        }
        return Err(owned("session ends with an incomplete escape"));
    }
    proof {
        assert(inner.skip(i - 1) =~= Seq::<char>::empty());
        assert(output@ + Seq::<char>::empty() =~= output@);
    }
    Ok(output)
}

// ---------------------------------------------------------------------------
// The file
// ---------------------------------------------------------------------------

/// What the value of a key makes of the session read so far.
pub open spec fn read_entry(s: Session, key: Seq<char>, value: Seq<char>) -> Result<
    Session,
    Seq<char>,
> {
    if key == "preview_scroll"@ {
        match text::parse_unsigned(text::trim(value), u16::MAX as nat) {
            Some(n) => Ok(Session { preview_scroll: Some(n as u16), ..s }),
            None => Err("preview_scroll must be an unsigned 16-bit integer"@),
        }
    } else if key == "account_id"@ {
        match unquoted(value) {
            Ok(v) => Ok(Session { account_id: Some(v), ..s }),
            Err(e) => Err(e),
        }
    } else if key == "folder_id"@ {
        match unquoted(value) {
            Ok(v) => Ok(Session { folder_id: Some(v), ..s }),
            Err(e) => Err(e),
        }
    } else if key == "note_id"@ {
        match unquoted(value) {
            Ok(v) => Ok(Session { note_id: Some(v), ..s }),
            Err(e) => Err(e),
        }
    } else if key == "search_query"@ {
        match unquoted(value) {
            Ok(v) => Ok(Session { search_query: Some(v), ..s }),
            Err(e) => Err(e),
        }
    } else if key == "focus"@ {
        match unquoted(value) {
            Ok(v) => match focus_named(v) {
                Ok(focus) => Ok(Session { focus: Some(focus), ..s }),
                Err(e) => Err(e),
            },
            Err(e) => Err(e),
        }
    } else {
        Err("session contains an unknown key: "@ + key)
    }
}

/// What one more line makes of the session read so far.
pub open spec fn read_session_line(s: Session, line: Seq<char>) -> Result<Session, Seq<char>> {
    let line = text::trim(line);
    if line.len() == 0 || line[0] == '#' {
        Ok(s)
    } else {
        match text::split_once(line, '=') {
            Some((key, value)) => read_entry(s, text::trim(key), value),
            None => Err("session contains an invalid line"@),
        }
    }
}

/// What more lines make of the session read so far.
pub open spec fn read_session_lines(s: Session, lines: Seq<Seq<char>>) -> Result<
    Session,
    Seq<char>,
>
    decreases lines.len(),
{
    if lines.len() == 0 {
        Ok(s)
    } else {
        match read_session_line(s, lines[0]) {
            Ok(next) => read_session_lines(next, lines.drop_first()),
            Err(e) => Err(e),
        }
    }
}

/// The session that a text holds.
pub open spec fn session_of(contents: Seq<char>) -> Result<Session, Seq<char>> {
    read_session_lines(no_session(), text::lines(contents))
}

fn take_entry(state: &mut SessionState, key: &str, value: &str) -> (r: Result<(), String>)
    ensures
        match read_entry(old(state)@, key@, value@) {
            Ok(next) => r is Ok && final(state)@ == next,
            Err(e) => r is Err && r->Err_0@ == e,
        },
{
    if key.eq("preview_scroll") {
        let digits = text::trimmed(value);
        return match read_unsigned(digits.as_str(), u16::MAX as u64) {
            Some(n) => {
                state.preview_scroll = Some(n as u16);
                Ok(())
            },
            None => Err(owned("preview_scroll must be an unsigned 16-bit integer")),
        };
    }
    let account = key.eq("account_id");
    let folder = key.eq("folder_id");
    let note = key.eq("note_id");
    let query = key.eq("search_query");
    let focus = key.eq("focus");
    if !account && !folder && !note && !query && !focus {
        return Err(cat("session contains an unknown key: ", key));
    }
    let value = match parse_session_string(value) {
        Ok(value) => value,
        Err(e) => return Err(e),
    };
    if account {
        state.account_id = Some(AccountId { text: value });
    } else if folder {
        state.folder_id = Some(FolderId { text: value });
    } else if note {
        state.note_id = Some(NoteId { text: value });
    } else if query {
        state.search_query = Some(value);
    } else {
        match SessionFocus::parse(value.as_str()) {
            Ok(focus) => {
                state.focus = Some(focus);
            },
            Err(e) => return Err(e),
        }
    }
    Ok(())
}

fn take_session_line(state: &mut SessionState, line: &str) -> (r: Result<(), String>)
    ensures
        match read_session_line(old(state)@, line@) {
            Ok(next) => r is Ok && final(state)@ == next,
            Err(e) => r is Err && r->Err_0@ == e,
        },
{
    let line = text::trimmed(line);
    if line.as_str().is_empty() || line.as_str().get_char(0) == '#' {
        return Ok(());
    }
    match text::split_at_char(line.as_str(), '=') {
        Some((key, value)) => {
            let key = text::trimmed(key.as_str());
            take_entry(state, key.as_str(), value.as_str())
        },
        None => Err(owned("session contains an invalid line")),
    }
}

/// The session of a text.
pub fn parse_session(contents: &str) -> (r: Result<SessionState, String>)
    ensures
        match session_of(contents@) {
            Ok(s) => r is Ok && r->Ok_0@ == s,
            Err(e) => r is Err && r->Err_0@ == e,
        },
{
    let lines = text_lines(contents);
    let ghost all = text::texts(lines@);
    let mut state = SessionState::default();
    let mut i: usize = 0;
    assert(all.skip(0) =~= all);
    while i < lines.len()
        invariant
            all == text::texts(lines@),
            i <= lines@.len(),
            session_of(contents@) == read_session_lines(state@, all.skip(i as int)),
        decreases lines@.len() - i,
    {
        assert(all.skip(i as int)[0] == lines@[i as int]@);
        assert(all.skip(i as int).drop_first() =~= all.skip(i + 1));
        match take_session_line(&mut state, lines[i].as_str()) {
            Ok(_) => {},
            Err(e) => return Err(e),
        }
        i = i + 1;
    }
    Ok(state)
}

/// The session of a file, given what was read of it: none where there is no file.
pub fn load_session(read: Result<Option<String>, String>) -> (r: Result<Option<SessionState>, String>)
    ensures
        match read {
            Ok(None) => r == Ok::<Option<SessionState>, String>(None),
            Ok(Some(contents)) => match session_of(contents@) {
                Ok(s) => r is Ok && r->Ok_0 is Some && r->Ok_0->0@ == s,
                Err(e) => r is Err && r->Err_0@ == e,
            },
            Err(e) => r is Err && r->Err_0@ == "could not read session: "@ + e@,
        },
{
    match read {
        Ok(None) => Ok(None),
        Ok(Some(contents)) => match parse_session(contents.as_str()) {
            Ok(state) => Ok(Some(state)),
            Err(e) => Err(e),
        },
        Err(e) => Err(cat("could not read session: ", e.as_str())),
    }
}

pub open spec fn entry_line(key: Seq<char>, value: Seq<char>) -> Seq<char> {
    key + " = "@ + value
}

pub open spec fn quoted_line(key: Seq<char>, value: Option<Seq<char>>) -> Seq<Seq<char>> {
    match value {
        Some(v) => seq![entry_line(key, quoted(v))],
        None => seq![],
    }
}

pub open spec fn scroll_line(value: Option<u16>) -> Seq<Seq<char>> {
    match value {
        Some(n) => seq![entry_line("preview_scroll"@, text::decimal(n as nat))],
        None => seq![],
    }
}

pub open spec fn focus_text(value: Option<SessionFocus>) -> Option<Seq<char>> {
    match value {
        Some(focus) => Some(focus_name(focus)),
        None => None,
    }
}

/// The lines of a session.
pub open spec fn session_lines(s: Session) -> Seq<Seq<char>> {
    quoted_line("account_id"@, s.account_id) + quoted_line("folder_id"@, s.folder_id) + quoted_line(
        "note_id"@,
        s.note_id,
    ) + quoted_line("search_query"@, s.search_query) + scroll_line(s.preview_scroll) + quoted_line(
        "focus"@,
        focus_text(s.focus),
    )
}

/// The text of a session: its lines, and a line feed at the end.
pub open spec fn session_text(s: Session) -> Seq<char> {
    text::join(session_lines(s), seq!['\n']) + seq!['\n']
}

fn push_quoted(lines: &mut Vec<String>, key: &str, value: Option<&str>)
    ensures
        text::texts(final(lines)@) == text::texts(old(lines)@) + quoted_line(
            key@,
            match value {
                Some(v) => Some(v@),
                None => None,
            },
        ),
{
    if let Some(v) = value {
        let shown = session_string(v);
        let line = cat3(key, " = ", shown.as_str());
        proof {
            text::lemma_texts_push(lines@, line);
            assert(text::texts(lines@).push(line@) =~= text::texts(lines@) + seq![line@]);
        }
        lines.push(line);
    } else {
        proof {
            assert(text::texts(lines@) + Seq::<Seq<char>>::empty() =~= text::texts(lines@));
        }
    }
}

/// The text of a session.
pub fn serialize_session(state: &SessionState) -> (r: String)
    ensures
        r@ == session_text(state@),
{
    let mut lines: Vec<String> = Vec::new();
    assert(text::texts(lines@) =~= Seq::<Seq<char>>::empty());
    push_quoted(
        &mut lines,
        "account_id",
        match &state.account_id {
            Some(id) => Some(id.as_str()),
            None => None,
        },
    );
    push_quoted(
        &mut lines,
        "folder_id",
        match &state.folder_id {
            Some(id) => Some(id.as_str()),
            None => None,
        },
    );
    push_quoted(
        &mut lines,
        "note_id",
        match &state.note_id {
            Some(id) => Some(id.as_str()),
            None => None,
        },
    );
    push_quoted(
        &mut lines,
        "search_query",
        match &state.search_query {
            Some(query) => Some(query.as_str()),
            None => None,
        },
    );
    if let Some(n) = state.preview_scroll {
        let digits = decimal_text(n as u64);
        let line = cat3("preview_scroll", " = ", digits.as_str());
        proof {
            text::lemma_texts_push(lines@, line);
            assert(text::texts(lines@).push(line@) =~= text::texts(lines@) + seq![line@]);
        }
        lines.push(line);
    } else {
        proof {
            assert(text::texts(lines@) + Seq::<Seq<char>>::empty() =~= text::texts(lines@));
        }
    }
    push_quoted(
        &mut lines,
        "focus",
        match state.focus {
            Some(focus) => Some(focus.as_str()),
            None => None,
        },
    );
    proof {
        assert(text::texts(lines@) =~= session_lines(state@));
        reveal_strlit("\n");
        assert("\n"@ =~= seq!['\n']);
    }
    cat(joined(&lines, "\n").as_str(), "\n")
}

// ---------------------------------------------------------------------------
// Reading back what was written
// ---------------------------------------------------------------------------

proof fn lemma_unescape_step(c: char, rest: Seq<char>)
    requires
        unescaped(rest) is Ok,
    ensures
        unescaped(escaped_char(c) + rest) == Ok::<Seq<char>, Seq<char>>(
            seq![c] + unescaped(rest)->Ok_0,
        ),
{
    let s = escaped_char(c) + rest;
    if c == '\\' || c == '"' {
        assert(s.skip(2) =~= rest);
        assert(s[0] == '\\' && s[1] == c);
    } else {
        assert(s.drop_first() =~= rest);
        assert(s[0] == c);
    }
}

proof fn lemma_escape_read(s: Seq<char>, rest: Seq<char>)
    requires
        unescaped(rest) is Ok,
    ensures
        unescaped(escaped(s) + rest) == Ok::<Seq<char>, Seq<char>>(s + unescaped(rest)->Ok_0),
    decreases s.len(),
{
    if s.len() == 0 {
        assert(escaped(s) + rest =~= rest);
        assert(s + unescaped(rest)->Ok_0 =~= unescaped(rest)->Ok_0);
    } else {
        let tail = escaped_char(s.last()) + rest;
        lemma_unescape_step(s.last(), rest);
        lemma_escape_read(s.drop_last(), tail);
        assert(escaped(s) + rest =~= escaped(s.drop_last()) + tail);
        assert(s.drop_last() + (seq![s.last()] + unescaped(rest)->Ok_0) =~= s + unescaped(
            rest,
        )->Ok_0);
    }
}

/// A text that is put between quotation marks is read back as it was.
pub proof fn law_quoted_text_reads_back(s: Seq<char>)
    ensures
        unquoted(quoted(s)) == Ok::<Seq<char>, Seq<char>>(s),
{
    let q = quoted(s);
    text::lemma_trim_solid(q);
    assert(q.subrange(1, q.len() - 1) =~= escaped(s));
    lemma_escape_read(s, Seq::<char>::empty());
    assert(escaped(s) + Seq::<char>::empty() =~= escaped(s));
    assert(s + Seq::<char>::empty() =~= s);
}

proof fn lemma_escaped_feeds(s: Seq<char>)
    requires
        !s.contains('\n'),
    ensures
        !escaped(s).contains('\n'),
    decreases s.len(),
{
    if s.len() > 0 {
        let t = s.drop_last();
        assert(!t.contains('\n')) by {
            if t.contains('\n') {
                let i = choose|i: int| 0 <= i < t.len() && t[i] == '\n';
                assert(s[i] == '\n');
            }
        }
        lemma_escaped_feeds(t);
        assert(s[s.len() - 1] != '\n');
        let e = escaped(s);
        if e.contains('\n') {
            let i = choose|i: int| 0 <= i < e.len() && e[i] == '\n';
            if i < escaped(t).len() {
                assert(escaped(t)[i] == '\n');
            } else {
                assert(escaped_char(s.last())[i - escaped(t).len()] == '\n');
            }
        }
    }
}

/// Whether a word can be a key: letters and underscores.
spec fn plain_word(key: Seq<char>) -> bool {
    &&& key.len() > 0
    &&& forall|i: int| 0 <= i < key.len() ==> '_' <= #[trigger] key[i] <= 'z'
}

proof fn lemma_entry_line(s: Session, key: Seq<char>, value: Seq<char>)
    requires
        plain_word(key),
        value.len() > 0,
        !text::is_space(value[0]),
        !text::is_space(value.last()),
        !value.contains('\n'),
    ensures
        read_session_line(s, entry_line(key, value)) == read_entry(s, key, seq![' '] + value),
        !entry_line(key, value).contains('\n'),
        text::strip_cr(entry_line(key, value)) == entry_line(key, value),
{
    let line = entry_line(key, value);
    reveal_strlit(" = ");
    assert(" = "@ =~= seq![' ', '=', ' ']);
    let a = key.push(' ');
    let b = seq![' '] + value;
    assert(line =~= a + seq!['='] + b);
    assert('_' <= key[0] <= 'z');
    assert('_' <= key[key.len() - 1] <= 'z');
    text::lemma_trim_solid(line);
    assert(!a.contains('='));
    text::lemma_split_once_joined(a, '=', b);
    text::lemma_trim_pad_end(key, ' ');
    text::lemma_trim_solid(key);
    if line.contains('\n') {
        let i = choose|i: int| 0 <= i < line.len() && line[i] == '\n';
        if i >= key.len() + 3 {
            assert(value[i - key.len() - 3] == '\n');
        } else if i < key.len() {
            assert(key[i] == '\n');
        }
    }
}

proof fn lemma_quoted_entry(s: Session, key: Seq<char>, value: Seq<char>)
    requires
        plain_word(key),
        !value.contains('\n'),
    ensures
        read_session_line(s, entry_line(key, quoted(value))) == read_entry(
            s,
            key,
            seq![' '] + quoted(value),
        ),
        unquoted(seq![' '] + quoted(value)) == Ok::<Seq<char>, Seq<char>>(value),
        !entry_line(key, quoted(value)).contains('\n'),
        text::strip_cr(entry_line(key, quoted(value))) == entry_line(key, quoted(value)),
{
    lemma_escaped_feeds(value);
    let q = quoted(value);
    assert(!q.contains('\n')) by {
        if q.contains('\n') {
            let i = choose|i: int| 0 <= i < q.len() && q[i] == '\n';
            assert(escaped(value)[i - 1] == '\n');
        }
    }
    lemma_entry_line(s, key, q);
    law_quoted_text_reads_back(value);
    text::lemma_trim_pad_start(' ', q);
}

proof fn lemma_key_words()
    ensures
        plain_word("account_id"@),
        plain_word("folder_id"@),
        plain_word("note_id"@),
        plain_word("search_query"@),
        plain_word("preview_scroll"@),
        plain_word("focus"@),
        "account_id"@ != "preview_scroll"@,
        "folder_id"@ != "preview_scroll"@,
        "note_id"@ != "preview_scroll"@,
        "search_query"@ != "preview_scroll"@,
        "focus"@ != "preview_scroll"@,
        "folder_id"@ != "account_id"@,
        "note_id"@ != "account_id"@,
        "search_query"@ != "account_id"@,
        "focus"@ != "account_id"@,
        "note_id"@ != "folder_id"@,
        "search_query"@ != "folder_id"@,
        "focus"@ != "folder_id"@,
        "search_query"@ != "note_id"@,
        "focus"@ != "note_id"@,
        "focus"@ != "search_query"@,
{
    reveal_strlit("account_id");
    reveal_strlit("folder_id");
    reveal_strlit("note_id");
    reveal_strlit("search_query");
    reveal_strlit("preview_scroll");
    reveal_strlit("focus");
    assert("account_id"@[0] == 'a');
    assert("folder_id"@[0] == 'f' && "folder_id"@.len() == 9);
    assert("focus"@[0] == 'f' && "focus"@.len() == 5);
    assert("note_id"@[0] == 'n');
    assert("search_query"@[0] == 's');
    assert("preview_scroll"@[0] == 'p');
}

/// Whether no text of a session holds a line feed, which the file has no escape for.
pub open spec fn session_lines_whole(s: Session) -> bool {
    &&& (s.account_id matches Some(v) ==> !v.contains('\n'))
    &&& (s.folder_id matches Some(v) ==> !v.contains('\n'))
    &&& (s.note_id matches Some(v) ==> !v.contains('\n'))
    &&& (s.search_query matches Some(v) ==> !v.contains('\n'))
}

proof fn lemma_focus_names(focus: SessionFocus)
    ensures
        focus_named(focus_name(focus)) == Ok::<SessionFocus, Seq<char>>(focus),
        !focus_name(focus).contains('\n'),
{
    reveal_strlit("navigation");
    reveal_strlit("notes");
    reveal_strlit("preview");
    assert("navigation"@.len() == 10);
    assert("notes"@.len() == 5);
    assert("preview"@.len() == 7);
}

/// One entry, where there is one, is read and the rest is read behind it.
proof fn lemma_quoted_line(s: Session, key: Seq<char>, value: Option<Seq<char>>, rest: Seq<Seq<char>>)
    requires
        plain_word(key),
        value matches Some(v) ==> !v.contains('\n'),
        value matches Some(v) ==> read_entry(s, key, seq![' '] + quoted(v)) is Ok,
    ensures
        read_session_lines(s, quoted_line(key, value) + rest) == match value {
            Some(v) => read_session_lines(
                read_entry(s, key, seq![' '] + quoted(v))->Ok_0,
                rest,
            ),
            None => read_session_lines(s, rest),
        },
        forall|i: int|
            0 <= i < quoted_line(key, value).len() ==> !(#[trigger] quoted_line(
                key,
                value,
            )[i]).contains('\n') && text::strip_cr(quoted_line(key, value)[i]) == quoted_line(
                key,
                value,
            )[i],
{
    match value {
        Some(v) => {
            lemma_quoted_entry(s, key, v);
            let all = quoted_line(key, value) + rest;
            assert(all.drop_first() =~= rest);
            assert(all[0] == entry_line(key, quoted(v)));
        },
        None => {
            assert(quoted_line(key, value) + rest =~= rest);
        },
    }
}

proof fn lemma_scroll_line(s: Session, value: Option<u16>, rest: Seq<Seq<char>>)
    requires
        s.preview_scroll is None,
    ensures
        read_session_lines(s, scroll_line(value) + rest) == read_session_lines(
            Session { preview_scroll: value, ..s },
            rest,
        ),
        forall|i: int|
            0 <= i < scroll_line(value).len() ==> !(#[trigger] scroll_line(value)[i]).contains('\n')
                && text::strip_cr(scroll_line(value)[i]) == scroll_line(value)[i],
{
    match value {
        Some(n) => {
            let digits = text::decimal(n as nat);
            let key = "preview_scroll"@;
            lemma_key_words();
            text::lemma_decimal_value(n as nat);
            text::lemma_decimal_parses(n as nat, u16::MAX as nat);
            assert(text::is_digit(digits[0]));
            assert(text::is_digit(digits[digits.len() - 1]));
            lemma_entry_line(s, key, digits);
            text::lemma_trim_pad_start(' ', digits);
            text::lemma_trim_solid(digits);
            let all = scroll_line(value) + rest;
            assert(all.drop_first() =~= rest);
            assert(all[0] == entry_line(key, digits));
        },
        None => {
            assert(scroll_line(value) + rest =~= rest);
        },
    }
}

proof fn lemma_session_lines_read(s: Session)
    requires
        session_lines_whole(s),
    ensures
        read_session_lines(no_session(), session_lines(s)) == Ok::<Session, Seq<char>>(s),
{
    lemma_key_words();
    let l1 = quoted_line("account_id"@, s.account_id);
    let l2 = quoted_line("folder_id"@, s.folder_id);
    let l3 = quoted_line("note_id"@, s.note_id);
    let l4 = quoted_line("search_query"@, s.search_query);
    let l5 = scroll_line(s.preview_scroll);
    let l6 = quoted_line("focus"@, focus_text(s.focus));
    let none = Seq::<Seq<char>>::empty();
    let s0 = no_session();
    let s1 = Session { account_id: s.account_id, ..s0 };
    let s2 = Session { folder_id: s.folder_id, ..s1 };
    let s3 = Session { note_id: s.note_id, ..s2 };
    let s4 = Session { search_query: s.search_query, ..s3 };
    let s5 = Session { preview_scroll: s.preview_scroll, ..s4 };
    let r6 = none;
    let r5 = l6 + r6;
    let r4 = l5 + r5;
    let r3 = l4 + r4;
    let r2 = l3 + r3;
    let r1 = l2 + r2;
    assert(session_lines(s) =~= l1 + r1);
    assert(read_session_lines(s0, l1 + r1) == read_session_lines(s1, r1)) by {
        if let Some(v) = s.account_id {
            lemma_quoted_entry(s0, "account_id"@, v);
        }
        lemma_quoted_line(s0, "account_id"@, s.account_id, r1);
    }
    assert(read_session_lines(s1, r1) == read_session_lines(s2, r2)) by {
        if let Some(v) = s.folder_id {
            lemma_quoted_entry(s1, "folder_id"@, v);
        }
        lemma_quoted_line(s1, "folder_id"@, s.folder_id, r2);
    }
    assert(read_session_lines(s2, r2) == read_session_lines(s3, r3)) by {
        if let Some(v) = s.note_id {
            lemma_quoted_entry(s2, "note_id"@, v);
        }
        lemma_quoted_line(s2, "note_id"@, s.note_id, r3);
    }
    assert(read_session_lines(s3, r3) == read_session_lines(s4, r4)) by {
        if let Some(v) = s.search_query {
            lemma_quoted_entry(s3, "search_query"@, v);
        }
        lemma_quoted_line(s3, "search_query"@, s.search_query, r4);
    }
    assert(read_session_lines(s4, r4) == read_session_lines(s5, r5)) by {
        lemma_scroll_line(s4, s.preview_scroll, r5);
    }
    assert(read_session_lines(s5, r5) == read_session_lines(s, r6)) by {
        if let Some(f) = s.focus {
            lemma_focus_names(f);
            lemma_quoted_entry(s5, "focus"@, focus_name(f));
        }
        lemma_quoted_line(s5, "focus"@, focus_text(s.focus), r6);
    }
}

/// Whether a line is read back from a text as it is.
spec fn whole_line(line: Seq<char>) -> bool {
    !line.contains('\n') && text::strip_cr(line) == line
}

proof fn lemma_quoted_line_whole(key: Seq<char>, value: Option<Seq<char>>)
    requires
        plain_word(key),
        value matches Some(v) ==> !v.contains('\n'),
    ensures
        forall|i: int|
            0 <= i < quoted_line(key, value).len() ==> whole_line(
                #[trigger] quoted_line(key, value)[i],
            ),
{
    if let Some(v) = value {
        lemma_quoted_entry(no_session(), key, v);
    }
}

proof fn lemma_session_lines_whole(s: Session, i: int)
    requires
        session_lines_whole(s),
        0 <= i < session_lines(s).len(),
    ensures
        whole_line(session_lines(s)[i]),
{
    lemma_key_words();
    let l1 = quoted_line("account_id"@, s.account_id);
    let l2 = quoted_line("folder_id"@, s.folder_id);
    let l3 = quoted_line("note_id"@, s.note_id);
    let l4 = quoted_line("search_query"@, s.search_query);
    let l5 = scroll_line(s.preview_scroll);
    let l6 = quoted_line("focus"@, focus_text(s.focus));
    let all = session_lines(s);
    let a = l1.len() as int;
    let b = a + l2.len();
    let c = b + l3.len();
    let d = c + l4.len();
    let e = d + l5.len();
    if i < a {
        lemma_quoted_line_whole("account_id"@, s.account_id);
        assert(all[i] == l1[i]);
    } else if i < b {
        lemma_quoted_line_whole("folder_id"@, s.folder_id);
        assert(all[i] == l2[i - a]);
    } else if i < c {
        lemma_quoted_line_whole("note_id"@, s.note_id);
        assert(all[i] == l3[i - b]);
    } else if i < d {
        lemma_quoted_line_whole("search_query"@, s.search_query);
        assert(all[i] == l4[i - c]);
    } else if i < e {
        lemma_scroll_line(no_session(), s.preview_scroll, Seq::<Seq<char>>::empty());
        assert(all[i] == l5[i - d]);
    } else {
        lemma_focus_names(s.focus->0);
        lemma_quoted_line_whole("focus"@, focus_text(s.focus));
        assert(all[i] == l6[i - e]);
    }
}

/// A session that is written reads back as it was, where none of its texts holds a
/// line feed.
pub proof fn law_session_reads_back(s: Session)
    requires
        session_lines_whole(s),
    ensures
        session_of(session_text(s)) == Ok::<Session, Seq<char>>(s),
{
    let none = Seq::<Seq<char>>::empty();
    let all = session_lines(s);
    lemma_session_lines_read(s);
    if all.len() == 0 {
        assert(all =~= none);
        let end = session_text(s);
        assert(end =~= Seq::<char>::empty() + seq!['\n'] + Seq::<char>::empty());
        text::lemma_lines_first(Seq::<char>::empty(), Seq::<char>::empty());
        text::lemma_index_of(Seq::<char>::empty(), '\n');
        let one = text::lines(end);
        assert(one =~= seq![Seq::<char>::empty()]);
        assert(one.drop_first() =~= none);
        reveal_with_fuel(read_session_lines, 2);
    } else {
        assert forall|i: int| 0 <= i < all.len() implies !(#[trigger] all[i]).contains('\n')
            && text::strip_cr(all[i]) == all[i] by {
            lemma_session_lines_whole(s, i);
        }
        text::lemma_join_with_feeds(all);
        text::lemma_lines_with_feeds(all);
        assert(text::without_returns(all) =~= all);
    }
}

} // verus!
