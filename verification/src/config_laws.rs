//! What is written to the config file is read back from it.

use vstd::prelude::*;

use crate::config::{
    batch_outcome, bool_text, command_outcome, config_document, config_text, edited_all,
    empty_document, empty_file, file_found, file_taken, interval_allowed, interval_lines, key_name,
    key_named, line_entry, no_overrides, parse_bool, parsed_key, plan_is, presence_in_force,
    read_line, read_lines, resolves, setting_line, setting_lines, solid_lines, source_in_force,
    switch_lines, value_fits, value_in_force, with_value, without_value, ConfigEdit,
    ConfigEditCommand, ConfigEditValue, ConfigKey, ConfigPlan, ConfigText, FileConfig, LineEntry,
    ResolvedConfig,
};
use crate::text;

verus! {

/// Every preference is found by its name.
pub proof fn law_keys_are_found_by_name(key: ConfigKey)
    ensures
        parsed_key(key_name(key)) == Ok::<ConfigKey, Seq<char>>(key),
{
    reveal_strlit("refresh_interval_seconds");
    reveal_strlit("auto_refresh");
    reveal_strlit("preview_wrap");
    reveal_strlit("show_attachment_metadata");
    assert("refresh_interval_seconds"@[0] == 'r');
    assert("auto_refresh"@[0] == 'a');
    assert("preview_wrap"@[0] == 'p');
    assert("show_attachment_metadata"@[0] == 's');
}

/// The line that sets a preference is read as that preference and that value.
proof fn lemma_setting_line(key: ConfigKey, value: Seq<char>)
    requires
        value.len() > 0,
        !value.contains('#'),
        !text::is_space(value[0]),
        !text::is_space(value.last()),
    ensures
        line_entry(setting_line(key, value)) == LineEntry::Pair(key_name(key), value),
        value.contains('\n') || !setting_line(key, value).contains('\n'),
        text::strip_cr(setting_line(key, value)) == setting_line(key, value),
{
    let name = key_name(key);
    let s = setting_line(key, value);
    lemma_key_name(key);
    reveal_strlit(" = ");
    assert(" = "@ =~= seq![' ', '=', ' ']);
    let a = name.push(' ');
    let b = seq![' '] + value;
    assert(s =~= a + seq!['='] + b);
    assert(!s.contains('#')) by {
        if s.contains('#') {
            let i = choose|i: int| 0 <= i < s.len() && s[i] == '#';
            if i < name.len() {
                assert(name.contains('#'));
            } else if i >= name.len() + 3 {
                assert(value[i - name.len() - 3] == '#');
            }
        }
    }
    text::lemma_index_of(s, '#');
    assert(s.take(s.len() as int) =~= s);
    text::lemma_trim_solid(s);
    assert(!a.contains('=')) by {
        if a.contains('=') {
            let i = choose|i: int| 0 <= i < a.len() && a[i] == '=';
            assert(name[i] == '=');
        }
    }
    text::lemma_split_once_joined(a, '=', b);
    text::lemma_trim_pad_end(name, ' ');
    text::lemma_trim_solid(name);
    text::lemma_trim_pad_start(' ', value);
    text::lemma_trim_solid(value);
    if s.contains('\n') && !value.contains('\n') {
        let i = choose|i: int| 0 <= i < s.len() && s[i] == '\n';
        if i < name.len() {
            assert(name[i] == '\n');
        } else if i >= name.len() + 3 {
            assert(value[i - name.len() - 3] == '\n');
        }
    }
}

/// The characters of the names are letters and underscores.
proof fn lemma_key_name(key: ConfigKey)
    ensures
        key_name(key).len() > 0,
        !key_name(key).contains('#'),
        !key_name(key).contains('='),
        !key_name(key).contains('\n'),
        key_name(key)[0] != '[',
        !text::is_space(key_name(key)[0]),
        !text::is_space(key_name(key).last()),
{
    reveal_strlit("refresh_interval_seconds");
    reveal_strlit("auto_refresh");
    reveal_strlit("preview_wrap");
    reveal_strlit("show_attachment_metadata");
    let name = key_name(key);
    assert forall|i: int| 0 <= i < name.len() implies name[i] == '_' || 'a' <= #[trigger] name[i] by {
    }
}

proof fn lemma_bool_text(b: bool)
    ensures
        parse_bool(bool_text(b)) == Some(b),
        bool_text(b).len() > 0,
        !bool_text(b).contains('#'),
        !bool_text(b).contains('\n'),
        !text::is_space(bool_text(b)[0]),
        !text::is_space(bool_text(b).last()),
{
    reveal_strlit("true");
    reveal_strlit("false");
    assert("true"@[0] == 't');
    assert("false"@[0] == 'f');
}

/// Reading the line of a switch sets it.
proof fn lemma_switch_read(doc: ConfigText, key: ConfigKey, value: Option<bool>, rest: Seq<Seq<char>>)
    requires
        !(key is RefreshIntervalSeconds),
        value is None ==> without_value(doc.file, key) == doc.file,
    ensures
        read_lines(doc, true, switch_lines(key, value) + rest) == read_lines(
            ConfigText {
                file: match value {
                    Some(b) => with_value(doc.file, key, ConfigEditValue::Boolean(b)),
                    None => doc.file,
                },
                ..doc
            },
            true,
            rest,
        ),
        forall|i: int|
            0 <= i < switch_lines(key, value).len() ==> !(#[trigger] switch_lines(
                key,
                value,
            )[i]).contains('\n') && text::strip_cr(switch_lines(key, value)[i]) == switch_lines(
                key,
                value,
            )[i],
{
    match value {
        Some(b) => {
            lemma_bool_text(b);
            lemma_setting_line(key, bool_text(b));
            law_keys_are_found_by_name(key);
            let all = switch_lines(key, value) + rest;
            assert(all.drop_first() =~= rest);
            assert(all[0] == setting_line(key, bool_text(b)));
        },
        None => {
            assert(switch_lines(key, value) + rest =~= rest);
        },
    }
}

proof fn lemma_interval_read(doc: ConfigText, value: Option<u64>, rest: Seq<Seq<char>>)
    requires
        doc.file.refresh_interval_seconds is None,
    ensures
        read_lines(doc, true, interval_lines(value) + rest) == read_lines(
            ConfigText {
                file: FileConfig { refresh_interval_seconds: value, ..doc.file },
                ..doc
            },
            true,
            rest,
        ),
        forall|i: int|
            0 <= i < interval_lines(value).len() ==> !(#[trigger] interval_lines(
                value,
            )[i]).contains('\n') && text::strip_cr(interval_lines(value)[i]) == interval_lines(
                value,
            )[i],
{
    match value {
        Some(n) => {
            let digits = text::decimal(n as nat);
            text::lemma_decimal_value(n as nat);
            text::lemma_decimal_parses(n as nat, u64::MAX as nat);
            assert(text::is_digit(digits[0]));
            assert(text::is_digit(digits[digits.len() - 1]));
            assert(!digits.contains('#'));
            assert(!digits.contains('\n'));
            let key = ConfigKey::RefreshIntervalSeconds;
            lemma_setting_line(key, digits);
            law_keys_are_found_by_name(key);
            let all = interval_lines(value) + rest;
            assert(all.drop_first() =~= rest);
            assert(all[0] == setting_line(key, digits));
        },
        None => {
            assert(interval_lines(value) + rest =~= rest);
        },
    }
}

/// Reading the lines of the preferences gives the preferences.
proof fn lemma_settings_read(file: FileConfig, rest: Seq<Seq<char>>)
    ensures
        read_lines(empty_document(), true, setting_lines(file) + rest) == read_lines(
            ConfigText { file, ..empty_document() },
            true,
            rest,
        ),
        forall|i: int|
            0 <= i < setting_lines(file).len() ==> !(#[trigger] setting_lines(file)[i]).contains('\n')
                && text::strip_cr(setting_lines(file)[i]) == setting_lines(file)[i],
{
    let d0 = empty_document();
    let f1 = FileConfig { refresh_interval_seconds: file.refresh_interval_seconds, ..d0.file };
    let f2 = FileConfig { auto_refresh: file.auto_refresh, ..f1 };
    let f3 = FileConfig { preview_wrap: file.preview_wrap, ..f2 };
    let l1 = interval_lines(file.refresh_interval_seconds);
    let l2 = switch_lines(ConfigKey::AutoRefresh, file.auto_refresh);
    let l3 = switch_lines(ConfigKey::PreviewWrap, file.preview_wrap);
    let l4 = switch_lines(ConfigKey::ShowAttachmentMetadata, file.show_attachment_metadata);
    lemma_interval_read(d0, file.refresh_interval_seconds, l2 + (l3 + (l4 + rest)));
    lemma_switch_read(
        ConfigText { file: f1, ..d0 },
        ConfigKey::AutoRefresh,
        file.auto_refresh,
        l3 + (l4 + rest),
    );
    lemma_switch_read(
        ConfigText { file: f2, ..d0 },
        ConfigKey::PreviewWrap,
        file.preview_wrap,
        l4 + rest,
    );
    lemma_switch_read(
        ConfigText { file: f3, ..d0 },
        ConfigKey::ShowAttachmentMetadata,
        file.show_attachment_metadata,
        rest,
    );
    assert(setting_lines(file) + rest =~= l1 + (l2 + (l3 + (l4 + rest))));
    let all = setting_lines(file);
    assert forall|i: int| 0 <= i < all.len() implies !(#[trigger] all[i]).contains('\n')
        && text::strip_cr(all[i]) == all[i] by {
        let a = l1.len() as int;
        let b = a + l2.len();
        let c = b + l3.len();
        if i < a {
            assert(all[i] == l1[i]);
        } else if i < b {
            assert(all[i] == l2[i - a]);
        } else if i < c {
            assert(all[i] == l3[i - b]);
        } else {
            assert(all[i] == l4[i - c]);
        }
    }
}

proof fn lemma_lines_hold_no_feed(s: Seq<char>, i: int)
    requires
        0 <= i < text::lines(s).len(),
    ensures
        !text::lines(s)[i].contains('\n'),
    decreases s.len(),
{
    text::lemma_index_of(s, '\n');
    let k = text::index_of(s, '\n') as int;
    if k < s.len() {
        if i == 0 {
            let first = text::strip_cr(s.take(k));
            if first.contains('\n') {
                let j = choose|j: int| 0 <= j < first.len() && first[j] == '\n';
                assert(s[j] == '\n');
            }
        } else {
            lemma_lines_hold_no_feed(s.skip(k + 1), i - 1);
        }
    } else if s.contains('\n') {
        let j = choose|j: int| 0 <= j < s.len() && s[j] == '\n';
        assert(s[j] == '\n');
    }
}

proof fn lemma_trim_start_blank(s: Seq<char>)
    ensures
        text::trim_start(s).len() == 0 <==> forall|i: int|
            0 <= i < s.len() ==> text::is_space(#[trigger] s[i]),
        text::trim_start(s).len() > 0 ==> !text::is_space(text::trim_start(s)[0]),
    decreases s.len(),
{
    if s.len() > 0 && text::is_space(s[0]) {
        let t = s.drop_first();
        lemma_trim_start_blank(t);
        if forall|i: int| 0 <= i < t.len() ==> text::is_space(#[trigger] t[i]) {
            assert forall|i: int| 0 <= i < s.len() implies text::is_space(#[trigger] s[i]) by {
                if i > 0 {
                    assert(t[i - 1] == s[i]);
                }
            }
        } else {
            let i = choose|i: int| 0 <= i < t.len() && !text::is_space(#[trigger] t[i]);
            assert(s[i + 1] == t[i]);
        }
    }
}

proof fn lemma_trim_end_keeps_solid(s: Seq<char>)
    requires
        s.len() > 0,
        !text::is_space(s[0]),
    ensures
        text::trim_end(s).len() > 0,
    decreases s.len(),
{
    if text::is_space(s.last()) {
        lemma_trim_end_keeps_solid(s.drop_last());
    }
}

/// A line of white space is blank.
proof fn lemma_blank_line(line: Seq<char>)
    requires
        text::trim(line).len() == 0,
    ensures
        line_entry(line) is Blank,
{
    text::lemma_index_of(line, '#');
    let part = line.take(text::index_of(line, '#') as int);
    lemma_trim_start_blank(line);
    if text::trim_start(line).len() > 0 {
        lemma_trim_end_keeps_solid(text::trim_start(line));
    }
    assert forall|i: int| 0 <= i < part.len() implies text::is_space(#[trigger] part[i]) by {
        assert(part[i] == line[i]);
    }
    lemma_trim_start_blank(part);
}

/// Whether a line is kept as it is.
pub open spec fn line_kept(root: bool, line: Seq<char>) -> bool {
    match line_entry(line) {
        LineEntry::Blank => true,
        LineEntry::Section => true,
        LineEntry::Pair(name, _) => !(root && key_named(name) is Some),
        LineEntry::Malformed => false,
    }
}

/// The lines that are kept as they are.
pub open spec fn lines_kept(root: bool, lines: Seq<Seq<char>>) -> Seq<Seq<char>>
    decreases lines.len(),
{
    if lines.len() == 0 {
        seq![]
    } else {
        let rest = lines_kept(root && !(line_entry(lines[0]) is Section), lines.drop_first());
        if line_kept(root, lines[0]) {
            seq![lines[0]] + rest
        } else {
            rest
        }
    }
}

/// Reading lines keeps those that hold no preference; reading these again, without the
/// blank ones, keeps them all and touches no preference.
proof fn lemma_kept_read(doc: ConfigText, other: ConfigText, root: bool, lines: Seq<Seq<char>>)
    requires
        read_lines(doc, root, lines) is Ok,
    ensures
        ({
            let d = read_lines(doc, root, lines)->Ok_0;
            let kept = lines_kept(root, lines);
            let again = read_lines(other, root, solid_lines(kept));
            &&& d.lines == doc.lines + kept
            &&& again is Ok
            &&& again->Ok_0.file == other.file
            &&& again->Ok_0.lines == other.lines + solid_lines(kept)
            &&& (doc.foreign == other.foreign ==> again->Ok_0.foreign == d.foreign)
        }),
        forall|i: int|
            0 <= i < lines_kept(root, lines).len() ==> lines.contains(
                #[trigger] lines_kept(root, lines)[i],
            ),
    decreases lines.len(),
{
    let kept = lines_kept(root, lines);
    if lines.len() == 0 {
        assert(doc.lines + kept =~= doc.lines);
        assert(other.lines + solid_lines(kept) =~= other.lines);
    } else {
        let line = lines[0];
        let tail = lines.drop_first();
        let root2 = root && !(line_entry(line) is Section);
        let rest = lines_kept(root2, tail);
        let step = read_line(doc, root, line)->Ok_0;
        assert forall|i: int| 0 <= i < kept.len() implies lines.contains(#[trigger] kept[i]) by {
            lemma_kept_read(step.0, other, root2, tail);
            if line_kept(root, line) && i == 0 {
                assert(lines[0] == kept[i]);
            } else {
                let j = if line_kept(root, line) {
                    i - 1
                } else {
                    i
                };
                assert(rest[j] == kept[i]);
                let k = choose|k: int| 0 <= k < tail.len() && tail[k] == rest[j];
                assert(lines[k + 1] == kept[i]);
            }
        }
        if line_kept(root, line) {
            assert(kept.drop_first() =~= rest);
            assert(kept[0] == line);
            if text::trim(line).len() == 0 {
                lemma_blank_line(line);
                lemma_kept_read(step.0, other, root2, tail);
                assert(solid_lines(kept) == solid_lines(rest));
            } else {
                let other2 = read_line(other, root, line)->Ok_0.0;
                lemma_kept_read(step.0, other2, root2, tail);
                let solid = solid_lines(kept);
                assert(solid == seq![line] + solid_lines(rest));
                assert(solid.drop_first() =~= solid_lines(rest));
                assert(other2.lines + solid_lines(rest) =~= other.lines + solid);
            }
            assert(step.0.lines + rest =~= doc.lines + kept);
        } else {
            lemma_kept_read(step.0, other, root2, tail);
        }
    }
}

proof fn lemma_solid_lines(lines: Seq<Seq<char>>)
    ensures
        forall|i: int|
            0 <= i < solid_lines(lines).len() ==> lines.contains(#[trigger] solid_lines(lines)[i]),
    decreases lines.len(),
{
    if lines.len() > 0 {
        let tail = lines.drop_first();
        lemma_solid_lines(tail);
        let solid = solid_lines(lines);
        let rest = solid_lines(tail);
        assert forall|i: int| 0 <= i < solid.len() implies lines.contains(#[trigger] solid[i]) by {
            if text::trim(lines[0]).len() > 0 && i == 0 {
                assert(lines[0] == solid[0]);
            } else {
                let j = if text::trim(lines[0]).len() > 0 {
                    i - 1
                } else {
                    i
                };
                assert(solid[i] == rest[j]);
                let k = choose|k: int| 0 <= k < tail.len() && tail[k] == rest[j];
                assert(lines[k + 1] == solid[i]);
            }
        }
    }
}

/// A carriage return at the end of a line makes no difference to what the line says.
proof fn lemma_line_without_return(line: Seq<char>)
    ensures
        line_entry(text::strip_cr(line)) == line_entry(line),
{
    if line.len() > 0 && line.last() == '\r' {
        let s = line.drop_last();
        text::lemma_index_of(line, '#');
        text::lemma_index_of(s, '#');
        let k = text::index_of(line, '#') as int;
        let j = text::index_of(s, '#') as int;
        if k < line.len() {
            assert(s[k] == '#');
            assert(s.contains('#'));
            assert(line[j] == '#');
            assert(j == k);
            assert(s.take(j) =~= line.take(k));
        } else {
            if j < s.len() {
                assert(line[j] == '#');
                assert(line.contains('#'));
            }
            assert(s.take(j) =~= s);
            assert(line.take(k) =~= s.push('\r'));
            text::lemma_trim_pad_end(s, '\r');
        }
    }
}

/// Lines without the carriage returns at their ends say what they said with them.
proof fn lemma_read_without_returns(doc: ConfigText, root: bool, lines: Seq<Seq<char>>)
    requires
        read_lines(doc, root, lines) is Ok,
    ensures
        ({
            let d = read_lines(doc, root, lines)->Ok_0;
            read_lines(
                ConfigText { lines: text::without_returns(doc.lines), ..doc },
                root,
                text::without_returns(lines),
            ) == Ok::<ConfigText, Seq<char>>(
                ConfigText { lines: text::without_returns(d.lines), ..d },
            )
        }),
    decreases lines.len(),
{
    let bare = text::without_returns(lines);
    if lines.len() > 0 {
        let line = lines[0];
        let other = ConfigText { lines: text::without_returns(doc.lines), ..doc };
        lemma_line_without_return(line);
        let (next, at_root) = read_line(doc, root, line)->Ok_0;
        lemma_read_without_returns(next, at_root, lines.drop_first());
        assert(bare[0] == text::strip_cr(line));
        assert(bare.drop_first() =~= text::without_returns(lines.drop_first()));
        assert(text::without_returns(doc.lines.push(line)) =~= other.lines.push(bare[0]));
        assert(read_line(other, root, bare[0]) == Ok::<(ConfigText, bool), Seq<char>>(
            (ConfigText { lines: text::without_returns(next.lines), ..next }, at_root),
        ));
    }
}

/// A file that was read and is written with any preferences reads back with these
/// preferences, and with every line that it keeps and that is not blank, in order. A
/// line that ends in a lone carriage return loses it; where none does, the lines read
/// back as they were.
pub proof fn law_written_file_reads_back(contents: Seq<char>, file: FileConfig)
    requires
        config_document(contents) is Ok,
    ensures
        ({
            let doc = config_document(contents)->Ok_0;
            let kept = solid_lines(doc.lines);
            &&& config_document(config_text(ConfigText { file, ..doc })) == Ok::<
                ConfigText,
                Seq<char>,
            >(ConfigText { file, lines: text::without_returns(kept), foreign: doc.foreign })
            &&& (forall|i: int|
                0 <= i < doc.lines.len() ==> text::strip_cr(#[trigger] doc.lines[i])
                    == doc.lines[i]) ==> text::without_returns(kept) == kept
        }),
{
    let doc = config_document(contents)->Ok_0;
    let source = text::lines(contents);
    let kept = lines_kept(true, source);
    let settings = setting_lines(file);
    let start = ConfigText { file, ..empty_document() };
    lemma_kept_read(empty_document(), start, true, source);
    assert(doc.lines =~= kept);
    let solid = solid_lines(kept);
    lemma_settings_read(file, solid);
    lemma_solid_lines(kept);
    let all = settings + solid;
    assert forall|i: int| 0 <= i < all.len() implies !(#[trigger] all[i]).contains('\n') by {
        if i < settings.len() {
            assert(all[i] == settings[i]);
        } else {
            let line = solid[i - settings.len()];
            let k = choose|k: int| 0 <= k < kept.len() && kept[k] == line;
            assert(source.contains(kept[k]));
            let j = choose|j: int| 0 <= j < source.len() && source[j] == kept[k];
            lemma_lines_hold_no_feed(contents, j);
        }
    }
    text::lemma_lines_with_feeds(all);
    assert(start.lines + solid =~= solid);
    lemma_read_without_returns(empty_document(), true, all);
    assert(text::without_returns(empty_document().lines) =~= empty_document().lines);
    if forall|i: int|
        0 <= i < doc.lines.len() ==> text::strip_cr(#[trigger] doc.lines[i]) == doc.lines[i] {
        assert forall|i: int| 0 <= i < solid.len() implies text::strip_cr(#[trigger] solid[i])
            == solid[i] by {
            let k = choose|k: int| 0 <= k < kept.len() && kept[k] == solid[i];
            assert(text::strip_cr(doc.lines[k]) == doc.lines[k]);
        }
        assert(text::without_returns(solid) =~= solid);
    }
}

/// Setting a preference changes that preference and no other, and keeps the lines that
/// hold none.
pub proof fn law_set_changes_one_preference(
    contents: Seq<char>,
    key: ConfigKey,
    value: ConfigEditValue,
)
    requires
        config_document(contents) is Ok,
        value_fits(key, value),
    ensures
        ({
            let doc = config_document(contents)->Ok_0;
            let kept = solid_lines(doc.lines);
            let written = command_outcome(doc, ConfigEditCommand::Assign(key, value));
            &&& written is Some
            &&& config_document(written->0) == Ok::<ConfigText, Seq<char>>(
                ConfigText {
                    file: with_value(doc.file, key, value),
                    lines: text::without_returns(kept),
                    foreign: doc.foreign,
                },
            )
            &&& without_value(with_value(doc.file, key, value), key) == without_value(doc.file, key)
            &&& (forall|i: int|
                0 <= i < doc.lines.len() ==> text::strip_cr(#[trigger] doc.lines[i])
                    == doc.lines[i]) ==> text::without_returns(kept) == kept
        }),
{
    let doc = config_document(contents)->Ok_0;
    law_written_file_reads_back(contents, with_value(doc.file, key, value));
}

/// Changes that are made at once read back as the preferences that they make in order.
/// The file goes where they leave no preference in it and nothing of anyone else.
pub proof fn law_changes_read_back(contents: Seq<char>, edits: Seq<ConfigEdit>)
    requires
        config_document(contents) is Ok,
    ensures
        ({
            let doc = config_document(contents)->Ok_0;
            let file = edited_all(doc.file, edits);
            match batch_outcome(doc, edits) {
                Some(written) => config_document(written) == Ok::<ConfigText, Seq<char>>(
                    ConfigText {
                        file,
                        lines: text::without_returns(solid_lines(doc.lines)),
                        foreign: doc.foreign,
                    },
                ),
                None => file == empty_file() && !doc.foreign,
            }
        }),
{
    let doc = config_document(contents)->Ok_0;
    law_written_file_reads_back(contents, edited_all(doc.file, edits));
}

/// A preference that was set is in force from the file when the preferences are resolved
/// again, with no warning. The value, the source and the presence of every other
/// preference stay as they were.
pub proof fn law_set_preference_is_in_force(
    read: Result<Option<String>, String>,
    key: ConfigKey,
    value: ConfigEditValue,
    written: String,
    before: ResolvedConfig,
    after: ResolvedConfig,
)
    requires
        file_found(read) is Ok,
        value_fits(key, value),
        value matches ConfigEditValue::RefreshIntervalSeconds(n) ==> interval_allowed(n),
        plan_is(
            ConfigPlan::Write(written),
            command_outcome(file_found(read)->Ok_0, ConfigEditCommand::Assign(key, value)),
        ),
        resolves(before, file_taken(read).0, no_overrides()),
        resolves(after, file_taken(Ok(Some(written))).0, no_overrides()),
    ensures
        file_taken(Ok(Some(written))).1 is None,
        value_in_force(after, key) == value,
        source_in_force(after, key) is File,
        presence_in_force(after, key),
        forall|other: ConfigKey|
            other != key ==> #[trigger] value_in_force(after, other) == value_in_force(before, other)
                && source_in_force(after, other) == source_in_force(before, other)
                && presence_in_force(after, other) == presence_in_force(before, other),
{
    let doc = file_found(read)->Ok_0;
    let contents = match read {
        Ok(Some(contents)) => contents@,
        _ => Seq::<char>::empty(),
    };
    assert(config_document(contents) == Ok::<ConfigText, Seq<char>>(doc));
    assert(file_taken(read).0 == doc.file);
    law_set_changes_one_preference(contents, key, value);
    let file = with_value(doc.file, key, value);
    assert(file_taken(Ok(Some(written))) == (file, None::<Seq<char>>));
    assert forall|other: ConfigKey| other != key implies #[trigger] value_in_force(after, other)
        == value_in_force(before, other) && source_in_force(after, other) == source_in_force(
        before,
        other,
    ) && presence_in_force(after, other) == presence_in_force(before, other) by {
        assert(before.file_presence@.len() == 4 && after.file_presence@.len() == 4);
    }
}

} // verus!
