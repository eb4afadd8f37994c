//! Text as sequences of characters: trimming, lines, decimals, searching, joining.

use vstd::prelude::*;

verus! {

/// `String::push` appends one character at the end.
pub assume_specification[ String::push ](s: &mut String, ch: char)
    ensures
        final(s)@ == old(s)@.push(ch),
;

/// `<str as PartialEq>::eq` compares the two texts character by character.
pub assume_specification[ <str as PartialEq<str>>::eq ](a: &str, b: &str) -> (r: bool)
    ensures
        r == (a@ == b@),
;

/// The characters with the Unicode property `White_Space`.
pub open spec fn is_space(c: char) -> bool {
    let n = c as u32;
    ||| 0x9 <= n <= 0xd
    ||| n == 0x20
    ||| n == 0x85
    ||| n == 0xa0
    ||| n == 0x1680
    ||| 0x2000 <= n <= 0x200a
    ||| n == 0x2028
    ||| n == 0x2029
    ||| n == 0x202f
    ||| n == 0x205f
    ||| n == 0x3000
}

/// `char::is_whitespace` tells whether the character has the Unicode property
/// `White_Space`; the property's characters are those of `is_space`.
pub assume_specification[ char::is_whitespace ](c: char) -> (r: bool)
    ensures
        r == is_space(c),
;

/// What `str::to_lowercase` makes of a text.
pub uninterp spec fn lowercase_of(s: Seq<char>) -> Seq<char>;

/// `str::to_lowercase` is a function of the text alone (the Unicode lowercase
/// mapping); what it maps a given text to is left to that name.
pub assume_specification[ str::to_lowercase ](s: &str) -> (r: String)
    ensures
        r@ == lowercase_of(s@),
;

// ---------------------------------------------------------------------------
// Characters in and out
// ---------------------------------------------------------------------------

/// The characters of a text.
pub fn chars_of(s: &str) -> (r: Vec<char>)
    ensures
        r@ == s@,
{
    let mut out: Vec<char> = Vec::new();
    for c in it: s.chars()
        invariant
            it.seq() == s@,
            out@ == s@.take(it.index()),
    {
        out.push(c);
        assert(s@.take(it.index() + 1) =~= s@.take(it.index()).push(c));
    }
    assert(s@.take(s@.len() as int) =~= s@);
    out
}

/// The text made of the characters from `from` up to `to`.
pub fn string_range(cs: &Vec<char>, from: usize, to: usize) -> (r: String)
    requires
        from <= to <= cs@.len(),
    ensures
        r@ == cs@.subrange(from as int, to as int),
{
    let mut out = String::new();
    let mut i: usize = from;
    assert(cs@.subrange(from as int, from as int) =~= Seq::<char>::empty());
    while i < to
        invariant
            from <= i <= to <= cs@.len(),
            out@ == cs@.subrange(from as int, i as int),
        decreases to - i,
    {
        out.push(cs[i]);
        assert(cs@.subrange(from as int, i + 1) =~= cs@.subrange(from as int, i as int).push(
            cs@[i as int],
        ));
        i = i + 1;
    }
    out
}

/// A text as an owned string.
pub fn owned(s: &str) -> (r: String)
    ensures
        r@ == s@,
{
    s.to_owned()
}

/// Two texts, one after the other.
pub fn cat(a: &str, b: &str) -> (r: String)
    ensures
        r@ == a@ + b@,
{
    a.to_owned().concat(b)
}

/// Three texts, one after the other.
pub fn cat3(a: &str, b: &str, c: &str) -> (r: String)
    ensures
        r@ == a@ + b@ + c@,
{
    a.to_owned().concat(b).concat(c)
}

/// One character as a text.
pub fn string_of_char(c: char) -> (r: String)
    ensures
        r@ == seq![c],
{
    let mut out = String::new();
    out.push(c);
    assert(out@ =~= seq![c]);
    out
}

// ---------------------------------------------------------------------------
// Trimming
// ---------------------------------------------------------------------------

/// The text without the white space at its start.
pub open spec fn trim_start(s: Seq<char>) -> Seq<char>
    decreases s.len(),
{
    if s.len() > 0 && is_space(s[0]) {
        trim_start(s.drop_first())
    } else {
        s
    }
}

/// The text without the white space at its end.
pub open spec fn trim_end(s: Seq<char>) -> Seq<char>
    decreases s.len(),
{
    if s.len() > 0 && is_space(s.last()) {
        trim_end(s.drop_last())
    } else {
        s
    }
}

/// The text without the white space at either end.
pub open spec fn trim(s: Seq<char>) -> Seq<char> {
    trim_end(trim_start(s))
}

/// The part of `cs[from..to]` that remains without white space at either end.
pub fn trim_range(cs: &Vec<char>, from: usize, to: usize) -> (r: (usize, usize))
    requires
        from <= to <= cs@.len(),
    ensures
        from <= r.0 <= r.1 <= to,
        cs@.subrange(r.0 as int, r.1 as int) == trim(cs@.subrange(from as int, to as int)),
{
    let mut a: usize = from;
    while a < to && cs[a].is_whitespace()
        invariant
            from <= a <= to <= cs@.len(),
            trim_start(cs@.subrange(a as int, to as int)) == trim_start(
                cs@.subrange(from as int, to as int),
            ),
        decreases to - a,
    {
        assert(cs@.subrange(a as int, to as int).drop_first() =~= cs@.subrange(a + 1, to as int));
        a = a + 1;
    }
    let mut b: usize = to;
    while b > a && cs[b - 1].is_whitespace()
        invariant
            from <= a <= b <= to <= cs@.len(),
            trim_end(cs@.subrange(a as int, b as int)) == trim_end(
                cs@.subrange(a as int, to as int),
            ),
        decreases b,
    {
        assert(cs@.subrange(a as int, b as int).drop_last() =~= cs@.subrange(a as int, b - 1));
        b = b - 1;
    }
    (a, b)
}

/// The text without the white space at either end.
pub fn trimmed(s: &str) -> (r: String)
    ensures
        r@ == trim(s@),
{
    let cs = chars_of(s);
    let n = cs.len();
    let (a, b) = trim_range(&cs, 0, n);
    assert(cs@.subrange(0, n as int) =~= cs@);
    string_range(&cs, a, b)
}

/// Trimming changes nothing where neither end is white space.
pub proof fn lemma_trim_solid(s: Seq<char>)
    requires
        s.len() > 0,
        !is_space(s[0]),
        !is_space(s.last()),
    ensures
        trim(s) == s,
{
}

/// One white space character in front of a text makes no difference to trimming.
pub proof fn lemma_trim_pad_start(c: char, s: Seq<char>)
    requires
        is_space(c),
    ensures
        trim(seq![c] + s) == trim(s),
{
    assert((seq![c] + s).drop_first() =~= s);
}

/// One white space character behind a text makes no difference to trimming.
pub proof fn lemma_trim_pad_end(s: Seq<char>, c: char)
    requires
        is_space(c),
    ensures
        trim(s.push(c)) == trim(s),
    decreases s.len(),
{
    let t = s.push(c);
    if s.len() == 0 {
        assert(t.drop_first() =~= s);
        assert(trim_start(t) == trim_start(s));
    } else if is_space(s[0]) {
        assert(t.drop_first() =~= s.drop_first().push(c));
        lemma_trim_pad_end(s.drop_first(), c);
    } else {
        assert(t.drop_last() =~= s);
    }
}

// ---------------------------------------------------------------------------
// Searching and splitting
// ---------------------------------------------------------------------------

/// The position of the first `c`, or the length where there is none.
pub open spec fn index_of(s: Seq<char>, c: char) -> nat
    decreases s.len(),
{
    if s.len() == 0 {
        0
    } else if s[0] == c {
        0
    } else {
        1 + index_of(s.drop_first(), c)
    }
}

pub proof fn lemma_index_of(s: Seq<char>, c: char)
    ensures
        0 <= index_of(s, c) <= s.len(),
        index_of(s, c) < s.len() ==> s[index_of(s, c) as int] == c,
        forall|i: int| 0 <= i < index_of(s, c) ==> s[i] != c,
        index_of(s, c) < s.len() <==> s.contains(c),
    decreases s.len(),
{
    if s.len() > 0 && s[0] != c {
        lemma_index_of(s.drop_first(), c);
        assert forall|i: int| 0 <= i < index_of(s, c) implies s[i] != c by {
            if i > 0 {
                assert(s[i] == s.drop_first()[i - 1]);
            }
        }
        if s.contains(c) {
            let i = choose|i: int| 0 <= i < s.len() && s[i] == c;
            assert(s.drop_first()[i - 1] == c);
        }
    } else if s.len() > 0 {
        assert(s[0] == c);
    }
}

/// The first `c` of a text that continues one without it.
pub proof fn lemma_index_of_joined(a: Seq<char>, c: char, b: Seq<char>)
    requires
        !a.contains(c),
    ensures
        index_of(a + seq![c] + b, c) == a.len(),
{
    let s = a + seq![c] + b;
    lemma_index_of(s, c);
    assert(s[a.len() as int] == c);
    let k = index_of(s, c) as int;
    if k < a.len() {
        assert(a[k] == c);
        assert(a.contains(c));
    }
}

/// The position of the first `c` in `cs[from..to]`, counted from the start of `cs`.
pub fn find_char(cs: &Vec<char>, from: usize, to: usize, c: char) -> (r: usize)
    requires
        from <= to <= cs@.len(),
    ensures
        from <= r <= to,
        r - from == index_of(cs@.subrange(from as int, to as int), c),
{
    let mut i: usize = from;
    while i < to && cs[i] != c
        invariant
            from <= i <= to <= cs@.len(),
            index_of(cs@.subrange(from as int, to as int), c) == i - from + index_of(
                cs@.subrange(i as int, to as int),
                c,
            ),
        decreases to - i,
    {
        assert(cs@.subrange(i as int, to as int).drop_first() =~= cs@.subrange(i + 1, to as int));
        i = i + 1;
    }
    i
}

/// The parts before and after the first `c`; none where `c` does not occur.
pub open spec fn split_once(s: Seq<char>, c: char) -> Option<(Seq<char>, Seq<char>)> {
    let i = index_of(s, c) as int;
    if i < s.len() {
        Some((s.take(i), s.skip(i + 1)))
    } else {
        None
    }
}

pub proof fn lemma_split_once_joined(a: Seq<char>, c: char, b: Seq<char>)
    requires
        !a.contains(c),
    ensures
        split_once(a + seq![c] + b, c) == Some((a, b)),
{
    lemma_index_of_joined(a, c, b);
    let s = a + seq![c] + b;
    assert(s.take(a.len() as int) =~= a);
    assert(s.skip(a.len() as int + 1) =~= b);
}

/// The parts before and after the first `c`; none where `c` does not occur.
pub fn split_at_char(s: &str, c: char) -> (r: Option<(String, String)>)
    ensures
        match r {
            Some((a, b)) => split_once(s@, c) == Some((a@, b@)),
            None => split_once(s@, c) is None,
        },
{
    let cs = chars_of(s);
    let n = cs.len();
    let i = find_char(&cs, 0, n, c);
    assert(cs@.subrange(0, n as int) =~= s@);
    if i < n {
        assert(s@.take(i as int) =~= cs@.subrange(0, i as int));
        assert(s@.skip(i + 1) =~= cs@.subrange(i + 1, n as int));
        Some((string_range(&cs, 0, i), string_range(&cs, i + 1, n)))
    } else {
        None
    }
}

/// Whether `needle` occurs in `s`.
pub open spec fn occurs(s: Seq<char>, needle: Seq<char>) -> bool {
    exists|i: int|
        0 <= i <= s.len() - needle.len() && #[trigger] s.subrange(i, i + needle.len()) == needle
}

/// Whether `needle` occurs in `s`.
pub fn text_occurs(s: &str, needle: &str) -> (r: bool)
    ensures
        r == occurs(s@, needle@),
{
    let h = chars_of(s);
    let n = chars_of(needle);
    if n.len() > h.len() {
        return false;
    }
    let last: usize = h.len() - n.len();
    let mut i: usize = 0;
    while i <= last
        invariant
            h@ == s@,
            n@ == needle@,
            last == h@.len() - n@.len(),
            n@.len() <= h@.len(),
            i <= last + 1,
            forall|k: int|
                0 <= k < i ==> #[trigger] s@.subrange(k, k + needle@.len()) != needle@,
        decreases last + 1 - i,
    {
        let mut j: usize = 0;
        while j < n.len() && h[i + j] == n[j]
            invariant
                h@ == s@,
                n@ == needle@,
                i + n.len() <= h.len(),
                j <= n@.len(),
                forall|k: int| 0 <= k < j ==> h@[i + k] == n@[k],
            decreases n@.len() - j,
        {
            j = j + 1;
        }
        if j == n.len() {
            assert(s@.subrange(i as int, i + needle@.len()) =~= needle@);
            return true;
        }
        assert(s@.subrange(i as int, i + needle@.len())[j as int] != needle@[j as int]);
        if i == last {
            return false;
        }
        i = i + 1;
    }
    false
}

/// Whether `s` begins with `prefix`.
pub open spec fn starts_with(s: Seq<char>, prefix: Seq<char>) -> bool {
    prefix.len() <= s.len() && s.take(prefix.len() as int) == prefix
}

/// Whether `s` begins with `prefix`.
pub fn text_starts_with(s: &str, prefix: &str) -> (r: bool)
    ensures
        r == starts_with(s@, prefix@),
{
    let h = chars_of(s);
    let n = chars_of(prefix);
    if n.len() > h.len() {
        return false;
    }
    let mut j: usize = 0;
    while j < n.len()
        invariant
            h@ == s@,
            n@ == prefix@,
            j <= n@.len() <= h@.len(),
            forall|k: int| 0 <= k < j ==> h@[k] == n@[k],
        decreases n@.len() - j,
    {
        if h[j] != n[j] {
            assert(s@.take(prefix@.len() as int)[j as int] != prefix@[j as int]);
            return false;
        }
        j = j + 1;
    }
    assert(s@.take(prefix@.len() as int) =~= prefix@);
    true
}

// ---------------------------------------------------------------------------
// Lines
// ---------------------------------------------------------------------------

/// A line without the carriage return that belongs to its line break.
pub open spec fn strip_cr(s: Seq<char>) -> Seq<char> {
    if s.len() > 0 && s.last() == '\r' {
        s.drop_last()
    } else {
        s
    }
}

/// The lines of a text: each ends in a line feed, or in a carriage return and a
/// line feed; the last one may end with the text instead.
pub open spec fn lines(s: Seq<char>) -> Seq<Seq<char>>
    decreases s.len(),
{
    if s.len() == 0 {
        seq![]
    } else {
        let i = index_of(s, '\n') as int;
        if i < s.len() {
            seq![strip_cr(s.take(i))] + lines(s.skip(i + 1))
        } else {
            seq![s]
        }
    }
}

/// The texts between the line feeds; a text without any is one of them.
pub open spec fn split_feeds(s: Seq<char>) -> Seq<Seq<char>>
    decreases s.len(),
{
    let i = index_of(s, '\n') as int;
    if i < s.len() {
        seq![s.take(i)] + split_feeds(s.skip(i + 1))
    } else {
        seq![s]
    }
}

/// The texts of a sequence of strings.
pub open spec fn texts(v: Seq<String>) -> Seq<Seq<char>> {
    Seq::new(v.len(), |i: int| v[i]@)
}

pub proof fn lemma_texts_push(v: Seq<String>, s: String)
    ensures
        texts(v.push(s)) == texts(v).push(s@),
{
    assert(texts(v.push(s)) =~= texts(v).push(s@));
}

/// The lines of a text.
pub fn text_lines(s: &str) -> (r: Vec<String>)
    ensures
        texts(r@) == lines(s@),
{
    let cs = chars_of(s);
    let n = cs.len();
    let mut out: Vec<String> = Vec::new();
    let mut i: usize = 0;
    proof {
        lemma_index_of(s@, '\n');
        assert(cs@.subrange(0, n as int) =~= s@);
        assert(texts(out@) + lines(s@) =~= lines(s@));
    }
    while i < n
        invariant
            cs@ == s@,
            n == cs@.len(),
            i <= n,
            texts(out@) + lines(cs@.subrange(i as int, n as int)) == lines(s@),
        decreases n - i,
    {
        let ghost rest = cs@.subrange(i as int, n as int);
        let e = find_char(&cs, i, n, '\n');
        proof {
            lemma_index_of(rest, '\n');
        }
        if e < n {
            let cut: usize = if e > i && cs[e - 1] == '\r' {
                e - 1
            } else {
                e
            };
            let line = string_range(&cs, i, cut);
            proof {
                lemma_texts_push(out@, line);
                lemma_index_of(cs@.subrange(e + 1, n as int), '\n');
                assert(rest.take(e - i) =~= cs@.subrange(i as int, e as int));
                assert(rest.skip(e - i + 1) =~= cs@.subrange(e + 1, n as int));
                assert(line@ =~= strip_cr(rest.take(e - i)));
                assert(texts(out@) + (seq![line@] + lines(cs@.subrange(e + 1, n as int)))
                    =~= texts(out@).push(line@) + lines(cs@.subrange(e + 1, n as int)));
            }
            out.push(line);
            i = e + 1;
        } else {
            let line = string_range(&cs, i, n);
            proof {
                lemma_texts_push(out@, line);
                assert(cs@.subrange(n as int, n as int) =~= Seq::<char>::empty());
                assert(texts(out@) + seq![line@] =~= texts(out@).push(line@) + Seq::<
                    Seq<char>,
                >::empty());
                lemma_index_of(Seq::<char>::empty(), '\n');
            }
            out.push(line);
            i = n;
        }
    }
    proof {
        assert(cs@.subrange(n as int, n as int) =~= Seq::<char>::empty());
        lemma_index_of(Seq::<char>::empty(), '\n');
        assert(texts(out@) + Seq::<Seq<char>>::empty() =~= texts(out@));
    }
    out
}

/// The texts between the line feeds.
pub fn text_split_feeds(s: &str) -> (r: Vec<String>)
    ensures
        texts(r@) == split_feeds(s@),
{
    let cs = chars_of(s);
    let n = cs.len();
    let mut out: Vec<String> = Vec::new();
    let mut i: usize = 0;
    proof {
        assert(cs@.subrange(0, n as int) =~= s@);
        assert(texts(out@) + split_feeds(s@) =~= split_feeds(s@));
    }
    loop
        invariant
            cs@ == s@,
            n == cs@.len(),
            i <= n,
            texts(out@) + split_feeds(cs@.subrange(i as int, n as int)) == split_feeds(s@),
        decreases n - i,
    {
        let ghost rest = cs@.subrange(i as int, n as int);
        let e = find_char(&cs, i, n, '\n');
        let line = string_range(&cs, i, e);
        proof {
            lemma_index_of(rest, '\n');
            lemma_texts_push(out@, line);
            assert(rest.take(e - i) =~= line@);
        }
        if e < n {
            proof {
                assert(rest.skip(e - i + 1) =~= cs@.subrange(e + 1, n as int));
                assert(texts(out@) + (seq![line@] + split_feeds(cs@.subrange(e + 1, n as int)))
                    =~= texts(out@).push(line@) + split_feeds(cs@.subrange(e + 1, n as int)));
            }
            out.push(line);
            i = e + 1;
        } else {
            proof {
                assert(rest =~= line@);
                assert(texts(out@) + seq![line@] =~= texts(out@).push(line@));
            }
            out.push(line);
            return out;
        }
    }
}

/// The texts in order, `sep` between each two of them.
pub open spec fn join(v: Seq<Seq<char>>, sep: Seq<char>) -> Seq<char>
    decreases v.len(),
{
    if v.len() == 0 {
        seq![]
    } else if v.len() == 1 {
        v[0]
    } else {
        join(v.drop_last(), sep) + sep + v.last()
    }
}

/// The texts in order, `sep` between each two of them.
pub fn joined(v: &Vec<String>, sep: &str) -> (r: String)
    ensures
        r@ == join(texts(v@), sep@),
{
    let mut out = String::new();
    let mut i: usize = 0;
    let ghost all = texts(v@);
    proof {
        assert(all.take(0) =~= Seq::<Seq<char>>::empty());
    }
    while i < v.len()
        invariant
            all == texts(v@),
            i <= v@.len(),
            out@ == join(all.take(i as int), sep@),
        decreases v@.len() - i,
    {
        proof {
            assert(all.take(i + 1).drop_last() =~= all.take(i as int));
        }
        if i > 0 {
            out.append(sep);
        } else {
            assert(out@ + v@[0]@ =~= v@[0]@);
        }
        out.append(v[i].as_str());
        i = i + 1;
    }
    assert(all.take(v@.len() as int) =~= all);
    out
}

/// A line is read back from a text that begins with it.
pub proof fn lemma_lines_first(line: Seq<char>, rest: Seq<char>)
    requires
        !line.contains('\n'),
    ensures
        lines(line + seq!['\n'] + rest) == seq![strip_cr(line)] + lines(rest),
{
    let s = line + seq!['\n'] + rest;
    lemma_index_of(s, '\n');
    lemma_index_of(rest, '\n');
    lemma_index_of_joined(line, '\n', rest);
    assert(s.take(line.len() as int) =~= line);
    assert(s.skip(line.len() as int + 1) =~= rest);
}

/// What each line contributes to a text: itself and a line feed.
pub open spec fn with_feeds(v: Seq<Seq<char>>) -> Seq<char>
    decreases v.len(),
{
    if v.len() == 0 {
        seq![]
    } else {
        v[0] + seq!['\n'] + with_feeds(v.drop_first())
    }
}

/// Joined lines with a line feed behind them are the lines with a feed each.
pub proof fn lemma_join_with_feeds(v: Seq<Seq<char>>)
    requires
        v.len() > 0,
    ensures
        join(v, seq!['\n']) + seq!['\n'] == with_feeds(v),
    decreases v.len(),
{
    reveal_with_fuel(with_feeds, 2);
    if v.len() == 1 {
        assert(v.drop_first() =~= Seq::<Seq<char>>::empty());
        assert(v[0] + seq!['\n'] + Seq::<char>::empty() =~= v[0] + seq!['\n']);
    } else {
        lemma_join_with_feeds(v.drop_last());
        lemma_with_feeds_push(v.drop_last(), v.last());
        assert(v.drop_last().push(v.last()) =~= v);
    }
}

pub proof fn lemma_with_feeds_push(v: Seq<Seq<char>>, line: Seq<char>)
    ensures
        with_feeds(v.push(line)) == with_feeds(v) + line + seq!['\n'],
    decreases v.len(),
{
    reveal_with_fuel(with_feeds, 2);
    if v.len() == 0 {
        assert(v.push(line).drop_first() =~= Seq::<Seq<char>>::empty());
        assert(line + seq!['\n'] + Seq::<char>::empty() =~= Seq::<char>::empty() + line + seq![
            '\n',
        ]);
    } else {
        lemma_with_feeds_push(v.drop_first(), line);
        assert(v.push(line).drop_first() =~= v.drop_first().push(line));
        assert(v[0] + seq!['\n'] + (with_feeds(v.drop_first()) + line + seq!['\n']) =~= v[0]
            + seq!['\n'] + with_feeds(v.drop_first()) + line + seq!['\n']);
    }
}

/// Lines, each without the carriage return that it may end in.
pub open spec fn without_returns(v: Seq<Seq<char>>) -> Seq<Seq<char>> {
    Seq::new(v.len(), |i: int| strip_cr(v[i]))
}

/// The lines of lines with a feed each are those lines again, where none holds a line
/// feed, but for a carriage return at the end of each.
pub proof fn lemma_lines_with_feeds(v: Seq<Seq<char>>)
    requires
        forall|i: int| 0 <= i < v.len() ==> !(#[trigger] v[i]).contains('\n'),
    ensures
        lines(with_feeds(v)) == without_returns(v),
    decreases v.len(),
{
    if v.len() == 0 {
        lemma_index_of(Seq::<char>::empty(), '\n');
        assert(without_returns(v) =~= Seq::<Seq<char>>::empty());
    } else {
        lemma_lines_first(v[0], with_feeds(v.drop_first()));
        lemma_lines_with_feeds(v.drop_first());
        assert(seq![strip_cr(v[0])] + without_returns(v.drop_first()) =~= without_returns(v));
    }
}

// ---------------------------------------------------------------------------
// Decimals
// ---------------------------------------------------------------------------

pub open spec fn is_digit(c: char) -> bool {
    '0' <= c <= '9'
}

pub open spec fn digit_char(d: nat) -> char {
    (48 + d) as char
}

/// The decimal digits of a number, without leading zeros.
pub open spec fn decimal(n: nat) -> Seq<char>
    decreases n,
{
    if n < 10 {
        seq![digit_char(n)]
    } else {
        decimal(n / 10).push(digit_char(n % 10))
    }
}

/// The number that a row of digits stands for.
pub open spec fn digits_value(s: Seq<char>) -> nat
    decreases s.len(),
{
    if s.len() == 0 {
        0
    } else {
        (digits_value(s.drop_last()) * 10 + (s.last() as int - 48)) as nat
    }
}

pub open spec fn all_digits(s: Seq<char>) -> bool {
    forall|i: int| 0 <= i < s.len() ==> is_digit(#[trigger] s[i])
}

/// The number of at most `max` that a text stands for: digits, with or without
/// one plus sign before them.
pub open spec fn parse_unsigned(s: Seq<char>, max: nat) -> Option<nat> {
    let body = if s.len() > 0 && s[0] == '+' {
        s.skip(1)
    } else {
        s
    };
    if body.len() > 0 && all_digits(body) && digits_value(body) <= max {
        Some(digits_value(body))
    } else {
        None
    }
}

proof fn lemma_digits_value_grows(s: Seq<char>, i: int)
    requires
        0 <= i <= s.len(),
        all_digits(s),
    ensures
        digits_value(s.take(i)) <= digits_value(s),
    decreases s.len(),
{
    if i < s.len() {
        let t = s.drop_last();
        assert(all_digits(t)) by {
            assert forall|k: int| 0 <= k < t.len() implies is_digit(#[trigger] t[k]) by {
                assert(t[k] == s[k]);
            }
        }
        lemma_digits_value_grows(t, i);
        assert(t.take(i) =~= s.take(i));
        assert(is_digit(s[s.len() - 1]));
    } else {
        assert(s.take(i) =~= s);
    }
}

/// The number of at most `max` that a text stands for.
pub fn read_unsigned(s: &str, max: u64) -> (r: Option<u64>)
    ensures
        match r {
            Some(n) => parse_unsigned(s@, max as nat) == Some(n as nat),
            None => parse_unsigned(s@, max as nat) is None,
        },
{
    let cs = chars_of(s);
    let start: usize = if cs.len() > 0 && cs[0] == '+' {
        1
    } else {
        0
    };
    let ghost body = cs@.skip(start as int);
    proof {
        assert(s@.skip(0) =~= s@);
        assert(body == if s@.len() > 0 && s@[0] == '+' {
            s@.skip(1)
        } else {
            s@
        });
    }
    if start == cs.len() {
        return None;
    }
    let mut n: u64 = 0;
    let mut i: usize = start;
    assert(body.take(0) =~= Seq::<char>::empty());
    while i < cs.len()
        invariant
            start <= i <= cs@.len(),
            body == cs@.skip(start as int),
            n == digits_value(body.take(i - start)),
            n <= max,
            forall|k: int| 0 <= k < i - start ==> is_digit(#[trigger] body[k]),
            body == if s@.len() > 0 && s@[0] == '+' {
                s@.skip(1)
            } else {
                s@
            },
        decreases cs@.len() - i,
    {
        let c = cs[i];
        assert(body[i - start] == c);
        if !(c >= '0' && c <= '9') {
            return None;
        }
        let d: u64 = c as u64 - 48;
        let ghost next = body.take(i - start + 1);
        proof {
            assert(next.drop_last() =~= body.take(i - start));
            assert(next.last() == c);
        }
        let wide: u128 = n as u128 * 10 + d as u128;
        if wide > max as u128 {
            proof {
                if all_digits(body) {
                    lemma_digits_value_grows(body, i - start + 1);
                }
            }
            return None;
        }
        n = wide as u64;
        i = i + 1;
    }
    assert(body.take(i - start) =~= body);
    Some(n)
}

/// The decimal digits of a number.
pub fn decimal_text(n: u64) -> (r: String)
    ensures
        r@ == decimal(n as nat),
    decreases n,
{
    if n < 10 {
        let mut out = String::new();
        out.push(digit(n as u8));
        assert(out@ =~= seq![digit_char(n as nat)]);
        out
    } else {
        let mut out = decimal_text(n / 10);
        out.push(digit((n % 10) as u8));
        out
    }
}

fn digit(d: u8) -> (r: char)
    requires
        d < 10,
    ensures
        r == digit_char(d as nat),
{
    (48 + d) as char
}

/// The digits of a number stand for that number.
pub proof fn lemma_decimal_value(n: nat)
    ensures
        digits_value(decimal(n)) == n,
        all_digits(decimal(n)),
        decimal(n).len() > 0,
    decreases n,
{
    if n < 10 {
        assert(seq![digit_char(n)].drop_last() =~= Seq::<char>::empty());
        reveal_with_fuel(digits_value, 2);
    } else {
        lemma_decimal_value(n / 10);
        assert(decimal(n).drop_last() =~= decimal(n / 10));
    }
}

/// What is written as a decimal is read back as the same number.
pub proof fn lemma_decimal_parses(n: nat, max: nat)
    requires
        n <= max,
    ensures
        parse_unsigned(decimal(n), max) == Some(n),
{
    lemma_decimal_value(n);
    assert(is_digit(decimal(n)[0]));
}

/// A text without its last character.
pub open spec fn shortened(s: Seq<char>) -> Seq<char> {
    if s.len() == 0 {
        s
    } else {
        s.drop_last()
    }
}

/// Takes the last character off a text.
pub fn pop_char(s: &mut String)
    ensures
        final(s)@ == shortened(old(s)@),
{
    let cs = chars_of(s.as_str());
    let n = cs.len();
    if n > 0 {
        assert(cs@.subrange(0, n - 1) =~= s@.drop_last());
        *s = string_range(&cs, 0, n - 1);
    }
}

/// `n` copies of a text, one after the other.
pub open spec fn repeat(s: Seq<char>, n: nat) -> Seq<char>
    decreases n,
{
    if n == 0 {
        seq![]
    } else {
        repeat(s, (n - 1) as nat) + s
    }
}

/// `n` copies of a text, one after the other.
pub fn repeated(s: &str, n: usize) -> (r: String)
    ensures
        r@ == repeat(s@, n as nat),
{
    let mut out = String::new();
    let mut i: usize = 0;
    while i < n
        invariant
            i <= n,
            out@ == repeat(s@, i as nat),
        decreases n - i,
    {
        out.append(s);
        i = i + 1;
    }
    out
}

} // verus!
