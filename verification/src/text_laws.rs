//! Laws of texts: white space, lines and numbers.

use vstd::prelude::*;

use crate::text::{
    all_digits, decimal, digits_value, index_of, is_digit, is_space, join, lemma_decimal_value,
    lemma_index_of, lemma_lines_first, lines, parse_unsigned, repeat, split_feeds, split_once,
    strip_cr, trim, trim_end, trim_start, with_feeds, without_returns,
};

verus! {

// ---------------------------------------------------------------------------
// White space
// ---------------------------------------------------------------------------

/// Whether a text holds nothing but white space.
pub open spec fn blank(s: Seq<char>) -> bool {
    forall|i: int| 0 <= i < s.len() ==> is_space(#[trigger] s[i])
}

/// Whether a part of a text is all of it but the white space at its ends.
pub open spec fn core_of(s: Seq<char>, a: int, b: int) -> bool {
    &&& 0 <= a <= b <= s.len()
    &&& forall|i: int| 0 <= i < a ==> is_space(#[trigger] s[i])
    &&& forall|i: int| b <= i < s.len() ==> is_space(#[trigger] s[i])
    &&& a < b ==> !is_space(s[a]) && !is_space(s[b - 1])
}

proof fn lemma_trim_start(s: Seq<char>) -> (a: int)
    ensures
        0 <= a <= s.len(),
        trim_start(s) == s.skip(a),
        forall|i: int| 0 <= i < a ==> is_space(#[trigger] s[i]),
        a < s.len() ==> !is_space(s[a]),
    decreases s.len(),
{
    if s.len() > 0 && is_space(s[0]) {
        let t = s.drop_first();
        let k = lemma_trim_start(t);
        assert(t.skip(k) =~= s.skip(k + 1));
        assert forall|i: int| 0 <= i < k + 1 implies is_space(#[trigger] s[i]) by {
            if i > 0 {
                assert(t[i - 1] == s[i]);
            }
        }
        if k < t.len() {
            assert(t[k] == s[k + 1]);
        }
        k + 1
    } else {
        assert(s.skip(0) =~= s);
        0
    }
}

proof fn lemma_trim_end(s: Seq<char>) -> (b: int)
    ensures
        0 <= b <= s.len(),
        trim_end(s) == s.take(b),
        forall|i: int| b <= i < s.len() ==> is_space(#[trigger] s[i]),
        b > 0 ==> !is_space(s[b - 1]),
    decreases s.len(),
{
    if s.len() > 0 && is_space(s.last()) {
        let t = s.drop_last();
        let k = lemma_trim_end(t);
        assert(t.take(k) =~= s.take(k));
        assert forall|i: int| k <= i < s.len() implies is_space(#[trigger] s[i]) by {
            if i < t.len() {
                assert(t[i] == s[i]);
            }
        }
        if k > 0 {
            assert(t[k - 1] == s[k - 1]);
        }
        k
    } else {
        assert(s.take(s.len() as int) =~= s);
        s.len() as int
    }
}

/// Trimming leaves all of a text but the white space at its ends.
pub proof fn law_trimming_takes_the_ends(s: Seq<char>)
    ensures
        exists|a: int, b: int| #[trigger] core_of(s, a, b) && trim(s) == s.subrange(a, b),
{
    let a = lemma_trim_start(s);
    let t = s.skip(a);
    let k = lemma_trim_end(t);
    assert(t.take(k) =~= s.subrange(a, a + k));
    assert forall|i: int| a + k <= i < s.len() implies is_space(#[trigger] s[i]) by {
        assert(t[i - a] == s[i]);
    }
    if k > 0 {
        assert(t[k - 1] == s[a + k - 1]);
        assert(t[0] == s[a]);
    }
    assert(core_of(s, a, a + k));
}

/// Nothing is left of a text just where it is blank.
pub proof fn law_blank_text_trims_to_nothing(s: Seq<char>)
    ensures
        blank(s) <==> trim(s).len() == 0,
{
    law_trimming_takes_the_ends(s);
    let (a, b) = choose|a: int, b: int| #[trigger] core_of(s, a, b) && trim(s) == s.subrange(a, b);
    assert(trim(s).len() == b - a);
    if a < b {
        assert(!is_space(s[a]));
    }
}

/// Blanks, tabs and line breaks are white space; what else can be seen of ASCII is not.
pub proof fn law_white_space_cannot_be_seen(c: char)
    ensures
        c == ' ' || c == '\t' || c == '\n' || c == '\r' ==> is_space(c),
        0x21 <= c as u32 <= 0x7e ==> !is_space(c),
        c as u32 <= 0x8 || 0xe <= c as u32 <= 0x1f ==> !is_space(c),
        is_space(c) ==> c as u32 <= 0x3000,
{
}

// ---------------------------------------------------------------------------
// Splitting
// ---------------------------------------------------------------------------

/// A text is split at the first of a character: that is where the parts meet, and it does
/// not occur in the first of them. Where it does not occur at all, nothing is split.
pub proof fn law_text_is_split_at_the_first(s: Seq<char>, c: char)
    ensures
        split_once(s, c) is Some <==> s.contains(c),
        split_once(s, c) matches Some((before, after)) ==> {
            &&& before.push(c) + after == s
            &&& !before.contains(c)
        },
{
    lemma_index_of(s, c);
    let i = index_of(s, c) as int;
    if i < s.len() {
        assert(s.take(i).push(c) + s.skip(i + 1) =~= s);
        assert(s[i] == c);
    }
}

proof fn lemma_split_feeds(s: Seq<char>)
    ensures
        split_feeds(s).len() > 0,
        forall|i: int| 0 <= i < split_feeds(s).len() ==> !(#[trigger] split_feeds(s)[i]).contains('\n'),
    decreases s.len(),
{
    lemma_index_of(s, '\n');
    let i = index_of(s, '\n') as int;
    if i < s.len() {
        lemma_split_feeds(s.skip(i + 1));
        let rest = split_feeds(s.skip(i + 1));
        assert forall|k: int| 0 <= k < split_feeds(s).len() implies !(#[trigger] split_feeds(
            s,
        )[k]).contains('\n') by {
            if k > 0 {
                assert(split_feeds(s)[k] == rest[k - 1]);
            } else {
                assert(!s.take(i).contains('\n'));
            }
        }
    }
}

proof fn lemma_join_front(first: Seq<char>, rest: Seq<Seq<char>>, sep: Seq<char>)
    requires
        rest.len() > 0,
    ensures
        join(seq![first] + rest, sep) == first + sep + join(rest, sep),
    decreases rest.len(),
{
    let all = seq![first] + rest;
    if rest.len() == 1 {
        assert(all.drop_last() =~= seq![first]);
        assert(join(all.drop_last(), sep) == first);
    } else {
        lemma_join_front(first, rest.drop_last(), sep);
        assert(all.drop_last() =~= seq![first] + rest.drop_last());
        assert(first + sep + join(rest.drop_last(), sep) + sep + rest.last() =~= first + sep + (
        join(rest.drop_last(), sep) + sep + rest.last()));
    }
}

/// The texts between the line feeds hold none, and make up the whole again with a line feed
/// between each two of them.
pub proof fn law_texts_between_feeds(s: Seq<char>)
    ensures
        join(split_feeds(s), seq!['\n']) == s,
        forall|i: int| 0 <= i < split_feeds(s).len() ==> !(#[trigger] split_feeds(s)[i]).contains('\n'),
    decreases s.len(),
{
    lemma_split_feeds(s);
    lemma_index_of(s, '\n');
    let i = index_of(s, '\n') as int;
    if i < s.len() {
        let rest = s.skip(i + 1);
        lemma_split_feeds(rest);
        law_texts_between_feeds(rest);
        lemma_join_front(s.take(i), split_feeds(rest), seq!['\n']);
        assert(s.take(i) + seq!['\n'] + rest =~= s);
    }
}

/// Lines that are written one after the other, each with a line feed behind it but the
/// last, read back as they are, but for a carriage return before a line feed.
pub proof fn law_lines_read_back(v: Seq<Seq<char>>, last: Seq<char>)
    requires
        forall|i: int| 0 <= i < v.len() ==> !(#[trigger] v[i]).contains('\n'),
        !last.contains('\n'),
    ensures
        last.len() > 0 ==> lines(with_feeds(v) + last) == without_returns(v).push(last),
        last.len() == 0 ==> lines(with_feeds(v) + last) == without_returns(v),
    decreases v.len(),
{
    if v.len() == 0 {
        assert(with_feeds(v) + last =~= last);
        lemma_index_of(last, '\n');
        assert(without_returns(v) =~= Seq::<Seq<char>>::empty());
        if last.len() > 0 {
            let i = index_of(last, '\n') as int;
            if i < last.len() {
                assert(last[i] == '\n');
            }
            assert(seq![last] =~= without_returns(v).push(last));
        }
    } else {
        let rest = v.drop_first();
        assert forall|i: int| 0 <= i < rest.len() implies !(#[trigger] rest[i]).contains('\n') by {
            assert(rest[i] == v[i + 1]);
        }
        law_lines_read_back(rest, last);
        let tail = with_feeds(rest) + last;
        assert(with_feeds(v) + last =~= v[0] + seq!['\n'] + tail);
        lemma_lines_first(v[0], tail);
        let all = with_feeds(v) + last;
        assert(seq![strip_cr(v[0])] + without_returns(rest) =~= without_returns(v));
        if last.len() > 0 {
            assert(seq![strip_cr(v[0])] + without_returns(rest).push(last) =~= without_returns(
                v,
            ).push(last));
        }
    }
}

// ---------------------------------------------------------------------------
// Numbers
// ---------------------------------------------------------------------------

/// A number reads back from its digits, which have no zero in front, where it is not too
/// large; also with a plus sign before it.
pub proof fn law_numbers_read_back(n: nat, max: nat)
    ensures
        all_digits(decimal(n)),
        decimal(n).len() > 1 ==> decimal(n)[0] != '0',
        n <= max ==> parse_unsigned(decimal(n), max) == Some(n),
        n > max ==> parse_unsigned(decimal(n), max) is None,
        n <= max ==> parse_unsigned(seq!['+'] + decimal(n), max) == Some(n),
{
    lemma_decimal_value(n);
    lemma_no_zero_in_front(n);
    let d = decimal(n);
    assert(is_digit(d[0]));
    assert((seq!['+'] + d).skip(1) =~= d);
}

proof fn lemma_no_zero_in_front(n: nat)
    ensures
        decimal(n).len() > 0,
        n > 0 ==> decimal(n)[0] != '0',
        n < 10 ==> decimal(n).len() == 1,
    decreases n,
{
    if n >= 10 {
        lemma_no_zero_in_front(n / 10);
    }
}

/// A text with anything but digits behind a first plus sign stands for no number, nor does
/// one without digits.
pub proof fn law_only_digits_are_numbers(s: Seq<char>, max: nat, i: int)
    requires
        0 <= i < s.len(),
        !is_digit(s[i]),
        i > 0 || s[i] != '+' || s.len() == 1,
    ensures
        parse_unsigned(s, max) is None,
        parse_unsigned(seq![], max) is None,
{
    if s[0] == '+' {
        if i > 0 {
            assert(s.skip(1)[i - 1] == s[i]);
        }
    }
}

/// Zeros in front of a number make no difference to it.
pub proof fn law_leading_zeros_do_not_count(s: Seq<char>, max: nat)
    requires
        s.len() > 0,
        all_digits(s),
    ensures
        parse_unsigned(seq!['0'] + s, max) == parse_unsigned(s, max),
{
    lemma_zero_in_front(s);
    let t = seq!['0'] + s;
    assert(is_digit(s[0]));
    assert forall|i: int| 0 <= i < t.len() implies is_digit(#[trigger] t[i]) by {
        if i > 0 {
            assert(t[i] == s[i - 1]);
        }
    }
}

proof fn lemma_zero_in_front(s: Seq<char>)
    ensures
        digits_value(seq!['0'] + s) == digits_value(s),
    decreases s.len(),
{
    let t = seq!['0'] + s;
    if s.len() > 0 {
        lemma_zero_in_front(s.drop_last());
        assert(t.drop_last() =~= seq!['0'] + s.drop_last());
        assert(t.last() == s.last());
    } else {
        assert(t.drop_last() =~= Seq::<char>::empty());
        assert(t =~= seq!['0']);
        assert(digits_value(t.drop_last()) == 0);
    }
}

/// Copies of a text are as many times as long.
pub proof fn law_copies_stand_one_after_the_other(s: Seq<char>, n: nat, i: int)
    requires
        0 <= i < n * s.len(),
        s.len() > 0,
    ensures
        repeat(s, n).len() == n * s.len(),
        repeat(s, n)[i] == s[i % (s.len() as int)],
    decreases n,
{
    let m = s.len() as int;
    lemma_repeat_len(s, n);
    if n > 0 {
        lemma_repeat_len(s, (n - 1) as nat);
        assert((n - 1) * m + m == n * m) by (nonlinear_arith);
        if i < (n - 1) * m {
            law_copies_stand_one_after_the_other(s, (n - 1) as nat, i);
        } else {
            let j = i - (n - 1) * m;
            vstd::arithmetic::div_mod::lemma_fundamental_div_mod_converse_mod(i, m, n - 1, j);
        }
    }
}

proof fn lemma_repeat_len(s: Seq<char>, n: nat)
    ensures
        repeat(s, n).len() == n * s.len(),
    decreases n,
{
    if n > 0 {
        lemma_repeat_len(s, (n - 1) as nat);
        assert((n - 1) * s.len() + s.len() == n * s.len()) by (nonlinear_arith);
    } else {
        assert(0 * s.len() == 0) by (nonlinear_arith);
    }
}

} // verus!
