//! Character sequences: suffixes, tokens and joins.
//!
//! Every function here is stated over `Seq<char>`, the view of a `str`, a
//! `String` or a `Vec<char>`. The executable functions work on character
//! slices; [`chars_of`] and [`string_of`] lead into and out of strings.

use vstd::prelude::*;
use vstd::std_specs::iter::IteratorSpec;

verus! {

/// Whether `s` ends with the characters of `suffix`.
pub open spec fn ends_with(s: Seq<char>, suffix: Seq<char>) -> bool {
    suffix.len() <= s.len() && s.skip(s.len() - suffix.len()) == suffix
}

/// `s` without `suffix` at its end: where `s` ends with `suffix`, what stands
/// before it, and else `s` itself. At most one copy is taken away.
pub open spec fn without_suffix(s: Seq<char>, suffix: Seq<char>) -> Seq<char> {
    if ends_with(s, suffix) {
        s.take(s.len() - suffix.len())
    } else {
        s
    }
}

/// The tokens of `s`: the stretches between one occurrence of `delim` and the
/// next. There is always at least one token, and a token is empty where two
/// delimiters touch or where `s` starts or ends with one.
pub open spec fn split(s: Seq<char>, delim: char) -> Seq<Seq<char>>
    decreases s.len(),
{
    if s.len() == 0 {
        seq![Seq::<char>::empty()]
    } else {
        let before = split(s.drop_last(), delim);
        if s.last() == delim {
            before.push(Seq::<char>::empty())
        } else {
            before.update(before.len() - 1, before.last().push(s.last()))
        }
    }
}

/// The parts written one after another with `sep` between each two.
pub open spec fn join(parts: Seq<Seq<char>>, sep: Seq<char>) -> Seq<char>
    decreases parts.len(),
{
    if parts.len() == 0 {
        Seq::<char>::empty()
    } else if parts.len() == 1 {
        parts[0]
    } else {
        join(parts.drop_last(), sep) + sep + parts.last()
    }
}

/// The characters of a string slice, in order.
pub fn chars_of(s: &str) -> (out: Vec<char>)
    ensures
        out@ == s@,
{
    let mut out: Vec<char> = Vec::new();
    for c in it: s.chars()
        invariant
            out@ == it.seq().take(it.index() as int),
            it.seq() == s@,
    {
        out.push(c);
    }
    out
}

/// `String::push`: the string grows by the one character, at its end.
pub assume_specification[ String::push ](s: &mut String, c: char)
    ensures
        final(s)@ == old(s)@.push(c),
;

/// The string made of the given characters, in order.
pub fn string_of(chars: &[char]) -> (out: String)
    ensures
        out@ == chars@,
{
    let mut out = String::new();
    let mut i: usize = 0;
    while i < chars.len()
        invariant
            i <= chars.len(),
            out@ == chars@.take(i as int),
        decreases chars.len() - i,
    {
        out.push(chars[i]);
        i += 1;
    }
    out
}

/// Whether `s` ends with `suffix`.
pub fn has_suffix(s: &[char], suffix: &[char]) -> (yes: bool)
    ensures
        yes == ends_with(s@, suffix@),
{
    if suffix.len() > s.len() {
        return false;
    }
    let start: usize = s.len() - suffix.len();
    let ghost tail = s@.skip(start as int);
    let mut i: usize = 0;
    while i < suffix.len()
        invariant
            start + suffix.len() == s.len(),
            i <= suffix.len(),
            tail == s@.skip(start as int),
            forall|j: int| 0 <= j < i ==> tail[j] == suffix@[j],
        decreases suffix.len() - i,
    {
        if s[start + i] != suffix[i] {
            return false;
        }
        i += 1;
    }
    assert(tail =~= suffix@);
    true
}

/// Takes `suffix` off the end of `s`, once, where `s` ends with it.
pub fn strip_suffix(s: &[char], suffix: &[char]) -> (out: Vec<char>)
    ensures
        out@ == without_suffix(s@, suffix@),
{
    let end: usize = if has_suffix(s, suffix) {
        s.len() - suffix.len()
    } else {
        s.len()
    };
    let mut out: Vec<char> = Vec::new();
    let mut i: usize = 0;
    while i < end
        invariant
            i <= end <= s.len(),
            out@ == s@.take(i as int),
        decreases end - i,
    {
        out.push(s[i]);
        i += 1;
    }
    out
}

/// Cuts `s` into its tokens at every `delim`.
pub fn split_at_each(s: &[char], delim: char) -> (tokens: Vec<Vec<char>>)
    ensures
        tokens.deep_view() == split(s@, delim),
{
    let mut tokens: Vec<Vec<char>> = Vec::new();
    let mut current: Vec<char> = Vec::new();
    let mut i: usize = 0;
    while i < s.len()
        invariant
            i <= s.len(),
            tokens.deep_view().push(current@) == split(s@.take(i as int), delim),
        decreases s.len() - i,
    {
        let ghost before = tokens.deep_view().push(current@);
        assert(s@.take(i + 1).drop_last() =~= s@.take(i as int));
        if s[i] == delim {
            tokens.push(current);
            current = Vec::new();
            assert(tokens.deep_view() =~~= before);
        } else {
            current.push(s[i]);
            assert(tokens.deep_view().push(current@) =~~= before.update(
                before.len() - 1,
                before.last().push(s@[i as int]),
            ));
        }
        i += 1;
    }
    assert(s@.take(i as int) =~= s@);
    let ghost before = tokens.deep_view().push(current@);
    tokens.push(current);
    assert(tokens.deep_view() =~~= before);
    tokens
}

/// Writes the parts one after another with `sep` between each two.
pub fn join_with(parts: &Vec<Vec<char>>, sep: &[char]) -> (out: Vec<char>)
    ensures
        out@ == join(parts.deep_view(), sep@),
{
    let mut out: Vec<char> = Vec::new();
    let mut i: usize = 0;
    while i < parts.len()
        invariant
            i <= parts.len(),
            out@ == join(parts.deep_view().take(i as int), sep@),
        decreases parts.len() - i,
    {
        assert(parts.deep_view().take(i + 1).drop_last() =~= parts.deep_view().take(i as int));
        if i > 0 {
            append(&mut out, sep);
        }
        append(&mut out, parts[i].as_slice());
        i += 1;
    }
    assert(parts.deep_view().take(i as int) =~= parts.deep_view());
    out
}

/// Puts the characters of `more` at the end of `out`.
pub fn append(out: &mut Vec<char>, more: &[char])
    ensures
        final(out)@ == old(out)@ + more@,
{
    let mut i: usize = 0;
    while i < more.len()
        invariant
            i <= more.len(),
            out@ == old(out)@ + more@.take(i as int),
        decreases more.len() - i,
    {
        out.push(more[i]);
        i += 1;
    }
}

/// Whether two slices hold the same characters in the same order.
pub fn same_chars(a: &[char], b: &[char]) -> (same: bool)
    ensures
        same == (a@ == b@),
{
    if a.len() != b.len() {
        return false;
    }
    let mut i: usize = 0;
    while i < a.len()
        invariant
            a.len() == b.len(),
            i <= a.len(),
            a@.take(i as int) == b@.take(i as int),
        decreases a.len() - i,
    {
        if a[i] != b[i] {
            return false;
        }
        i += 1;
    }
    assert(a@.take(i as int) =~= a@);
    assert(b@.take(i as int) =~= b@);
    true
}

/// Whether `c` is white space, as `char::is_whitespace` tells it: the
/// characters with the Unicode property `White_Space`.
pub uninterp spec fn is_whitespace(c: char) -> bool;

/// `char::is_whitespace`. Which characters it holds to be white space is
/// Unicode's matter and is not stated here.
pub assume_specification[ char::is_whitespace ](c: char) -> (yes: bool)
    ensures
        yes == is_whitespace(c),
;

/// `s` from its first character that is no white space.
pub open spec fn without_leading_space(s: Seq<char>) -> Seq<char>
    decreases s.len(),
{
    if s.len() > 0 && is_whitespace(s[0]) {
        without_leading_space(s.skip(1))
    } else {
        s
    }
}

/// `s` up to its last character that is no white space.
pub open spec fn without_trailing_space(s: Seq<char>) -> Seq<char>
    decreases s.len(),
{
    if s.len() > 0 && is_whitespace(s.last()) {
        without_trailing_space(s.drop_last())
    } else {
        s
    }
}

/// `s` without the white space at its two ends.
pub open spec fn trimmed(s: Seq<char>) -> Seq<char> {
    without_trailing_space(without_leading_space(s))
}

/// Takes the white space off the two ends of `s`.
pub fn trim(s: &[char]) -> (out: Vec<char>)
    ensures
        out@ == trimmed(s@),
{
    let mut start: usize = 0;
    assert(s@.skip(0) =~= s@);
    while start < s.len() && s[start].is_whitespace()
        invariant
            start <= s.len(),
            without_leading_space(s@.skip(start as int)) == without_leading_space(s@),
        decreases s.len() - start,
    {
        assert(s@.skip(start as int).skip(1) =~= s@.skip(start + 1));
        start += 1;
    }
    let ghost rest = s@.skip(start as int);
    let mut end: usize = s.len();
    while end > start && s[end - 1].is_whitespace()
        invariant
            start <= end <= s.len(),
            without_trailing_space(s@.subrange(start as int, end as int))
                == without_trailing_space(rest),
        decreases end,
    {
        assert(s@.subrange(start as int, end as int).drop_last() =~= s@.subrange(
            start as int,
            end - 1,
        ));
        end -= 1;
    }
    let mut out: Vec<char> = Vec::new();
    let mut i: usize = start;
    while i < end
        invariant
            start <= i <= end <= s.len(),
            out@ == s@.subrange(start as int, i as int),
        decreases end - i,
    {
        out.push(s[i]);
        i += 1;
    }
    out
}

/// Whether `c` occurs nowhere in `s`.
pub open spec fn lacks(s: Seq<char>, c: char) -> bool {
    forall|i: int| 0 <= i < s.len() ==> s[i] != c
}

/// How often `c` occurs in `s`.
pub open spec fn occurrences(s: Seq<char>, c: char) -> nat
    decreases s.len(),
{
    if s.len() == 0 {
        0
    } else if s.last() == c {
        occurrences(s.drop_last(), c) + 1
    } else {
        occurrences(s.drop_last(), c)
    }
}

/// A sequence has one token more than it has delimiters, so at least one,
/// and no token holds the delimiter.
pub proof fn lemma_split_tokens(s: Seq<char>, delim: char)
    ensures
        split(s, delim).len() == occurrences(s, delim) + 1,
        forall|i: int| 0 <= i < split(s, delim).len() ==> lacks(#[trigger] split(s, delim)[i], delim),
    decreases s.len(),
{
    if s.len() > 0 {
        lemma_split_tokens(s.drop_last(), delim);
    }
}

/// Joining the tokens of a sequence by the delimiter gives the sequence
/// back: cutting loses nothing.
pub proof fn lemma_join_split(s: Seq<char>, delim: char)
    ensures
        join(split(s, delim), seq![delim]) == s,
    decreases s.len(),
{
    if s.len() > 0 {
        let sep = seq![delim];
        let before = split(s.drop_last(), delim);
        let tokens = split(s, delim);
        lemma_join_split(s.drop_last(), delim);
        lemma_split_tokens(s.drop_last(), delim);
        if s.last() == delim {
            assert(tokens.drop_last() =~= before);
        } else if before.len() > 1 {
            assert(tokens.drop_last() =~= before.drop_last());
            assert(join(tokens, sep) =~= (join(before.drop_last(), sep) + sep
                + before.last()).push(s.last()));
        }
    }
}

/// Characters without the delimiter, put behind a sequence, lengthen its
/// last token and make no new one.
pub proof fn lemma_split_append(s: Seq<char>, more: Seq<char>, delim: char)
    requires
        lacks(more, delim),
    ensures
        split(s + more, delim) == split(s, delim).update(
            split(s, delim).len() - 1,
            split(s, delim).last() + more,
        ),
    decreases more.len(),
{
    let tokens = split(s, delim);
    lemma_split_tokens(s, delim);
    if more.len() > 0 {
        lemma_split_append(s, more.drop_last(), delim);
        assert((s + more).drop_last() =~= s + more.drop_last());
        assert((tokens.last() + more.drop_last()).push(more.last()) =~= tokens.last() + more);
        assert(split(s + more, delim) =~= tokens.update(
            tokens.len() - 1,
            tokens.last() + more,
        ));
    }
}

/// Cutting what was joined gives the parts back, where there is at least one
/// part and none holds the delimiter. With [`lemma_join_split`] this makes
/// the tokens of a sequence the only such parts that join to it.
pub proof fn lemma_split_join(parts: Seq<Seq<char>>, delim: char)
    requires
        parts.len() > 0,
        forall|i: int| 0 <= i < parts.len() ==> lacks(#[trigger] parts[i], delim),
    ensures
        split(join(parts, seq![delim]), delim) == parts,
    decreases parts.len(),
{
    let sep = seq![delim];
    let nothing = Seq::<char>::empty();
    if parts.len() == 1 {
        lemma_split_append(nothing, parts[0], delim);
    } else {
        let front = parts.drop_last();
        lemma_split_join(front, delim);
        let head = join(front, sep) + sep;
        assert(head.drop_last() =~= join(front, sep));
        lemma_split_append(head, parts.last(), delim);
    }
}

/// A sequence is what is left without a suffix, followed by the suffix
/// where it ended with it and by nothing where it did not.
pub proof fn lemma_without_suffix(s: Seq<char>, suffix: Seq<char>)
    ensures
        ends_with(s, suffix) ==> s == without_suffix(s, suffix) + suffix,
        !ends_with(s, suffix) ==> s == without_suffix(s, suffix),
{
    if ends_with(s, suffix) {
        assert(s =~= s.take(s.len() - suffix.len()) + s.skip(s.len() - suffix.len()));
    }
}

} // verus!
