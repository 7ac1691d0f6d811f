//! Display metadata of an image, read off its file name.
//!
//! A file name such as `jane-doe-red-fox-042.jpg` names the contributor and
//! carries an identifier: without the extension and cut at every hyphen, its
//! last token is the identifier and the tokens before it are the words of the
//! contributor's name.

use vstd::prelude::*;
use crate::text::{append, chars_of, ends_with, join, join_with, lemma_join_split,
    lemma_split_tokens, lemma_without_suffix, occurrences, split, split_at_each, string_of,
    strip_suffix, without_suffix};

verus! {

/// The characters that `char::to_uppercase` yields for `c`.
pub uninterp spec fn uppercase_of(c: char) -> Seq<char>;

/// The extension of an image file, with its dot.
pub open spec fn image_extension() -> Seq<char> {
    ".jpg"@
}

/// The identifier given to a file name that carries none.
pub open spec fn unknown_id() -> Seq<char> {
    "Unknown"@
}

/// What separates the words of a display name.
pub open spec fn word_gap() -> Seq<char> {
    seq![' ']
}

/// The file name without its extension: where the name ends with the image
/// extension, what stands before it, and else the whole name. A file has one
/// extension, so `fox.jpg.jpg` has the stem `fox.jpg`.
pub open spec fn stem_of(file_name: Seq<char>) -> Seq<char> {
    without_suffix(file_name, image_extension())
}

/// The hyphen-separated tokens of the stem.
pub open spec fn tokens_of(file_name: Seq<char>) -> Seq<Seq<char>> {
    split(stem_of(file_name), '-')
}

/// Whether the file name has enough tokens to carry a name and an identifier.
pub open spec fn is_labelled(file_name: Seq<char>) -> bool {
    tokens_of(file_name).len() >= 3
}

/// `word` with its first character in upper case and the rest unchanged. The
/// upper case of one character may be several characters.
pub open spec fn capitalized(word: Seq<char>) -> Seq<char> {
    if word.len() == 0 {
        word
    } else {
        uppercase_of(word[0]) + word.skip(1)
    }
}

/// Each word capitalized, in the same order.
pub open spec fn capitalized_all(words: Seq<Seq<char>>) -> Seq<Seq<char>> {
    words.map_values(|word: Seq<char>| capitalized(word))
}

/// The identifier of a file name: its last token, or `Unknown` where it has
/// fewer than three tokens.
pub open spec fn id_of(file_name: Seq<char>) -> Seq<char> {
    if is_labelled(file_name) {
        tokens_of(file_name).last()
    } else {
        unknown_id()
    }
}

/// The display name of a file name: all tokens but the last, capitalized and
/// joined by single spaces, or the whole stem where it has fewer than three
/// tokens.
pub open spec fn display_name_of(file_name: Seq<char>) -> Seq<char> {
    if is_labelled(file_name) {
        join(capitalized_all(tokens_of(file_name).drop_last()), word_gap())
    } else {
        stem_of(file_name)
    }
}

/// A file name is labelled exactly where its stem holds at least two
/// hyphens.
pub proof fn lemma_labelled_by_hyphens(file_name: Seq<char>)
    ensures
        is_labelled(file_name) <==> occurrences(stem_of(file_name), '-') >= 2,
{
    lemma_split_tokens(stem_of(file_name), '-');
}

/// The file name is its stem, followed by the one extension where it has
/// it, and the tokens, joined by hyphens, are the stem: between them the
/// tokens and the extension account for every character of the file name.
pub proof fn lemma_stem_and_tokens(file_name: Seq<char>)
    ensures
        ends_with(file_name, image_extension()) ==> file_name == stem_of(file_name)
            + image_extension(),
        !ends_with(file_name, image_extension()) ==> file_name == stem_of(file_name),
        join(tokens_of(file_name), seq!['-']) == stem_of(file_name),
{
    lemma_without_suffix(file_name, image_extension());
    lemma_join_split(stem_of(file_name), '-');
}

/// `char::to_uppercase`, collected: the upper-case mapping of `c` as Unicode
/// defines it, which may be more than one character. The mapping depends on
/// `c` alone; nothing else is claimed of it here.
#[verifier::external_body]
fn to_uppercase(c: char) -> (upper: Vec<char>)
    ensures
        upper@ == uppercase_of(c),
{
    c.to_uppercase().collect()
}

/// `word` with `initial` in place of its first character. An empty word stays
/// empty.
pub fn with_initial(initial: &[char], word: &[char]) -> (out: Vec<char>)
    ensures
        out@ == if word@.len() == 0 {
            word@
        } else {
            initial@ + word@.skip(1)
        },
{
    let mut out: Vec<char> = Vec::new();
    if word.len() == 0 {
        return out;
    }
    append(&mut out, initial);
    let mut i: usize = 1;
    while i < word.len()
        invariant
            1 <= i <= word.len(),
            out@ == initial@ + word@.subrange(1, i as int),
        decreases word.len() - i,
    {
        out.push(word[i]);
        i += 1;
    }
    out
}

/// Puts the first character of `word` in upper case.
pub fn capitalize(word: &[char]) -> (out: Vec<char>)
    ensures
        out@ == capitalized(word@),
{
    if word.len() == 0 {
        Vec::new()
    } else {
        let upper = to_uppercase(word[0]);
        with_initial(upper.as_slice(), word)
    }
}

/// Derives the display name and the identifier from a file name, in that
/// order. Every file name has both.
pub fn parse_filename(filename: &str) -> (parsed: (String, String))
    ensures
        is_labelled(filename@) ==> {
            &&& parsed.1@ == tokens_of(filename@).last()
            &&& parsed.0@ == join(
                capitalized_all(tokens_of(filename@).drop_last()),
                word_gap(),
            )
        },
        !is_labelled(filename@) ==> {
            &&& parsed.1@ == unknown_id()
            &&& parsed.0@ == stem_of(filename@)
        },
        parsed.0@ == display_name_of(filename@),
        parsed.1@ == id_of(filename@),
{
    let name = chars_of(filename);
    let extension = chars_of(".jpg");
    let stem = strip_suffix(name.as_slice(), extension.as_slice());
    let tokens = split_at_each(stem.as_slice(), '-');
    if tokens.len() >= 3 {
        let last: usize = tokens.len() - 1;
        let mut words: Vec<Vec<char>> = Vec::new();
        let mut i: usize = 0;
        while i < last
            invariant
                i <= last,
                last + 1 == tokens.len(),
                words.deep_view() == capitalized_all(tokens.deep_view().take(i as int)),
            decreases last - i,
        {
            let word = capitalize(tokens[i].as_slice());
            let ghost done = words.deep_view();
            words.push(word);
            assert(tokens.deep_view()[i as int] =~= tokens[i as int]@);
            assert(words.deep_view() =~~= done.push(capitalized(tokens[i as int]@)));
            i += 1;
        }
        let gap = chars_of(" ");
        proof {
            reveal_strlit(" ");
            assert(gap@ =~= word_gap());
        }
        let display = join_with(&words, gap.as_slice());
        (string_of(display.as_slice()), string_of(tokens[last].as_slice()))
    } else {
        (string_of(stem.as_slice()), "Unknown".to_string())
    }
}

} // verus!
