//! Taking a joined text apart again: the model of splitting on a separator,
//! and when splitting gives back exactly the words that were joined.

use vstd::prelude::*;
use crate::text::joined;

verus! {

/// `pattern` stands in `text` from offset `at` on.
pub open spec fn occurs_at(text: Seq<char>, pattern: Seq<char>, at: int) -> bool {
    &&& 0 <= at
    &&& at + pattern.len() <= text.len()
    &&& text.subrange(at, at + pattern.len()) == pattern
}

/// The segments of `text` between the occurrences of `separator`, found from
/// the left and never overlapping. A text without any occurrence is one
/// segment. Meant for a non-empty separator; with an empty one the whole
/// text counts as one segment.
pub open spec fn split(text: Seq<char>, separator: Seq<char>) -> Seq<Seq<char>>
    recommends
        separator.len() > 0,
    decreases text.len(),
{
    if separator.len() == 0 || text.len() == 0 {
        seq![text]
    } else if occurs_at(text, separator, 0) {
        seq![Seq::empty()] + split(text.skip(separator.len() as int), separator)
    } else {
        let rest = split(text.skip(1), separator);
        seq![seq![text[0]] + rest[0]] + rest.skip(1)
    }
}

/// The offset in `joined(words, separator)` at which word `i` starts: behind
/// the `i` words before it and the separator after each of them.
pub open spec fn word_start(words: Seq<Seq<char>>, separator: Seq<char>, i: int) -> int
    decreases i,
{
    if i <= 0 {
        0
    } else {
        words[0].len() + separator.len() + word_start(words.skip(1), separator, i - 1)
    }
}

/// The offset in `joined(words, separator)` of character `k` of word `i`.
pub open spec fn char_place(words: Seq<Seq<char>>, separator: Seq<char>, i: int, k: int) -> int {
    word_start(words, separator, i) + k
}

/// In the joined text the separator begins at no character of any word: it
/// is found between the words and nowhere else.
pub open spec fn separator_only_between(words: Seq<Seq<char>>, separator: Seq<char>) -> bool {
    forall|i: int, k: int|
        0 <= i < words.len() && 0 <= k < words[i].len() ==> !occurs_at(
            joined(words, separator),
            separator,
            #[trigger] char_place(words, separator, i, k),
        )
}

/// Skipping `n` characters of a text moves every occurrence `n` to the left.
pub proof fn lemma_occurs_skip(text: Seq<char>, pattern: Seq<char>, n: int, at: int)
    requires
        0 <= n <= text.len(),
        0 <= at,
    ensures
        occurs_at(text.skip(n), pattern, at) == occurs_at(text, pattern, at + n),
{
    if at + n + pattern.len() <= text.len() {
        assert(text.skip(n).subrange(at, at + pattern.len()) =~= text.subrange(
            at + n,
            at + n + pattern.len(),
        ));
    }
}

/// Character `k` of word `i` stands in the joined text at its place.
pub proof fn lemma_joined_char(words: Seq<Seq<char>>, separator: Seq<char>, i: int, k: int)
    requires
        0 <= i < words.len(),
        0 <= k < words[i].len(),
    ensures
        0 <= char_place(words, separator, i, k) < joined(words, separator).len(),
        joined(words, separator)[char_place(words, separator, i, k)] == words[i][k],
    decreases i,
{
    if i > 0 {
        let rest = words.skip(1);
        lemma_joined_char(rest, separator, i - 1, k);
        assert(rest[i - 1] == words[i]);
    }
}

/// Splitting a joined text on its separator gives back the words, provided
/// the separator is found in the text only between the words.
pub proof fn lemma_split_joined(words: Seq<Seq<char>>, separator: Seq<char>)
    requires
        words.len() > 0,
        separator.len() > 0,
        separator_only_between(words, separator),
    ensures
        split(joined(words, separator), separator) == words,
    decreases words.len(), words[0].len(),
{
    let text = joined(words, separator);
    let first = words[0];
    let rest = words.skip(1);
    assert(words =~= seq![first] + rest);
    if first.len() == 0 {
        if words.len() == 1 {
            assert(split(text, separator) =~= words);
        } else {
            let shift = separator.len() as int;
            assert(text =~= separator + joined(rest, separator));
            assert(text.subrange(0, shift) =~= separator);
            assert(text.skip(shift) =~= joined(rest, separator));
            assert forall|i: int, k: int|
                0 <= i < rest.len() && 0 <= k < rest[i].len() implies !occurs_at(
                joined(rest, separator),
                separator,
                #[trigger] char_place(rest, separator, i, k),
            ) by {
                let place = char_place(rest, separator, i, k);
                lemma_joined_char(rest, separator, i, k);
                lemma_occurs_skip(text, separator, shift, place);
                assert(words[i + 1] == rest[i]);
                assert(char_place(words, separator, i + 1, k) == place + shift);
            }
            lemma_split_joined(rest, separator);
            assert(occurs_at(text, separator, 0));
            assert(first =~= Seq::<char>::empty());
            assert(split(text, separator) =~= words);
        }
    } else {
        let shorter = words.update(0, first.skip(1));
        assert(shorter.skip(1) =~= rest);
        assert(char_place(words, separator, 0, 0) == 0);
        assert(!occurs_at(text, separator, 0));
        assert(text.skip(1) =~= joined(shorter, separator));
        assert(text[0] == first[0]);
        assert forall|i: int, k: int|
            0 <= i < shorter.len() && 0 <= k < shorter[i].len() implies !occurs_at(
            joined(shorter, separator),
            separator,
            #[trigger] char_place(shorter, separator, i, k),
        ) by {
            let place = char_place(shorter, separator, i, k);
            lemma_joined_char(shorter, separator, i, k);
            lemma_occurs_skip(text, separator, 1, place);
            if i == 0 {
                assert(char_place(words, separator, 0, k + 1) == place + 1);
            } else {
                assert(char_place(words, separator, i, k) == place + 1);
            }
        }
        lemma_split_joined(shorter, separator);
        assert(seq![text[0]] + first.skip(1) =~= first);
        assert(split(text, separator) =~= words);
    }
}

/// Splitting always gives at least one segment.
pub proof fn lemma_split_has_segments(text: Seq<char>, separator: Seq<char>)
    ensures
        split(text, separator).len() >= 1,
    decreases text.len(),
{
    if separator.len() > 0 && text.len() > 0 && !occurs_at(text, separator, 0) {
        lemma_split_has_segments(text.skip(1), separator);
    }
}

/// Splitting a joined text gives back the words only if the separator is
/// found in the text only between the words: the condition of
/// `lemma_split_joined` cannot be weakened.
pub proof fn lemma_split_joined_only_if(words: Seq<Seq<char>>, separator: Seq<char>)
    requires
        words.len() > 0,
        separator.len() > 0,
        split(joined(words, separator), separator) == words,
    ensures
        separator_only_between(words, separator),
    decreases words.len(), words[0].len(),
{
    let text = joined(words, separator);
    let first = words[0];
    let rest = words.skip(1);
    if first.len() == 0 {
        if words.len() > 1 {
            let shift = separator.len() as int;
            assert(text =~= separator + joined(rest, separator));
            assert(text.subrange(0, shift) =~= separator);
            assert(occurs_at(text, separator, 0));
            assert(text.skip(shift) =~= joined(rest, separator));
            assert(split(joined(rest, separator), separator) =~= rest);
            lemma_split_joined_only_if(rest, separator);
            assert forall|i: int, k: int|
                0 <= i < words.len() && 0 <= k < words[i].len() implies !occurs_at(
                text,
                separator,
                #[trigger] char_place(words, separator, i, k),
            ) by {
                assert(rest[i - 1] == words[i]);
                let place = char_place(rest, separator, i - 1, k);
                lemma_joined_char(rest, separator, i - 1, k);
                lemma_occurs_skip(text, separator, shift, place);
                assert(char_place(words, separator, i, k) == place + shift);
            }
        }
    } else {
        assert(text[0] == first[0]);
        if occurs_at(text, separator, 0) {
            assert(split(text, separator)[0] =~= Seq::<char>::empty());
            assert(false);
        }
        let shorter = words.update(0, first.skip(1));
        assert(shorter.skip(1) =~= rest);
        assert(text.skip(1) =~= joined(shorter, separator));
        let segments = split(text.skip(1), separator);
        lemma_split_has_segments(text.skip(1), separator);
        assert(words[0] == seq![text[0]] + segments[0]);
        assert(segments[0] =~= first.skip(1)) by {
            assert forall|k: int| 0 <= k < segments[0].len() implies segments[0][k] == first[k + 1] by {
                assert((seq![text[0]] + segments[0])[k + 1] == segments[0][k]);
            }
        }
        assert(segments =~= shorter) by {
            assert(segments.len() == words.len());
            assert forall|j: int| 1 <= j < segments.len() implies segments[j] == shorter[j] by {
                assert(segments.skip(1)[j - 1] == segments[j]);
                assert((seq![seq![text[0]] + segments[0]] + segments.skip(1))[j] == segments.skip(
                    1,
                )[j - 1]);
            }
        }
        lemma_split_joined_only_if(shorter, separator);
        assert forall|i: int, k: int|
            0 <= i < words.len() && 0 <= k < words[i].len() implies !occurs_at(
            text,
            separator,
            #[trigger] char_place(words, separator, i, k),
        ) by {
            if i == 0 && k == 0 {
            } else if i == 0 {
                let place = char_place(shorter, separator, 0, k - 1);
                lemma_occurs_skip(text, separator, 1, place);
            } else {
                let place = char_place(shorter, separator, i, k);
                lemma_joined_char(shorter, separator, i, k);
                lemma_occurs_skip(text, separator, 1, place);
                assert(char_place(words, separator, i, k) == place + 1);
            }
        }
    }
}

/// Where the first character of the separator is a character of none of the
/// words, the separator is found in the joined text only between the words.
pub proof fn lemma_first_char_keeps_apart(words: Seq<Seq<char>>, separator: Seq<char>)
    requires
        separator.len() > 0,
        forall|i: int| 0 <= i < words.len() ==> !(#[trigger] words[i]).contains(separator[0]),
    ensures
        separator_only_between(words, separator),
{
    let text = joined(words, separator);
    assert forall|i: int, k: int| 0 <= i < words.len() && 0 <= k < words[i].len() implies !occurs_at(
        text,
        separator,
        #[trigger] char_place(words, separator, i, k),
    ) by {
        let place = char_place(words, separator, i, k);
        lemma_joined_char(words, separator, i, k);
        if occurs_at(text, separator, place) {
            assert(text.subrange(place, place + separator.len())[0] == separator[0]);
            assert(words[i][k] == separator[0]);
            assert(words[i].contains(separator[0]));
        }
    }
}

} // verus!
