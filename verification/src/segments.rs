//! What splitting a generated identifier on its separator gives back: how
//! many segments, and what each of them looks like.

use vstd::prelude::*;
use crate::identifier::{drawn, identifier, is_identifier, lemma_drawn_words};
use crate::lexicon::{in_lexicon, is_word, lemma_lexicon_words};
use crate::options::Settings;
use crate::split::{
    lemma_first_char_keeps_apart, lemma_split_joined, separator_only_between, split,
};
use crate::text::{is_ascii_lower, is_ascii_upper, rendered, rendered_all};

verus! {

/// Under `settings` the separator is not empty, and in every identifier that
/// can be generated it is found between the words and nowhere else.
pub open spec fn splits_cleanly(settings: Settings) -> bool {
    &&& settings.separator.len() > 0
    &&& forall|words: Seq<Seq<char>>| #[trigger]
        drawn(words, settings.adjective_count, settings.add_adverb) ==> separator_only_between(
            rendered_all(words, settings.capitalize),
            settings.separator,
        )
}

/// A lexicon word as it appears in an identifier: as long as the word, made
/// of ASCII letters, lower-case but for a capital in front where the words
/// are capitalized.
pub proof fn lemma_rendered_word(word: Seq<char>, capitalize: bool)
    requires
        is_word(word),
    ensures
        rendered(word, capitalize).len() == word.len(),
        capitalize ==> is_ascii_upper(rendered(word, capitalize)[0]),
        !capitalize ==> rendered(word, capitalize) == word,
        forall|k: int|
            0 <= k < word.len() ==> {
                ||| is_ascii_lower(#[trigger] rendered(word, capitalize)[k])
                ||| capitalize && k == 0
            },
{
    if capitalize {
        assert(is_ascii_lower(word[0]));
        assert forall|k: int| 1 <= k < word.len() implies is_ascii_lower(
            #[trigger] rendered(word, capitalize)[k],
        ) by {
            assert(rendered(word, capitalize)[k] == word[k]);
        }
    }
}

/// Splitting the identifier of a possible draw gives back the words of the
/// draw as they were rendered, where the separator is found only between
/// them.
pub proof fn lemma_split_identifier(words: Seq<Seq<char>>, settings: Settings)
    requires
        drawn(words, settings.adjective_count, settings.add_adverb),
        settings.separator.len() > 0,
        separator_only_between(rendered_all(words, settings.capitalize), settings.separator),
    ensures
        split(identifier(words, settings), settings.separator) == rendered_all(
            words,
            settings.capitalize,
        ),
{
    lemma_split_joined(rendered_all(words, settings.capitalize), settings.separator);
}

/// Split on the separator, an identifier has as many segments as the
/// settings ask words for: the adjectives, a noun, a verb, and the adverb if
/// there is one.
pub proof fn lemma_word_count(text: Seq<char>, settings: Settings)
    requires
        is_identifier(text, settings),
        splits_cleanly(settings),
    ensures
        split(text, settings.separator).len() == settings.word_count(),
{
    let words = choose|words: Seq<Seq<char>>| #[trigger]
        drawn(words, settings.adjective_count, settings.add_adverb) && text == identifier(
            words,
            settings,
        );
    lemma_split_identifier(words, settings);
}

/// Without adjectives an identifier has two segments, or three with an
/// adverb.
pub proof fn lemma_word_count_without_adjectives(text: Seq<char>, settings: Settings)
    requires
        is_identifier(text, settings),
        splits_cleanly(settings),
        settings.adjective_count == 0,
    ensures
        split(text, settings.separator).len() == if settings.add_adverb {
            3nat
        } else {
            2nat
        },
{
    lemma_word_count(text, settings);
}

/// Where the words are capitalized, every segment of an identifier begins
/// with an ASCII capital letter.
pub proof fn lemma_segments_capitalized(text: Seq<char>, settings: Settings)
    requires
        is_identifier(text, settings),
        splits_cleanly(settings),
        settings.capitalize,
    ensures
        forall|i: int|
            0 <= i < split(text, settings.separator).len() ==> {
                &&& (#[trigger] split(text, settings.separator)[i]).len() > 0
                &&& is_ascii_upper(split(text, settings.separator)[i][0])
            },
{
    let words = choose|words: Seq<Seq<char>>| #[trigger]
        drawn(words, settings.adjective_count, settings.add_adverb) && text == identifier(
            words,
            settings,
        );
    lemma_split_identifier(words, settings);
    lemma_drawn_words(words, settings.adjective_count, settings.add_adverb);
    let segments = split(text, settings.separator);
    assert forall|i: int| 0 <= i < segments.len() implies {
        &&& (#[trigger] segments[i]).len() > 0
        &&& is_ascii_upper(segments[i][0])
    } by {
        assert(is_word(words[i]));
        lemma_rendered_word(words[i], true);
    }
}

/// Where the words are not capitalized, the segments of an identifier are
/// lexicon words as the lists hold them: as many adjectives as asked for, a
/// noun, a verb, and an adverb if asked for.
pub proof fn lemma_segments_verbatim(text: Seq<char>, settings: Settings)
    requires
        is_identifier(text, settings),
        splits_cleanly(settings),
        !settings.capitalize,
    ensures
        drawn(split(text, settings.separator), settings.adjective_count, settings.add_adverb),
{
    let words = choose|words: Seq<Seq<char>>| #[trigger]
        drawn(words, settings.adjective_count, settings.add_adverb) && text == identifier(
            words,
            settings,
        );
    lemma_split_identifier(words, settings);
    assert(rendered_all(words, false) =~= words);
}

/// The settings split cleanly where the first character of the separator is
/// a character of no lexicon word as it is rendered.
pub proof fn lemma_unused_char_splits_cleanly(settings: Settings)
    requires
        settings.separator.len() > 0,
        forall|word: Seq<char>| #[trigger]
            in_lexicon(word) ==> !rendered(word, settings.capitalize).contains(
                settings.separator[0],
            ),
    ensures
        splits_cleanly(settings),
{
    assert forall|words: Seq<Seq<char>>| #[trigger]
        drawn(words, settings.adjective_count, settings.add_adverb) implies separator_only_between(
        rendered_all(words, settings.capitalize),
        settings.separator,
    ) by {
        let parts = rendered_all(words, settings.capitalize);
        assert forall|i: int| 0 <= i < parts.len() implies !(#[trigger] parts[i]).contains(
            settings.separator[0],
        ) by {
            assert(in_lexicon(words[i]));
        }
        lemma_first_char_keeps_apart(parts, settings.separator);
    }
}

/// The settings split cleanly where the separator begins with a character
/// that is no ASCII lower-case letter and, if the words are capitalized, no
/// ASCII capital either.
pub proof fn lemma_non_letter_splits_cleanly(settings: Settings)
    requires
        settings.separator.len() > 0,
        !is_ascii_lower(settings.separator[0]),
        settings.capitalize ==> !is_ascii_upper(settings.separator[0]),
    ensures
        splits_cleanly(settings),
{
    lemma_lexicon_words();
    assert forall|word: Seq<char>| #[trigger] in_lexicon(word) implies !rendered(
        word,
        settings.capitalize,
    ).contains(settings.separator[0]) by {
        lemma_rendered_word(word, settings.capitalize);
        let shown = rendered(word, settings.capitalize);
        if shown.contains(settings.separator[0]) {
            let k = choose|k: int| 0 <= k < shown.len() && shown[k] == settings.separator[0];
            assert(is_ascii_lower(shown[k]) || (settings.capitalize && k == 0));
        }
    }
    lemma_unused_char_splits_cleanly(settings);
}

} // verus!
