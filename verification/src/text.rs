//! Text operations behind an identifier: capitalising a word, joining words
//! with a separator, and the mathematical model of both.

use vstd::prelude::*;

verus! {

/// An ASCII lower-case letter.
pub open spec fn is_ascii_lower(c: char) -> bool {
    'a' <= c && c <= 'z'
}

/// An ASCII capital letter.
pub open spec fn is_ascii_upper(c: char) -> bool {
    'A' <= c && c <= 'Z'
}

/// The capital that belongs to an ASCII lower-case letter.
pub open spec fn ascii_capital(c: char) -> char
    recommends
        is_ascii_lower(c),
{
    ((c as u32) - 32) as char
}

/// The characters that `char::to_uppercase` yields for `c`, in order.
/// Unicode's case tables decide them; this crate does not restate the tables.
pub uninterp spec fn unicode_uppercase(c: char) -> Seq<char>;

/// The upper-case form of a character: the matching capital for `'a'..='z'`,
/// and whatever Unicode's mapping gives for any other character.
pub open spec fn uppercase(c: char) -> Seq<char> {
    if is_ascii_lower(c) {
        seq![ascii_capital(c)]
    } else {
        unicode_uppercase(c)
    }
}

/// Everything after the first character of `word`; empty for an empty word.
pub open spec fn tail(word: Seq<char>) -> Seq<char> {
    if word.len() == 0 {
        word
    } else {
        word.subrange(1, word.len() as int)
    }
}

/// `word` with its first character upper-cased and the rest untouched.
pub open spec fn capitalized(word: Seq<char>) -> Seq<char> {
    if word.len() == 0 {
        word
    } else {
        uppercase(word[0]) + tail(word)
    }
}

/// A word as it appears in an identifier.
pub open spec fn rendered(word: Seq<char>, capitalize: bool) -> Seq<char> {
    if capitalize {
        capitalized(word)
    } else {
        word
    }
}

/// Every word of `words` as it appears in an identifier.
pub open spec fn rendered_all(words: Seq<Seq<char>>, capitalize: bool) -> Seq<Seq<char>> {
    words.map_values(|w: Seq<char>| rendered(w, capitalize))
}

/// The words of `words` in order, with `separator` between each two
/// neighbours and nothing before the first or after the last.
pub open spec fn joined(words: Seq<Seq<char>>, separator: Seq<char>) -> Seq<char>
    decreases words.len(),
{
    if words.len() == 0 {
        Seq::empty()
    } else if words.len() == 1 {
        words[0]
    } else {
        words[0] + separator + joined(words.skip(1), separator)
    }
}

/// The views of a list of string slices.
pub open spec fn words_of(list: Seq<&str>) -> Seq<Seq<char>> {
    list.map_values(|w: &str| w@)
}

/// Appending one more word to a non-empty list appends the separator and the
/// word to the joined text.
pub proof fn lemma_joined_push(words: Seq<Seq<char>>, word: Seq<char>, separator: Seq<char>)
    requires
        words.len() > 0,
    ensures
        joined(words.push(word), separator) == joined(words, separator) + separator + word,
    decreases words.len(),
{
    let longer = words.push(word);
    if words.len() == 1 {
        assert(longer.skip(1) =~= seq![word]);
        assert(joined(longer.skip(1), separator) == word);
    } else {
        assert(longer.skip(1) =~= words.skip(1).push(word));
        lemma_joined_push(words.skip(1), word, separator);
        assert(joined(longer, separator) =~= joined(words, separator) + separator + word);
    }
}

/// Upper-cases one character with `char::to_uppercase` and gathers what the
/// call yields into a `String`. Trusted, not proved: for `'a'..='z'` the
/// result is the single matching capital; for any other character it is
/// what `unicode_uppercase` names; and it is never empty, since the call
/// yields one or more characters.
#[verifier::external_body]
fn upper(c: char) -> (text: String)
    ensures
        is_ascii_lower(c) ==> text@ == seq![ascii_capital(c)],
        !is_ascii_lower(c) ==> text@ == unicode_uppercase(c),
        text@.len() >= 1,
{
    c.to_uppercase().collect()
}

/// Puts `initial` in place of the first character of `word`.
pub fn with_initial(initial: String, word: &str) -> (text: String)
    ensures
        text@ == initial@ + tail(word@),
{
    let n = word.unicode_len();
    if n == 0 {
        assert(initial@ + tail(word@) =~= initial@);
        initial
    } else {
        initial.concat(word.substring_char(1, n))
    }
}

/// Upper-cases the first character of `s` and leaves the rest as it is.
/// An empty string stays empty.
pub fn capitalize(s: &str) -> (text: String)
    ensures
        text@ == capitalized(s@),
        text@.len() >= s@.len(),
{
    if s.unicode_len() == 0 {
        String::new()
    } else {
        let first = s.get_char(0);
        with_initial(upper(first), s)
    }
}

/// Builds an identifier from words already chosen: each word capitalised if
/// `capitalize` is set, and `separator` between neighbours.
pub fn compose(words: &[&str], capitalize: bool, separator: &str) -> (text: String)
    ensures
        text@ == joined(rendered_all(words_of(words@), capitalize), separator@),
{
    let ghost parts = rendered_all(words_of(words@), capitalize);
    let mut text = String::new();
    let mut i: usize = 0;
    while i < words.len()
        invariant
            i <= words.len(),
            parts == rendered_all(words_of(words@), capitalize),
            text@ == joined(parts.take(i as int), separator@),
        decreases words.len() - i,
    {
        let ghost before = parts.take(i as int);
        let word = words[i];
        assert(parts[i as int] == rendered(word@, capitalize));
        assert(parts.take(i + 1) =~= before.push(parts[i as int]));
        if i > 0 {
            text.append(separator);
            proof {
                lemma_joined_push(before, parts[i as int], separator@);
            }
        }
        if capitalize {
            let upper_word = self::capitalize(word);
            text.append(upper_word.as_str());
        } else {
            text.append(word);
        }
        assert(text@ =~= joined(parts.take(i + 1), separator@));
        i += 1;
    }
    assert(parts.take(words.len() as int) =~= parts);
    text
}

} // verus!
