//! Generating identifiers: words drawn from the lexicon in a fixed order,
//! rendered and joined as the options say.

use vstd::prelude::*;
use crate::lexicon::{
    adjectives, adverbs, in_lexicon, is_word, lemma_lexicon_words, nouns, verbs, ADJECTIVES,
    ADVERBS, NOUNS, VERBS,
};
use crate::options::{default_settings, Options, Settings};
use crate::select::random;
use crate::split::lemma_joined_char;
use crate::text::{compose, joined, rendered, rendered_all, words_of};

verus! {

/// `words` is a possible draw: `adjective_count` adjectives, then a noun,
/// then a verb, then an adverb if `add_adverb` is set, and nothing else.
pub open spec fn drawn(words: Seq<Seq<char>>, adjective_count: nat, add_adverb: bool) -> bool {
    &&& words.len() == adjective_count + 2 + if add_adverb {
        1nat
    } else {
        0nat
    }
    &&& forall|i: int| 0 <= i < adjective_count ==> adjectives().contains(#[trigger] words[i])
    &&& nouns().contains(words[adjective_count as int])
    &&& verbs().contains(words[adjective_count as int + 1])
    &&& add_adverb ==> adverbs().contains(words[adjective_count as int + 2])
}

/// The identifier that `words` make under `settings`.
pub open spec fn identifier(words: Seq<Seq<char>>, settings: Settings) -> Seq<char> {
    joined(rendered_all(words, settings.capitalize), settings.separator)
}

/// `text` is an identifier that generation under `settings` can give: the
/// identifier of some possible draw.
pub open spec fn is_identifier(text: Seq<char>, settings: Settings) -> bool {
    exists|words: Seq<Seq<char>>|
        #[trigger] drawn(words, settings.adjective_count, settings.add_adverb) && text
            == identifier(words, settings)
}

/// Every word of a possible draw is a lexicon word.
pub proof fn lemma_drawn_words(words: Seq<Seq<char>>, adjective_count: nat, add_adverb: bool)
    requires
        drawn(words, adjective_count, add_adverb),
    ensures
        forall|i: int| 0 <= i < words.len() ==> is_word(#[trigger] words[i]),
{
    lemma_lexicon_words();
    assert forall|i: int| 0 <= i < words.len() implies is_word(#[trigger] words[i]) by {
        assert(in_lexicon(words[i]));
    }
}

/// An identifier is never empty.
pub proof fn lemma_identifier_not_empty(text: Seq<char>, settings: Settings)
    requires
        is_identifier(text, settings),
    ensures
        text.len() > 0,
{
    let words = choose|words: Seq<Seq<char>>|
        #[trigger] drawn(words, settings.adjective_count, settings.add_adverb) && text
            == identifier(words, settings);
    lemma_drawn_words(words, settings.adjective_count, settings.add_adverb);
    let parts = rendered_all(words, settings.capitalize);
    assert(is_word(words[0]));
    assert(parts[0] == rendered(words[0], settings.capitalize));
    lemma_joined_char(parts, settings.separator, 0, 0);
}

/// Draws the words of one identifier: `adjective_count` adjectives, a noun,
/// a verb and, if `add_adverb` is set, an adverb, each at random from its
/// list.
pub fn draw(adjective_count: usize, add_adverb: bool) -> (words: Vec<&'static str>)
    ensures
        drawn(words_of(words@), adjective_count as nat, add_adverb),
{
    let extra: usize = if add_adverb {
        3
    } else {
        2
    };
    let mut words: Vec<&'static str> = match adjective_count.checked_add(extra) {
        Some(capacity) => Vec::with_capacity(capacity),
        None => Vec::new(),
    };
    for i in 0..adjective_count
        invariant
            words@.len() == i,
            forall|j: int| 0 <= j < i ==> adjectives().contains(#[trigger] words_of(words@)[j]),
    {
        let word = random(&ADJECTIVES);
        let ghost before = words_of(words@);
        words.push(word);
        assert forall|j: int| 0 <= j < i + 1 implies adjectives().contains(
            #[trigger] words_of(words@)[j],
        ) by {
            if j < i {
                assert(words_of(words@)[j] == before[j]);
            }
        }
    }
    let ghost chosen = words_of(words@);
    words.push(random(&NOUNS));
    words.push(random(&VERBS));
    if add_adverb {
        words.push(random(&ADVERBS));
    }
    assert forall|j: int| 0 <= j < adjective_count implies adjectives().contains(
        #[trigger] words_of(words@)[j],
    ) by {
        assert(words_of(words@)[j] == chosen[j]);
    }
    words
}

/// Generates identifiers under the options it was made with.
#[derive(Debug)]
pub struct HumanId<'a> {
    options: Options<'a>,
}

impl<'a> HumanId<'a> {
    /// The options that this generator works under.
    pub closed spec fn options(&self) -> Options<'a> {
        self.options
    }

    /// Creates a generator under `options`, or under the default options
    /// where there are none.
    pub fn new(options: Option<Options<'a>>) -> (generator: Self)
        ensures
            options matches Some(given) ==> generator.options() == given,
            options is None ==> generator.options().is_default(),
            options is None ==> generator.options()@ == default_settings(),
    {
        match options {
            Some(given) => HumanId { options: given },
            None => HumanId { options: Options::new() },
        }
    }

    /// Generates a human readable identifier: the adjectives, a noun, a verb
    /// and the adverb if asked for, drawn at random, capitalized if asked
    /// for, and joined by the separator.
    pub fn generate(&self) -> (id: String)
        ensures
            is_identifier(id@, self.options()@),
            id@.len() > 0,
    {
        generate_under(&self.options)
    }

    /// Generates an identifier; the same as `generate`.
    pub fn to_string(&self) -> (id: String)
        ensures
            is_identifier(id@, self.options()@),
            id@.len() > 0,
    {
        self.generate()
    }
}

/// Generates one identifier under `options`.
fn generate_under(options: &Options) -> (id: String)
    ensures
        is_identifier(id@, options@),
        id@.len() > 0,
{
    let words = draw(options.adjective_count, options.add_adverb);
    let separator = match options.separator {
        Some(separator) => separator,
        None => "-",
    };
    proof {
        reveal_strlit("-");
    }
    assert(separator@ =~= options@.separator);
    let id = compose(words.as_slice(), options.capitalize, separator);
    proof {
        assert(drawn(words_of(words@), options@.adjective_count, options@.add_adverb));
        assert(id@ == identifier(words_of(words@), options@));
        lemma_identifier_not_empty(id@, options@);
    }
    id
}

/// Generates a human readable identifier under `options`, or under the
/// default options where there are none.
pub fn human_id(options: Option<Options>) -> (id: String)
    ensures
        options matches Some(given) ==> is_identifier(id@, given@),
        options is None ==> is_identifier(id@, default_settings()),
        id@.len() > 0,
{
    match options {
        Some(given) => generate_under(&given),
        None => generate_under(&Options::new()),
    }
}

} // verus!
