//! The four word lists that identifiers are made from, and what holds of
//! every word in them.

use vstd::prelude::*;
use crate::text::{is_ascii_lower, words_of};

verus! {

/// Words that describe; any number of them opens an identifier.
pub const ADJECTIVES: [&'static str; 40] = [
    "quick", "brave", "calm", "clever", "bright", "gentle", "happy", "jolly",
    "kind", "lively", "lucky", "mighty", "proud", "quiet", "rapid", "shiny",
    "silly", "swift", "tidy", "witty", "bold", "eager", "fancy", "fuzzy",
    "giant", "humble", "icy", "keen", "loud", "merry", "noble", "odd",
    "plain", "rare", "sharp", "tall", "wise", "young", "zany", "vivid",
];

/// Words that name; exactly one follows the adjectives.
pub const NOUNS: [&'static str; 40] = [
    "fox", "bear", "cat", "dog", "eagle", "falcon", "goat", "hawk",
    "ibis", "jaguar", "koala", "lion", "moose", "newt", "otter", "panda",
    "quail", "rabbit", "seal", "tiger", "urchin", "viper", "walrus", "yak",
    "zebra", "badger", "camel", "dolphin", "emu", "ferret", "gecko", "heron",
    "iguana", "lemur", "mole", "narwhal", "owl", "parrot", "raven", "swan",
];

/// Words that act; exactly one follows the noun.
pub const VERBS: [&'static str; 40] = [
    "jumps", "runs", "sings", "dances", "swims", "flies", "climbs", "walks",
    "laughs", "sleeps", "reads", "writes", "paints", "cooks", "dreams", "smiles",
    "waves", "hops", "skips", "rolls", "builds", "counts", "digs", "explores",
    "floats", "glows", "hums", "juggles", "kicks", "listens", "marches", "nods",
    "plays", "races", "sails", "thinks", "travels", "waits", "yawns", "whistles",
];

/// Words that say how; at most one closes an identifier.
pub const ADVERBS: [&'static str; 32] = [
    "silently", "quickly", "slowly", "gladly", "boldly", "calmly", "eagerly", "gently",
    "happily", "kindly", "loudly", "neatly", "proudly", "quietly", "rarely", "safely",
    "softly", "swiftly", "warmly", "wisely", "bravely", "freely", "keenly", "lightly",
    "madly", "nicely", "openly", "politely", "sweetly", "truly", "vividly", "weekly",
];

/// A lexicon word: at least one character, all of them ASCII lower-case
/// letters.
pub open spec fn is_word(word: Seq<char>) -> bool {
    &&& word.len() > 0
    &&& forall|k: int| 0 <= k < word.len() ==> is_ascii_lower(#[trigger] word[k])
}

/// A word category: a non-empty list of lexicon words.
pub open spec fn is_category(words: Seq<Seq<char>>) -> bool {
    &&& words.len() > 0
    &&& forall|i: int| 0 <= i < words.len() ==> is_word(#[trigger] words[i])
}

/// The adjectives as sequences of characters.
pub open spec fn adjectives() -> Seq<Seq<char>> {
    words_of(ADJECTIVES@)
}

/// The nouns as sequences of characters.
pub open spec fn nouns() -> Seq<Seq<char>> {
    words_of(NOUNS@)
}

/// The verbs as sequences of characters.
pub open spec fn verbs() -> Seq<Seq<char>> {
    words_of(VERBS@)
}

/// The adverbs as sequences of characters.
pub open spec fn adverbs() -> Seq<Seq<char>> {
    words_of(ADVERBS@)
}

/// The adjectives form a word category.
pub proof fn lemma_adjectives_category()
    ensures
        is_category(adjectives()),
{
    assert(is_word("quick"@)) by {
        reveal_strlit("quick");
    }
    assert(is_word("brave"@)) by {
        reveal_strlit("brave");
    }
    assert(is_word("calm"@)) by {
        reveal_strlit("calm");
    }
    assert(is_word("clever"@)) by {
        reveal_strlit("clever");
    }
    assert(is_word("bright"@)) by {
        reveal_strlit("bright");
    }
    assert(is_word("gentle"@)) by {
        reveal_strlit("gentle");
    }
    assert(is_word("happy"@)) by {
        reveal_strlit("happy");
    }
    assert(is_word("jolly"@)) by {
        reveal_strlit("jolly");
    }
    assert(is_word("kind"@)) by {
        reveal_strlit("kind");
    }
    assert(is_word("lively"@)) by {
        reveal_strlit("lively");
    }
    assert(is_word("lucky"@)) by {
        reveal_strlit("lucky");
    }
    assert(is_word("mighty"@)) by {
        reveal_strlit("mighty");
    }
    assert(is_word("proud"@)) by {
        reveal_strlit("proud");
    }
    assert(is_word("quiet"@)) by {
        reveal_strlit("quiet");
    }
    assert(is_word("rapid"@)) by {
        reveal_strlit("rapid");
    }
    assert(is_word("shiny"@)) by {
        reveal_strlit("shiny");
    }
    assert(is_word("silly"@)) by {
        reveal_strlit("silly");
    }
    assert(is_word("swift"@)) by {
        reveal_strlit("swift");
    }
    assert(is_word("tidy"@)) by {
        reveal_strlit("tidy");
    }
    assert(is_word("witty"@)) by {
        reveal_strlit("witty");
    }
    assert(is_word("bold"@)) by {
        reveal_strlit("bold");
    }
    assert(is_word("eager"@)) by {
        reveal_strlit("eager");
    }
    assert(is_word("fancy"@)) by {
        reveal_strlit("fancy");
    }
    assert(is_word("fuzzy"@)) by {
        reveal_strlit("fuzzy");
    }
    assert(is_word("giant"@)) by {
        reveal_strlit("giant");
    }
    assert(is_word("humble"@)) by {
        reveal_strlit("humble");
    }
    assert(is_word("icy"@)) by {
        reveal_strlit("icy");
    }
    assert(is_word("keen"@)) by {
        reveal_strlit("keen");
    }
    assert(is_word("loud"@)) by {
        reveal_strlit("loud");
    }
    assert(is_word("merry"@)) by {
        reveal_strlit("merry");
    }
    assert(is_word("noble"@)) by {
        reveal_strlit("noble");
    }
    assert(is_word("odd"@)) by {
        reveal_strlit("odd");
    }
    assert(is_word("plain"@)) by {
        reveal_strlit("plain");
    }
    assert(is_word("rare"@)) by {
        reveal_strlit("rare");
    }
    assert(is_word("sharp"@)) by {
        reveal_strlit("sharp");
    }
    assert(is_word("tall"@)) by {
        reveal_strlit("tall");
    }
    assert(is_word("wise"@)) by {
        reveal_strlit("wise");
    }
    assert(is_word("young"@)) by {
        reveal_strlit("young");
    }
    assert(is_word("zany"@)) by {
        reveal_strlit("zany");
    }
    assert(is_word("vivid"@)) by {
        reveal_strlit("vivid");
    }
    assert(adjectives().len() == 40);
}

/// The nouns form a word category.
pub proof fn lemma_nouns_category()
    ensures
        is_category(nouns()),
{
    assert(is_word("fox"@)) by {
        reveal_strlit("fox");
    }
    assert(is_word("bear"@)) by {
        reveal_strlit("bear");
    }
    assert(is_word("cat"@)) by {
        reveal_strlit("cat");
    }
    assert(is_word("dog"@)) by {
        reveal_strlit("dog");
    }
    assert(is_word("eagle"@)) by {
        reveal_strlit("eagle");
    }
    assert(is_word("falcon"@)) by {
        reveal_strlit("falcon");
    }
    assert(is_word("goat"@)) by {
        reveal_strlit("goat");
    }
    assert(is_word("hawk"@)) by {
        reveal_strlit("hawk");
    }
    assert(is_word("ibis"@)) by {
        reveal_strlit("ibis");
    }
    assert(is_word("jaguar"@)) by {
        reveal_strlit("jaguar");
    }
    assert(is_word("koala"@)) by {
        reveal_strlit("koala");
    }
    assert(is_word("lion"@)) by {
        reveal_strlit("lion");
    }
    assert(is_word("moose"@)) by {
        reveal_strlit("moose");
    }
    assert(is_word("newt"@)) by {
        reveal_strlit("newt");
    }
    assert(is_word("otter"@)) by {
        reveal_strlit("otter");
    }
    assert(is_word("panda"@)) by {
        reveal_strlit("panda");
    }
    assert(is_word("quail"@)) by {
        reveal_strlit("quail");
    }
    assert(is_word("rabbit"@)) by {
        reveal_strlit("rabbit");
    }
    assert(is_word("seal"@)) by {
        reveal_strlit("seal");
    }
    assert(is_word("tiger"@)) by {
        reveal_strlit("tiger");
    }
    assert(is_word("urchin"@)) by {
        reveal_strlit("urchin");
    }
    assert(is_word("viper"@)) by {
        reveal_strlit("viper");
    }
    assert(is_word("walrus"@)) by {
        reveal_strlit("walrus");
    }
    assert(is_word("yak"@)) by {
        reveal_strlit("yak");
    }
    assert(is_word("zebra"@)) by {
        reveal_strlit("zebra");
    }
    assert(is_word("badger"@)) by {
        reveal_strlit("badger");
    }
    assert(is_word("camel"@)) by {
        reveal_strlit("camel");
    }
    assert(is_word("dolphin"@)) by {
        reveal_strlit("dolphin");
    }
    assert(is_word("emu"@)) by {
        reveal_strlit("emu");
    }
    assert(is_word("ferret"@)) by {
        reveal_strlit("ferret");
    }
    assert(is_word("gecko"@)) by {
        reveal_strlit("gecko");
    }
    assert(is_word("heron"@)) by {
        reveal_strlit("heron");
    }
    assert(is_word("iguana"@)) by {
        reveal_strlit("iguana");
    }
    assert(is_word("lemur"@)) by {
        reveal_strlit("lemur");
    }
    assert(is_word("mole"@)) by {
        reveal_strlit("mole");
    }
    assert(is_word("narwhal"@)) by {
        reveal_strlit("narwhal");
    }
    assert(is_word("owl"@)) by {
        reveal_strlit("owl");
    }
    assert(is_word("parrot"@)) by {
        reveal_strlit("parrot");
    }
    assert(is_word("raven"@)) by {
        reveal_strlit("raven");
    }
    assert(is_word("swan"@)) by {
        reveal_strlit("swan");
    }
    assert(nouns().len() == 40);
}

/// The verbs form a word category.
pub proof fn lemma_verbs_category()
    ensures
        is_category(verbs()),
{
    assert(is_word("jumps"@)) by {
        reveal_strlit("jumps");
    }
    assert(is_word("runs"@)) by {
        reveal_strlit("runs");
    }
    assert(is_word("sings"@)) by {
        reveal_strlit("sings");
    }
    assert(is_word("dances"@)) by {
        reveal_strlit("dances");
    }
    assert(is_word("swims"@)) by {
        reveal_strlit("swims");
    }
    assert(is_word("flies"@)) by {
        reveal_strlit("flies");
    }
    assert(is_word("climbs"@)) by {
        reveal_strlit("climbs");
    }
    assert(is_word("walks"@)) by {
        reveal_strlit("walks");
    }
    assert(is_word("laughs"@)) by {
        reveal_strlit("laughs");
    }
    assert(is_word("sleeps"@)) by {
        reveal_strlit("sleeps");
    }
    assert(is_word("reads"@)) by {
        reveal_strlit("reads");
    }
    assert(is_word("writes"@)) by {
        reveal_strlit("writes");
    }
    assert(is_word("paints"@)) by {
        reveal_strlit("paints");
    }
    assert(is_word("cooks"@)) by {
        reveal_strlit("cooks");
    }
    assert(is_word("dreams"@)) by {
        reveal_strlit("dreams");
    }
    assert(is_word("smiles"@)) by {
        reveal_strlit("smiles");
    }
    assert(is_word("waves"@)) by {
        reveal_strlit("waves");
    }
    assert(is_word("hops"@)) by {
        reveal_strlit("hops");
    }
    assert(is_word("skips"@)) by {
        reveal_strlit("skips");
    }
    assert(is_word("rolls"@)) by {
        reveal_strlit("rolls");
    }
    assert(is_word("builds"@)) by {
        reveal_strlit("builds");
    }
    assert(is_word("counts"@)) by {
        reveal_strlit("counts");
    }
    assert(is_word("digs"@)) by {
        reveal_strlit("digs");
    }
    assert(is_word("explores"@)) by {
        reveal_strlit("explores");
    }
    assert(is_word("floats"@)) by {
        reveal_strlit("floats");
    }
    assert(is_word("glows"@)) by {
        reveal_strlit("glows");
    }
    assert(is_word("hums"@)) by {
        reveal_strlit("hums");
    }
    assert(is_word("juggles"@)) by {
        reveal_strlit("juggles");
    }
    assert(is_word("kicks"@)) by {
        reveal_strlit("kicks");
    }
    assert(is_word("listens"@)) by {
        reveal_strlit("listens");
    }
    assert(is_word("marches"@)) by {
        reveal_strlit("marches");
    }
    assert(is_word("nods"@)) by {
        reveal_strlit("nods");
    }
    assert(is_word("plays"@)) by {
        reveal_strlit("plays");
    }
    assert(is_word("races"@)) by {
        reveal_strlit("races");
    }
    assert(is_word("sails"@)) by {
        reveal_strlit("sails");
    }
    assert(is_word("thinks"@)) by {
        reveal_strlit("thinks");
    }
    assert(is_word("travels"@)) by {
        reveal_strlit("travels");
    }
    assert(is_word("waits"@)) by {
        reveal_strlit("waits");
    }
    assert(is_word("yawns"@)) by {
        reveal_strlit("yawns");
    }
    assert(is_word("whistles"@)) by {
        reveal_strlit("whistles");
    }
    assert(verbs().len() == 40);
}

/// The adverbs form a word category.
pub proof fn lemma_adverbs_category()
    ensures
        is_category(adverbs()),
{
    assert(is_word("silently"@)) by {
        reveal_strlit("silently");
    }
    assert(is_word("quickly"@)) by {
        reveal_strlit("quickly");
    }
    assert(is_word("slowly"@)) by {
        reveal_strlit("slowly");
    }
    assert(is_word("gladly"@)) by {
        reveal_strlit("gladly");
    }
    assert(is_word("boldly"@)) by {
        reveal_strlit("boldly");
    }
    assert(is_word("calmly"@)) by {
        reveal_strlit("calmly");
    }
    assert(is_word("eagerly"@)) by {
        reveal_strlit("eagerly");
    }
    assert(is_word("gently"@)) by {
        reveal_strlit("gently");
    }
    assert(is_word("happily"@)) by {
        reveal_strlit("happily");
    }
    assert(is_word("kindly"@)) by {
        reveal_strlit("kindly");
    }
    assert(is_word("loudly"@)) by {
        reveal_strlit("loudly");
    }
    assert(is_word("neatly"@)) by {
        reveal_strlit("neatly");
    }
    assert(is_word("proudly"@)) by {
        reveal_strlit("proudly");
    }
    assert(is_word("quietly"@)) by {
        reveal_strlit("quietly");
    }
    assert(is_word("rarely"@)) by {
        reveal_strlit("rarely");
    }
    assert(is_word("safely"@)) by {
        reveal_strlit("safely");
    }
    assert(is_word("softly"@)) by {
        reveal_strlit("softly");
    }
    assert(is_word("swiftly"@)) by {
        reveal_strlit("swiftly");
    }
    assert(is_word("warmly"@)) by {
        reveal_strlit("warmly");
    }
    assert(is_word("wisely"@)) by {
        reveal_strlit("wisely");
    }
    assert(is_word("bravely"@)) by {
        reveal_strlit("bravely");
    }
    assert(is_word("freely"@)) by {
        reveal_strlit("freely");
    }
    assert(is_word("keenly"@)) by {
        reveal_strlit("keenly");
    }
    assert(is_word("lightly"@)) by {
        reveal_strlit("lightly");
    }
    assert(is_word("madly"@)) by {
        reveal_strlit("madly");
    }
    assert(is_word("nicely"@)) by {
        reveal_strlit("nicely");
    }
    assert(is_word("openly"@)) by {
        reveal_strlit("openly");
    }
    assert(is_word("politely"@)) by {
        reveal_strlit("politely");
    }
    assert(is_word("sweetly"@)) by {
        reveal_strlit("sweetly");
    }
    assert(is_word("truly"@)) by {
        reveal_strlit("truly");
    }
    assert(is_word("vividly"@)) by {
        reveal_strlit("vividly");
    }
    assert(is_word("weekly"@)) by {
        reveal_strlit("weekly");
    }
    assert(adverbs().len() == 32);
}

/// Whether `word` stands in one of the four lists.
pub open spec fn in_lexicon(word: Seq<char>) -> bool {
    ||| adjectives().contains(word)
    ||| nouns().contains(word)
    ||| verbs().contains(word)
    ||| adverbs().contains(word)
}

/// Every word of the four lists is a lexicon word.
pub proof fn lemma_lexicon_words()
    ensures
        forall|word: Seq<char>| #[trigger] in_lexicon(word) ==> is_word(word),
{
    lemma_adjectives_category();
    lemma_nouns_category();
    lemma_verbs_category();
    lemma_adverbs_category();
}

} // verus!
