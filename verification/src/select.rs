//! Choosing one word out of a list: at random, the longest, the shortest.

use vstd::prelude::*;
use crate::text::words_of;

verus! {

/// `at` is the place of the first word of greatest length: no word is
/// longer, and every word before it is shorter.
pub open spec fn is_first_longest(words: Seq<Seq<char>>, at: int) -> bool {
    &&& 0 <= at < words.len()
    &&& forall|j: int| 0 <= j < words.len() ==> (#[trigger] words[j]).len() <= words[at].len()
    &&& forall|j: int| 0 <= j < at ==> (#[trigger] words[j]).len() < words[at].len()
}

/// `at` is the place of the first word of least length: no word is shorter,
/// and every word before it is longer.
pub open spec fn is_first_shortest(words: Seq<Seq<char>>, at: int) -> bool {
    &&& 0 <= at < words.len()
    &&& forall|j: int| 0 <= j < words.len() ==> (#[trigger] words[j]).len() >= words[at].len()
    &&& forall|j: int| 0 <= j < at ==> (#[trigger] words[j]).len() > words[at].len()
}

/// The first word of greatest length, counted in characters; the empty word
/// where there is no word at all.
pub open spec fn longest_word(words: Seq<Seq<char>>) -> Seq<char> {
    if words.len() == 0 {
        Seq::empty()
    } else {
        words[choose|at: int| is_first_longest(words, at)]
    }
}

/// The first word of least length, counted in characters; the empty word
/// where there is no word at all.
pub open spec fn shortest_word(words: Seq<Seq<char>>) -> Seq<char> {
    if words.len() == 0 {
        Seq::empty()
    } else {
        words[choose|at: int| is_first_shortest(words, at)]
    }
}

/// A list has at most one place that holds its first longest word.
pub proof fn lemma_first_longest_unique(words: Seq<Seq<char>>, a: int, b: int)
    requires
        is_first_longest(words, a),
        is_first_longest(words, b),
    ensures
        a == b,
{
    if a < b {
        assert(words[a].len() < words[b].len());
        assert(words[b].len() <= words[a].len());
    } else if b < a {
        assert(words[b].len() < words[a].len());
        assert(words[a].len() <= words[b].len());
    }
}

/// A list has at most one place that holds its first shortest word.
pub proof fn lemma_first_shortest_unique(words: Seq<Seq<char>>, a: int, b: int)
    requires
        is_first_shortest(words, a),
        is_first_shortest(words, b),
    ensures
        a == b,
{
    if a < b {
        assert(words[a].len() > words[b].len());
        assert(words[b].len() >= words[a].len());
    } else if b < a {
        assert(words[b].len() > words[a].len());
        assert(words[a].len() >= words[b].len());
    }
}

/// The longest word of a list is the word at the place of its first longest
/// word.
pub proof fn lemma_longest_word(words: Seq<Seq<char>>, at: int)
    requires
        is_first_longest(words, at),
    ensures
        longest_word(words) == words[at],
{
    let chosen = choose|at: int| is_first_longest(words, at);
    lemma_first_longest_unique(words, chosen, at);
}

/// The shortest word of a list is the word at the place of its first
/// shortest word.
pub proof fn lemma_shortest_word(words: Seq<Seq<char>>, at: int)
    requires
        is_first_shortest(words, at),
    ensures
        shortest_word(words) == words[at],
{
    let chosen = choose|at: int| is_first_shortest(words, at);
    lemma_first_shortest_unique(words, chosen, at);
}

/// Draws a number below `bound` with `fastrand::usize(..bound)`, from the
/// generator that fastrand keeps for each thread. Trusted: the number is
/// below `bound`. Which number comes is left open. fastrand panics on an
/// empty range, so `bound` must not be zero.
#[verifier::external_body]
fn random_below(bound: usize) -> (index: usize)
    requires
        bound > 0,
    ensures
        index < bound,
{
    fastrand::usize(..bound)
}

/// Selection from a collection of words.
pub trait Selector<'a> {
    /// The words of the collection, in order.
    spec fn entries(&self) -> Seq<Seq<char>>;

    /// Returns a random element of the collection, which must not be empty.
    fn random(&self) -> (word: &'a str)
        requires
            self.entries().len() > 0,
        ensures
            self.entries().contains(word@),
    ;

    /// Returns the element with the most characters, the first of them where
    /// several have as many; the empty string for an empty collection.
    fn longest(&self) -> (word: &'a str)
        ensures
            word@ == longest_word(self.entries()),
    ;

    /// Returns the element with the fewest characters, the first of them
    /// where several have as few; the empty string for an empty collection.
    fn shortest(&self) -> (word: &'a str)
        ensures
            word@ == shortest_word(self.entries()),
    ;
}

impl<'a> Selector<'a> for [&'a str] {
    open spec fn entries(&self) -> Seq<Seq<char>> {
        words_of(self@)
    }

    fn random(&self) -> (word: &'a str)
        ensures
            exists|at: int| 0 <= at < self@.len() && word == self@[at],
    {
        let index = random_below(self.len());
        let word = self[index];
        assert(words_of(self@)[index as int] == word@);
        word
    }

    fn longest(&self) -> (word: &'a str) {
        if self.len() == 0 {
            proof {
                reveal_strlit("");
            }
            assert(""@ =~= Seq::<char>::empty());
            return "";
        }
        let ghost words = words_of(self@);
        let mut best: usize = 0;
        let mut best_len: usize = self[0].unicode_len();
        let mut i: usize = 1;
        while i < self.len()
            invariant
                1 <= i <= self.len(),
                words == words_of(self@),
                best < i,
                best_len == words[best as int].len(),
                forall|j: int| 0 <= j < i ==> (#[trigger] words[j]).len() <= best_len,
                forall|j: int| 0 <= j < best ==> (#[trigger] words[j]).len() < best_len,
            decreases self.len() - i,
        {
            let len = self[i].unicode_len();
            assert(words[i as int] == self@[i as int]@);
            if len > best_len {
                best = i;
                best_len = len;
            }
            i += 1;
        }
        proof {
            lemma_longest_word(words, best as int);
        }
        self[best]
    }

    fn shortest(&self) -> (word: &'a str) {
        if self.len() == 0 {
            proof {
                reveal_strlit("");
            }
            assert(""@ =~= Seq::<char>::empty());
            return "";
        }
        let ghost words = words_of(self@);
        let mut best: usize = 0;
        let mut best_len: usize = self[0].unicode_len();
        let mut i: usize = 1;
        while i < self.len()
            invariant
                1 <= i <= self.len(),
                words == words_of(self@),
                best < i,
                best_len == words[best as int].len(),
                forall|j: int| 0 <= j < i ==> (#[trigger] words[j]).len() >= best_len,
                forall|j: int| 0 <= j < best ==> (#[trigger] words[j]).len() > best_len,
            decreases self.len() - i,
        {
            let len = self[i].unicode_len();
            assert(words[i as int] == self@[i as int]@);
            if len < best_len {
                best = i;
                best_len = len;
            }
            i += 1;
        }
        proof {
            lemma_shortest_word(words, best as int);
        }
        self[best]
    }
}

/// Returns one element of `vec`, drawn at random; `vec` must not be empty.
#[must_use]
pub fn random<'a>(vec: &'a [&'a str]) -> (word: &'a str)
    requires
        vec@.len() > 0,
    ensures
        exists|at: int| 0 <= at < vec@.len() && word == vec@[at],
        words_of(vec@).contains(word@),
{
    vec.random()
}

/// Returns the element of `vec` with the most characters, the first of them
/// where several have as many; the empty string for an empty list.
#[must_use]
pub fn longest<'a>(vec: &'a [&'a str]) -> (word: &'a str)
    ensures
        word@ == longest_word(words_of(vec@)),
{
    vec.longest()
}

/// Returns the element of `vec` with the fewest characters, the first of
/// them where several have as few; the empty string for an empty list.
#[must_use]
pub fn shortest<'a>(vec: &'a [&'a str]) -> (word: &'a str)
    ensures
        word@ == shortest_word(words_of(vec@)),
{
    vec.shortest()
}

} // verus!
