use human_ids::{longest, random, shortest, Selector, ADJECTIVES, ADVERBS, NOUNS, VERBS};

#[test]
fn test_random() {
    let vec = vec!["a", "b", "c"];
    assert!(vec.contains(&vec.random()));
}

#[test]
fn test_longest() {
    let vec = vec!["a", "ab", "abc"];
    assert_eq!(vec.longest(), "abc");
}

#[test]
fn test_shortest() {
    let vec = vec!["a", "ab", "abc"];
    assert_eq!(vec.shortest(), "a");
}

#[test]
fn longest_and_shortest_as_functions() {
    let vec = vec!["a", "ab", "abc"];
    assert_eq!(longest(&vec), "abc");
    assert_eq!(shortest(&vec), "a");
}

#[test]
fn longest_takes_the_first_of_equals() {
    let vec = vec!["ab", "xyz", "cd", "uvw", "e"];
    assert_eq!(vec.longest(), "xyz");
    assert_eq!(longest(&["one", "two", "six"]), "one");
}

#[test]
fn shortest_takes_the_first_of_equals() {
    let vec = vec!["abc", "de", "fg", "hij", "kl"];
    assert_eq!(vec.shortest(), "de");
    assert_eq!(shortest(&["b", "a", "c"]), "b");
}

#[test]
fn longest_and_shortest_of_nothing_are_empty() {
    let vec: Vec<&str> = Vec::new();
    assert_eq!(vec.longest(), "");
    assert_eq!(vec.shortest(), "");
    assert_eq!(longest(&[]), "");
    assert_eq!(shortest(&[]), "");
}

#[test]
fn longest_and_shortest_of_one_word() {
    assert_eq!(longest(&["only"]), "only");
    assert_eq!(shortest(&["only"]), "only");
}

#[test]
fn length_is_counted_in_characters() {
    // Two characters in four bytes against three characters in three bytes.
    let vec = vec!["\u{e9}\u{e9}", "abc"];
    assert_eq!(vec.longest(), "abc");
    assert_eq!(vec.shortest(), "\u{e9}\u{e9}");
}

#[test]
fn longest_and_shortest_repeat_their_answer() {
    for list in [&ADJECTIVES[..], &NOUNS[..], &VERBS[..], &ADVERBS[..]] {
        let long = longest(list);
        let short = shortest(list);
        for _ in 0..10 {
            assert_eq!(longest(list), long);
            assert_eq!(shortest(list), short);
            assert_eq!(list.longest(), long);
            assert_eq!(list.shortest(), short);
        }
        assert!(list.iter().all(|w| w.chars().count() <= long.chars().count()));
        assert!(list.iter().all(|w| w.chars().count() >= short.chars().count()));
    }
}

#[test]
fn longest_and_shortest_of_the_lists() {
    assert_eq!(longest(&ADJECTIVES), "clever");
    assert_eq!(shortest(&ADJECTIVES), "icy");
    assert_eq!(longest(&NOUNS), "dolphin");
    assert_eq!(shortest(&NOUNS), "fox");
    assert_eq!(longest(&VERBS), "explores");
    assert_eq!(shortest(&VERBS), "runs");
    assert_eq!(longest(&ADVERBS), "silently");
    assert_eq!(shortest(&ADVERBS), "madly");
}

#[test]
fn random_returns_a_member() {
    for _ in 0..1000 {
        assert!(ADJECTIVES.contains(&random(&ADJECTIVES)));
        assert!(NOUNS.contains(&random(&NOUNS)));
        assert!(VERBS.contains(&random(&VERBS)));
        assert!(ADVERBS.contains(&random(&ADVERBS)));
    }
}

#[test]
fn random_of_one_word_is_that_word() {
    for _ in 0..100 {
        assert_eq!(random(&["only"]), "only");
        assert_eq!(["only"].random(), "only");
    }
}

#[test]
fn random_visits_more_than_one_word() {
    let list = ["a", "b", "c"];
    let mut seen = [false; 3];
    for _ in 0..10_000 {
        let word = random(&list);
        let at = list.iter().position(|w| *w == word).unwrap();
        seen[at] = true;
    }
    assert!(seen.iter().filter(|s| **s).count() > 1);
}

#[test]
fn random_visits_more_than_one_noun() {
    let first = NOUNS.random();
    let mut other = false;
    for _ in 0..10_000 {
        if NOUNS.random() != first {
            other = true;
        }
    }
    assert!(other);
}

#[test]
fn lists_hold_lower_case_words() {
    for list in [&ADJECTIVES[..], &NOUNS[..], &VERBS[..], &ADVERBS[..]] {
        assert!(!list.is_empty());
        for word in list {
            assert!(!word.is_empty());
            assert!(word.chars().all(|c| c.is_ascii_lowercase()));
        }
    }
}

#[test]
fn lists_hold_the_familiar_words() {
    assert!(ADJECTIVES.contains(&"quick"));
    assert!(NOUNS.contains(&"fox"));
    assert!(VERBS.contains(&"jumps"));
    assert!(ADVERBS.contains(&"silently"));
}
