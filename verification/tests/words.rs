use hangman::util::{corpus_words, select_random_word, word_at, CorpusUnavailable};

const CORPUS: &str = "apple\nbridge\ncandle\ndragon\nengine";

#[test]
fn selects_random_word() {
    assert!(!select_random_word(CORPUS).unwrap().is_empty());
}

#[test]
fn selects_an_entry_of_the_corpus() {
    for _ in 0..200 {
        let word = select_random_word(CORPUS).unwrap();
        assert!(["apple", "bridge", "candle", "dragon", "engine"].contains(&word.as_str()));
    }
    assert_eq!(select_random_word("only").unwrap(), "only");
    assert_eq!(select_random_word("\n\nonly\n\n").unwrap(), "only");
}

#[test]
fn selects_every_entry_in_the_long_run() {
    let entries = ["apple", "bridge", "candle", "dragon", "engine"];
    let trials = 5000;
    let mut counts = [0usize; 5];
    for _ in 0..trials {
        let word = select_random_word(CORPUS).unwrap();
        let index = entries.iter().position(|entry| *entry == word).unwrap();
        counts[index] += 1;
    }
    for count in counts {
        assert!(count > trials / 10, "an entry came {} times in {}", count, trials);
        assert!(count < trials / 3, "an entry came {} times in {}", count, trials);
    }
}

#[test]
fn an_empty_corpus_has_no_word() {
    assert!(select_random_word("") == Err(CorpusUnavailable));
    assert!(select_random_word("\n") == Err(CorpusUnavailable));
    assert!(select_random_word("\n\n\n\n") == Err(CorpusUnavailable));
    assert_eq!(
        CorpusUnavailable.message(),
        "the word list is missing or holds no word"
    );
}

#[test]
fn corpus_words_are_the_lines_that_are_not_empty() {
    assert_eq!(corpus_words(CORPUS), vec!["apple", "bridge", "candle", "dragon", "engine"]);
    assert_eq!(corpus_words("one"), vec!["one"]);
    assert_eq!(corpus_words("one\n"), vec!["one"]);
    assert_eq!(corpus_words("\none"), vec!["one"]);
    assert_eq!(corpus_words("one\n\n\ntwo\n"), vec!["one", "two"]);
    assert_eq!(corpus_words("a b\n c \nd"), vec!["a b", " c ", "d"]);
    assert_eq!(corpus_words("Été\nnaïve"), vec!["Été", "naïve"]);
    assert!(corpus_words("").is_empty());
    assert!(corpus_words("\n\n").is_empty());
}

#[test]
fn word_at_takes_the_word_at_the_index() {
    let words = corpus_words(CORPUS);
    assert_eq!(word_at(&words, 0), Some(String::from("apple")));
    assert_eq!(word_at(&words, 2), Some(String::from("candle")));
    assert_eq!(word_at(&words, 4), Some(String::from("engine")));
    assert_eq!(word_at(&words, 5), None);
    assert_eq!(word_at(&words, usize::MAX), None);
    assert_eq!(word_at(&Vec::new(), 0), None);
}
