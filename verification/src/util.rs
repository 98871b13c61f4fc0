//! The word source: a corpus is a text with one word on each line, and a game
//! takes one of its words at random.

use vstd::prelude::*;
use crate::chance::random_index;
use crate::text::push_char;

verus! {

/// The character that ends a line of the corpus.
pub const NEWLINE: char = '\n';

/// The corpus holds no word to play with.
#[derive(Clone, Copy, Debug, PartialEq, Eq, Structural)]
pub struct CorpusUnavailable;

impl CorpusUnavailable {
    /// What to tell the player.
    pub fn message(&self) -> (text: String)
        ensures
            text@ == "the word list is missing or holds no word"@,
    {
        String::from_str("the word list is missing or holds no word")
    }
}

/// The lines of a text: the pieces between its newlines. A text of `n`
/// newlines has `n + 1` lines, some of which may be empty.
pub open spec fn lines(text: Seq<char>) -> Seq<Seq<char>>
    decreases text.len(),
{
    if text.len() == 0 {
        seq![Seq::empty()]
    } else {
        let before = lines(text.drop_last());
        if text.last() == NEWLINE {
            before.push(Seq::empty())
        } else {
            before.drop_last().push(before.last().push(text.last()))
        }
    }
}

/// The lines put together again, with a newline between each two.
pub open spec fn join_lines(lines: Seq<Seq<char>>) -> Seq<char>
    decreases lines.len(),
{
    if lines.len() == 0 {
        Seq::empty()
    } else if lines.len() == 1 {
        lines[0]
    } else {
        join_lines(lines.drop_last()).push(NEWLINE) + lines.last()
    }
}

pub open spec fn is_word(line: Seq<char>) -> bool {
    line.len() > 0
}

/// The entries of a corpus: its lines that are not empty, in their order.
pub open spec fn corpus_entries(corpus: Seq<char>) -> Seq<Seq<char>> {
    lines(corpus).filter(|line: Seq<char>| is_word(line))
}

/// A text has one line more than it has newlines, so at least one.
pub proof fn lemma_lines_nonempty(text: Seq<char>)
    ensures
        lines(text).len() == text.filter(|c: char| c == NEWLINE).len() + 1,
        lines(text).len() >= 1,
    decreases text.len(),
{
    reveal_with_fuel(Seq::filter, 2);
    if text.len() > 0 {
        lemma_lines_nonempty(text.drop_last());
    }
}

/// No line holds a newline, and the lines joined are the text: `lines` cuts
/// at every newline and nowhere else.
pub proof fn lemma_join_of_lines(text: Seq<char>)
    ensures
        join_lines(lines(text)) == text,
        forall|i: int| 0 <= i < lines(text).len() ==> !(#[trigger] lines(text)[i]).contains(NEWLINE),
    decreases text.len(),
{
    if text.len() > 0 {
        let before = lines(text.drop_last());
        let now = lines(text);
        lemma_join_of_lines(text.drop_last());
        lemma_lines_nonempty(text.drop_last());
        if text.last() == NEWLINE {
            assert(now.drop_last() =~= before);
        } else {
            assert(now.drop_last() =~= before.drop_last());
            if before.len() > 1 {
                assert(join_lines(now) =~= join_lines(before).push(text.last()));
            }
        }
    }
}

/// A piece without a newline, put behind a text, goes to the last line of
/// the text.
pub proof fn lemma_lines_of_longer_last_line(text: Seq<char>, piece: Seq<char>)
    requires
        !piece.contains(NEWLINE),
    ensures
        lines(text).len() >= 1,
        lines(text + piece) == lines(text).drop_last().push(lines(text).last() + piece),
    decreases piece.len(),
{
    lemma_lines_nonempty(text);
    if piece.len() > 0 {
        let shorter = piece.drop_last();
        lemma_lines_of_longer_last_line(text, shorter);
        assert((text + piece).drop_last() =~= text + shorter);
        assert(lines(text + shorter).last().push(piece.last()) =~= lines(text).last() + piece);
    }
}

/// Lines without a newline in them, joined and cut again, are the same
/// lines: together with `lemma_join_of_lines`, this makes `lines` and
/// `join_lines` each the inverse of the other.
pub proof fn lemma_lines_of_join(pieces: Seq<Seq<char>>)
    requires
        pieces.len() >= 1,
        forall|i: int| 0 <= i < pieces.len() ==> !(#[trigger] pieces[i]).contains(NEWLINE),
    ensures
        lines(join_lines(pieces)) == pieces,
    decreases pieces.len(),
{
    if pieces.len() == 1 {
        lemma_lines_of_longer_last_line(Seq::<char>::empty(), pieces.last());
    } else {
        let earlier = pieces.drop_last();
        let head = join_lines(earlier).push(NEWLINE);
        lemma_lines_of_join(earlier);
        assert(head.drop_last() =~= join_lines(earlier));
        lemma_lines_of_longer_last_line(head, pieces.last());
    }
}

/// Every entry of a corpus is a word: it is not empty.
pub proof fn lemma_entries_are_words(corpus: Seq<char>)
    ensures
        forall|i: int|
            0 <= i < corpus_entries(corpus).len() ==> is_word(#[trigger] corpus_entries(corpus)[i]),
{
    let pred = |line: Seq<char>| is_word(line);
    assert forall|i: int| 0 <= i < corpus_entries(corpus).len() implies is_word(
        #[trigger] corpus_entries(corpus)[i],
    ) by {
        lines(corpus).lemma_filter_pred(pred, i);
    }
}

/// The entries of a corpus, each as a string of its own.
pub fn corpus_words(corpus: &str) -> (words: Vec<String>)
    ensures
        words.deep_view() == corpus_entries(corpus@),
{
    let ghost pred = |line: Seq<char>| is_word(line);
    let mut words: Vec<String> = Vec::new();
    let mut current = String::new();
    let chars = corpus.chars();
    for c in it: chars
        invariant
            it.seq() == corpus@,
            pred == |line: Seq<char>| is_word(line),
            lines(corpus@.take(it.index())).len() >= 1,
            words.deep_view() == lines(corpus@.take(it.index())).drop_last().filter(pred),
            current@ == lines(corpus@.take(it.index())).last(),
    {
        let ghost before = lines(corpus@.take(it.index()));
        let ghost now = lines(corpus@.take(it.index() + 1));
        proof {
            assert(corpus@.take(it.index() + 1).drop_last() =~= corpus@.take(it.index()));
            assert(before.drop_last().push(before.last()) =~= before);
            before.drop_last().lemma_filter_push(before.last(), pred);
        }
        if c == NEWLINE {
            if !current.as_str().is_empty() {
                words.push(current);
            }
            current = String::new();
            assert(now.drop_last() =~= before);
        } else {
            push_char(&mut current, c);
            assert(now.drop_last() =~= before.drop_last());
        }
    }
    proof {
        let all = lines(corpus@);
        assert(corpus@.take(corpus@.len() as int) =~= corpus@);
        assert(all.drop_last().push(all.last()) =~= all);
        all.drop_last().lemma_filter_push(all.last(), pred);
    }
    if !current.as_str().is_empty() {
        words.push(current);
    }
    words
}

/// The word at `index`, if there is one.
pub fn word_at(words: &Vec<String>, index: usize) -> (word: Option<String>)
    ensures
        word is Some <==> index < words.len(),
        word matches Some(w) ==> w@ == words.deep_view()[index as int],
{
    if index < words.len() {
        Some(words[index].clone())
    } else {
        None
    }
}

/// One entry of the corpus, each with the same chance, or the error if the
/// corpus has no entry.
pub fn select_random_word(corpus: &str) -> (selected: Result<String, CorpusUnavailable>)
    ensures
        selected is Err <==> corpus_entries(corpus@).len() == 0,
        selected matches Ok(word) ==> corpus_entries(corpus@).contains(word@) && is_word(word@),
{
    let words = corpus_words(corpus);
    if words.len() == 0 {
        return Err(CorpusUnavailable);
    }
    let index = random_index(words.len());
    proof {
        lemma_entries_are_words(corpus@);
    }
    match word_at(&words, index) {
        Some(word) => Ok(word),
        None => Err(CorpusUnavailable),
    }
}

} // verus!
