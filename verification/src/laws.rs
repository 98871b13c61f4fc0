//! What holds of the rules, proved.

use vstd::prelude::*;
use crate::input::{KeyCode, KeyEvent};
use crate::rules::{all_guessed, masked_word, GameState, Outcome, MAX_STRIKES, PLACEHOLDER};
use crate::text::{alphabetic, lower};

verus! {

/// The masked word is as long as the word, whatever has been guessed.
pub proof fn lemma_masked_word_len(word: Seq<char>, guessed: Seq<char>)
    ensures
        masked_word(word, guessed).len() == word.len(),
{
}

/// A word without the placeholder in it is revealed exactly when each of
/// its letters has been guessed.
pub proof fn lemma_revealed_iff_all_guessed(word: Seq<char>, guessed: Seq<char>)
    requires
        !word.contains(PLACEHOLDER),
    ensures
        masked_word(word, guessed) == word <==> all_guessed(word, guessed),
{
    let masked = masked_word(word, guessed);
    if all_guessed(word, guessed) {
        assert(masked =~= word);
    }
    if masked == word {
        assert forall|i: int| 0 <= i < word.len() implies guessed.contains(#[trigger] word[i]) by {
            assert(masked[i] == word[i]);
        }
    }
}

/// A letter that the word does not hold reveals nothing of it.
pub proof fn lemma_miss_reveals_nothing(word: Seq<char>, guessed: Seq<char>, letter: char)
    requires
        !word.contains(letter),
    ensures
        masked_word(word, guessed.push(letter)) == masked_word(word, guessed),
{
    let longer = guessed.push(letter);
    assert forall|i: int| 0 <= i < word.len() implies longer.contains(word[i]) == guessed.contains(
        word[i],
    ) by {
        if guessed.contains(word[i]) {
            let j = guessed.index_of(word[i]);
            assert(longer[j] == word[i]);
        }
        if longer.contains(word[i]) {
            let j = longer.index_of(word[i]);
            assert(guessed[j] == word[i]);
        }
    }
    assert(masked_word(word, longer) =~= masked_word(word, guessed));
}

/// Once the game is won or lost, no guess changes anything: not the
/// letters guessed, not the strikes, not the grace, not the outcome.
pub proof fn lemma_game_over_is_final(state: GameState, letter: char, roll: bool)
    requires
        !(state.outcome is InProgress),
    ensures
        state.submit_guess(letter, roll) == state,
{
}

/// Once the game is won or lost, a key event can still end the event loop
/// and changes nothing else.
pub proof fn lemma_game_over_takes_no_keys(state: GameState, event: KeyEvent, roll: bool)
    requires
        !(state.outcome is InProgress),
    ensures
        state.handle_keypress(event, roll) == state || state.handle_keypress(event, roll)
            == state.quit(),
{
}

/// The game ends only once: an outcome that is final stays, whatever is
/// set after it.
pub proof fn lemma_game_ends_once(state: GameState, first: Outcome, second: Outcome)
    requires
        !(first is InProgress),
    ensures
        state.set_game_state(first).set_game_state(second) == state.set_game_state(first),
        !(state.outcome is InProgress) ==> state.set_game_state(first) == state,
{
}

/// The guess of a letter that was guessed before changes nothing: no
/// strike, no grace spent, no letter recorded.
pub proof fn lemma_repeated_guess_changes_nothing(state: GameState, letter: char, roll: bool)
    requires
        state.guessed.contains(lower(letter)),
    ensures
        state.submit_guess(letter, roll) == state,
{
}

/// The same letter submitted a second time changes nothing, whatever the
/// first time did.
pub proof fn lemma_second_guess_changes_nothing(
    state: GameState,
    letter: char,
    first_roll: bool,
    second_roll: bool,
)
    ensures
        state.submit_guess(letter, first_roll).submit_guess(letter, second_roll)
            == state.submit_guess(letter, first_roll),
{
    let guess = lower(letter);
    if state.outcome is InProgress && !state.guessed.contains(guess) {
        let recorded = state.add_guess(guess);
        assert(recorded.guessed[recorded.guessed.len() - 1] == guess);
    }
}

/// A guess keeps the state well formed, and the strike count neither falls
/// nor passes its limit: it stays or rises by one.
pub proof fn lemma_strikes_only_rise(state: GameState, letter: char, roll: bool)
    requires
        state.wf(),
    ensures
        state.submit_guess(letter, roll).wf(),
        state.strikes <= state.submit_guess(letter, roll).strikes <= MAX_STRIKES,
        state.submit_guess(letter, roll).strikes <= state.strikes + 1,
{
}

/// Without grace, a miss is a strike, whatever the roll: the guess of a new
/// letter that the word does not hold raises the strike count by exactly
/// one, and the grace stays at 0.
pub proof fn lemma_miss_without_grace_is_one_strike(state: GameState, letter: char, roll: bool)
    requires
        state.wf(),
        state.outcome is InProgress,
        state.grace == 0,
        !state.guessed.contains(lower(letter)),
        !state.word.contains(lower(letter)),
    ensures
        state.submit_guess(letter, roll).strikes == state.strikes + 1,
        state.submit_guess(letter, roll).grace == 0,
        state.submit_guess(letter, roll) == state.submit_guess(letter, !roll),
{
}

/// What a guess never does: it leaves the word and the event loop alone,
/// takes no recorded letter back, adds no grace, and does not reopen a
/// game that has ended.
pub proof fn lemma_guess_only_moves_forward(state: GameState, letter: char, roll: bool)
    ensures
        state.submit_guess(letter, roll).word == state.word,
        state.submit_guess(letter, roll).running == state.running,
        state.guessed.is_prefix_of(state.submit_guess(letter, roll).guessed),
        state.submit_guess(letter, roll).grace <= state.grace,
        !(state.outcome is InProgress) ==> state.submit_guess(letter, roll).outcome
            == state.outcome,
{
}

/// When a guess wins: exactly when it is a new letter of the word and, with
/// it, every letter of the word has been guessed.
pub proof fn lemma_won_exactly_when_word_is_guessed(state: GameState, letter: char, roll: bool)
    requires
        state.wf(),
        state.outcome is InProgress,
        !state.word.contains(PLACEHOLDER),
    ensures
        state.submit_guess(letter, roll).outcome is Won <==> {
            &&& !state.guessed.contains(lower(letter))
            &&& state.word.contains(lower(letter))
            &&& all_guessed(state.word, state.guessed.push(lower(letter)))
        },
{
    lemma_revealed_iff_all_guessed(state.word, state.guessed.push(lower(letter)));
}

/// Quitting changes nothing of the game, and quitting a second time changes
/// nothing at all.
pub proof fn lemma_quit_is_idempotent(state: GameState)
    ensures
        state.quit() == (GameState { running: false, ..state }),
        state.quit().quit() == state.quit(),
{
}

/// A key event keeps the state well formed; the strike count does not fall
/// and stays within its limit, and the grace does not rise.
pub proof fn lemma_keypress_keeps_wf(state: GameState, event: KeyEvent, roll: bool)
    requires
        state.wf(),
    ensures
        state.handle_keypress(event, roll).wf(),
        state.strikes <= state.handle_keypress(event, roll).strikes <= MAX_STRIKES,
        state.handle_keypress(event, roll).grace <= state.grace,
{
    if event.kind is Press {
        match event.code {
            KeyCode::Char(key) => {
                if alphabetic(key) && state.outcome is InProgress {
                    lemma_strikes_only_rise(state, key, roll);
                }
            },
            _ => {},
        }
    }
}

/// A key event keeps what play guarantees: see `GameState::consistent`.
pub proof fn lemma_keypress_keeps_consistent(state: GameState, event: KeyEvent, roll: bool)
    requires
        state.consistent(),
    ensures
        state.handle_keypress(event, roll).consistent(),
{
    lemma_keypress_keeps_wf(state, event, roll);
}

/// Every state that a session can reach by key events, whatever the rolls:
/// it has between 0 and `MAX_STRIKES` strikes, it is lost exactly at
/// `MAX_STRIKES`, it is won only with the whole word revealed, and it has
/// no more grace than the session started with.
pub proof fn lemma_every_reachable_state_is_consistent(
    word: Seq<char>,
    grace: nat,
    moves: Seq<(KeyEvent, bool)>,
)
    ensures
        GameState::initial(word, grace).play(moves).consistent(),
        0 <= GameState::initial(word, grace).play(moves).strikes <= MAX_STRIKES,
        GameState::initial(word, grace).play(moves).grace <= grace,
        GameState::initial(word, grace).play(moves).word == word,
    decreases moves.len(),
{
    if moves.len() > 0 {
        let before = GameState::initial(word, grace).play(moves.drop_last());
        lemma_every_reachable_state_is_consistent(word, grace, moves.drop_last());
        lemma_keypress_keeps_consistent(before, moves.last().0, moves.last().1);
        lemma_keypress_keeps_wf(before, moves.last().0, moves.last().1);
    }
}

/// Along any play, the strike count never falls: after the first `k` of the
/// moves it is at most what it is after all of them.
pub proof fn lemma_strikes_never_fall(start: GameState, moves: Seq<(KeyEvent, bool)>, k: int)
    requires
        start.wf(),
        0 <= k <= moves.len(),
    ensures
        start.play(moves).wf(),
        start.play(moves.take(k)).strikes <= start.play(moves).strikes <= MAX_STRIKES,
    decreases moves.len(),
{
    if moves.len() > 0 {
        let earlier = moves.drop_last();
        if k == moves.len() {
            assert(moves.take(k) =~= moves);
            lemma_strikes_never_fall(start, earlier, 0);
        } else {
            assert(earlier.take(k) =~= moves.take(k));
            lemma_strikes_never_fall(start, earlier, k);
        }
        lemma_keypress_keeps_wf(start.play(earlier), moves.last().0, moves.last().1);
    }
}

/// In a session that starts without grace, whatever the key events and the
/// rolls so far: while the game is on, the guess of a new letter that the
/// word does not hold raises the strike count by exactly one.
pub proof fn lemma_session_without_grace_strikes_every_miss(
    word: Seq<char>,
    moves: Seq<(KeyEvent, bool)>,
    letter: char,
    roll: bool,
)
    requires
        GameState::initial(word, 0).play(moves).outcome is InProgress,
        !GameState::initial(word, 0).play(moves).guessed.contains(lower(letter)),
        !word.contains(lower(letter)),
    ensures
        GameState::initial(word, 0).play(moves).submit_guess(letter, roll).strikes
            == GameState::initial(word, 0).play(moves).strikes + 1,
{
    lemma_every_reachable_state_is_consistent(word, 0, moves);
    lemma_miss_without_grace_is_one_strike(GameState::initial(word, 0).play(moves), letter, roll);
}

/// In a session on a word that is not empty and holds no placeholder,
/// whatever the key events and the rolls: the game is won exactly when the
/// whole word is revealed.
pub proof fn lemma_won_exactly_when_revealed(
    word: Seq<char>,
    grace: nat,
    moves: Seq<(KeyEvent, bool)>,
)
    requires
        word.len() > 0,
        !word.contains(PLACEHOLDER),
    ensures
        GameState::initial(word, grace).play(moves).outcome is Won <==> GameState::initial(
            word,
            grace,
        ).play(moves).revealed(),
    decreases moves.len(),
{
    let start = GameState::initial(word, grace);
    if moves.len() == 0 {
        assert(word[0] != PLACEHOLDER);
    } else {
        let before = start.play(moves.drop_last());
        let event = moves.last().0;
        lemma_won_exactly_when_revealed(word, grace, moves.drop_last());
        lemma_every_reachable_state_is_consistent(word, grace, moves.drop_last());
        if event.kind is Press && before.outcome is InProgress {
            match event.code {
                KeyCode::Char(key) => {
                    let guess = lower(key);
                    if alphabetic(key) && !before.guessed.contains(guess) && !word.contains(guess) {
                        lemma_miss_reveals_nothing(word, before.guessed, guess);
                    }
                },
                _ => {},
            }
        }
    }
}

} // verus!
