//! The rules of the game as mathematics: the state of a session and what each
//! operation makes of it. The executable session is specified against these
//! functions, and the module `laws` proves what holds of them.
//!
//! The strike limit is inclusive: the game is lost at the moment the strike
//! count reaches `MAX_STRIKES`, and a win needs a strike count below it.

use vstd::prelude::*;
use crate::input::{Event, KeyCode, KeyEvent};
use crate::text::{alphabetic, lower};

verus! {

/// The number of strikes at which the game is lost.
pub const MAX_STRIKES: u8 = 6;

/// The grace that a session starts with unless it is told otherwise. A grace
/// of 0 switches the mechanic off.
pub const MAX_GRACE: u8 = 3;

/// The chance that a miss is absorbed while grace is left, as a ratio.
pub const GRACE_CHANCE_NUMERATOR: u32 = 1;

pub const GRACE_CHANCE_DENOMINATOR: u32 = 2;

/// The character that stands for a letter not yet guessed.
pub const PLACEHOLDER: char = '_';

/// How a game stands. `Won` and `Lost` are final.
#[derive(Clone, Copy, Debug, PartialEq, Eq, Structural)]
pub enum Outcome {
    InProgress,
    Won,
    Lost,
}

/// What became of a guess.
#[derive(Clone, Copy, Debug, PartialEq, Eq, Structural)]
pub enum GuessOutcome {
    /// Nothing: the game had ended.
    Ignored,
    /// Nothing: the letter was guessed before.
    Duplicate,
    /// The word holds the letter.
    Hit,
    /// The word does not hold the letter, and it cost one grace.
    Spared,
    /// The word does not hold the letter, and it cost a strike.
    Struck,
}

/// The word with every letter that has not been guessed replaced by the
/// placeholder.
pub open spec fn masked_word(word: Seq<char>, guessed: Seq<char>) -> Seq<char> {
    Seq::new(
        word.len(),
        |i: int|
            if guessed.contains(word[i]) {
                word[i]
            } else {
                PLACEHOLDER
            },
    )
}

/// Every letter of the word has been guessed.
pub open spec fn all_guessed(word: Seq<char>, guessed: Seq<char>) -> bool {
    forall|i: int| 0 <= i < word.len() ==> guessed.contains(#[trigger] word[i])
}

/// The state of one session.
pub struct GameState {
    /// The word to guess.
    pub word: Seq<char>,
    /// The letters guessed so far, in the order in which they were guessed.
    pub guessed: Seq<char>,
    /// The wrong guesses that count towards the loss.
    pub strikes: nat,
    /// The wrong guesses that may still be forgiven.
    pub grace: nat,
    pub outcome: Outcome,
    /// Whether the event loop goes on.
    pub running: bool,
}

impl GameState {
    /// The state in which a session starts.
    pub open spec fn initial(word: Seq<char>, grace: nat) -> GameState {
        GameState {
            word,
            guessed: Seq::empty(),
            strikes: 0,
            grace,
            outcome: Outcome::InProgress,
            running: true,
        }
    }

    /// What every operation keeps: no letter is recorded twice, the strike
    /// count is within its limit, and below it while the game is on.
    pub open spec fn wf(self) -> bool {
        &&& self.guessed.no_duplicates()
        &&& self.strikes <= MAX_STRIKES
        &&& self.outcome is InProgress ==> self.strikes < MAX_STRIKES
    }

    /// What holds, beyond `wf`, of every state that play has led to: the game
    /// is lost exactly at the strike limit, and won only with the whole word
    /// revealed.
    pub open spec fn consistent(self) -> bool {
        &&& self.wf()
        &&& self.outcome is Lost <==> self.strikes == MAX_STRIKES
        &&& self.outcome is Won ==> self.revealed()
    }

    pub open spec fn masked(self) -> Seq<char> {
        masked_word(self.word, self.guessed)
    }

    /// The masked word is the word itself.
    pub open spec fn revealed(self) -> bool {
        self.masked() == self.word
    }

    pub open spec fn should_win(self) -> bool {
        self.strikes < MAX_STRIKES && self.revealed()
    }

    /// The game ends with `outcome`, unless it has ended before.
    pub open spec fn set_game_state(self, outcome: Outcome) -> GameState {
        if self.outcome is InProgress {
            GameState { outcome, ..self }
        } else {
            self
        }
    }

    /// Whether a wrong guess, with the roll `roll`, costs grace and no
    /// strike: the game is on, grace is left, and the roll says so.
    pub open spec fn spares(self, roll: bool) -> bool {
        self.outcome is InProgress && self.grace > 0 && roll
    }

    /// One wrong guess is accounted for. Where it is spared, it costs one
    /// grace; else it is a strike, and the strike that reaches the limit
    /// loses the game. A game that has ended stays as it is.
    pub open spec fn strike(self, roll: bool) -> GameState {
        if !(self.outcome is InProgress) {
            self
        } else if self.spares(roll) {
            GameState { grace: (self.grace - 1) as nat, ..self }
        } else if self.strikes + 1 == MAX_STRIKES {
            GameState { strikes: self.strikes + 1, outcome: Outcome::Lost, ..self }
        } else {
            GameState { strikes: self.strikes + 1, ..self }
        }
    }

    /// The letter `guess` is recorded, unless it was before.
    pub open spec fn add_guess(self, guess: char) -> GameState {
        if self.guessed.contains(guess) {
            self
        } else {
            GameState { guessed: self.guessed.push(guess), ..self }
        }
    }

    /// The letter `guess`, just recorded, is judged: a letter of the word
    /// wins the game once the whole word is revealed, any other is a miss.
    pub open spec fn handle_guess(self, guess: char, roll: bool) -> GameState {
        if self.word.contains(guess) {
            if self.should_win() {
                self.set_game_state(Outcome::Won)
            } else {
                self
            }
        } else {
            self.strike(roll)
        }
    }

    /// The guess of `letter`, taken in lower case. It is ignored once the
    /// game has ended and when the letter was guessed before.
    pub open spec fn submit_guess(self, letter: char, roll: bool) -> GameState {
        let guess = lower(letter);
        if !(self.outcome is InProgress) || self.guessed.contains(guess) {
            self
        } else {
            self.add_guess(guess).handle_guess(guess, roll)
        }
    }

    /// What becomes of the guess of `letter`, in the terms of the player.
    pub open spec fn judge(self, letter: char, roll: bool) -> GuessOutcome {
        let guess = lower(letter);
        if !(self.outcome is InProgress) {
            GuessOutcome::Ignored
        } else if self.guessed.contains(guess) {
            GuessOutcome::Duplicate
        } else if self.word.contains(guess) {
            GuessOutcome::Hit
        } else if self.spares(roll) {
            GuessOutcome::Spared
        } else {
            GuessOutcome::Struck
        }
    }

    pub open spec fn quit(self) -> GameState {
        GameState { running: false, ..self }
    }

    /// One key event: the press of the escape key quits, the press of an
    /// alphabetic character while the game is on is a guess, and nothing
    /// else has any effect.
    pub open spec fn handle_keypress(self, event: KeyEvent, roll: bool) -> GameState {
        if event.kind is Press {
            match event.code {
                KeyCode::Esc => self.quit(),
                KeyCode::Char(key) => if alphabetic(key) && self.outcome is InProgress {
                    self.submit_guess(key, roll)
                } else {
                    self
                },
                KeyCode::Other => self,
            }
        } else {
            self
        }
    }

    /// One event of the terminal: only key events count.
    pub open spec fn handle_event(self, event: Event, roll: bool) -> GameState {
        match event {
            Event::Key(key_event) => self.handle_keypress(key_event, roll),
            Event::Other => self,
        }
    }

    /// The state after the key events `moves`, each with the roll that
    /// decides its miss, in their order.
    pub open spec fn play(self, moves: Seq<(KeyEvent, bool)>) -> GameState
        decreases moves.len(),
    {
        if moves.len() == 0 {
            self
        } else {
            self.play(moves.drop_last()).handle_keypress(moves.last().0, moves.last().1)
        }
    }
}

} // verus!
