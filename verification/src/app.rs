//! One session of the game: the word, the letters guessed, the strikes and
//! the grace, how the game stands, and whether the event loop goes on.

use vstd::prelude::*;
use crate::figure::{figure_image, Figure};
use crate::input::{Event, KeyCode, KeyEvent, KeyEventKind};
use crate::rules::{
    masked_word, GameState, GuessOutcome, Outcome, GRACE_CHANCE_DENOMINATOR,
    GRACE_CHANCE_NUMERATOR, MAX_GRACE, MAX_STRIKES, PLACEHOLDER,
};
use crate::text::{
    lower, lower_seq, push_char, str_contains, string_from_chars, to_lower, to_lower_string,
    vec_contains,
};
use crate::util::{corpus_entries, select_random_word, CorpusUnavailable};

verus! {

/// The title of the screen.
pub const TITLE: &'static str = " Hangman ";

/// The keys that the screen tells the player about.
pub const CONTROLS: &'static str = " <Esc> Quit ";

pub const WON_BANNER: &'static str = "You Won!";

pub const LOST_BANNER: &'static str = "You have lost!";

/// What stands between the banner and the word.
pub const WORD_WAS: &'static str = "  The word was ";

/// What the lower part of the screen shows.
#[derive(Debug, PartialEq, Eq)]
pub enum GameInfo {
    /// The game is on: the masked word and the letters guessed so far.
    Playing { word: String, guessed_letters: String },
    /// The game has ended: the banner with the word.
    GameOver { message: String },
}

/// Everything a display needs for one frame.
#[derive(Debug, PartialEq, Eq)]
pub struct Screen {
    pub title: String,
    pub controls: String,
    /// The figure, one row to a line.
    pub figure: String,
    pub info: GameInfo,
}

/// The banner of a game that has ended, with the word after it.
pub open spec fn game_over_message(outcome: Outcome, word: Seq<char>) -> Seq<char> {
    if outcome is Won {
        WON_BANNER@ + WORD_WAS@ + word
    } else {
        LOST_BANNER@ + WORD_WAS@ + word
    }
}

impl Screen {
    /// The screen is the one to show in the state `state`.
    pub open spec fn shows(&self, state: GameState) -> bool {
        &&& self.title@ == TITLE@
        &&& self.controls@ == CONTROLS@
        &&& self.figure@ == figure_image(state.strikes)
        &&& match self.info {
            GameInfo::Playing { word, guessed_letters } => {
                &&& state.outcome is InProgress
                &&& word@ == state.masked()
                &&& guessed_letters@ == state.guessed
            },
            GameInfo::GameOver { message } => {
                &&& !(state.outcome is InProgress)
                &&& message@ == game_over_message(state.outcome, state.word)
            },
        }
    }
}

/// One session of the game. Its state, as the rules see it, is its view.
pub struct App {
    selected_word: String,
    /// In the order of the guesses; no letter twice.
    guessed_letters: Vec<char>,
    strikes: u8,
    grace: u8,
    run: bool,
    outcome: Outcome,
}

impl View for App {
    type V = GameState;

    closed spec fn view(&self) -> GameState {
        GameState {
            word: self.selected_word@,
            guessed: self.guessed_letters@,
            strikes: self.strikes as nat,
            grace: self.grace as nat,
            outcome: self.outcome,
            running: self.run,
        }
    }
}

impl App {
    pub const MAX_STRIKES: u8 = MAX_STRIKES;

    pub const MAX_GRACE: u8 = MAX_GRACE;

    /// The session is in a state that the rules allow.
    pub open spec fn wf(&self) -> bool {
        self@.wf()
    }

    /// A session on the given word, taken in lower case, with the given
    /// grace.
    pub fn with_word(word: &str, grace: u8) -> (app: App)
        ensures
            app@ == GameState::initial(lower_seq(word@), grace as nat),
            app.wf(),
    {
        App {
            selected_word: to_lower_string(word),
            guessed_letters: Vec::new(),
            strikes: 0,
            grace,
            run: true,
            outcome: Outcome::InProgress,
        }
    }

    /// A session on a word of the corpus, picked at random, with the usual
    /// grace.
    pub fn init(corpus: &str) -> (started: Result<App, CorpusUnavailable>)
        ensures
            started is Err <==> corpus_entries(corpus@).len() == 0,
            started matches Ok(app) ==> app.wf() && exists|i: int|
                0 <= i < corpus_entries(corpus@).len() && app@ == GameState::initial(
                    lower_seq(#[trigger] corpus_entries(corpus@)[i]),
                    MAX_GRACE as nat,
                ),
    {
        Self::init_with_grace(corpus, MAX_GRACE)
    }

    /// A session on a word of the corpus, picked at random, with the given
    /// grace. Fails where the corpus has no entry.
    pub fn init_with_grace(corpus: &str, grace: u8) -> (started: Result<App, CorpusUnavailable>)
        ensures
            started is Err <==> corpus_entries(corpus@).len() == 0,
            started matches Ok(app) ==> app.wf() && exists|i: int|
                0 <= i < corpus_entries(corpus@).len() && app@ == GameState::initial(
                    lower_seq(#[trigger] corpus_entries(corpus@)[i]),
                    grace as nat,
                ),
    {
        match select_random_word(corpus) {
            Ok(word) => {
                Ok(Self::with_word(word.as_str(), grace))
            },
            Err(unavailable) => Err(unavailable),
        }
    }

    /// The word with the letters not yet guessed masked.
    pub fn get_masked_word(&self) -> (masked: String)
        ensures
            masked@ == self@.masked(),
            masked@.len() == self@.word.len(),
    {
        let mut masked = String::new();
        let chars = self.selected_word.as_str().chars();
        for letter in it: chars
            invariant
                it.seq() == self.selected_word@,
                masked@ == masked_word(self.selected_word@.take(it.index()), self.guessed_letters@),
        {
            let shown = if vec_contains(&self.guessed_letters, letter) {
                letter
            } else {
                PLACEHOLDER
            };
            push_char(&mut masked, shown);
        }
        masked
    }

    /// Records the letter `guess`. Says whether it is new.
    fn add_guess(&mut self, guess: char) -> (fresh: bool)
        requires
            old(self).wf(),
        ensures
            final(self).wf(),
            final(self)@ == old(self)@.add_guess(guess),
            fresh == !old(self)@.guessed.contains(guess),
    {
        if vec_contains(&self.guessed_letters, guess) {
            false
        } else {
            self.guessed_letters.push(guess);
            true
        }
    }

    /// Accounts for one wrong guess, with the roll given: see
    /// `GameState::strike`. Says whether the guess was spared.
    pub fn strike_with(&mut self, roll: bool) -> (spared: bool)
        requires
            old(self).wf(),
        ensures
            final(self).wf(),
            final(self)@ == old(self)@.strike(roll),
            spared == old(self)@.spares(roll),
            old(self)@.strikes <= final(self)@.strikes <= MAX_STRIKES,
    {
        if self.outcome != Outcome::InProgress {
            return false;
        }
        let should_be_graceful = self.grace > 0 && roll;
        if should_be_graceful {
            self.grace -= 1;
        } else {
            self.strikes += 1;
        }
        if self.strikes == MAX_STRIKES {
            self.set_game_state(Outcome::Lost);
        }
        should_be_graceful
    }

    /// Accounts for one wrong guess. While grace is left, a roll decides
    /// whether the guess is spared, at the cost of one grace, or is a
    /// strike; without grace it is a strike. Says whether the guess was
    /// spared, and so how the roll fell.
    pub fn strike(&mut self) -> (spared: bool)
        requires
            old(self).wf(),
        ensures
            final(self).wf(),
            final(self)@ == old(self)@.strike(spared),
            spared ==> old(self)@.outcome is InProgress && old(self)@.grace > 0,
            old(self)@.strikes <= final(self)@.strikes <= MAX_STRIKES,
    {
        let roll = self.grace > 0 && rand::random_ratio(
            GRACE_CHANCE_NUMERATOR,
            GRACE_CHANCE_DENOMINATOR,
        );
        self.strike_with(roll)
    }

    /// Ends the game with `state`, unless it has ended before.
    pub fn set_game_state(&mut self, state: Outcome)
        ensures
            final(self)@ == old(self)@.set_game_state(state),
            old(self).wf() ==> final(self).wf(),
    {
        if self.outcome == Outcome::InProgress {
            self.outcome = state;
        }
    }

    /// Whether the game is won as it stands: the strikes are below their
    /// limit and the whole word is revealed.
    fn should_win(&self) -> (win: bool)
        ensures
            win == self@.should_win(),
    {
        self.strikes < MAX_STRIKES && self.get_masked_word() == self.selected_word
    }

    /// Judges the letter `guess`, just recorded: a letter of the word wins
    /// the game once the whole word is revealed, any other is a miss.
    fn handle_guess(&mut self, guess: char) -> (outcome: GuessOutcome)
        requires
            old(self).wf(),
            old(self)@.outcome is InProgress,
        ensures
            final(self).wf(),
            final(self)@ == old(self)@.handle_guess(guess, outcome is Spared),
            outcome == if old(self)@.word.contains(guess) {
                GuessOutcome::Hit
            } else if old(self)@.spares(outcome is Spared) {
                GuessOutcome::Spared
            } else {
                GuessOutcome::Struck
            },
    {
        let is_correct = str_contains(self.selected_word.as_str(), guess);
        if is_correct {
            if self.should_win() {
                self.set_game_state(Outcome::Won);
            }
            GuessOutcome::Hit
        } else if self.strike() {
            GuessOutcome::Spared
        } else {
            GuessOutcome::Struck
        }
    }

    /// Takes the guess of `letter`, in lower case. Nothing happens once the
    /// game has ended, nor when the letter was guessed before. A new
    /// letter is recorded; if the word holds it, the game is won once the
    /// whole word is revealed; if not, it is a miss (see `strike`). Says
    /// what became of the guess; for a miss, that tells how the roll fell.
    pub fn submit_guess(&mut self, letter: char) -> (outcome: GuessOutcome)
        requires
            old(self).wf(),
        ensures
            final(self).wf(),
            final(self)@ == old(self)@.submit_guess(letter, outcome is Spared),
            outcome == old(self)@.judge(letter, outcome is Spared),
            !(old(self)@.outcome is InProgress) ==> final(self)@ == old(self)@,
            old(self)@.guessed.contains(lower(letter)) ==> final(self)@ == old(self)@,
            old(self)@.strikes <= final(self)@.strikes <= MAX_STRIKES,
            old(self)@.grace == 0 ==> !(outcome is Spared),
            final(self)@.strikes == old(self)@.strikes + if outcome is Struck {
                1int
            } else {
                0int
            },
            final(self)@.grace == old(self)@.grace - if outcome is Spared {
                1int
            } else {
                0int
            },
    {
        if self.outcome != Outcome::InProgress {
            return GuessOutcome::Ignored;
        }
        let guess = to_lower(letter);
        let new_guess = self.add_guess(guess);
        if new_guess {
            self.handle_guess(guess)
        } else {
            GuessOutcome::Duplicate
        }
    }

    /// Takes one key event: the press of the escape key quits, the press
    /// of an alphabetic character while the game is on is a guess, and
    /// nothing else has any effect.
    pub fn handle_keypress(&mut self, event: KeyEvent)
        requires
            old(self).wf(),
        ensures
            final(self).wf(),
            final(self)@ == old(self)@.handle_keypress(event, true) || final(self)@ == old(
                self,
            )@.handle_keypress(event, false),
            old(self)@.grace == 0 ==> final(self)@ == old(self)@.handle_keypress(event, false),
            old(self)@.strikes <= final(self)@.strikes <= MAX_STRIKES,
    {
        if event.kind == KeyEventKind::Press {
            match event.code {
                KeyCode::Esc => {
                    self.quit();
                },
                KeyCode::Char(key) => {
                    if key.is_alphabetic() && self.outcome == Outcome::InProgress {
                        self.submit_guess(key);
                    }
                },
                KeyCode::Other => {},
            }
        }
    }

    /// Takes one event of the terminal: a key event goes to
    /// `handle_keypress`, any other is passed over. Says whether the event
    /// loop goes on.
    pub fn handle_event(&mut self, event: Event) -> (running: bool)
        requires
            old(self).wf(),
        ensures
            final(self).wf(),
            final(self)@ == old(self)@.handle_event(event, true) || final(self)@ == old(
                self,
            )@.handle_event(event, false),
            old(self)@.grace == 0 ==> final(self)@ == old(self)@.handle_event(event, false),
            old(self)@.strikes <= final(self)@.strikes <= MAX_STRIKES,
            running == final(self)@.running,
    {
        match event {
            Event::Key(key_event) => {
                self.handle_keypress(key_event);
            },
            Event::Other => {},
        }
        self.run
    }

    /// Ends the event loop. The game itself stays as it is.
    pub fn quit(&mut self)
        ensures
            final(self)@ == old(self)@.quit(),
            old(self).wf() ==> final(self).wf(),
    {
        self.run = false;
    }

    /// What to show of the session: the figure for the strikes, and below
    /// it the masked word with the letters guessed, or, once the game has
    /// ended, the banner with the word.
    pub fn draw(&self) -> (screen: Screen)
        requires
            self.wf(),
        ensures
            screen.shows(self@),
    {
        let figure = Figure::get_state(self.strikes as usize);
        let info = match self.outcome {
            Outcome::InProgress => GameInfo::Playing {
                word: self.get_masked_word(),
                guessed_letters: string_from_chars(&self.guessed_letters),
            },
            Outcome::Won => GameInfo::GameOver { message: self.game_over_text(WON_BANNER) },
            Outcome::Lost => GameInfo::GameOver { message: self.game_over_text(LOST_BANNER) },
        };
        Screen { title: String::from_str(TITLE), controls: String::from_str(CONTROLS), figure, info }
    }

    /// The banner with the word after it.
    fn game_over_text(&self, banner: &str) -> (message: String)
        ensures
            message@ == banner@ + WORD_WAS@ + self@.word,
    {
        let mut message = String::from_str(banner);
        message.append(WORD_WAS);
        message.append(self.selected_word.as_str());
        message
    }

    pub fn selected_word(&self) -> (word: &String)
        ensures
            word@ == self@.word,
    {
        &self.selected_word
    }

    /// The letters guessed so far, in the order in which they were guessed.
    pub fn guessed_letters(&self) -> (letters: &Vec<char>)
        ensures
            letters@ == self@.guessed,
    {
        &self.guessed_letters
    }

    pub fn strikes(&self) -> (strikes: u8)
        ensures
            strikes == self@.strikes,
    {
        self.strikes
    }

    pub fn grace(&self) -> (grace: u8)
        ensures
            grace == self@.grace,
    {
        self.grace
    }

    pub fn outcome(&self) -> (outcome: Outcome)
        ensures
            outcome == self@.outcome,
    {
        self.outcome
    }

    /// Whether the event loop goes on.
    pub fn is_running(&self) -> (running: bool)
        ensures
            running == self@.running,
    {
        self.run
    }
}

} // verus!
