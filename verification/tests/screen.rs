use hangman::app::{App, GameInfo, CONTROLS, LOST_BANNER, TITLE, WON_BANNER, WORD_WAS};
use hangman::figure::Figure;
use hangman::rules::Outcome;
use hangman::text::{str_contains, string_from_chars, to_lower, to_lower_string, vec_contains};

#[test]
fn the_screen_of_a_new_game() {
    let app = App::with_word("cat", 0);
    let screen = app.draw();

    assert_eq!(screen.title, " Hangman ");
    assert_eq!(screen.controls, " <Esc> Quit ");
    assert_eq!(screen.figure, Figure::get_state(0));
    match screen.info {
        GameInfo::Playing { word, guessed_letters } => {
            assert_eq!(word, "___");
            assert_eq!(guessed_letters, "");
        },
        GameInfo::GameOver { message } => panic!("the game is on, not `{}`", message),
    }
}

#[test]
fn the_screen_of_a_game_under_way() {
    let mut app = App::with_word("cat", 0);
    app.submit_guess('t');
    app.submit_guess('x');
    app.submit_guess('c');
    app.submit_guess('z');
    let screen = app.draw();

    assert_eq!(screen.figure, Figure::get_state(2));
    match screen.info {
        GameInfo::Playing { word, guessed_letters } => {
            assert_eq!(word, "c_t");
            assert_eq!(guessed_letters, "txcz");
        },
        GameInfo::GameOver { message } => panic!("the game is on, not `{}`", message),
    }
}

#[test]
fn the_screen_of_a_game_won() {
    let mut app = App::with_word("cat", 0);
    app.submit_guess('x');
    app.submit_guess('c');
    app.submit_guess('a');
    app.submit_guess('t');
    assert!(app.outcome() == Outcome::Won);
    let screen = app.draw();

    assert_eq!(screen.figure, Figure::get_state(1));
    match screen.info {
        GameInfo::GameOver { message } => assert_eq!(message, "You Won!  The word was cat"),
        GameInfo::Playing { word, .. } => panic!("the game is over, not at `{}`", word),
    }
}

#[test]
fn the_screen_of_a_game_lost() {
    let mut app = App::with_word("cat", 0);
    for letter in ['u', 'v', 'w', 'x', 'y', 'z'] {
        app.submit_guess(letter);
    }
    assert!(app.outcome() == Outcome::Lost);
    let screen = app.draw();

    assert_eq!(screen.title, " Hangman ");
    assert_eq!(screen.controls, " <Esc> Quit ");
    assert_eq!(screen.figure, Figure::get_state(6));
    match screen.info {
        GameInfo::GameOver { message } => assert_eq!(message, "You have lost!  The word was cat"),
        GameInfo::Playing { word, .. } => panic!("the game is over, not at `{}`", word),
    }
}

#[test]
fn the_same_state_gives_the_same_screen() {
    let mut app = App::with_word("cat", 0);
    app.submit_guess('a');
    assert_eq!(app.draw(), app.draw());
    assert_eq!(
        app.draw().info,
        GameInfo::Playing { word: String::from("_a_"), guessed_letters: String::from("a") }
    );
}

#[test]
fn the_texts_of_the_screen() {
    assert_eq!(TITLE, " Hangman ");
    assert_eq!(CONTROLS, " <Esc> Quit ");
    assert_eq!(WON_BANNER, "You Won!");
    assert_eq!(LOST_BANNER, "You have lost!");
    assert_eq!(WORD_WAS, "  The word was ");
}

#[test]
fn lower_case_touches_ascii_capitals_only() {
    assert_eq!(to_lower('A'), 'a');
    assert_eq!(to_lower('M'), 'm');
    assert_eq!(to_lower('Z'), 'z');
    assert_eq!(to_lower('a'), 'a');
    assert_eq!(to_lower('z'), 'z');
    assert_eq!(to_lower('@'), '@');
    assert_eq!(to_lower('['), '[');
    assert_eq!(to_lower('5'), '5');
    assert_eq!(to_lower('É'), 'É');
    for c in ('\0'..='\u{17f}').chain(['京', '💝']) {
        assert_eq!(to_lower(c), c.to_ascii_lowercase());
    }
    assert_eq!(to_lower_string("Hello, World!"), "hello, world!");
    assert_eq!(to_lower_string(""), "");
    assert_eq!(to_lower_string("ÀB"), "Àb");
}

#[test]
fn finds_a_character_where_it_is() {
    assert!(str_contains("cat", 'c'));
    assert!(str_contains("cat", 't'));
    assert!(!str_contains("cat", 'x'));
    assert!(!str_contains("", 'x'));
    assert!(str_contains("naïve", 'ï'));

    let letters = vec!['q', 'a'];
    assert!(vec_contains(&letters, 'q'));
    assert!(vec_contains(&letters, 'a'));
    assert!(!vec_contains(&letters, 'b'));
    assert!(!vec_contains(&Vec::new(), 'b'));

    assert_eq!(string_from_chars(&letters), "qa");
    assert_eq!(string_from_chars(&Vec::new()), "");
}
