use hangman::figure::{Figure, BAR, BOTH_ARMS, BOTH_LEGS, HEAD, LEFT_ARM, LEFT_LEG, POST, ROPE, ROWS};


#[test]
fn strike_0_shows_the_bare_gallows() {
    let rows = [
        "================== ",
        "|                | ",
        "|                | ",
        "|                | ",
        "|                  ",
        "|                  ",
        "|                  ",
        "|                  ",
        "|                  ",
        "|                  ",
        "|                  ",
        "================== ",
    ];
    assert_eq!(Figure::get_state(0), rows.join("\n"));
}

#[test]
fn strike_1_shows_the_head() {
    let rows = [
        "================== ",
        "|                | ",
        "|                | ",
        "|                | ",
        "|                O ",
        "|                  ",
        "|                  ",
        "|                  ",
        "|                  ",
        "|                  ",
        "|                  ",
        "================== ",
    ];
    assert_eq!(Figure::get_state(1), rows.join("\n"));
}

#[test]
fn strike_2_shows_the_neck() {
    let rows = [
        "================== ",
        "|                | ",
        "|                | ",
        "|                | ",
        "|                O ",
        "|                | ",
        "|                  ",
        "|                  ",
        "|                  ",
        "|                  ",
        "|                  ",
        "================== ",
    ];
    assert_eq!(Figure::get_state(2), rows.join("\n"));
}

#[test]
fn strike_3_shows_the_left_arm() {
    let rows = [
        "================== ",
        "|                | ",
        "|                | ",
        "|                | ",
        "|                O ",
        "|               /| ",
        "|                  ",
        "|                  ",
        "|                  ",
        "|                  ",
        "|                  ",
        "================== ",
    ];
    assert_eq!(Figure::get_state(3), rows.join("\n"));
}

#[test]
fn strike_4_shows_both_arms() {
    let rows = [
        "================== ",
        "|                | ",
        "|                | ",
        "|                | ",
        "|                O ",
        "|               /|\\",
        "|                  ",
        "|                  ",
        "|                  ",
        "|                  ",
        "|                  ",
        "================== ",
    ];
    assert_eq!(Figure::get_state(4), rows.join("\n"));
}

#[test]
fn strike_5_shows_the_left_leg() {
    let rows = [
        "================== ",
        "|                | ",
        "|                | ",
        "|                | ",
        "|                O ",
        "|               /|\\",
        "|               /  ",
        "|                  ",
        "|                  ",
        "|                  ",
        "|                  ",
        "================== ",
    ];
    assert_eq!(Figure::get_state(5), rows.join("\n"));
}

#[test]
fn strike_6_shows_both_legs() {
    let rows = [
        "================== ",
        "|                | ",
        "|                | ",
        "|                | ",
        "|                O ",
        "|               /|\\",
        "|               / \\",
        "|                  ",
        "|                  ",
        "|                  ",
        "|                  ",
        "================== ",
    ];
    assert_eq!(Figure::get_state(6), rows.join("\n"));
}

#[test]
fn every_image_has_twelve_rows_of_nineteen() {
    assert_eq!(ROWS, 12);
    for strikes in 0..=6 {
        let image = Figure::get_state(strikes);
        let rows: Vec<&str> = image.split('\n').collect();
        assert_eq!(rows.len(), 12);
        for row in rows {
            assert_eq!(row.chars().count(), 19);
        }
    }
}

#[test]
fn each_strike_draws_one_more_part() {
    for strikes in 0..6 {
        let before = Figure::get_state(strikes);
        let after = Figure::get_state(strikes + 1);
        let changed = before
            .chars()
            .zip(after.chars())
            .filter(|(old, new)| old != new)
            .count();
        assert_eq!(changed, 1);
    }
}

#[test]
fn the_parts_have_their_shapes() {
    assert_eq!(BAR, "================== ");
    assert_eq!(ROPE, "|                | ");
    assert_eq!(POST, "|                  ");
    assert_eq!(HEAD, "|                O ");
    assert_eq!(LEFT_ARM, "|               /| ");
    assert_eq!(BOTH_ARMS, "|               /|\\");
    assert_eq!(LEFT_LEG, "|               /  ");
    assert_eq!(BOTH_LEGS, "|               / \\");
}
