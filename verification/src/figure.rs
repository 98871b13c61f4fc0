//! The gallows and the figure on it: one canned image for each strike
//! count, drawn further with every strike.

use vstd::prelude::*;
use crate::rules::MAX_STRIKES;
use crate::util::{join_lines, NEWLINE};

verus! {

/// The number of rows of an image.
pub const ROWS: usize = 12;

/// The beam at the top and the ground at the bottom.
pub const BAR: &'static str = "================== ";

/// The post with the rope. The neck is drawn the same way.
pub const ROPE: &'static str = "|                | ";

/// The bare post.
pub const POST: &'static str = "|                  ";

pub const HEAD: &'static str = "|                O ";

pub const LEFT_ARM: &'static str = "|               /| ";

pub const BOTH_ARMS: &'static str = "|               /|\\";

pub const LEFT_LEG: &'static str = "|               /  ";

pub const BOTH_LEGS: &'static str = "|               / \\";

/// The row `row` of the image for `strikes` strikes. Beam, rope and ground
/// are always there. The head comes with the first strike, the neck with
/// the second, the arms with the third and fourth, the legs with the fifth
/// and sixth.
pub open spec fn figure_row(strikes: nat, row: nat) -> Seq<char> {
    if row == 0 || row == 11 {
        BAR@
    } else if 1 <= row <= 3 {
        ROPE@
    } else if row == 4 && strikes >= 1 {
        HEAD@
    } else if row == 5 && strikes >= 4 {
        BOTH_ARMS@
    } else if row == 5 && strikes == 3 {
        LEFT_ARM@
    } else if row == 5 && strikes == 2 {
        ROPE@
    } else if row == 6 && strikes >= 6 {
        BOTH_LEGS@
    } else if row == 6 && strikes == 5 {
        LEFT_LEG@
    } else {
        POST@
    }
}

/// The rows of the image for `strikes` strikes, from the top.
pub open spec fn figure_rows(strikes: nat) -> Seq<Seq<char>> {
    Seq::new(ROWS as nat, |row: int| figure_row(strikes, row as nat))
}

/// The image for `strikes` strikes: its rows, one to a line.
pub open spec fn figure_image(strikes: nat) -> Seq<char> {
    join_lines(figure_rows(strikes))
}

pub struct Figure;

impl Figure {
    /// The table of the images, one entry for each strike count.
    fn rows(strikes: usize) -> (rows: [&'static str; 12])
        requires
            strikes <= MAX_STRIKES,
        ensures
            forall|row: int| 0 <= row < ROWS ==> (#[trigger] rows@[row])@ == figure_row(strikes as nat, row as nat),
    {
        match strikes {
            0 => [BAR, ROPE, ROPE, ROPE, POST, POST, POST, POST, POST, POST, POST, BAR],
            1 => [BAR, ROPE, ROPE, ROPE, HEAD, POST, POST, POST, POST, POST, POST, BAR],
            2 => [BAR, ROPE, ROPE, ROPE, HEAD, ROPE, POST, POST, POST, POST, POST, BAR],
            3 => [BAR, ROPE, ROPE, ROPE, HEAD, LEFT_ARM, POST, POST, POST, POST, POST, BAR],
            4 => [BAR, ROPE, ROPE, ROPE, HEAD, BOTH_ARMS, POST, POST, POST, POST, POST, BAR],
            5 => [BAR, ROPE, ROPE, ROPE, HEAD, BOTH_ARMS, LEFT_LEG, POST, POST, POST, POST, BAR],
            _ => [BAR, ROPE, ROPE, ROPE, HEAD, BOTH_ARMS, BOTH_LEGS, POST, POST, POST, POST, BAR],
        }
    }

    /// The image to show for `strikes` strikes. There is one for each count
    /// from 0 to `MAX_STRIKES`.
    pub fn get_state(strikes: usize) -> (image: String)
        requires
            strikes <= MAX_STRIKES,
        ensures
            image@ == figure_image(strikes as nat),
    {
        let rows = Self::rows(strikes);
        let ghost all = figure_rows(strikes as nat);
        let mut image = String::new();
        let mut row: usize = 0;
        while row < ROWS
            invariant
                row <= ROWS,
                all == figure_rows(strikes as nat),
                forall|i: int| 0 <= i < ROWS ==> (#[trigger] rows@[i])@ == all[i],
                image@ == join_lines(all.take(row as int)),
            decreases ROWS - row,
        {
            proof {
                reveal_strlit("\n");
                assert(all.take(row + 1).drop_last() =~= all.take(row as int));
            }
            if row > 0 {
                image.append("\n");
            }
            image.append(rows[row]);
            row += 1;
        }
        assert(all.take(ROWS as int) =~= all);
        image
    }
}

} // verus!
