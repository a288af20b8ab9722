//! The selection logic shared by the menu and game-end screens: a cursor
//! over a fixed list of options that wraps around at both ends.

use vstd::prelude::*;

verus! {

/// Different representations of possible commands that could be received
/// from the user in the menu state.
#[derive(Debug, Copy, Clone, PartialEq, Eq, Structural)]
pub enum OptionInputCommand {
    Up,
    Down,
    Select,
}

/// Where the cursor stands after one command: `Up` moves it one entry up
/// and wraps from the first entry to the last, `Down` moves it one entry
/// down and wraps from the last entry to the first, and `Select` leaves
/// it in place.
pub open spec fn spec_next_selection(current: int, count: int, command: OptionInputCommand) -> int {
    match command {
        OptionInputCommand::Up => if current == 0 {
            count - 1
        } else {
            current - 1
        },
        OptionInputCommand::Down => if current >= count - 1 {
            0
        } else {
            current + 1
        },
        OptionInputCommand::Select => current,
    }
}

/// Move the cursor of a menu of `count` options by one command.
pub fn next_selection(current: usize, count: usize, command: &OptionInputCommand) -> (next: usize)
    requires
        1 <= count,
        current < count,
    ensures
        next < count,
        next == spec_next_selection(current as int, count as int, *command),
{
    match command {
        OptionInputCommand::Up => {
            if current == 0 {
                count - 1
            } else {
                current - 1
            }
        },
        OptionInputCommand::Down => {
            if current >= count - 1 {
                0
            } else {
                current + 1
            }
        },
        OptionInputCommand::Select => current,
    }
}

} // verus!
