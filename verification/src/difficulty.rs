//! The difficulty menu: one of five levels, rotated by button A, confirmed
//! by button B, shown on the matrix as a blinking block whose width grows
//! with the difficulty.

use vstd::prelude::*;

use crate::buttons::ButtonCode;
use crate::led::CellState;
use crate::led::GRID_SIDE;
use crate::led::Snapshot;

verus! {

/// The five difficulty levels.
#[derive(Clone, Copy, Debug, PartialEq, Eq, Structural)]
pub enum Difficulty {
    /// The slowest game.
    Easy,
    /// The starting level.
    Normal,
    /// Faster.
    Hard,
    /// Faster still.
    Insane,
    /// The fastest game.
    Hell,
}

/// The next level after `d` in rotation order, wrapping from `Hell` back to
/// `Easy`.
pub open spec fn rotate_spec(d: Difficulty) -> Difficulty {
    match d {
        Difficulty::Easy => Difficulty::Normal,
        Difficulty::Normal => Difficulty::Hard,
        Difficulty::Hard => Difficulty::Insane,
        Difficulty::Insane => Difficulty::Hell,
        Difficulty::Hell => Difficulty::Easy,
    }
}

/// The delay between game turns at level `d`, in milliseconds.
pub open spec fn turn_delay_spec(d: Difficulty) -> u64 {
    match d {
        Difficulty::Easy => 1000,
        Difficulty::Normal => 500,
        Difficulty::Hard => 400,
        Difficulty::Insane => 300,
        Difficulty::Hell => 200,
    }
}

/// How many rows of the menu block blink at level `d`: one at `Easy` up to
/// all five at `Hell`.
pub open spec fn level_rank(d: Difficulty) -> int {
    match d {
        Difficulty::Easy => 1,
        Difficulty::Normal => 2,
        Difficulty::Hard => 3,
        Difficulty::Insane => 4,
        Difficulty::Hell => 5,
    }
}

/// The menu picture at level `d`: a blinking block in the three middle
/// columns, `level_rank(d)` cells deep from the far row, empty elsewhere.
pub open spec fn menu_cell_spec(d: Difficulty, col: int, row: int) -> CellState {
    if 1 <= col <= 3 && row + level_rank(d) >= GRID_SIDE {
        CellState::AnimationBlinking
    } else {
        CellState::Empty
    }
}

/// The menu state: the level currently offered.
#[derive(Debug)]
pub struct DifficultySelector {
    /// The level the next confirmation would pick.
    pub difficulty: Difficulty,
}

impl DifficultySelector {
    /// The menu opens at `Normal`.
    pub fn new() -> (r: Self)
        ensures
            r.difficulty == Difficulty::Normal,
    {
        DifficultySelector { difficulty: Difficulty::Normal }
    }

    /// Feed one button press into the menu: A rotates to the next level and
    /// the choice stays open (`None`), B confirms the current level
    /// (`Some(())`).
    pub fn is_choice_made(&mut self, input: ButtonCode) -> (r: Option<()>)
        ensures
            input == ButtonCode::PressedA ==> r is None && final(self).difficulty == rotate_spec(
                old(self).difficulty,
            ),
            input == ButtonCode::PressedB ==> r == Some(()) && final(self).difficulty == old(
                self,
            ).difficulty,
    {
        match input {
            ButtonCode::PressedA => {
                self.rotate_difficulty();
                None
            },
            ButtonCode::PressedB => Some(()),
        }
    }

    /// Step to the next level in rotation order.
    pub fn rotate_difficulty(&mut self)
        ensures
            final(self).difficulty == rotate_spec(old(self).difficulty),
    {
        self.difficulty = match self.difficulty {
            Difficulty::Easy => Difficulty::Normal,
            Difficulty::Normal => Difficulty::Hard,
            Difficulty::Hard => Difficulty::Insane,
            Difficulty::Insane => Difficulty::Hell,
            Difficulty::Hell => Difficulty::Easy,
        };
    }

    /// The delay between game turns at the current level.
    pub fn get_turn_delay_ms(&self) -> (r: u64)
        ensures
            r == turn_delay_spec(self.difficulty),
    {
        match self.difficulty {
            Difficulty::Easy => 1000,
            Difficulty::Normal => 500,
            Difficulty::Hard => 400,
            Difficulty::Insane => 300,
            Difficulty::Hell => 200,
        }
    }

    /// The menu picture for the current level, ready to send to the driver.
    pub fn get_snapshot(&self) -> (r: Snapshot)
        ensures
            r.wf(),
            forall|col: int, row: int|
                0 <= col < GRID_SIDE && 0 <= row < GRID_SIDE ==> r.at(col, row) == menu_cell_spec(
                    self.difficulty,
                    col,
                    row,
                ),
    {
        let depth: usize = match self.difficulty {
            Difficulty::Easy => 1,
            Difficulty::Normal => 2,
            Difficulty::Hard => 3,
            Difficulty::Insane => 4,
            Difficulty::Hell => 5,
        };
        let mut snapshot = Snapshot::new();
        let mut col: usize = 1;
        while col < 4
            invariant
                snapshot.wf(),
                1 <= col <= 4,
                depth == level_rank(self.difficulty),
                forall|c: int, r: int|
                    0 <= c < GRID_SIDE && 0 <= r < GRID_SIDE && c < col ==> snapshot.at(c, r)
                        == menu_cell_spec(self.difficulty, c, r),
                forall|c: int, r: int|
                    0 <= c < GRID_SIDE && 0 <= r < GRID_SIDE && c >= col ==> snapshot.at(c, r)
                        == CellState::Empty,
            decreases 4 - col,
        {
            let mut row: usize = GRID_SIDE - depth;
            while row < GRID_SIDE
                invariant
                    snapshot.wf(),
                    1 <= col < 4,
                    depth == level_rank(self.difficulty),
                    GRID_SIDE - depth <= row <= GRID_SIDE,
                    forall|c: int, r: int|
                        0 <= c < GRID_SIDE && 0 <= r < GRID_SIDE && c < col ==> snapshot.at(c, r)
                            == menu_cell_spec(self.difficulty, c, r),
                    forall|r: int|
                        0 <= r < row && r + depth >= GRID_SIDE ==> snapshot.at(col as int, r)
                            == CellState::AnimationBlinking,
                    forall|r: int|
                        row <= r < GRID_SIDE ==> snapshot.at(col as int, r) == CellState::Empty,
                    forall|r: int|
                        0 <= r < GRID_SIDE && r + depth < GRID_SIDE ==> snapshot.at(col as int, r)
                            == CellState::Empty,
                    forall|c: int, r: int|
                        0 <= c < GRID_SIDE && 0 <= r < GRID_SIDE && c > col ==> snapshot.at(c, r)
                            == CellState::Empty,
                decreases GRID_SIDE - row,
            {
                let ghost pre = snapshot;
                snapshot.set(col, row, CellState::AnimationBlinking);
                proof {
                    assert forall|c: int, r: int|
                        0 <= c < GRID_SIDE && 0 <= r < GRID_SIDE && !(c == col && r
                            == row) implies snapshot.at(c, r) == pre.at(c, r) by {
                        assert(c * 5 + r != col * 5 + row);
                    }
                }
                row = row + 1;
            }
            col = col + 1;
        }
        snapshot
    }
}

} // verus!
