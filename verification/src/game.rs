//! The snake game state machine.
//!
//! The board is the 5x5 grid; the snake body lives in a ring buffer from
//! the tail (oldest) to the head (newest), the set of snake-free cells in a
//! heapless index set keyed by `row * 5 + col`, and the food is placed on a
//! random free cell. One `do_move` advances the head one cell in the
//! current direction with wrap-around, eats or trims, and reports whether
//! the snake bit itself, filled the board, or just moved.

use vstd::prelude::*;

use heapless::index_set::FnvIndexSet;
use micro_rand::Random;

use crate::buttons::ButtonCode;
use crate::cellset::cell_set_contains;
use crate::cellset::cell_set_contents;
use crate::cellset::cell_set_insert;
use crate::cellset::cell_set_len;
use crate::cellset::cell_set_new;
use crate::cellset::cell_set_nth;
use crate::cellset::cell_set_remove;
use crate::led::CellState;
use crate::led::GRID_SIDE;
use crate::led::Snapshot;
use crate::rb::RingBuffer;
use crate::rng::RAND_MODULUS;
use crate::rng::new_random;
use crate::rng::next_bounded;
use crate::rng::rand_state;

verus! {

/// Where the snake is headed.
#[derive(Clone, Copy, Debug, PartialEq, Eq, Structural)]
pub enum Direction {
    /// Up: towards row 0.
    North,
    /// Right: towards column 4.
    Ost,
    /// Down: towards row 4.
    South,
    /// Left: towards column 0.
    West,
}

/// One grid cell, by row and column.
#[derive(Default, Clone, Copy, Debug, PartialEq, Eq, Structural)]
pub struct Coordinate {
    /// The row, 0 to 4.
    pub row: u8,
    /// The column, 0 to 4.
    pub col: u8,
}

/// The game cannot go on: the snake lost its tail.
#[derive(Debug, PartialEq, Eq, Structural)]
pub enum SnakeError {
    /// The body buffer was empty where it never should be.
    Fatal,
}

/// What one move did.
#[derive(Clone, Copy, Debug, PartialEq, Eq, Structural)]
pub enum MoveResult {
    /// The snake moved (and possibly ate).
    Trivial,
    /// The snake ran into itself.
    BiteYourself,
    /// The snake fills the board.
    Win,
}

/// A coordinate that lies on the board.
pub open spec fn coord_wf(c: Coordinate) -> bool {
    c.row < 5 && c.col < 5
}

/// The cell-set key of a coordinate.
pub open spec fn cell_index_spec(c: Coordinate) -> u8 {
    (c.row * 5 + c.col) as u8
}

/// Whether `c` is the cell `(col, row)`.
pub open spec fn coord_is(c: Coordinate, col: int, row: int) -> bool {
    c.col == col && c.row == row
}

/// The cell one step from `head` in direction `d`, wrapping at the edges.
pub open spec fn new_head_spec(d: Direction, head: Coordinate) -> Coordinate {
    match d {
        Direction::Ost => Coordinate { row: head.row, col: ((head.col + 1) % 5) as u8 },
        Direction::South => Coordinate { col: head.col, row: ((head.row + 1) % 5) as u8 },
        Direction::West => Coordinate { row: head.row, col: ((head.col + 4) % 5) as u8 },
        Direction::North => Coordinate { col: head.col, row: ((head.row + 4) % 5) as u8 },
    }
}

/// Where button A and B turn the snake: A counter-clockwise, B clockwise.
pub open spec fn turn_spec(d: Direction, input: ButtonCode) -> Direction {
    match input {
        ButtonCode::PressedA => match d {
            Direction::North => Direction::West,
            Direction::Ost => Direction::North,
            Direction::South => Direction::Ost,
            Direction::West => Direction::South,
        },
        ButtonCode::PressedB => match d {
            Direction::North => Direction::Ost,
            Direction::Ost => Direction::South,
            Direction::South => Direction::West,
            Direction::West => Direction::North,
        },
    }
}

/// The whole game state.
pub struct Game {
    /// The body, tail first, head last; at most 24 segments fit.
    pub snake: RingBuffer<Coordinate, 25>,
    /// The snake-free cells, keyed by `row * 5 + col`.
    pub no_snake: FnvIndexSet<u8, 32>,
    /// Where the snake is headed.
    pub direction: Direction,
    /// Where the food lies.
    pub food: Coordinate,
    /// The generator that places the food.
    pub rnd: Random,
}

impl Game {
    /// Most of the state invariant: an on-board body, an on-board free-cell
    /// set that together with the body never outgrows the board, on-board
    /// food, and a generator in its settled range. Only during construction
    /// may the body still be empty.
    pub open spec fn base_wf(&self) -> bool {
        &&& self.snake.wf()
        &&& forall|i: int| 0 <= i < self.snake@.len() ==> coord_wf(#[trigger] self.snake@[i])
        &&& cell_set_contents(self.no_snake).finite()
        &&& forall|v: u8| cell_set_contents(self.no_snake).contains(v) ==> v < 25
        &&& cell_set_contents(self.no_snake).len() + self.snake@.len() <= 25
        &&& coord_wf(self.food)
        &&& 0 <= rand_state(self.rnd) < RAND_MODULUS
    }

    /// The state invariant: `base_wf` and a body of at least the head.
    pub open spec fn wf(&self) -> bool {
        &&& self.base_wf()
        &&& 1 <= self.snake@.len()
    }

    /// A fresh game: the snake is one segment in the middle, headed north,
    /// every other cell is free, and the food lies on some free cell.
    pub fn new(seed: i64) -> (r: Self)
        requires
            0 <= seed < RAND_MODULUS,
        ensures
            r.wf(),
            r.snake@ =~= seq![Coordinate { row: 2, col: 2 }],
            r.direction == Direction::North,
            !cell_set_contents(r.no_snake).contains(cell_index_spec(Coordinate { row: 2, col: 2 })),
            cell_set_contents(r.no_snake).contains(cell_index_spec(r.food)),
    {
        let snake: RingBuffer<Coordinate, 25> = RingBuffer::new();
        let mut no_snake: FnvIndexSet<u8, 32> = cell_set_new();
        let mut row: u8 = 0;
        while row < 5
            invariant
                row <= 5,
                cell_set_contents(no_snake).finite(),
                cell_set_contents(no_snake) =~= Set::new(|v: u8| v < row * 5),
                cell_set_contents(no_snake).len() == row * 5,
            decreases 5 - row,
        {
            let mut col: u8 = 0;
            while col < 5
                invariant
                    row < 5,
                    col <= 5,
                    cell_set_contents(no_snake).finite(),
                    cell_set_contents(no_snake) =~= Set::new(|v: u8| v < row * 5 + col),
                    cell_set_contents(no_snake).len() == row * 5 + col,
                decreases 5 - col,
            {
                let ghost before = cell_set_contents(no_snake);
                let _ = cell_set_insert(&mut no_snake, row * 5 + col);
                proof {
                    assert(!before.contains((row * 5 + col) as u8));
                    vstd::set::axiom_set_insert_len(before, (row * 5 + col) as u8);
                    assert(cell_set_contents(no_snake) =~= Set::new(
                        |v: u8| v < row * 5 + col + 1,
                    ));
                }
                col = col + 1;
            }
            row = row + 1;
        }
        let rnd = new_random(seed);
        let mut game = Game {
            direction: Direction::North,
            snake,
            no_snake,
            rnd,
            food: Coordinate { row: 0, col: 0 },
        };
        let _ = game.snake_add_head(Coordinate { row: 2, col: 2 });
        game.give_food();
        game
    }

    /// Whether a cell is occupied by the snake (i.e. missing from the
    /// free-cell set).
    pub fn is_snake(&self, coordinate: Coordinate) -> (r: bool)
        requires
            self.wf(),
            coord_wf(coordinate),
        ensures
            r == !cell_set_contents(self.no_snake).contains(cell_index_spec(coordinate)),
    {
        !cell_set_contains(&self.no_snake, coordinate.row * 5 + coordinate.col)
    }

    /// Move the food to a random free cell; with no free cell left it stays
    /// where it was. Nothing else changes.
    pub fn give_food(&mut self)
        requires
            old(self).wf(),
        ensures
            final(self).wf(),
            final(self).snake == old(self).snake,
            final(self).no_snake == old(self).no_snake,
            final(self).direction == old(self).direction,
            cell_set_contents(old(self).no_snake).len() > 0 ==> cell_set_contents(
                old(self).no_snake,
            ).contains(cell_index_spec(final(self).food)),
            cell_set_contents(old(self).no_snake).len() == 0 ==> final(self).food == old(self).food,
    {
        let empty_count = cell_set_len(&self.no_snake);
        if empty_count > 0 {
            let random = next_bounded(&mut self.rnd, 0, (empty_count - 1) as i32);
            let mut k = random as usize;
            if k >= empty_count {
                k = empty_count - 1;
            }
            match cell_set_nth(&self.no_snake, k) {
                Some(idx) => {
                    self.food = Coordinate { row: idx / 5, col: idx % 5 };
                    proof {
                        assert(cell_index_spec(final(self).food) == idx) by {
                            vstd::arithmetic::div_mod::lemma_fundamental_div_mod(idx as int, 5);
                        }
                    }
                },
                None => {},
            }
        }
    }

    /// Turn the snake: button A rotates counter-clockwise, button B
    /// clockwise.
    pub fn update_direction(&mut self, input: ButtonCode)
        ensures
            final(self).direction == turn_spec(old(self).direction, input),
            final(self).snake == old(self).snake,
            final(self).no_snake == old(self).no_snake,
            final(self).food == old(self).food,
            final(self).rnd == old(self).rnd,
    {
        match input {
            ButtonCode::PressedA => {
                self.direction = match self.direction {
                    Direction::North => Direction::West,
                    Direction::Ost => Direction::North,
                    Direction::South => Direction::Ost,
                    Direction::West => Direction::South,
                }
            },
            ButtonCode::PressedB => {
                self.direction = match self.direction {
                    Direction::North => Direction::Ost,
                    Direction::Ost => Direction::South,
                    Direction::South => Direction::West,
                    Direction::West => Direction::North,
                }
            },
        }
    }

    /// The cell the head would move to: one step in the current direction,
    /// wrapping at the board's edges.
    pub fn get_new_head_coordinate(&self) -> (r: Coordinate)
        requires
            self.wf(),
        ensures
            r == new_head_spec(self.direction, self.snake@.last()),
            coord_wf(r),
    {
        let head = self.snake.peek_head();
        match self.direction {
            Direction::Ost => Coordinate { row: head.row, col: (head.col + 1) % 5 },
            Direction::South => Coordinate { col: head.col, row: (head.row + 1) % 5 },
            Direction::West => Coordinate { row: head.row, col: (head.col + 5 - 1) % 5 },
            Direction::North => Coordinate { col: head.col, row: (head.row + 5 - 1) % 5 },
        }
    }

    /// Whether the food lies on the given cell.
    pub fn is_food(&self, coordinate: Coordinate) -> (r: bool)
        ensures
            r == (self.food == coordinate),
    {
        self.food == coordinate
    }

    /// One game turn: step the head forward; a cell already occupied means
    /// `BiteYourself` (nothing changes), a full body means `Win`; otherwise
    /// the snake moves, growing over food (which is then re-placed) and
    /// trimming its tail over an empty cell.
    pub fn do_move(&mut self) -> (r: Result<MoveResult, SnakeError>)
        requires
            old(self).wf(),
        ensures
            final(self).wf(),
            r is Ok,
            final(self).direction == old(self).direction,
            ({
                let nh = new_head_spec(old(self).direction, old(self).snake@.last());
                let nhi = cell_index_spec(nh);
                let free = cell_set_contents(old(self).no_snake).contains(nhi);
                let ate = nh == old(self).food;
                let mid = cell_set_contents(old(self).no_snake).remove(nhi);
                &&& (!free ==> r->Ok_0 == MoveResult::BiteYourself && *final(self) == *old(self))
                &&& (free && old(self).snake@.len() == 24 ==> r->Ok_0 == MoveResult::Win)
                &&& (free && old(self).snake@.len() < 24 ==> {
                    &&& r->Ok_0 == MoveResult::Trivial
                    &&& final(self).snake@ == if ate {
                        old(self).snake@.push(nh)
                    } else {
                        old(self).snake@.drop_first().push(nh)
                    }
                    &&& (ate ==> cell_set_contents(final(self).no_snake) == mid)
                    &&& (!ate ==> cell_set_contents(final(self).no_snake) == mid.insert(
                        cell_index_spec(old(self).snake@[0]),
                    ))
                    &&& (!ate ==> final(self).food == old(self).food)
                    &&& (ate && mid.len() > 0 ==> mid.contains(
                        cell_index_spec(final(self).food),
                    ))
                })
            }),
    {
        let new_head = self.get_new_head_coordinate();
        if self.is_snake(new_head) {
            Ok(MoveResult::BiteYourself)
        } else {
            let result = self.snake_add_head(new_head);
            if self.is_food(new_head) {
                self.give_food();
            } else {
                match self.snake_cut_tail() {
                    Ok(_) => {},
                    Err(e) => {
                        return Err(e);
                    },
                }
            }
            proof {
                assert(old(self).snake@.push(new_head).drop_first() =~= old(self).snake@.drop_first().push(new_head));
            }
            result
        }
    }

    /// The board as the driver should show it: the oldest body segment
    /// bright, the rest of the body dim, the food blinking, the rest empty.
    pub fn get_snapshot(&self) -> (r: Snapshot)
        requires
            self.wf(),
        ensures
            r.wf(),
            forall|col: int, row: int|
                0 <= col < GRID_SIDE && 0 <= row < GRID_SIDE ==> r.at(col, row) == board_cell_spec(
                    *self,
                    col,
                    row,
                ),
    {
        let mut snapshot = Snapshot::new();
        let total = self.snake.len();
        let mut it = self.snake.iter();
        let head = it.next().unwrap();
        snapshot.set(head.col as usize, head.row as usize, CellState::SnakeHead);
        let mut k: usize = 1;
        while k < total
            invariant
                self.wf(),
                total == self.snake@.len(),
                snapshot.wf(),
                it.wf(),
                *(it.rb) == self.snake,
                1 <= k <= total,
                it.remaining() == self.snake@.subrange(k as int, total as int),
                forall|c: int, r: int|
                    0 <= c < GRID_SIDE && 0 <= r < GRID_SIDE ==> snapshot.at(c, r)
                        == partial_cell_spec(*self, k as int, c, r),
            decreases total - k,
        {
            proof {
                assert(it.remaining().len() > 0);
                assert(it.remaining()[0] == self.snake@[k as int]);
            }
            let t = it.next().unwrap();
            let ghost pre = snapshot;
            snapshot.set(t.col as usize, t.row as usize, CellState::SnakeTail);
            proof {
                assert forall|c: int, r: int|
                    0 <= c < GRID_SIDE && 0 <= r < GRID_SIDE implies snapshot.at(c, r)
                    == partial_cell_spec(*self, k + 1, c, r) by {
                    if c == t.col && r == t.row {
                        assert(coord_is(self.snake@[k as int], c, r));
                    } else {
                        assert(c * 5 + r != t.col * 5 + t.row);
                        assert(snapshot.at(c, r) == pre.at(c, r));
                        assert(forall|j: int|
                            1 <= j < k + 1 && coord_is(#[trigger] self.snake@[j], c, r) ==> j < k);
                    }
                }
            }
            k = k + 1;
        }
        let ghost pre = snapshot;
        snapshot.set(self.food.col as usize, self.food.row as usize, CellState::Food);
        proof {
            assert forall|c: int, r: int|
                0 <= c < GRID_SIDE && 0 <= r < GRID_SIDE implies snapshot.at(c, r)
                == board_cell_spec(*self, c, r) by {
                if !(c == self.food.col && r == self.food.row) {
                    assert(c * 5 + r != self.food.col * 5 + self.food.row);
                    assert(snapshot.at(c, r) == pre.at(c, r));
                }
            }
        }
        snapshot
    }

    /// Put a segment at the head: the cell leaves the free set; the segment
    /// joins the body unless the body already fills its buffer, which means
    /// the board is won.
    pub fn snake_add_head(&mut self, coordinate: Coordinate) -> (r: Result<MoveResult, SnakeError>)
        requires
            old(self).base_wf(),
            coord_wf(coordinate),
            cell_set_contents(old(self).no_snake).contains(cell_index_spec(coordinate)),
        ensures
            final(self).wf(),
            cell_set_contents(final(self).no_snake) == cell_set_contents(old(self).no_snake).remove(
                cell_index_spec(coordinate),
            ),
            old(self).snake@.len() < 24 ==> (r matches Ok(m) && m == MoveResult::Trivial) && final(self).snake@ == old(self).snake@.push(coordinate),
            old(self).snake@.len() == 24 ==> (r matches Ok(m) && m == MoveResult::Win) && final(self).snake@ == old(self).snake@,
            final(self).direction == old(self).direction,
            final(self).food == old(self).food,
            final(self).rnd == old(self).rnd,
    {
        proof {
            vstd::set::axiom_set_remove_len(
                cell_set_contents(old(self).no_snake),
                cell_index_spec(coordinate),
            );
        }
        let _ = cell_set_remove(&mut self.no_snake, coordinate.row * 5 + coordinate.col);
        match self.snake.put(coordinate) {
            Ok(_) => Ok(MoveResult::Trivial),
            Err(_) => Ok(MoveResult::Win),
        }
    }

    /// Drop the oldest segment: it leaves the body and its cell returns to
    /// the free set.
    pub fn snake_cut_tail(&mut self) -> (r: Result<MoveResult, SnakeError>)
        requires
            old(self).wf(),
            old(self).snake@.len() >= 2,
        ensures
            final(self).wf(),
            r matches Ok(m) && m == MoveResult::Trivial,
            final(self).snake@ == old(self).snake@.drop_first(),
            cell_set_contents(final(self).no_snake) == cell_set_contents(old(self).no_snake).insert(
                cell_index_spec(old(self).snake@[0]),
            ),
            final(self).direction == old(self).direction,
            final(self).food == old(self).food,
            final(self).rnd == old(self).rnd,
    {
        let tail = match self.snake.get() {
            Ok(t) => t,
            Err(_) => {
                return Err(SnakeError::Fatal);
            },
        };
        proof {
            vstd::set::axiom_set_insert_len(
                cell_set_contents(self.no_snake),
                cell_index_spec(tail),
            );
        }
        let _ = cell_set_insert(&mut self.no_snake, tail.row * 5 + tail.col);
        Ok(MoveResult::Trivial)
    }
}

/// The board picture once the first `k` body segments are drawn: the food
/// not yet placed, segments 1 to `k - 1` dim, segment 0 bright.
pub open spec fn partial_cell_spec(g: Game, k: int, col: int, row: int) -> CellState {
    if exists|j: int| 1 <= j < k && coord_is(#[trigger] g.snake@[j], col, row) {
        CellState::SnakeTail
    } else if g.snake@.len() > 0 && coord_is(g.snake@[0], col, row) {
        CellState::SnakeHead
    } else {
        CellState::Empty
    }
}

/// The finished board picture: the food on its cell, body segments after
/// the first dim, the first body segment bright, all else empty.
pub open spec fn board_cell_spec(g: Game, col: int, row: int) -> CellState {
    if coord_is(g.food, col, row) {
        CellState::Food
    } else if exists|j: int| 1 <= j < g.snake@.len() && coord_is(#[trigger] g.snake@[j], col, row) {
        CellState::SnakeTail
    } else if g.snake@.len() > 0 && coord_is(g.snake@[0], col, row) {
        CellState::SnakeHead
    } else {
        CellState::Empty
    }
}

} // verus!
