//! Cells of the 5x5 LED matrix, moves on it, and the wrap-around at its edges.
use vstd::prelude::*;

verus! {

/// Whether a (row, column) pair lies on the 5x5 matrix.
pub open spec fn in_grid(row: int, col: int) -> bool {
    0 <= row < 5 && 0 <= col < 5
}

/// The remainder as Rust's `%` computes it on signed integers (it takes the
/// sign of the dividend).
pub open spec fn trunc_rem(a: int, b: int) -> int {
    if a >= 0 {
        a % b
    } else {
        -((-a) % b)
    }
}

/// A cell of the matrix, possibly one step outside it.
#[derive(Clone, Copy, Debug, PartialEq, Eq, Hash, Structural)]
pub struct Position {
    pub row: i8,
    pub col: i8,
}

/// The direction in which the snake moves.
#[derive(Clone, Copy, Debug, PartialEq, Eq, Structural)]
pub enum MoveDirection {
    Up,
    Down,
    Left,
    Right,
}

/// A turn requested by a button.
#[derive(Clone, Copy, Debug, PartialEq, Eq, Structural)]
pub enum TurnDirection {
    Left,
    Right,
}

/// The direction after a turn.
pub open spec fn turned(d: MoveDirection, t: TurnDirection) -> MoveDirection {
    match t {
        TurnDirection::Left => match d {
            MoveDirection::Up => MoveDirection::Left,
            MoveDirection::Left => MoveDirection::Down,
            MoveDirection::Down => MoveDirection::Right,
            MoveDirection::Right => MoveDirection::Up,
        },
        TurnDirection::Right => match d {
            MoveDirection::Up => MoveDirection::Right,
            MoveDirection::Right => MoveDirection::Down,
            MoveDirection::Down => MoveDirection::Left,
            MoveDirection::Left => MoveDirection::Up,
        },
    }
}

impl MoveDirection {
    /// The direction after turning by `turn_direction`.
    pub fn turn(&self, turn_direction: &TurnDirection) -> (r: MoveDirection)
        ensures
            r == turned(*self, *turn_direction),
    {
        match turn_direction {
            TurnDirection::Left => match self {
                MoveDirection::Up => MoveDirection::Left,
                MoveDirection::Left => MoveDirection::Down,
                MoveDirection::Down => MoveDirection::Right,
                MoveDirection::Right => MoveDirection::Up,
            },
            TurnDirection::Right => match self {
                MoveDirection::Up => MoveDirection::Right,
                MoveDirection::Right => MoveDirection::Down,
                MoveDirection::Down => MoveDirection::Left,
                MoveDirection::Left => MoveDirection::Up,
            },
        }
    }
}

impl TurnDirection {
    /// The turn that a pair of button events asks for: button A alone turns
    /// left, button B alone turns right, anything else asks for no turn.
    pub fn from_buttons(button_a: bool, button_b: bool) -> (r: Option<TurnDirection>)
        ensures
            r == (if button_a && !button_b {
                Some(TurnDirection::Left)
            } else if !button_a && button_b {
                Some(TurnDirection::Right)
            } else {
                None::<TurnDirection>
            }),
    {
        match (button_a, button_b) {
            (true, false) => Some(TurnDirection::Left),
            (false, true) => Some(TurnDirection::Right),
            _ => None,
        }
    }
}

impl Position {
    /// The position as the pair of integers that the snake's collections hold.
    pub open spec fn cell(self) -> (i8, i8) {
        (self.row, self.col)
    }

    /// Whether the position lies off the matrix.
    pub open spec fn off_grid(self) -> bool {
        !in_grid(self.row as int, self.col as int)
    }

    /// The position after `wrap_bounds`.
    pub open spec fn wrapped(self) -> Position {
        if self.off_grid() {
            Position {
                row: trunc_rem(self.row + 5, 5) as i8,
                col: trunc_rem(self.col + 5, 5) as i8,
            }
        } else {
            self
        }
    }

    /// The position one step away in direction `d` (before any wrap).
    pub open spec fn stepped(self, d: MoveDirection) -> Position {
        match d {
            MoveDirection::Up => Position { row: (self.row - 1) as i8, col: self.col },
            MoveDirection::Down => Position { row: (self.row + 1) as i8, col: self.col },
            MoveDirection::Left => Position { row: self.row, col: (self.col - 1) as i8 },
            MoveDirection::Right => Position { row: self.row, col: (self.col + 1) as i8 },
        }
    }

    /// Whether the position lies off the matrix.
    pub fn is_out_of_bounds(&self) -> (r: bool)
        ensures
            r == self.off_grid(),
    {
        self.row < 0 || self.row > 4 || self.col < 0 || self.col > 4
    }

    /// Brings a position that lies off the matrix back onto it, entering at
    /// the opposite edge. A position on the matrix is left as it is.
    pub fn wrap_bounds(&mut self)
        requires
            old(self).off_grid() ==> old(self).row + 5 <= i8::MAX && old(self).col + 5 <= i8::MAX,
        ensures
            *final(self) == old(self).wrapped(),
    {
        if self.is_out_of_bounds() {
            let wrapped_position = Position { row: (self.row + 5) % 5, col: (self.col + 5) % 5 };
            self.row = wrapped_position.row;
            self.col = wrapped_position.col;
        }
    }

    /// The position one step away from `self` in direction `d`, wrapped onto
    /// the matrix.
    pub fn next_in(&self, d: MoveDirection) -> (r: Position)
        requires
            in_grid(self.row as int, self.col as int),
        ensures
            r == self.stepped(d).wrapped(),
            in_grid(r.row as int, r.col as int),
    {
        let mut p = match d {
            MoveDirection::Up => Position { row: self.row - 1, col: self.col },
            MoveDirection::Down => Position { row: self.row + 1, col: self.col },
            MoveDirection::Left => Position { row: self.row, col: self.col - 1 },
            MoveDirection::Right => Position { row: self.row, col: self.col + 1 },
        };
        p.wrap_bounds();
        p
    }
}

/// Turning left undoes turning right, and turning right undoes turning left.
pub proof fn lemma_turns_cancel(d: MoveDirection)
    ensures
        turned(turned(d, TurnDirection::Left), TurnDirection::Right) == d,
        turned(turned(d, TurnDirection::Right), TurnDirection::Left) == d,
{
}

/// Four turns the same way bring the snake back to its direction; three
/// turns one way equal one turn the other way.
pub proof fn lemma_four_turns(d: MoveDirection, t: TurnDirection)
    ensures
        turned(turned(turned(turned(d, t), t), t), t) == d,
        turned(turned(turned(d, TurnDirection::Left), TurnDirection::Left), TurnDirection::Left)
            == turned(d, TurnDirection::Right),
{
}

/// Every turn changes the direction.
pub proof fn lemma_turn_changes_direction(d: MoveDirection, t: TurnDirection)
    ensures
        turned(d, t) != d,
{
}

/// Wrapping brings every position that lies at most one matrix width off
/// the matrix back onto it, and leaves positions on the matrix unchanged.
pub proof fn lemma_wrap_lands_on_grid(p: Position)
    requires
        -5 <= p.row <= 122,
        -5 <= p.col <= 122,
    ensures
        in_grid(p.wrapped().row as int, p.wrapped().col as int),
        !p.off_grid() ==> p.wrapped() == p,
{
}

/// A step from a cell of the matrix, wrapped, lands on a neighbouring cell
/// of the torus: one row or one column away, counted modulo 5.
pub proof fn lemma_step_is_torus_neighbour(p: Position, d: MoveDirection)
    requires
        in_grid(p.row as int, p.col as int),
    ensures
        ({
            let q = p.stepped(d).wrapped();
            match d {
                MoveDirection::Up => q.row == (p.row + 4) % 5 && q.col == p.col,
                MoveDirection::Down => q.row == (p.row + 1) % 5 && q.col == p.col,
                MoveDirection::Left => q.row == p.row && q.col == (p.col + 4) % 5,
                MoveDirection::Right => q.row == p.row && q.col == (p.col + 1) % 5,
            }
        }),
{
}

} // verus!
