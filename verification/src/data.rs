//! Grid value types: positions on the board, movement directions, and the
//! four-state game lifecycle.

use vstd::prelude::*;

verus! {

use crate::SIZE;

/// One cell of the grid. `x` is the row, `y` is the column; both count from
/// the top-left corner. Equality is coordinate equality.
#[derive(Debug, Clone, Copy, PartialEq, Eq, Structural)]
pub struct Position {
    pub x: i32,
    pub y: i32,
}

/// A position lies on the board: both coordinates in `[0, SIZE)`.
pub open spec fn in_bounds(p: Position) -> bool {
    0 <= p.x < SIZE && 0 <= p.y < SIZE
}

impl Position {
    /// Exec test for `in_bounds`.
    pub fn is_in_bounds(&self) -> (r: bool)
        ensures
            r == in_bounds(*self),
    {
        0 <= self.x && self.x < SIZE && 0 <= self.y && self.y < SIZE
    }
}

/// The pixel offset at which a grid coordinate is rendered.
pub fn to_px(coord: i32) -> (r: i32)
    requires
        0 <= coord <= SIZE,
    ensures
        r == coord * crate::BLOCK_SIZE,
{
    coord * crate::BLOCK_SIZE
}

/// Movement direction of the snake. Once play has started there is always a
/// direction; there is no idle variant.
#[derive(Debug, Clone, Copy, PartialEq, Eq, Structural)]
pub enum Direction {
    Up,
    Down,
    Left,
    Right,
}

/// Row offset of one step in direction `d`.
pub open spec fn row_delta(d: Direction) -> int {
    match d {
        Direction::Up => -1,
        Direction::Down => 1,
        Direction::Left => 0,
        Direction::Right => 0,
    }
}

/// Column offset of one step in direction `d`.
pub open spec fn col_delta(d: Direction) -> int {
    match d {
        Direction::Up => 0,
        Direction::Down => 0,
        Direction::Left => -1,
        Direction::Right => 1,
    }
}

/// The cell reached from `p` by one step in direction `d`.
pub open spec fn step_from(p: Position, d: Direction) -> Position {
    Position { x: (p.x + row_delta(d)) as i32, y: (p.y + col_delta(d)) as i32 }
}

/// Lifecycle of one game. Exactly one state is active at a time; the tick
/// timer runs if and only if the state is `Play`.
#[derive(Debug, Clone, Copy, PartialEq, Eq, Structural)]
pub enum GameState {
    Play,
    Loose,
    Pause,
    Start,
}

/// The CSS class the renderer attaches to the board in each state.
pub open spec fn class_spec(s: GameState) -> Seq<char> {
    match s {
        GameState::Play => ""@,
        GameState::Loose => "loose"@,
        GameState::Pause => "pause"@,
        GameState::Start => "start"@,
    }
}

impl GameState {
    /// The CSS class that marks this state on the rendered board.
    pub fn class(&self) -> (r: &'static str)
        ensures
            r@ == class_spec(*self),
    {
        match self {
            GameState::Play => "",
            GameState::Loose => "loose",
            GameState::Pause => "pause",
            GameState::Start => "start",
        }
    }
}

} // verus!
