//! Core of a grid Snake game: the discrete movement and collision model, the
//! snake body with its follow-the-leader shift, fruit placement by rejection
//! sampling, the Start/Play/Pause/Lose state machine with its keyboard-driven
//! transitions, and an integer interpolation (tween) engine that animates
//! discrete cell jumps into smooth pixel motion.

use vstd::prelude::*;

mod data;
mod game;
mod tail;
mod tween;
mod update;
mod util;

pub use data::Direction;
pub use data::GameState;
pub use data::Position;
pub use data::to_px;
pub use game::Game;
pub use game::parse_movement_key;
pub use game::reconcile_timer;
pub use game::timer_should_run;
pub use game::TimerAction;
pub use game::GameModel;
pub use game::TickReport;
pub use tail::Tail;
pub use tween::Tween;
pub use tween::Tweened;
pub use tween::TWEEN_LIMIT;
pub use update::Point;
pub use update::Update;
pub use update::update;
pub use util::get_tick_length;
pub use util::str_eq;

verus! {

/// Side length of the square board, in grid cells.
pub const SIZE: i32 = 20;

/// Side length of one rendered grid cell, in pixels.
pub const BLOCK_SIZE: i32 = 25;

} // verus!
