//! The whole-snake form of one tick: the snake as one vector of points, head
//! first, stepped and returned together with the new fruit and the two event
//! flags. The presentation layer serializes these values across its boundary;
//! this module does the computing on plain values, through the same verified
//! step as the engine.

use vstd::prelude::*;

verus! {

use crate::SIZE;
use crate::data::Direction;
use crate::data::GameState;
use crate::data::Position;
use crate::game::Game;
use crate::game::GameModel;
use crate::game::fruit_free;
use crate::game::step_eats;
use crate::game::step_spec;
use crate::tail::Tail;

/// One grid cell, as the whole-snake interface speaks of it. `x` is the row,
/// `y` the column; equality is coordinate equality.
#[derive(Debug, Clone, Copy, PartialEq, Eq, Structural)]
pub struct Point {
    pub x: i32,
    pub y: i32,
}

/// The cell a point denotes.
pub open spec fn pos_of_point(p: Point) -> Position {
    Position { x: p.x, y: p.y }
}

/// A sequence of points, as the cells they denote.
pub open spec fn positions_of(s: Seq<Point>) -> Seq<Position> {
    s.map_values(|p: Point| pos_of_point(p))
}

impl Point {
    pub fn new(x: i32, y: i32) -> (p: Point)
        ensures
            p == (Point { x, y }),
    {
        Point { x, y }
    }

    /// The point moved by the given row and column offsets.
    pub fn translate(&self, x: i32, y: i32) -> (p: Point)
        requires
            i32::MIN <= self.x + x <= i32::MAX,
            i32::MIN <= self.y + y <= i32::MAX,
        ensures
            p.x == self.x + x,
            p.y == self.y + y,
    {
        Point { x: self.x + x, y: self.y + y }
    }
}

/// What one whole-snake tick hands back: the stepped snake (head first), the
/// fruit in force afterwards, and whether the step lost the game or ate the
/// fruit.
#[derive(Debug, Clone)]
pub struct Update {
    pub snake: Vec<Point>,
    pub fruit: Point,
    pub failed: bool,
    pub got_fruit: bool,
}

impl Update {
    pub fn new(snake: Vec<Point>, fruit: Point, failed: bool, got_fruit: bool) -> (u: Update)
        ensures
            u.snake == snake,
            u.fruit == fruit,
            u.failed == failed,
            u.got_fruit == got_fruit,
    {
        Update { snake, fruit, failed, got_fruit }
    }
}

/// The engine state a whole-snake call denotes: the first point is the head,
/// the rest are the body segments in order, and the game is mid-play.
pub open spec fn model_of(snake: Seq<Point>, fruit: Point, direction: Direction) -> GameModel {
    GameModel {
        head: pos_of_point(snake[0]),
        segments: positions_of(snake.subrange(1, snake.len() as int)),
        direction,
        state: GameState::Play,
        fruit: pos_of_point(fruit),
    }
}

/// One tick on the whole-snake representation: step the snake one cell in
/// `direction`, report a loss (snake and fruit untouched) on leaving the
/// board or biting a segment, and on eating the fruit grow by one segment
/// and respawn the fruit on the first supplied candidate cell the snake does
/// not occupy.
#[allow(unused_variables)]
pub fn update(
    snake: Vec<Point>,
    fruit: Point,
    size: i32,
    direction: Direction,
    candidates: &Vec<Point>,
) -> (u: Update)
    requires
        size == SIZE,
        snake@.len() >= 1,
        model_of(snake@, fruit, direction).wf(),
    ensures
        u.failed == (step_spec(model_of(snake@, fruit, direction)).state == GameState::Loose),
        u.got_fruit == step_eats(model_of(snake@, fruit, direction)),
        u.failed ==> u.snake@ == snake@ && u.fruit == fruit,
        !u.failed ==> positions_of(u.snake@) == seq![
            step_spec(model_of(snake@, fruit, direction)).head,
        ] + step_spec(model_of(snake@, fruit, direction)).segments,
        !u.got_fruit ==> u.fruit == fruit,
        u.got_fruit ==> {
            let stepped = step_spec(model_of(snake@, fruit, direction));
            let cpos = positions_of(candidates@);
            if exists|i: int| 0 <= i < cpos.len() && fruit_free(stepped, cpos[i]) {
                exists|i: int|
                    0 <= i < cpos.len() && fruit_free(stepped, cpos[i]) && (forall|j: int|
                        0 <= j < i ==> !fruit_free(stepped, cpos[j])) && pos_of_point(u.fruit)
                        == cpos[i]
            } else {
                u.fruit == fruit
            }
        },
{
    let ghost model = model_of(snake@, fruit, direction);
    let head = Position { x: snake[0].x, y: snake[0].y };
    let mut tail = Tail::new();
    let n = snake.len();
    for i in 1..n
        invariant
            n == snake@.len(),
            tail@ =~= positions_of(snake@.subrange(1, i as int)),
    {
        tail.push(Position { x: snake[i].x, y: snake[i].y });
        proof {
            assert(snake@.subrange(1, (i + 1) as int).drop_last() =~= snake@.subrange(1, i as int));
            assert(tail@ =~= positions_of(snake@.subrange(1, (i + 1) as int)));
        }
    }
    let mut cpos: Vec<Position> = Vec::new();
    let m = candidates.len();
    for i in 0..m
        invariant
            m == candidates@.len(),
            cpos@ =~= positions_of(candidates@.subrange(0, i as int)),
    {
        cpos.push(Position { x: candidates[i].x, y: candidates[i].y });
        proof {
            assert(candidates@.subrange(0, (i + 1) as int).drop_last() =~= candidates@.subrange(0, i as int));
            assert(cpos@ =~= positions_of(candidates@.subrange(0, (i + 1) as int)));
        }
    }
    proof {
        assert(snake@.subrange(1, n as int) =~= snake@.subrange(1, snake@.len() as int));
        assert(candidates@.subrange(0, m as int) =~= candidates@);
        assert(cpos@ =~= positions_of(candidates@));
    }
    let mut g = Game { head, tail, direction, state: GameState::Play, fruit: Position {
        x: fruit.x,
        y: fruit.y,
    } };
    proof {
        assert(g@ =~= model);
    }
    let report = g.tick(&cpos);
    let failed = match g.state {
        GameState::Loose => true,
        GameState::Play => false,
        GameState::Pause => false,
        GameState::Start => false,
    };
    let mut out: Vec<Point> = Vec::new();
    out.push(Point { x: g.head.x, y: g.head.y });
    let items = g.tail.get();
    let k = items.len();
    for i in 0..k
        invariant
            k == items@.len(),
            k == g.tail@.len(),
            forall|j: int| 0 <= j < k ==> items@[j] == (j as usize, g.tail@[j]),
            out@.len() == i + 1,
            out@[0] == (Point { x: g.head.x, y: g.head.y }),
            forall|j: int| 1 <= j < out@.len() ==> pos_of_point(out@[j]) == g.tail@[j - 1],
    {
        let (_, p) = items[i];
        out.push(Point { x: p.x, y: p.y });
    }
    proof {
        assert(positions_of(out@) =~= seq![g@.head] + g@.segments);
        if failed {
            assert(g@ == step_spec(model));
            assert(g@.head == model.head && g@.segments =~= model.segments);
            assert forall|j: int| 0 <= j < out@.len() implies out@[j] == snake@[j] by {
                if j == 0 {
                    assert(pos_of_point(out@[0]) == model.head);
                    assert(model.head == pos_of_point(snake@[0]));
                } else {
                    assert(pos_of_point(out@[j]) == (seq![g@.head] + g@.segments)[j]);
                    assert(g@.segments[j - 1] == positions_of(
                        snake@.subrange(1, snake@.len() as int),
                    )[j - 1]);
                    assert(pos_of_point(out@[j]) == pos_of_point(snake@[j]));
                }
            }
            assert(out@ =~= snake@);
        }
    }
    let new_fruit = Point { x: g.fruit.x, y: g.fruit.y };
    Update { snake: out, fruit: new_fruit, failed, got_fruit: report.got_fruit }
}

} // verus!
