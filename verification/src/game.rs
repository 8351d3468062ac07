//! The game engine: one owned state cell per concern — head, body,
//! direction, lifecycle state and fruit — a pure simulation step per tick,
//! fruit placement by rejection sampling over supplied candidate cells, the
//! keyboard-driven state machine, and the scheduler rule that ties the tick
//! timer to the `Play` state.

use vstd::prelude::*;

verus! {

use crate::data::Direction;
use crate::data::GameState;
use crate::data::Position;
use crate::data::in_bounds;
use crate::data::step_from;
use crate::tail::Tail;
use crate::tail::shifted;
use crate::util::str_eq;

/// The full discrete state of one game, as the contracts speak of it.
#[verifier::ext_equal]
pub struct GameModel {
    pub head: Position,
    pub segments: Seq<Position>,
    pub direction: Direction,
    pub state: GameState,
    pub fruit: Position,
}

impl GameModel {
    /// A cell is occupied by the snake when the head or some segment holds it.
    pub open spec fn occupies(self, p: Position) -> bool {
        p == self.head || self.segments.contains(p)
    }

    /// Well-formedness of a game: head, fruit and every segment lie on the
    /// board, and outside the `Loose` state the head never coincides with a
    /// segment (such a coincidence is precisely what forces `Loose`).
    pub open spec fn wf(self) -> bool {
        &&& in_bounds(self.head)
        &&& in_bounds(self.fruit)
        &&& (forall|i: int| 0 <= i < self.segments.len() ==> in_bounds(self.segments[i]))
        &&& (self.state != GameState::Loose ==> !self.segments.contains(self.head))
    }
}

/// One simulation step, before any fruit respawn. The next head cell is one
/// step in the current direction; leaving the board or hitting a segment
/// (checked against the segments as they stand before the shift) forces
/// `Loose` and leaves the snake and fruit untouched. Otherwise the body
/// shifts follow-the-leader; if the new head reaches the fruit, the vacated
/// previous-tail cell stays occupied, so the body grows by one segment.
pub open spec fn step_spec(g: GameModel) -> GameModel {
    let nh = step_from(g.head, g.direction);
    if !in_bounds(nh) || g.segments.contains(nh) {
        GameModel {
            head: g.head,
            segments: g.segments,
            direction: g.direction,
            state: GameState::Loose,
            fruit: g.fruit,
        }
    } else if nh == g.fruit {
        GameModel {
            head: nh,
            segments: seq![g.head] + g.segments,
            direction: g.direction,
            state: g.state,
            fruit: g.fruit,
        }
    } else {
        GameModel {
            head: nh,
            segments: shifted(g.segments, g.head),
            direction: g.direction,
            state: g.state,
            fruit: g.fruit,
        }
    }
}

/// Whether one step from `g` moves the head onto the fruit (which is only
/// possible when the move itself succeeds).
pub open spec fn step_eats(g: GameModel) -> bool {
    let nh = step_from(g.head, g.direction);
    in_bounds(nh) && !g.segments.contains(nh) && nh == g.fruit
}

/// A candidate cell may become the fruit when it lies on the board and no
/// part of the snake occupies it.
pub open spec fn fruit_free(g: GameModel, c: Position) -> bool {
    in_bounds(c) && !g.occupies(c)
}

/// Step determinism: the simulation step is a pure function of the game's
/// discrete state, so equal states step to equal states and eat alike.
pub proof fn lemma_step_deterministic(a: GameModel, b: GameModel)
    requires
        a == b,
    ensures
        step_spec(a) == step_spec(b),
        step_eats(a) == step_eats(b),
{
}

/// Growth law: a step that eats the fruit lengthens the body by exactly one
/// segment; a successful step that does not eat keeps the segment count; a
/// step that loses leaves the body untouched.
pub proof fn lemma_growth(g: GameModel)
    ensures
        step_eats(g) ==> step_spec(g).segments.len() == g.segments.len() + 1,
        !step_eats(g) && step_spec(g).state == g.state ==> step_spec(g).segments.len()
            == g.segments.len(),
        step_spec(g).state == GameState::Loose && g.state != GameState::Loose ==> step_spec(
            g,
        ).segments == g.segments,
{
}

/// The movement intent of a key, if it has one: `w`/`a`/`s`/`d` and the
/// arrow keys (already folded to lower case by the input boundary) map to
/// the four directions; every other key carries no movement intent.
pub open spec fn dir_of_key(k: Seq<char>) -> Option<Direction> {
    if k == "w"@ || k == "arrowup"@ {
        Some(Direction::Up)
    } else if k == "a"@ || k == "arrowleft"@ {
        Some(Direction::Left)
    } else if k == "s"@ || k == "arrowdown"@ {
        Some(Direction::Down)
    } else if k == "d"@ || k == "arrowright"@ {
        Some(Direction::Right)
    } else {
        None
    }
}

/// The input-driven transition table. A movement key during `Play` only
/// turns the snake (a reversal onto the neck is legal here and resolves via
/// the collision check on the next tick); during `Start` it both starts play
/// and commits the first direction. Space pauses, resumes, and resets a lost
/// game to the start screen with the head back at the origin and the body
/// cleared. Every other (state, key) pair is ignored.
pub open spec fn key_spec(g: GameModel, k: Seq<char>) -> GameModel {
    match g.state {
        GameState::Play => match dir_of_key(k) {
            Some(d) => GameModel { direction: d, ..g },
            None => if k == " "@ {
                GameModel { state: GameState::Pause, ..g }
            } else {
                g
            },
        },
        GameState::Start => match dir_of_key(k) {
            Some(d) => GameModel { state: GameState::Play, direction: d, ..g },
            None => g,
        },
        GameState::Pause => if k == " "@ {
            GameModel { state: GameState::Play, ..g }
        } else {
            g
        },
        GameState::Loose => if k == " "@ {
            GameModel {
                head: Position { x: 0, y: 0 },
                segments: Seq::empty(),
                state: GameState::Start,
                ..g
            }
        } else {
            g
        },
    }
}

/// What one tick reports back to the scheduler and the fruit spawner.
#[derive(Debug, Clone, Copy, PartialEq, Eq, Structural)]
pub struct TickReport {
    /// The head reached the fruit this tick.
    pub got_fruit: bool,
    /// A respawned fruit was placed from the supplied candidates.
    pub fruit_placed: bool,
}

/// One running game. The fields are the single-owner mutable cells of the
/// design: they are updated only from the input handler (`key_down`) and the
/// tick handler (`tick`), never concurrently.
pub struct Game {
    pub head: Position,
    pub tail: Tail,
    pub direction: Direction,
    pub state: GameState,
    pub fruit: Position,
}

impl View for Game {
    type V = GameModel;

    open spec fn view(&self) -> GameModel {
        GameModel {
            head: self.head,
            segments: self.tail@,
            direction: self.direction,
            state: self.state,
            fruit: self.fruit,
        }
    }
}

impl Game {
    /// A fresh game: head at the origin, no body, moving down once play
    /// starts, waiting on the start screen. The fruit still sits on the head
    /// and must be placed before play (`spawn_fruit`).
    pub fn new() -> (g: Game)
        ensures
            g@.head == (Position { x: 0, y: 0 }),
            g@.segments == Seq::<Position>::empty(),
            g@.direction == Direction::Down,
            g@.state == GameState::Start,
            g@.fruit == (Position { x: 0, y: 0 }),
            g@.wf(),
    {
        Game {
            head: Position { x: 0, y: 0 },
            tail: Tail::new(),
            direction: Direction::Down,
            state: GameState::Start,
            fruit: Position { x: 0, y: 0 },
        }
    }

    /// One simulation step without the fruit respawn: exactly `step_spec`.
    /// The new state is a function of the old state alone, so two games with
    /// equal states step to equal states.
    pub fn tick_move(&mut self) -> (got: bool)
        requires
            old(self)@.wf(),
            old(self).state == GameState::Play,
        ensures
            final(self)@ == step_spec(old(self)@),
            got == step_eats(old(self)@),
            final(self)@.wf(),
            final(self).state != GameState::Loose ==> in_bounds(final(self).head),
            final(self).state != GameState::Loose ==> !final(self).tail@.contains(final(self).head),
    {
        let h = self.head;
        let nh = match self.direction {
            Direction::Up => Position { x: h.x - 1, y: h.y },
            Direction::Down => Position { x: h.x + 1, y: h.y },
            Direction::Left => Position { x: h.x, y: h.y - 1 },
            Direction::Right => Position { x: h.x, y: h.y + 1 },
        };
        proof {
            assert(nh == step_from(h, self.direction));
            assert(nh != h);
        }
        if !nh.is_in_bounds() || self.tail.contains(nh) {
            self.state = GameState::Loose;
            proof {
                assert(self@ =~= step_spec(old(self)@));
            }
            return false;
        }
        let got = nh == self.fruit;
        if got {
            self.tail.grow_front(h);
        } else {
            self.tail.update(h);
        }
        self.head = nh;
        proof {
            assert(self@ =~= step_spec(old(self)@));
            let segs = old(self)@.segments;
            let segs2 = self@.segments;
            assert forall|i: int| 0 <= i < segs2.len() implies in_bounds(segs2[i]) by {
                if i == 0 {
                    assert(segs2[0] == h);
                } else {
                    assert(segs2[i] == segs[i - 1]);
                }
            }
            assert forall|i: int| 0 <= i < segs2.len() implies segs2[i] != nh by {
                if i == 0 {
                    assert(segs2[0] == h);
                } else {
                    assert(segs2[i] == segs[i - 1]);
                    assert(!segs.contains(nh));
                }
            }
            assert(!segs2.contains(nh));
        }
        got
    }

    /// One fruit-placement trial of the rejection sampler: accept `candidate`
    /// exactly when it lies on the board and no part of the snake holds it;
    /// a rejected candidate changes nothing.
    pub fn place_fruit(&mut self, candidate: Position) -> (ok: bool)
        ensures
            ok == fruit_free(old(self)@, candidate),
            ok ==> final(self)@ == (GameModel { fruit: candidate, ..old(self)@ }),
            !ok ==> final(self)@ == old(self)@,
            ok ==> final(self).fruit != final(self).head
                && !final(self).tail@.contains(final(self).fruit),
    {
        if candidate.is_in_bounds() && !(candidate == self.head) && !self.tail.contains(candidate) {
            self.fruit = candidate;
            proof {
                assert(self@ =~= (GameModel { fruit: candidate, ..old(self)@ }));
            }
            true
        } else {
            proof {
                assert(self@ =~= old(self)@);
            }
            false
        }
    }

    /// Rejection sampling over a supplied stream of uniformly drawn candidate
    /// cells: the first free candidate becomes the fruit. Returns the index
    /// of the accepted candidate, or `None` (game unchanged) when every
    /// candidate collides with the snake.
    pub fn spawn_fruit(&mut self, candidates: &Vec<Position>) -> (r: Option<usize>)
        ensures
            match r {
                Some(i) => 0 <= i < candidates@.len() && fruit_free(old(self)@, candidates@[i as int])
                    && (forall|j: int|
                    0 <= j < i ==> !fruit_free(old(self)@, candidates@[j]))
                    && final(self)@ == (GameModel { fruit: candidates@[i as int], ..old(self)@ })
                    && final(self).fruit != final(self).head
                    && !final(self).tail@.contains(final(self).fruit),
                None => final(self)@ == old(self)@ && (forall|j: int|
                    0 <= j < candidates@.len() ==> !fruit_free(old(self)@, candidates@[j])),
            },
    {
        let n = candidates.len();
        for i in 0..n
            invariant
                n == candidates@.len(),
                self@ == old(self)@,
                forall|j: int| 0 <= j < i ==> !fruit_free(old(self)@, candidates@[j]),
        {
            if self.place_fruit(candidates[i]) {
                return Some(i);
            }
        }
        None
    }

    /// One full tick as the scheduler fires it: the simulation step, then,
    /// exactly when the fruit was eaten, one respawn from the candidate
    /// stream.
    pub fn tick(&mut self, candidates: &Vec<Position>) -> (r: TickReport)
        requires
            old(self)@.wf(),
            old(self).state == GameState::Play,
        ensures
            r.got_fruit == step_eats(old(self)@),
            final(self)@.wf(),
            !r.got_fruit ==> final(self)@ == step_spec(old(self)@) && !r.fruit_placed,
            r.got_fruit && r.fruit_placed ==> exists|i: int|
                0 <= i < candidates@.len() && fruit_free(step_spec(old(self)@), candidates@[i]) && (
                forall|j: int| 0 <= j < i ==> !fruit_free(step_spec(old(self)@), candidates@[j]))
                    && final(self)@ == (GameModel {
                    fruit: candidates@[i],
                    ..step_spec(old(self)@)
                }),
            r.got_fruit && !r.fruit_placed ==> final(self)@ == step_spec(old(self)@)
                && (forall|j: int|
                    0 <= j < candidates@.len() ==> !fruit_free(step_spec(old(self)@), candidates@[j])),
            r.fruit_placed ==> final(self).fruit != final(self).head
                && !final(self).tail@.contains(final(self).fruit),
            final(self).state != GameState::Loose ==> in_bounds(final(self).head)
                && !final(self).tail@.contains(final(self).head),
    {
        let got = self.tick_move();
        if got {
            let placed = self.spawn_fruit(candidates);
            match placed {
                Some(_) => TickReport { got_fruit: true, fruit_placed: true },
                None => TickReport { got_fruit: true, fruit_placed: false },
            }
        } else {
            TickReport { got_fruit: false, fruit_placed: false }
        }
    }

    /// Route one key press: exactly the transition table `key_spec`. Returns
    /// whether the press reset a lost game, in which case the fruit must be
    /// respawned (`spawn_fruit`) before play resumes.
    pub fn key_down(&mut self, key: &str) -> (needs_fruit: bool)
        requires
            old(self)@.wf(),
        ensures
            final(self)@ == key_spec(old(self)@, key@),
            needs_fruit == (old(self).state == GameState::Loose && key@ == " "@),
            final(self)@.wf(),
    {
        let dir = parse_movement_key(key);
        let space = str_eq(key, " ");
        match self.state {
            GameState::Play => {
                if let Some(d) = dir {
                    self.direction = d;
                } else if space {
                    self.state = GameState::Pause;
                }
                false
            },
            GameState::Start => {
                if let Some(d) = dir {
                    self.state = GameState::Play;
                    self.direction = d;
                }
                false
            },
            GameState::Pause => {
                if space {
                    self.state = GameState::Play;
                }
                false
            },
            GameState::Loose => {
                if space {
                    self.state = GameState::Start;
                    self.head = Position { x: 0, y: 0 };
                    self.tail.clear();
                    true
                } else {
                    false
                }
            },
        }
    }
}

/// The movement intent of one (lower-case) key name, as `dir_of_key` gives
/// it.
pub fn parse_movement_key(key: &str) -> (r: Option<Direction>)
    ensures
        r == dir_of_key(key@),
{
    if str_eq(key, "w") || str_eq(key, "arrowup") {
        Some(Direction::Up)
    } else if str_eq(key, "a") || str_eq(key, "arrowleft") {
        Some(Direction::Left)
    } else if str_eq(key, "s") || str_eq(key, "arrowdown") {
        Some(Direction::Down)
    } else if str_eq(key, "d") || str_eq(key, "arrowright") {
        Some(Direction::Right)
    } else {
        None
    }
}

/// What the scheduler must do to its repeating tick timer after a state
/// change.
#[derive(Debug, Clone, Copy, PartialEq, Eq, Structural)]
pub enum TimerAction {
    /// Register the repeating tick timer.
    Begin,
    /// Cancel the repeating tick timer.
    Stop,
    /// Leave the timer as it is.
    Keep,
}

/// The scheduler rule: the tick timer must run exactly while the game is in
/// `Play`.
pub open spec fn reconcile_spec(running: bool, state: GameState) -> TimerAction {
    if state == GameState::Play && !running {
        TimerAction::Begin
    } else if state != GameState::Play && running {
        TimerAction::Stop
    } else {
        TimerAction::Keep
    }
}

/// The timer state an action leaves behind.
pub open spec fn apply_timer(running: bool, a: TimerAction) -> bool {
    match a {
        TimerAction::Begin => true,
        TimerAction::Stop => false,
        TimerAction::Keep => running,
    }
}

/// Whether the tick timer belongs in existence for this state.
pub fn timer_should_run(state: GameState) -> (r: bool)
    ensures
        r == (state == GameState::Play),
{
    match state {
        GameState::Play => true,
        GameState::Loose => false,
        GameState::Pause => false,
        GameState::Start => false,
    }
}

/// Decide what the scheduler does to its timer after observing `state`,
/// given whether a timer is currently registered.
pub fn reconcile_timer(running: bool, state: GameState) -> (a: TimerAction)
    ensures
        a == reconcile_spec(running, state),
{
    let should = timer_should_run(state);
    if should && !running {
        TimerAction::Begin
    } else if !should && running {
        TimerAction::Stop
    } else {
        TimerAction::Keep
    }
}

/// Timer-lifecycle law: reconciling restores "the timer runs iff the state
/// is `Play`", never registers a second timer, and never cancels a timer
/// that does not exist.
pub proof fn lemma_timer_reconcile(running: bool, state: GameState)
    ensures
        apply_timer(running, reconcile_spec(running, state)) == (state == GameState::Play),
        reconcile_spec(running, state) == TimerAction::Begin ==> !running,
        reconcile_spec(running, state) == TimerAction::Stop ==> running,
{
}

} // verus!
