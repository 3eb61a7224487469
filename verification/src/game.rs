//! The game state machine: one tick at a time.

use vstd::prelude::*;

use crate::coord::Coord;
use crate::coord::Direction;
use crate::rng;

verus! {

/// Base tick interval in microseconds (0.15 s between ticks at the start).
pub const BASE_INTERVAL_MICROS: u64 = 150_000;

/// Numerator of the deceleration factor applied to the tick interval on every
/// fruit eaten: the interval becomes 85/100 of what it was, so the game gets
/// faster.
pub const DECEL_NUM: u64 = 85;

/// Denominator of the deceleration factor.
pub const DECEL_DEN: u64 = 100;

/// While the boost key is held, the effective tick interval is divided by
/// this factor.
pub const BOOST_DIVISOR: u64 = 3;

/// Whether the game is running or lost.
#[derive(Clone, Copy, PartialEq, Eq, Structural, Debug)]
pub enum GameState {
    Playing,
    GameOver,
}

/// What the host observed since the last frame: which of the logical keys are
/// held down.
#[derive(Clone, Copy, PartialEq, Eq, Structural, Debug)]
pub struct FrameInput {
    pub up: bool,
    pub down: bool,
    pub left: bool,
    pub right: bool,
    pub boost: bool,
    pub restart: bool,
}

/// The whole mutable state of one game.
///
/// `body` is ordered: the front (index 0) is the cell the head vacated most
/// recently, the back is the tail. The fruit always lies within the grid;
/// nothing keeps it off the snake itself — a freshly placed fruit may land on
/// the body or even on the head, exactly as the game has always behaved.
pub struct Game {
    pub head: Coord,
    pub dir: Direction,
    pub body: Vec<Coord>,
    pub fruit: Coord,
    /// Current tick interval in microseconds; smaller is faster.
    pub speed_micros: u64,
    pub state: GameState,
    pub grid_width: i16,
    pub grid_height: i16,
}

/// The direction after one key is considered: a held key turns the snake
/// unless it asks for the exact opposite of the way it is already going.
pub open spec fn dir_after_key(cur: Direction, pressed: bool, requested: Direction) -> Direction {
    if pressed && requested != cur.spec_opposite() {
        requested
    } else {
        cur
    }
}

/// The direction after all four keys are considered in the fixed order
/// Up, Down, Left, Right; a later key is applied against the direction the
/// earlier keys already produced, so the last applicable key wins.
pub open spec fn dir_after_keys(
    cur: Direction,
    up: bool,
    down: bool,
    left: bool,
    right: bool,
) -> Direction {
    dir_after_key(
        dir_after_key(
            dir_after_key(dir_after_key(cur, up, Direction::Up), down, Direction::Down),
            left,
            Direction::Left,
        ),
        right,
        Direction::Right,
    )
}

impl Game {
    /// The fruit lies on the grid.
    pub open spec fn fruit_in_grid(self) -> bool {
        &&& 0 <= self.fruit.x < self.grid_width
        &&& 0 <= self.fruit.y < self.grid_height
    }

    /// Well-formedness: the grid has at least one cell, the interval never
    /// exceeds the base interval, the fruit is on the grid, and while the
    /// game is running the head is never on the body.
    pub open spec fn wf(self) -> bool {
        &&& self.grid_width >= 1
        &&& self.grid_height >= 1
        &&& self.speed_micros <= BASE_INTERVAL_MICROS
        &&& self.fruit_in_grid()
        &&& (self.state == GameState::Playing ==> !self.body@.contains(self.head))
    }

    /// The body after one tick: the old head becomes the front segment, and
    /// unless the snake ate, the tail is dropped, so the length only grows on
    /// a fruit.
    pub open spec fn body_after_tick(old_head: Coord, old_body: Seq<Coord>, ate: bool) -> Seq<
        Coord,
    > {
        if ate {
            old_body.insert(0, old_head)
        } else {
            old_body.insert(0, old_head).drop_last()
        }
    }

    /// Everything one tick changes, except the direction (a tick never turns
    /// the snake). The new fruit after eating is random, so only its bounds
    /// are stated.
    pub open spec fn tick_rel(pre: Game, post: Game) -> bool {
        let new_head = pre.head.stepped(pre.dir);
        let ate = new_head == pre.fruit;
        let new_body = Game::body_after_tick(pre.head, pre.body@, ate);
        &&& post.head == new_head
        &&& post.body@ == new_body
        &&& post.grid_width == pre.grid_width
        &&& post.grid_height == pre.grid_height
        &&& post.speed_micros == if ate {
            pre.speed_micros * DECEL_NUM / (DECEL_DEN as int)
        } else {
            pre.speed_micros as int
        }
        &&& if ate {
            post.fruit_in_grid()
        } else {
            post.fruit == pre.fruit
        }
        &&& post.state == if new_body.contains(new_head) {
            GameState::GameOver
        } else {
            GameState::Playing
        }
    }

    /// Everything a restart changes: the snake is back at the origin heading
    /// right with an empty body, the interval is back at the base, a fresh
    /// fruit lies somewhere on the unchanged grid, and the game runs again.
    pub open spec fn restart_rel(pre: Game, post: Game) -> bool {
        &&& post.head == (Coord { x: 0, y: 0 })
        &&& post.dir == Direction::Right
        &&& post.body@ == Seq::<Coord>::empty()
        &&& post.fruit_in_grid()
        &&& post.speed_micros == BASE_INTERVAL_MICROS
        &&& post.state == GameState::Playing
        &&& post.grid_width == pre.grid_width
        &&& post.grid_height == pre.grid_height
    }

    /// The effective tick interval for this frame: boosting divides the
    /// interval by `BOOST_DIVISOR`.
    pub open spec fn spec_effective_interval(self, boost: bool) -> int {
        if boost {
            self.speed_micros as int / BOOST_DIVISOR as int
        } else {
            self.speed_micros as int
        }
    }

    /// Builds a fresh game on a `grid_width` by `grid_height` grid with the
    /// fruit at a caller-chosen cell: head at the origin, heading right, no
    /// body yet, base interval.
    pub fn with_fruit(grid_width: i16, grid_height: i16, fruit: Coord) -> (g: Game)
        requires
            grid_width >= 1,
            grid_height >= 1,
            0 <= fruit.x < grid_width,
            0 <= fruit.y < grid_height,
        ensures
            g.wf(),
            g.head == (Coord { x: 0, y: 0 }),
            g.dir == Direction::Right,
            g.body@ == Seq::<Coord>::empty(),
            g.fruit == fruit,
            g.speed_micros == BASE_INTERVAL_MICROS,
            g.state == GameState::Playing,
            g.grid_width == grid_width,
            g.grid_height == grid_height,
    {
        Game {
            head: Coord { x: 0, y: 0 },
            dir: Direction::Right,
            body: Vec::new(),
            fruit,
            speed_micros: BASE_INTERVAL_MICROS,
            state: GameState::Playing,
            grid_width,
            grid_height,
        }
    }

    /// Builds a fresh game with the fruit drawn uniformly from the grid,
    /// after reseeding the random generator with `seed`.
    pub fn new(grid_width: i16, grid_height: i16, seed: u64) -> (g: Game)
        requires
            grid_width >= 1,
            grid_height >= 1,
        ensures
            g.wf(),
            g.head == (Coord { x: 0, y: 0 }),
            g.dir == Direction::Right,
            g.body@ == Seq::<Coord>::empty(),
            g.fruit_in_grid(),
            g.speed_micros == BASE_INTERVAL_MICROS,
            g.state == GameState::Playing,
            g.grid_width == grid_width,
            g.grid_height == grid_height,
    {
        rng::seed_random(seed);
        let fx = rng::random_in_range(0, grid_width);
        let fy = rng::random_in_range(0, grid_height);
        Game::with_fruit(grid_width, grid_height, Coord { x: fx, y: fy })
    }

    /// One simulation step: the head advances one cell along the current
    /// direction; the vacated cell becomes the front of the body; on a fruit
    /// the body keeps its tail (net growth of one) and a new fruit is drawn,
    /// otherwise the tail is dropped (net length unchanged); if the new head
    /// lands on the body, the game is over.
    ///
    /// The interval is multiplied by 85/100 on every fruit, so it strictly
    /// shrinks as long as it was positive.
    pub fn tick(&mut self)
        requires
            old(self).wf(),
            old(self).state == GameState::Playing,
            old(self).head.can_step(old(self).dir),
            old(self).body@.len() + 1 < usize::MAX,
        ensures
            final(self).wf(),
            Game::tick_rel(*old(self), *final(self)),
            final(self).dir == old(self).dir,
            old(self).head.stepped(old(self).dir) != old(self).fruit
                ==> final(self).body@.len() == old(self).body@.len(),
            old(self).head.stepped(old(self).dir) == old(self).fruit
                ==> final(self).body@.len() == old(self).body@.len() + 1,
            old(self).head.stepped(old(self).dir) == old(self).fruit && old(self).speed_micros > 0
                ==> final(self).speed_micros < old(self).speed_micros,
            final(self).state == GameState::GameOver <==> final(self).body@.contains(
                final(self).head),
    {
        let old_head = self.head;
        self.body.insert(0, old_head);
        self.head = old_head.step(self.dir);
        if self.head == self.fruit {
            let fx = rng::random_in_range(0, self.grid_width);
            let fy = rng::random_in_range(0, self.grid_height);
            self.fruit = Coord { x: fx, y: fy };
            self.speed_micros = self.speed_micros * DECEL_NUM / DECEL_DEN;
        } else {
            let last = self.body.len() - 1;
            self.body.remove(last);
        }
        if contains_coord(&self.body, self.head) {
            self.state = GameState::GameOver;
        }
    }

    /// Turns the snake toward `requested`, unless that is the exact opposite
    /// of the way it is going — the one turn that is refused, since it would
    /// drive the head straight into the first body segment. Nothing else
    /// changes.
    pub fn try_set_direction(&mut self, requested: Direction)
        ensures
            final(self).dir == dir_after_key(old(self).dir, true, requested),
            final(self).head == old(self).head,
            final(self).body == old(self).body,
            final(self).fruit == old(self).fruit,
            final(self).speed_micros == old(self).speed_micros,
            final(self).state == old(self).state,
            final(self).grid_width == old(self).grid_width,
            final(self).grid_height == old(self).grid_height,
    {
        if requested != self.dir.opposite() {
            self.dir = requested;
        }
    }

    /// Applies the four direction keys in the fixed order Up, Down, Left,
    /// Right, each against the direction the earlier keys already produced.
    /// Nothing else changes.
    pub fn apply_direction_keys(&mut self, up: bool, down: bool, left: bool, right: bool)
        ensures
            final(self).dir == dir_after_keys(old(self).dir, up, down, left, right),
            final(self).head == old(self).head,
            final(self).body == old(self).body,
            final(self).fruit == old(self).fruit,
            final(self).speed_micros == old(self).speed_micros,
            final(self).state == old(self).state,
            final(self).grid_width == old(self).grid_width,
            final(self).grid_height == old(self).grid_height,
    {
        if up {
            self.try_set_direction(Direction::Up);
        }
        if down {
            self.try_set_direction(Direction::Down);
        }
        if left {
            self.try_set_direction(Direction::Left);
        }
        if right {
            self.try_set_direction(Direction::Right);
        }
    }

    /// Starts the game over after a loss: snake at the origin heading right
    /// with an empty body, base interval, a fresh random fruit, running
    /// again. The grid is kept.
    pub fn restart(&mut self, seed: u64)
        requires
            old(self).wf(),
            old(self).state == GameState::GameOver,
        ensures
            final(self).wf(),
            Game::restart_rel(*old(self), *final(self)),
    {
        rng::seed_random(seed);
        self.head = Coord { x: 0, y: 0 };
        self.dir = Direction::Right;
        self.body.clear();
        let fx = rng::random_in_range(0, self.grid_width);
        let fy = rng::random_in_range(0, self.grid_height);
        self.fruit = Coord { x: fx, y: fy };
        self.speed_micros = BASE_INTERVAL_MICROS;
        self.state = GameState::Playing;
    }

    /// The score: every body segment plus the head counts one.
    pub fn score(&self) -> (r: usize)
        requires
            self.body@.len() < usize::MAX,
        ensures
            r == self.body@.len() + 1,
    {
        self.body.len() + 1
    }

    /// The effective tick interval for this frame, in microseconds.
    pub fn effective_interval_micros(&self, boost: bool) -> (r: u64)
        ensures
            r == self.spec_effective_interval(boost),
    {
        if boost {
            self.speed_micros / BOOST_DIVISOR
        } else {
            self.speed_micros
        }
    }

    /// Whether enough time has passed since the last tick for the next one:
    /// strictly more than the effective interval.
    pub fn should_tick(&self, elapsed_micros: u64, boost: bool) -> (r: bool)
        ensures
            r == (elapsed_micros > self.spec_effective_interval(boost)),
    {
        elapsed_micros > self.effective_interval_micros(boost)
    }

    /// One rendered frame's worth of decisions.
    ///
    /// Lost: a held restart key starts the game over, otherwise nothing
    /// happens. Running: a tick fires exactly when `elapsed_micros` exceeds
    /// the effective interval, and then — unless that tick lost the game —
    /// the four direction keys are applied. Returns whether a tick fired, so
    /// the host knows to reset its tick timer.
    pub fn frame(&mut self, input: FrameInput, elapsed_micros: u64, seed: u64) -> (ticked: bool)
        requires
            old(self).wf(),
            old(self).state == GameState::Playing && elapsed_micros > old(self)
                .spec_effective_interval(input.boost) ==> old(self).head.can_step(old(self).dir)
                && old(self).body@.len() + 1 < usize::MAX,
        ensures
            final(self).wf(),
            old(self).state == GameState::GameOver ==> !ticked && if input.restart {
                Game::restart_rel(*old(self), *final(self))
            } else {
                *final(self) == *old(self)
            },
            old(self).state == GameState::Playing ==> {
                let t = elapsed_micros > old(self).spec_effective_interval(input.boost);
                &&& ticked == t
                &&& if t {
                    &&& Game::tick_rel(*old(self), *final(self))
                    &&& final(self).dir == if final(self).state == GameState::Playing {
                        dir_after_keys(old(self).dir, input.up, input.down, input.left, input.right)
                    } else {
                        old(self).dir
                    }
                } else {
                    &&& final(self).dir == dir_after_keys(
                        old(self).dir,
                        input.up,
                        input.down,
                        input.left,
                        input.right,
                    )
                    &&& final(self).head == old(self).head
                    &&& final(self).body@ == old(self).body@
                    &&& final(self).fruit == old(self).fruit
                    &&& final(self).speed_micros == old(self).speed_micros
                    &&& final(self).state == GameState::Playing
                    &&& final(self).grid_width == old(self).grid_width
                    &&& final(self).grid_height == old(self).grid_height
                }
            },
    {
        match self.state {
            GameState::GameOver => {
                if input.restart {
                    self.restart(seed);
                }
                false
            },
            GameState::Playing => {
                let t = self.should_tick(elapsed_micros, input.boost);
                if t {
                    self.tick();
                }
                if self.state == GameState::Playing {
                    self.apply_direction_keys(input.up, input.down, input.left, input.right);
                }
                t
            },
        }
    }
}

/// Whether `c` occurs anywhere in `v`.
fn contains_coord(v: &Vec<Coord>, c: Coord) -> (r: bool)
    ensures
        r == v@.contains(c),
{
    let mut i: usize = 0;
    while i < v.len()
        invariant
            0 <= i <= v@.len(),
            forall|k: int| 0 <= k < i ==> v@[k] != c,
        decreases v@.len() - i,
    {
        if v[i] == c {
            return true;
        }
        i = i + 1;
    }
    false
}

} // verus!
