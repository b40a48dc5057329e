use std::collections::VecDeque;
use vstd::prelude::*;

use crate::chance::{random_range, random_ratio};
use crate::grid::{in_bounds, in_interior, opposite, step_spec, Cell, Direction, GRID_SIZE};

verus! {

/// Points for a piece of food.
pub const FOOD_POINTS: u32 = 10;

/// Points for a piece of food while a double-points power-up lies on the board.
pub const DOUBLE_FOOD_POINTS: u32 = 20;

/// How long a power-up lasts once it has appeared, in milliseconds.
pub const POWER_UP_MS: u64 = 10000;

/// Value of the eating animation right after a meal; it runs down three units per
/// elapsed millisecond.
pub const EATING_FULL: u64 = 1000;

/// Largest score from which a tick can still add the largest award.
pub const MAX_SCORE: u32 = 4294967275;

/// Random draws for a free food cell before the board is searched in order.
pub const FOOD_TRIES: u32 = 64;

/// Tick interval in microseconds at a speed of one (1000 thousandths).
pub const BASE_TICK_US: u64 = 150000;

/// The kinds of power-up. `NoEffect` still takes a board cell and the power-up slot.
#[derive(Clone, Copy, PartialEq, Eq, Debug, Structural)]
pub enum PowerUp {
    Speed,
    Slow,
    DoublePoints,
    Invincible,
    NoEffect,
}

/// A power-up lying on the board.
#[derive(Clone, Copy, PartialEq, Eq, Debug, Structural)]
pub struct PowerUpSpot {
    pub kind: PowerUp,
    pub cell: Cell,
}

/// The whole state of one game. Times are in milliseconds; the speed multiplier is
/// kept in thousandths (1100 stands for 1.1).
pub struct SnakeGame {
    /// Occupied cells, head first.
    pub snake: VecDeque<Cell>,
    pub direction: Direction,
    pub next_direction: Direction,
    pub food: Cell,
    pub score: u32,
    pub high_score: u32,
    pub level: u32,
    pub game_over: bool,
    pub paused: bool,
    pub power_up: Option<PowerUpSpot>,
    pub power_up_timer_ms: u64,
    pub speed_milli: u64,
    pub invincibility: bool,
    pub eating_animation: u64,
}

/// Mathematical picture of a `SnakeGame`.
pub ghost struct GameModel {
    pub snake: Seq<Cell>,
    pub direction: Direction,
    pub next_direction: Direction,
    pub food: Cell,
    pub score: nat,
    pub high_score: nat,
    pub level: nat,
    pub game_over: bool,
    pub paused: bool,
    pub power_up: Option<PowerUpSpot>,
    pub power_up_timer: nat,
    pub speed: nat,
    pub invincibility: bool,
    pub eating: nat,
}

impl View for SnakeGame {
    type V = GameModel;

    open spec fn view(&self) -> GameModel {
        GameModel {
            snake: self.snake@,
            direction: self.direction,
            next_direction: self.next_direction,
            food: self.food,
            score: self.score as nat,
            high_score: self.high_score as nat,
            level: self.level as nat,
            game_over: self.game_over,
            paused: self.paused,
            power_up: self.power_up,
            power_up_timer: self.power_up_timer_ms as nat,
            speed: self.speed_milli as nat,
            invincibility: self.invincibility,
            eating: self.eating_animation as nat,
        }
    }
}

pub open spec fn level_for(score: nat) -> nat {
    score / 100 + 1
}

/// Speed multiplier of a level, in thousandths: `1 + level / 10`.
pub open spec fn base_speed(level: nat) -> nat {
    1000 + 100 * level
}

pub open spec fn kind_of(roll: nat) -> PowerUp {
    if roll == 0 {
        PowerUp::Speed
    } else if roll == 1 {
        PowerUp::Slow
    } else if roll == 2 {
        PowerUp::DoublePoints
    } else if roll == 3 {
        PowerUp::Invincible
    } else {
        PowerUp::NoEffect
    }
}

/// The three cells a game starts with: a horizontal strip in the middle, facing right.
pub open spec fn start_snake() -> Seq<Cell> {
    seq![
        Cell { x: 15, y: 15 },
        Cell { x: 14, y: 15 },
        Cell { x: 13, y: 15 },
    ]
}

impl GameModel {
    pub open spec fn food_points(self) -> nat {
        match self.power_up {
            Some(spot) => if spot.kind == PowerUp::DoublePoints {
                DOUBLE_FOOD_POINTS as nat
            } else {
                FOOD_POINTS as nat
            },
            None => FOOD_POINTS as nat,
        }
    }

    pub open spec fn on_power_up(self, c: Cell) -> bool {
        match self.power_up {
            Some(spot) => spot.cell == c,
            None => false,
        }
    }

    /// `c` could take the food: on the board, off the snake and off the power-up.
    pub open spec fn is_free(self, c: Cell) -> bool {
        in_bounds(c) && !self.snake.contains(c) && !self.on_power_up(c)
    }

    /// No cell of the board is free.
    pub open spec fn board_full(self) -> bool {
        forall|c: Cell| in_bounds(c) ==> #[trigger] self.snake.contains(c) || self.on_power_up(c)
    }

    /// What holds between ticks, but for where the food lies.
    pub open spec fn core_wf(self) -> bool {
        &&& self.snake.len() >= 1
        &&& forall|i: int| 0 <= i < self.snake.len() ==> in_bounds(#[trigger] self.snake[i])
        &&& in_bounds(self.food)
        &&& match self.power_up {
            Some(spot) => in_interior(spot.cell) && !self.snake.contains(spot.cell) && spot.cell
                != self.food,
            None => true,
        }
        &&& self.next_direction != opposite(self.direction)
        &&& self.level == level_for(self.score)
        &&& self.score <= u32::MAX
        &&& self.power_up is Some ==> self.speed == base_speed(self.level)
        &&& base_speed(self.level) * 7 / 10 <= self.speed <= base_speed(self.level) * 3 / 2
    }

    /// What holds between ticks: the food lies off the snake, unless the game ended
    /// with no free cell left for it.
    pub open spec fn wf(self) -> bool {
        &&& self.core_wf()
        &&& !self.snake.contains(self.food) || (self.game_over && self.board_full())
    }

    /// Commit the pending heading and run the power-up timer and the eating animation
    /// down by `elapsed`. When the power-up timer runs out, the power-up leaves the
    /// board and the speed and invincibility return to those of the level.
    pub open spec fn after_timers(self, elapsed: nat) -> GameModel {
        let m1 = GameModel { direction: self.next_direction, ..self };
        let m2 = if m1.power_up_timer == 0 {
            m1
        } else if elapsed >= m1.power_up_timer {
            GameModel {
                power_up_timer: 0,
                power_up: None,
                speed: base_speed(m1.level),
                invincibility: false,
                ..m1
            }
        } else {
            GameModel { power_up_timer: (m1.power_up_timer - elapsed) as nat, ..m1 }
        };
        let eating = if 3 * elapsed >= m2.eating {
            0
        } else {
            (m2.eating - 3 * elapsed) as nat
        };
        GameModel { eating, ..m2 }
    }

    /// The head reaches `c`: a power-up lying there takes effect and leaves the board.
    pub open spec fn consume_at(self, c: Cell) -> GameModel {
        match self.power_up {
            Some(spot) => if spot.cell == c {
                let m = GameModel { power_up: None, ..self };
                match spot.kind {
                    PowerUp::Speed => GameModel { speed: self.speed * 3 / 2, ..m },
                    PowerUp::Slow => GameModel { speed: self.speed * 7 / 10, ..m },
                    PowerUp::Invincible => GameModel { invincibility: true, ..m },
                    _ => m,
                }
            } else {
                self
            },
            None => self,
        }
    }

    /// Where the head goes on this tick, after the timers have run.
    pub open spec fn target(self, elapsed: nat) -> Cell {
        let t = self.after_timers(elapsed);
        step_spec(t.snake[0], t.direction)
    }

    /// The head runs into the snake's own body.
    pub open spec fn collides(self, elapsed: nat) -> bool {
        let t = self.after_timers(elapsed);
        let nh = self.target(elapsed);
        nh != t.snake[0] && !t.invincibility && t.snake.contains(nh)
    }

    /// The tick moves the head onto the food.
    pub open spec fn eats(self, elapsed: nat) -> bool {
        let t = self.after_timers(elapsed);
        let nh = self.target(elapsed);
        &&& !self.game_over
        &&& !self.paused
        &&& nh != t.snake[0]
        &&& !self.collides(elapsed)
        &&& nh == t.food
    }

    /// One tick, up to where the food and a new power-up are placed. A stopped game
    /// does not change. Against a wall the head stays and nothing moves. A head that
    /// runs into the body ends the game and leaves the snake as it was. Otherwise the
    /// head moves; on food the snake grows and the score, level and speed follow,
    /// elsewhere the tail follows.
    pub open spec fn advanced(self, elapsed: nat) -> GameModel {
        if self.game_over || self.paused {
            self
        } else {
            let t = self.after_timers(elapsed);
            let nh = self.target(elapsed);
            if nh == t.snake[0] {
                t
            } else if self.collides(elapsed) {
                GameModel { game_over: true, ..t }
            } else if nh == t.food {
                let score = t.score + t.food_points();
                GameModel {
                    snake: seq![nh] + t.snake,
                    score,
                    level: level_for(score),
                    speed: base_speed(level_for(score)),
                    eating: EATING_FULL as nat,
                    ..t
                }.consume_at(nh)
            } else {
                GameModel { snake: seq![nh] + t.snake.drop_last(), ..t }.consume_at(nh)
            }
        }
    }

    /// A game as it starts: the start strip facing right, nothing scored, nothing on
    /// the board but the food on a free cell, and `high_score` carried over.
    pub open spec fn is_fresh(self, high_score: nat) -> bool {
        &&& self.snake == start_snake()
        &&& self.direction == Direction::Right
        &&& self.next_direction == Direction::Right
        &&& self.is_free(self.food)
        &&& self.score == 0
        &&& self.high_score == high_score
        &&& self.level == 1
        &&& !self.game_over
        &&& !self.paused
        &&& self.power_up is None
        &&& self.power_up_timer == 0
        &&& self.speed == base_speed(1)
        &&& !self.invincibility
        &&& self.eating == 0
    }

    /// `after` is what one `update` of `elapsed` milliseconds may leave from `before`.
    pub open spec fn update_outcome(before: GameModel, after: GameModel, elapsed: nat) -> bool {
        if before.eats(elapsed) {
            GameModel::refilled(before.advanced(elapsed), after)
        } else {
            after == before.advanced(elapsed)
        }
    }

    /// What a tick may leave after `advanced` gave `a`, once the eaten food has been
    /// replaced: all but the food, the game-over flag and the power-up stay; the food
    /// lies on a free cell, or, with no free cell left, the game is over; a power-up
    /// lying on the board stays, and where there was none one may appear with a full
    /// timer.
    pub open spec fn refilled(a: GameModel, r: GameModel) -> bool {
        &&& r == GameModel {
            food: r.food,
            game_over: r.game_over,
            power_up: r.power_up,
            power_up_timer: r.power_up_timer,
            ..a
        }
        &&& (!r.game_over && a.is_free(r.food)) || (r.game_over && a.board_full() && r.food == a.food)
        &&& (r.power_up == a.power_up && r.power_up_timer == a.power_up_timer) || (a.power_up is None
            && r.power_up_timer == POWER_UP_MS && match r.power_up {
            Some(spot) => in_interior(spot.cell) && !a.snake.contains(spot.cell) && spot.cell
                != r.food,
            None => false,
        })
    }
}

pub(crate) proof fn lemma_contains_front(s: Seq<Cell>, h: Cell, c: Cell)
    ensures
        (seq![h] + s).contains(c) <==> (c == h || s.contains(c)),
{
    let t = seq![h] + s;
    if t.contains(c) {
        let i = choose|i: int| 0 <= i < t.len() && t[i] == c;
        if i > 0 {
            assert(s[i - 1] == c);
        }
    }
    if c == h {
        assert(t[0] == c);
    }
    if s.contains(c) {
        let i = choose|i: int| 0 <= i < s.len() && s[i] == c;
        assert(t[i + 1] == c);
    }
}

pub(crate) proof fn lemma_contains_drop_last(s: Seq<Cell>, c: Cell)
    requires
        s.len() >= 1,
    ensures
        s.drop_last().contains(c) ==> s.contains(c),
{
    if s.drop_last().contains(c) {
        let i = choose|i: int| 0 <= i < s.drop_last().len() && s.drop_last()[i] == c;
        assert(s[i] == c);
    }
}

/// Whether `c` is one of the snake's cells.
pub fn snake_contains(snake: &VecDeque<Cell>, c: Cell) -> (r: bool)
    ensures
        r == snake@.contains(c),
{
    let mut i: usize = 0;
    while i < snake.len()
        invariant
            0 <= i <= snake@.len(),
            forall|j: int| 0 <= j < i ==> snake@[j] != c,
        decreases snake@.len() - i,
    {
        if snake[i] == c {
            assert(snake@[i as int] == c);
            return true;
        }
        i += 1;
    }
    false
}

/// Speed multiplier of a level, in thousandths.
pub fn level_speed(level: u32) -> (r: u64)
    ensures
        r == base_speed(level as nat),
{
    1000 + 100 * (level as u64)
}

impl SnakeGame {
    /// What every method keeps true between ticks; see `GameModel::wf`.
    pub open spec fn wf(&self) -> bool {
        self@.wf()
    }

    fn start(high_score: u32) -> (g: SnakeGame)
        ensures
            g@.is_fresh(high_score as nat),
            g.wf(),
    {
        let mut snake = VecDeque::new();
        snake.push_back(Cell { x: GRID_SIZE / 2, y: GRID_SIZE / 2 });
        snake.push_back(Cell { x: GRID_SIZE / 2 - 1, y: GRID_SIZE / 2 });
        snake.push_back(Cell { x: GRID_SIZE / 2 - 2, y: GRID_SIZE / 2 });
        let mut g = SnakeGame {
            snake,
            direction: Direction::Right,
            next_direction: Direction::Right,
            food: Cell { x: 0, y: 0 },
            score: 0,
            high_score,
            level: 1,
            game_over: false,
            paused: false,
            power_up: None,
            power_up_timer_ms: 0,
            speed_milli: level_speed(1),
            invincibility: false,
            eating_animation: 0,
        };
        proof {
            assert(g@.snake =~= start_snake());
            let corner = Cell { x: 0, y: 0 };
            if g@.snake.contains(corner) {
                let i = choose|i: int| 0 <= i < g@.snake.len() && g@.snake[i] == corner;
                assert(false);
            }
            assert(!g@.board_full()) by {
                assert(in_bounds(corner));
            }
            assert forall|i: int| 0 <= i < g@.snake.len() implies in_bounds(
                #[trigger] g@.snake[i],
            ) by {}
        }
        g.respawn_food();
        g
    }

    /// A new game.
    pub fn new() -> (g: SnakeGame)
        ensures
            g@.is_fresh(0),
            g.wf(),
    {
        SnakeGame::start(0)
    }

    /// Starts over: the high score takes the score if that is higher, and everything
    /// else returns to how a game starts.
    pub fn reset(&mut self)
        ensures
            final(self)@.is_fresh(
                if old(self).score > old(self).high_score {
                    old(self).score as nat
                } else {
                    old(self).high_score as nat
                },
            ),
            final(self).wf(),
    {
        let high = if self.score > self.high_score {
            self.score
        } else {
            self.high_score
        };
        *self = SnakeGame::start(high);
    }

    /// Takes `d` as the heading for the next tick, unless it points back against the
    /// current heading; then the pending heading stays as it was.
    pub fn set_next_direction(&mut self, d: Direction)
        ensures
            final(self)@ == (GameModel {
                next_direction: if d != opposite(old(self).direction) {
                    d
                } else {
                    old(self).next_direction
                },
                ..old(self)@
            }),
            old(self).wf() ==> final(self).wf(),
    {
        if d != self.direction.reverse() {
            self.next_direction = d;
        }
    }

    /// Pauses a running game or resumes a paused one; an ended game stays as it is.
    pub fn toggle_pause(&mut self)
        ensures
            final(self)@ == (GameModel {
                paused: if old(self).game_over {
                    old(self).paused
                } else {
                    !old(self).paused
                },
                ..old(self)@
            }),
            old(self).wf() ==> final(self).wf(),
    {
        if !self.game_over {
            self.paused = !self.paused;
        }
    }

    /// The pause key: starts over after the game has ended, else pauses or resumes.
    pub fn pause_or_restart(&mut self)
        requires
            old(self).wf(),
        ensures
            final(self).wf(),
            old(self).game_over ==> final(self)@.is_fresh(
                if old(self).score > old(self).high_score {
                    old(self).score as nat
                } else {
                    old(self).high_score as nat
                },
            ),
            !old(self).game_over ==> final(self)@ == (GameModel {
                paused: !old(self).paused,
                ..old(self)@
            }),
    {
        if self.game_over {
            self.reset();
        } else {
            self.toggle_pause();
        }
    }

    /// Time between two ticks at the current speed, in microseconds.
    pub fn tick_interval_us(&self) -> (r: u64)
        requires
            self.wf(),
        ensures
            r as int == (BASE_TICK_US * 1000) as int / self.speed_milli as int,
    {
        BASE_TICK_US * 1000 / self.speed_milli
    }

    fn tick_timers(&mut self, elapsed_ms: u32)
        requires
            old(self)@.core_wf(),
        ensures
            final(self)@ == old(self)@.after_timers(elapsed_ms as nat),
            final(self)@.core_wf(),
    {
        self.direction = self.next_direction;
        if self.power_up_timer_ms > 0 {
            if elapsed_ms as u64 >= self.power_up_timer_ms {
                self.power_up_timer_ms = 0;
                self.power_up = None;
                self.speed_milli = level_speed(self.level);
                self.invincibility = false;
            } else {
                self.power_up_timer_ms = self.power_up_timer_ms - elapsed_ms as u64;
            }
        }
        let run_down = 3 * (elapsed_ms as u64);
        if run_down >= self.eating_animation {
            self.eating_animation = 0;
        } else {
            self.eating_animation = self.eating_animation - run_down;
        }
    }

    /// The head has reached `c`: a power-up lying there takes effect and leaves the board.
    fn consume_power_up(&mut self, c: Cell)
        requires
            old(self).speed_milli <= 10000000000,
        ensures
            final(self)@ == old(self)@.consume_at(c),
    {
        if let Some(spot) = self.power_up {
            if spot.cell == c {
                match spot.kind {
                    PowerUp::Speed => {
                        self.speed_milli = self.speed_milli * 3 / 2;
                    },
                    PowerUp::Slow => {
                        self.speed_milli = self.speed_milli * 7 / 10;
                    },
                    PowerUp::Invincible => {
                        self.invincibility = true;
                    },
                    _ => {},
                }
                self.power_up = None;
            }
        }
    }

    /// One tick up to, but not including, placing new food and a new power-up.
    /// Returns whether the snake ate; then the food still lies under the head.
    pub fn advance(&mut self, elapsed_ms: u32) -> (ate: bool)
        requires
            old(self).wf(),
            old(self).score <= MAX_SCORE,
        ensures
            final(self)@ == old(self)@.advanced(elapsed_ms as nat),
            ate == old(self)@.eats(elapsed_ms as nat),
            final(self)@.core_wf(),
            !ate ==> final(self).wf(),
    {
        if self.game_over || self.paused {
            return false;
        }
        self.tick_timers(elapsed_ms);
        let head = self.snake[0];
        let nh = head.step(self.direction);
        if nh == head {
            return false;
        }
        if !self.invincibility && snake_contains(&self.snake, nh) {
            self.game_over = true;
            return false;
        }
        let ghost t = self@;
        self.snake.push_front(nh);
        proof {
            assert forall|c: Cell| #[trigger] self@.snake.contains(c) <==> (c == nh
                || t.snake.contains(c)) by {
                lemma_contains_front(t.snake, nh, c);
            }
        }
        let ate = nh == self.food;
        if ate {
            let points = match self.power_up {
                Some(spot) => if spot.kind == PowerUp::DoublePoints {
                    DOUBLE_FOOD_POINTS
                } else {
                    FOOD_POINTS
                },
                None => FOOD_POINTS,
            };
            self.score = self.score + points;
            self.eating_animation = EATING_FULL;
            self.level = self.score / 100 + 1;
            self.speed_milli = level_speed(self.level);
        } else {
            let ghost grown = self@.snake;
            self.snake.pop_back();
            proof {
                assert(self@.snake == grown.drop_last());
                assert(grown.drop_last() =~= seq![nh] + t.snake.drop_last());
                assert forall|c: Cell| #[trigger] self@.snake.contains(c) implies grown.contains(c) by {
                    lemma_contains_drop_last(grown, c);
                }
            }
        }
        self.consume_power_up(nh);
        proof {
            assert forall|i: int| 0 <= i < self@.snake.len() implies in_bounds(
                #[trigger] self@.snake[i],
            ) by {
                if i > 0 {
                    assert(self@.snake[i] == t.snake[i - 1]);
                }
            }
        }
        ate
    }

    /// Whether a power-up lies on `c`.
    pub fn power_up_at(&self, c: Cell) -> (r: bool)
        ensures
            r == self@.on_power_up(c),
    {
        match self.power_up {
            Some(spot) => spot.cell == c,
            None => false,
        }
    }

    /// Puts the food on `c` if that cell is free; returns whether it did.
    pub fn place_food(&mut self, c: Cell) -> (placed: bool)
        ensures
            placed == old(self)@.is_free(c),
            placed ==> final(self)@ == (GameModel { food: c, ..old(self)@ }),
            !placed ==> final(self)@ == old(self)@,
    {
        let free = c.x < GRID_SIZE && c.y < GRID_SIZE && !snake_contains(&self.snake, c)
            && !self.power_up_at(c);
        if free {
            self.food = c;
        }
        free
    }

    /// The first free cell, column by column, or `None` when the board is full.
    pub fn first_free_cell(&self) -> (r: Option<Cell>)
        ensures
            match r {
                Some(c) => self@.is_free(c) && forall|e: Cell|
                    in_bounds(e) && (e.x < c.x || (e.x == c.x && e.y < c.y)) ==> !#[trigger] self@.is_free(e),
                None => self@.board_full(),
            },
    {
        let mut x: usize = 0;
        while x < GRID_SIZE
            invariant
                x <= GRID_SIZE,
                forall|c: Cell|
                    in_bounds(c) && c.x < x ==> #[trigger] self@.snake.contains(c)
                        || self@.on_power_up(c),
            decreases GRID_SIZE - x,
        {
            let mut y: usize = 0;
            while y < GRID_SIZE
                invariant
                    x < GRID_SIZE,
                    y <= GRID_SIZE,
                    forall|c: Cell|
                        in_bounds(c) && (c.x < x || (c.x == x && c.y < y))
                            ==> #[trigger] self@.snake.contains(c) || self@.on_power_up(c),
                decreases GRID_SIZE - y,
            {
                let c = Cell { x, y };
                if !snake_contains(&self.snake, c) && !self.power_up_at(c) {
                    return Some(c);
                }
                y += 1;
            }
            x += 1;
        }
        None
    }

    /// Moves the eaten food to a free cell: a few random draws from the interior, then
    /// the first free cell in order. With no free cell left the game is over.
    fn respawn_food(&mut self)
        ensures
            final(self)@ == (GameModel {
                food: final(self).food,
                game_over: final(self).game_over,
                ..old(self)@
            }),
            (final(self).game_over == old(self).game_over && old(self)@.is_free(final(self).food))
                || (final(self).game_over && old(self)@.board_full() && final(self).food == old(
                self,
            ).food),
    {
        let mut tries: u32 = 0;
        while tries < FOOD_TRIES
            invariant
                self@ == old(self)@,
            decreases FOOD_TRIES - tries,
        {
            let c = random_interior_cell();
            if self.place_food(c) {
                return;
            }
            tries += 1;
        }
        match self.first_free_cell() {
            Some(c) => {
                self.place_food(c);
            },
            None => {
                self.game_over = true;
            },
        }
    }

    /// Puts a power-up of `kind` on `cell` with a full timer, when no power-up lies on
    /// the board and `cell` is an interior cell off the snake and off the food; returns
    /// whether it did.
    pub fn place_power_up(&mut self, cell: Cell, kind: PowerUp) -> (placed: bool)
        ensures
            placed == (old(self).power_up is None && in_interior(cell) && !old(
                self,
            )@.snake.contains(cell) && cell != old(self).food),
            placed ==> final(self)@ == (GameModel {
                power_up: Some(PowerUpSpot { kind, cell }),
                power_up_timer: POWER_UP_MS as nat,
                ..old(self)@
            }),
            !placed ==> final(self)@ == old(self)@,
    {
        let ok = self.power_up.is_none() && 1 <= cell.x && cell.x < GRID_SIZE - 1 && 1 <= cell.y
            && cell.y < GRID_SIZE - 1 && !snake_contains(&self.snake, cell) && cell != self.food;
        if ok {
            self.power_up = Some(PowerUpSpot { kind, cell });
            self.power_up_timer_ms = POWER_UP_MS;
        }
        ok
    }

    /// Draws a cell and a kind, and puts a power-up there if the cell is free.
    fn spawn_power_up(&mut self)
        ensures
            final(self)@ == old(self)@ || (old(self).power_up is None && final(self)@ == (
            GameModel {
                power_up: final(self).power_up,
                power_up_timer: POWER_UP_MS as nat,
                ..old(self)@
            }) && match final(self).power_up {
                Some(spot) => in_interior(spot.cell) && !old(self)@.snake.contains(spot.cell)
                    && spot.cell != old(self).food,
                None => false,
            }),
    {
        let cell = random_interior_cell();
        let kind = kind_from_roll(random_range(0, 5) as u32);
        self.place_power_up(cell, kind);
    }

    /// One tick of `elapsed_ms` milliseconds. After a meal the food moves to a free
    /// cell and, three times in ten when no power-up lies on the board, a power-up may
    /// appear.
    pub fn update(&mut self, elapsed_ms: u32)
        requires
            old(self).wf(),
            old(self).score <= MAX_SCORE,
        ensures
            final(self).wf(),
            GameModel::update_outcome(old(self)@, final(self)@, elapsed_ms as nat),
    {
        let ate = self.advance(elapsed_ms);
        if ate {
            let ghost a = self@;
            self.respawn_food();
            let ghost r = self@;
            if random_ratio(3, 10) && self.power_up.is_none() {
                self.spawn_power_up();
            }
            proof {
                let f = self@;
                if f.game_over && a.board_full() {
                    assert forall|c: Cell| in_bounds(c) implies #[trigger] f.snake.contains(c)
                        || f.on_power_up(c) by {
                        assert(a.snake.contains(c) || a.on_power_up(c));
                    }
                }
            }
        }
    }
}

/// The power-up kind for a roll from `0..5`; larger rolls give `NoEffect`.
pub fn kind_from_roll(roll: u32) -> (r: PowerUp)
    ensures
        r == kind_of(roll as nat),
{
    match roll {
        0 => PowerUp::Speed,
        1 => PowerUp::Slow,
        2 => PowerUp::DoublePoints,
        3 => PowerUp::Invincible,
        _ => PowerUp::NoEffect,
    }
}

/// A random interior cell.
fn random_interior_cell() -> (c: Cell)
    ensures
        in_interior(c),
{
    let x = random_range(1, GRID_SIZE - 1);
    let y = random_range(1, GRID_SIZE - 1);
    Cell { x, y }
}

} // verus!
