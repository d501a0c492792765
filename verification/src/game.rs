//! One player's session: the snake, the food, the counters, and the per-tick update.

use crate::grid::{advance, advanced, Direction, Position};
use crate::rng::random_cell;
use crate::snake::{lemma_move_stays_on_board, Snake, SnakeView};
use std::time::Instant;
use vstd::prelude::*;

verus! {

/// Points scored for each food eaten.
pub const FOOD_SCORE: u32 = 10;

/// Number of processed game-overs from which on a session plays itself.
pub const AUTOPLAY_DEATHS: u32 = 5;

/// The complete state of one session.
#[derive(Debug, Clone)]
pub struct GameState {
    pub snake: Snake,
    pub food: Position,
    pub score: u32,
    pub primeagems: u32,
    pub game_over: bool,
    pub ml_training: bool,
    pub bot_moves: Vec<Direction>,
    pub death_count: u32,
    pub autoplay_enabled: bool,
}

/// What a session is, mathematically.
pub struct GameView {
    pub snake: SnakeView,
    pub food: Position,
    pub score: nat,
    pub primeagems: nat,
    pub game_over: bool,
    pub ml_training: bool,
    pub bot_moves: Seq<Direction>,
    pub death_count: nat,
    pub autoplay_enabled: bool,
}

/// The cell in the middle of the board, where snakes are created.
pub open spec fn center(bounds: (i32, i32)) -> Position {
    Position { x: (bounds.0 / 2) as i32, y: (bounds.1 / 2) as i32 }
}

impl GameView {
    /// A session as it is created, with the food on `food`.
    pub open spec fn initial(bounds: (i32, i32), food: Position) -> GameView {
        GameView {
            snake: SnakeView::fresh(center(bounds)),
            food,
            score: 0,
            primeagems: 0,
            game_over: false,
            ml_training: false,
            bot_moves: Seq::empty(),
            death_count: 0,
            autoplay_enabled: false,
        }
    }

    /// The session's snake has a head.
    pub open spec fn wf(self) -> bool {
        self.snake.wf()
    }

    /// The counters that the next tick may raise can still be raised.
    pub open spec fn can_count(self) -> bool {
        if self.game_over {
            self.death_count < u32::MAX
        } else {
            self.score + FOOD_SCORE <= u32::MAX && self.primeagems < u32::MAX
        }
    }

    /// The cell next to the head in `direction` holds no part of the snake.
    pub open spec fn is_free(self, direction: Direction, bounds: (i32, i32)) -> bool {
        !self.snake.body.contains(advanced(self.snake.head(), direction, bounds))
    }

    /// One step in `direction` brings the head nearer to the food on that axis.
    pub open spec fn closes_gap(self, direction: Direction) -> bool {
        match direction {
            Direction::Right => self.food.x > self.snake.head().x,
            Direction::Left => self.food.x < self.snake.head().x,
            Direction::Down => self.food.y > self.snake.head().y,
            Direction::Up => self.food.y < self.snake.head().y,
        }
    }

    /// The heading the autoplay bot suggests. It closes the horizontal gap to the food
    /// first, then the vertical gap, in each case only if that takes no reversal of the
    /// current heading. Failing both it takes the first of up, down, left, right whose
    /// cell is free of the snake, and keeps the current heading if none is.
    pub open spec fn suggested(self, bounds: (i32, i32)) -> Direction {
        let head = self.snake.head();
        let heading = self.snake.direction;
        if self.food.x > head.x && heading != Direction::Left {
            Direction::Right
        } else if self.food.x < head.x && heading != Direction::Right {
            Direction::Left
        } else if self.food.y > head.y && heading != Direction::Up {
            Direction::Down
        } else if self.food.y < head.y && heading != Direction::Down {
            Direction::Up
        } else if self.is_free(Direction::Up, bounds) {
            Direction::Up
        } else if self.is_free(Direction::Down, bounds) {
            Direction::Down
        } else if self.is_free(Direction::Left, bounds) {
            Direction::Left
        } else if self.is_free(Direction::Right, bounds) {
            Direction::Right
        } else {
            heading
        }
    }

    /// The session after a pending game-over has been processed: one more death, the
    /// session plays itself from the `AUTOPLAY_DEATHS`-th death on, the game is on
    /// again, and a new snake waits in the middle of the board.
    pub open spec fn respawned(self, bounds: (i32, i32)) -> GameView {
        GameView {
            death_count: self.death_count + 1,
            autoplay_enabled: self.autoplay_enabled || self.death_count + 1 >= AUTOPLAY_DEATHS,
            game_over: false,
            snake: SnakeView::fresh(center(bounds)),
            ..self
        }
    }

    /// The session after the bot, if it plays, has asked for its heading at clock
    /// reading `now`.
    pub open spec fn steered(self, bounds: (i32, i32), now: Instant) -> GameView {
        if self.autoplay_enabled {
            GameView { snake: self.snake.turned(self.suggested(bounds), now), ..self }
        } else {
            self
        }
    }

    /// The session after the snake has tried to move: on a collision the game is over
    /// and the snake stays where it was.
    pub open spec fn moved(self, bounds: (i32, i32)) -> GameView {
        if self.snake.collides(bounds) {
            GameView { game_over: true, ..self }
        } else {
            GameView { snake: self.snake.moved(bounds), ..self }
        }
    }

    /// The head lies on the food.
    pub open spec fn on_food(self) -> bool {
        self.snake.head() == self.food
    }

    /// The session after the snake has eaten: growth is pending, the score is up by
    /// `FOOD_SCORE`, the currency by one, and the food lies on `next_food`.
    pub open spec fn fed(self, next_food: Position) -> GameView {
        GameView {
            snake: self.snake.grown(),
            score: self.score + FOOD_SCORE as nat,
            primeagems: self.primeagems + 1,
            food: next_food,
            ..self
        }
    }

    /// The session one tick later, given the clock reading `now` and the cell
    /// `next_food` drawn for the food. A pending game-over is processed and nothing
    /// moves. Otherwise the bot steers if it plays, the snake moves, and if that
    /// brought the head onto the food the snake eats.
    pub open spec fn ticked(self, bounds: (i32, i32), now: Instant, next_food: Position) -> GameView {
        if self.game_over {
            self.respawned(bounds)
        } else {
            let after = self.steered(bounds, now).moved(bounds);
            if !after.game_over && after.on_food() {
                after.fed(next_food)
            } else {
                after
            }
        }
    }

    /// The session plays itself once it has died `AUTOPLAY_DEATHS` times.
    pub open spec fn autoplay_settled(self) -> bool {
        self.death_count >= AUTOPLAY_DEATHS ==> self.autoplay_enabled
    }

    /// The session after a run of ticks, one for each pair of a clock reading and a
    /// cell drawn for the food, in order.
    pub open spec fn after_ticks(self, bounds: (i32, i32), draws: Seq<(Instant, Position)>) -> GameView
        decreases draws.len(),
    {
        if draws.len() == 0 {
            self
        } else {
            self.after_ticks(bounds, draws.drop_last()).ticked(bounds, draws.last().0, draws.last().1)
        }
    }
}

impl View for GameState {
    type V = GameView;

    open spec fn view(&self) -> GameView {
        GameView {
            snake: self.snake@,
            food: self.food,
            score: self.score as nat,
            primeagems: self.primeagems as nat,
            game_over: self.game_over,
            ml_training: self.ml_training,
            bot_moves: self.bot_moves@,
            death_count: self.death_count as nat,
            autoplay_enabled: self.autoplay_enabled,
        }
    }
}

/// Computes the cell in the middle of the board.
pub fn board_center(bounds: (i32, i32)) -> (cell: Position)
    requires
        bounds.0 > 0,
        bounds.1 > 0,
    ensures
        cell == center(bounds),
        cell.within(bounds),
{
    Position { x: bounds.0 / 2, y: bounds.1 / 2 }
}

impl GameState {
    /// Creates a session with the food on `food`.
    pub fn with_food(bounds: (i32, i32), food: Position) -> (state: GameState)
        requires
            bounds.0 > 0,
            bounds.1 > 0,
        ensures
            state@ == GameView::initial(bounds, food),
    {
        GameState {
            snake: Snake::new(board_center(bounds)),
            food,
            score: 0,
            primeagems: 0,
            game_over: false,
            ml_training: false,
            bot_moves: Vec::new(),
            death_count: 0,
            autoplay_enabled: false,
        }
    }

    /// Creates a session: a one-cell snake in the middle of the board, heading right,
    /// all counters at zero, and the food on a cell of the board picked at random.
    pub fn new(bounds: (i32, i32)) -> (state: GameState)
        requires
            bounds.0 > 0,
            bounds.1 > 0,
        ensures
            state@ == GameView::initial(bounds, state.food),
            state.food.within(bounds),
    {
        GameState::with_food(bounds, random_cell(bounds))
    }

    /// Tells whether the cell next to the head in `direction` is free of the snake.
    pub fn is_free(&self, direction: Direction, bounds: (i32, i32)) -> (free: bool)
        requires
            self@.wf(),
            bounds.0 != 0,
            bounds.1 != 0,
        ensures
            free == self@.is_free(direction, bounds),
    {
        !self.snake.occupies(advance(self.snake.head(), direction, bounds))
    }

    /// The autoplay bot: suggests a heading from the snake, the food and the board,
    /// looking one cell ahead at most.
    pub fn calculate_bot_move(&self, bounds: (i32, i32)) -> (direction: Direction)
        requires
            self@.wf(),
            bounds.0 != 0,
            bounds.1 != 0,
        ensures
            direction == self@.suggested(bounds),
    {
        let head = self.snake.head();
        let heading = self.snake.direction;
        if self.food.x > head.x && heading != Direction::Left {
            Direction::Right
        } else if self.food.x < head.x && heading != Direction::Right {
            Direction::Left
        } else if self.food.y > head.y && heading != Direction::Up {
            Direction::Down
        } else if self.food.y < head.y && heading != Direction::Down {
            Direction::Up
        } else if self.is_free(Direction::Up, bounds) {
            Direction::Up
        } else if self.is_free(Direction::Down, bounds) {
            Direction::Down
        } else if self.is_free(Direction::Left, bounds) {
            Direction::Left
        } else if self.is_free(Direction::Right, bounds) {
            Direction::Right
        } else {
            heading
        }
    }

    /// Tells whether the counters that the next tick may raise can still be raised.
    pub fn can_count(&self) -> (room: bool)
        ensures
            room == self@.can_count(),
    {
        if self.game_over {
            self.death_count < u32::MAX
        } else {
            self.score <= u32::MAX - FOOD_SCORE && self.primeagems < u32::MAX
        }
    }

    /// Processes a pending game-over.
    pub fn respawn(&mut self, bounds: (i32, i32))
        requires
            old(self).death_count < u32::MAX,
            bounds.0 > 0,
            bounds.1 > 0,
        ensures
            final(self)@ == old(self)@.respawned(bounds),
    {
        self.death_count += 1;
        if self.death_count >= AUTOPLAY_DEATHS {
            self.autoplay_enabled = true;
        }
        self.game_over = false;
        self.snake = Snake::new(board_center(bounds));
    }

    /// Lets the bot, if it plays, ask for its heading at clock reading `now`.
    pub fn steer(&mut self, bounds: (i32, i32), now: Instant)
        requires
            old(self)@.wf(),
            bounds.0 != 0,
            bounds.1 != 0,
        ensures
            final(self)@ == old(self)@.steered(bounds, now),
    {
        if self.autoplay_enabled {
            let bot_move = self.calculate_bot_move(bounds);
            self.snake.set_direction_at(bot_move, now);
        }
    }

    /// Moves the snake; a collision ends the game. Returns whether the move brought
    /// the head onto the food.
    pub fn move_snake(&mut self, bounds: (i32, i32)) -> (ate: bool)
        requires
            old(self)@.wf(),
            bounds.0 != 0,
            bounds.1 != 0,
        ensures
            final(self)@ == old(self)@.moved(bounds),
            final(self)@.wf(),
            ate == (!final(self)@.game_over && final(self)@.on_food()),
    {
        if !self.snake.move_forward(bounds) {
            self.game_over = true;
            return false;
        }
        let head = self.snake.head();
        !self.game_over && head.x == self.food.x && head.y == self.food.y
    }

    /// Feeds the snake and puts the food on `next_food`.
    pub fn eat(&mut self, next_food: Position)
        requires
            old(self).score + FOOD_SCORE <= u32::MAX,
            old(self).primeagems < u32::MAX,
        ensures
            final(self)@ == old(self)@.fed(next_food),
    {
        self.snake.grow();
        self.score += FOOD_SCORE;
        self.primeagems += 1;
        self.food = next_food;
    }

    /// Advances the session by one tick, given the clock reading `now` and the cell
    /// `next_food` to put the food on should the snake eat.
    pub fn update_at(&mut self, bounds: (i32, i32), now: Instant, next_food: Position)
        requires
            old(self)@.wf(),
            old(self)@.can_count(),
            bounds.0 > 0,
            bounds.1 > 0,
        ensures
            final(self)@ == old(self)@.ticked(bounds, now, next_food),
            final(self)@.wf(),
    {
        if self.game_over {
            self.respawn(bounds);
            return;
        }
        self.steer(bounds, now);
        if self.move_snake(bounds) {
            self.eat(next_food);
        }
    }

    /// Advances the session by one tick. The clock is read if the bot plays, and a
    /// cell of the board is drawn for the food if the snake eats; the session ends up
    /// as `update_at` leaves it for that reading and that cell.
    pub fn update(&mut self, bounds: (i32, i32))
        requires
            old(self)@.wf(),
            old(self)@.can_count(),
            bounds.0 > 0,
            bounds.1 > 0,
        ensures
            exists|now: Instant, next_food: Position|
                next_food.within(bounds) && final(self)@ == #[trigger] old(self)@.ticked(
                    bounds,
                    now,
                    next_food,
                ),
            final(self)@.wf(),
    {
        if self.game_over {
            self.respawn(bounds);
            assert(self@ == old(self)@.ticked(bounds, arbitrary(), center(bounds)));
            return;
        }
        let ghost mut now: Instant = arbitrary();
        if self.autoplay_enabled {
            let reading = Instant::now();
            self.steer(bounds, reading);
            proof {
                now = reading;
            }
        }
        if self.move_snake(bounds) {
            let next_food = random_cell(bounds);
            self.eat(next_food);
            assert(self@ == old(self)@.ticked(bounds, now, next_food));
        } else {
            assert(self@ == old(self)@.ticked(bounds, now, center(bounds)));
        }
    }
}

/// What the bot suggests is one of three things: a step that closes a gap to the
/// food without reversing the snake, the horizontal gap first; failing that, a step
/// into a cell free of the snake; failing that too, the heading the snake has.
pub proof fn lemma_bot_is_greedy(state: GameView, bounds: (i32, i32))
    ensures
        ({
            let heading = state.snake.direction;
            let choice = state.suggested(bounds);
            let open_to = |direction: Direction|
                state.closes_gap(direction) && direction != heading.reversed();
            if open_to(Direction::Right) || open_to(Direction::Left) {
                choice.dx() != 0 && open_to(choice)
            } else if open_to(Direction::Down) || open_to(Direction::Up) {
                choice.dy() != 0 && open_to(choice)
            } else if exists|direction: Direction| state.is_free(direction, bounds) {
                state.is_free(choice, bounds)
            } else {
                choice == heading
            }
        }),
{
    if !state.is_free(Direction::Up, bounds) && !state.is_free(Direction::Down, bounds)
        && !state.is_free(Direction::Left, bounds) && !state.is_free(Direction::Right, bounds) {
        assert forall|direction: Direction| !state.is_free(direction, bounds) by {
            match direction {
                Direction::Up => {},
                Direction::Down => {},
                Direction::Left => {},
                Direction::Right => {},
            }
        }
    }
}

/// Eating law. A tick whose move brings the head onto the food raises the score by
/// exactly `FOOD_SCORE` and the currency by exactly one, leaves growth pending, and puts
/// the food on the cell drawn for it. Any other tick of a running game leaves score,
/// currency and food as they were.
pub proof fn lemma_eating(state: GameView, bounds: (i32, i32), now: Instant, next_food: Position)
    requires
        !state.game_over,
    ensures
        ({
            let moved = state.steered(bounds, now).moved(bounds);
            let after = state.ticked(bounds, now, next_food);
            if !moved.game_over && moved.on_food() {
                &&& after.score == state.score + 10
                &&& after.primeagems == state.primeagems + 1
                &&& after.food == next_food
                &&& after.snake.growing
                &&& after.snake.body == moved.snake.body
                &&& !after.game_over
            } else {
                &&& after.score == state.score
                &&& after.primeagems == state.primeagems
                &&& after.food == state.food
            }
        }),
{
}

/// A tick that finds the game over processes the death and moves nothing: score,
/// currency and food survive, and a one-cell snake waits in the middle of the board.
pub proof fn lemma_game_over_tick(state: GameView, bounds: (i32, i32), now: Instant, next_food: Position)
    requires
        state.game_over,
    ensures
        ({
            let after = state.ticked(bounds, now, next_food);
            &&& after.death_count == state.death_count + 1
            &&& !after.game_over
            &&& after.snake == SnakeView::fresh(center(bounds))
            &&& after.score == state.score
            &&& after.primeagems == state.primeagems
            &&& after.food == state.food
            &&& (after.autoplay_enabled <==> state.autoplay_enabled || after.death_count >= AUTOPLAY_DEATHS)
        }),
{
}

/// A collision ends the game and freezes the snake where it was; it counts as a
/// death only on the tick after.
pub proof fn lemma_collision_tick(state: GameView, bounds: (i32, i32), now: Instant, next_food: Position)
    requires
        !state.game_over,
        state.steered(bounds, now).snake.collides(bounds),
    ensures
        ({
            let after = state.ticked(bounds, now, next_food);
            &&& after.game_over
            &&& after.snake.body == state.snake.body
            &&& after.death_count == state.death_count
        }),
{
}

/// One tick never switches autoplay off, never lowers a counter, and keeps autoplay
/// settled: a session that has died `AUTOPLAY_DEATHS` times plays itself.
pub proof fn lemma_tick_keeps_autoplay(state: GameView, bounds: (i32, i32), now: Instant, next_food: Position)
    ensures
        ({
            let after = state.ticked(bounds, now, next_food);
            &&& state.autoplay_enabled ==> after.autoplay_enabled
            &&& state.autoplay_settled() ==> after.autoplay_settled()
            &&& after.death_count >= state.death_count
            &&& after.score >= state.score
            &&& after.primeagems >= state.primeagems
            &&& state.score % 10 == 0 ==> after.score % 10 == 0
        }),
{
}

/// Autoplay law. Over any run of ticks autoplay, once on, stays on, whatever
/// collisions follow; and a session that starts settled, as every new session does,
/// plays itself as soon as its death counter has reached `AUTOPLAY_DEATHS`.
pub proof fn lemma_autoplay_is_permanent(state: GameView, bounds: (i32, i32), draws: Seq<(Instant, Position)>)
    ensures
        state.autoplay_enabled ==> state.after_ticks(bounds, draws).autoplay_enabled,
        state.autoplay_settled() ==> state.after_ticks(bounds, draws).autoplay_settled(),
        state.after_ticks(bounds, draws).death_count >= state.death_count,
    decreases draws.len(),
{
    if draws.len() > 0 {
        lemma_autoplay_is_permanent(state, bounds, draws.drop_last());
        lemma_tick_keeps_autoplay(
            state.after_ticks(bounds, draws.drop_last()),
            bounds,
            draws.last().0,
            draws.last().1,
        );
    }
}

/// A new session is settled: it has not died yet.
pub proof fn lemma_new_session_is_settled(bounds: (i32, i32), food: Position)
    ensures
        GameView::initial(bounds, food).autoplay_settled(),
        GameView::initial(bounds, food).wf(),
        GameView::initial(bounds, food).can_count(),
{
}

/// A tick keeps the snake on the board: after it the snake has a head, and if the
/// board has positive size and the snake lay on it, it still does.
pub proof fn lemma_tick_stays_on_board(state: GameView, bounds: (i32, i32), now: Instant, next_food: Position)
    requires
        state.wf(),
        bounds.0 > 0,
        bounds.1 > 0,
    ensures
        state.ticked(bounds, now, next_food).wf(),
        state.snake.within(bounds) ==> state.ticked(bounds, now, next_food).snake.within(bounds),
{
    if !state.game_over && state.snake.within(bounds) {
        let steered = state.steered(bounds, now);
        assert(steered.snake.within(bounds));
        lemma_move_stays_on_board(steered.snake, bounds);
    }
}

} // verus!
