//! The game: a board, one snake, one food item, a score and the timers that
//! pace it all.

use crate::draw::{Color, DrawCommand};
use crate::food::{
    count_free_cells, free_cell_is_listed, free_cells, is_free, is_interior,
    listed_cells_are_free, nth_free_cell,
};
use crate::random::random_in_range;
use crate::snake::{cell_of, fits_grid, Direction, Snake, SnakeModel};
use vstd::prelude::*;

verus! {

/// Rows at the bottom of the window that are kept for the score readout and
/// are not part of the playable board.
pub const FOOTER_HEIGHT: i32 = 6;

/// Clock ticks in one unit of time. All times are counted in these ticks.
pub const TIME_UNIT: u64 = 1_000_000;

/// The snake moves by itself once more than this much time has gone by
/// since its last move: a tenth of a time unit.
pub const MOVING_PERIOD: u64 = 100_000;

/// The food changes colour once more than this much time has gone by since
/// it last did: a fifth of a time unit.
pub const FLASHING_PERIOD: u64 = 200_000;

/// A lost game starts over once more than this much time has gone by since
/// it was lost: one time unit.
pub const RESTART_TIME: u64 = 1_000_000;

/// A key press, as far as the game tells keys apart.
#[derive(Clone, Copy, Debug, PartialEq, Eq, Structural)]
pub enum Key {
    Up,
    Down,
    Left,
    Right,
    /// Any key that is not an arrow.
    Other,
}

impl Key {
    /// The heading an arrow key asks for; no heading for any other key.
    pub open spec fn spec_direction(&self) -> Option<Direction> {
        match *self {
            Key::Up => Some(Direction::Up),
            Key::Down => Some(Direction::Down),
            Key::Left => Some(Direction::Left),
            Key::Right => Some(Direction::Right),
            Key::Other => None,
        }
    }

    /// The heading an arrow key asks for; no heading for any other key.
    #[verifier::when_used_as_spec(spec_direction)]
    pub fn direction(&self) -> (d: Option<Direction>)
        ensures
            d == self.spec_direction(),
    {
        match *self {
            Key::Up => Some(Direction::Up),
            Key::Down => Some(Direction::Down),
            Key::Left => Some(Direction::Left),
            Key::Right => Some(Direction::Right),
            Key::Other => None,
        }
    }
}

/// The mathematical state of a game.
pub struct GameModel {
    pub snake: SnakeModel,
    /// Whether there is food on the board.
    pub food_exists: bool,
    /// Which of its two colours the food is painted in.
    pub food_flashing: bool,
    /// Where the food is, or last was.
    pub food: (int, int),
    pub score: nat,
    /// Width of the board in cells.
    pub width: int,
    /// Height of the playable board in cells, footer not counted.
    pub height: int,
    pub game_over: bool,
    /// Time since the last move, or since the game was lost.
    pub waiting_time: nat,
    /// Time since the food last changed colour.
    pub flashing_time: nat,
}

impl GameModel {
    /// A fresh game in a window of `width` by `height` cells: the snake's
    /// head at `(2, 2)`, food at `(6, 4)`, nothing scored.
    pub open spec fn new(width: int, height: int) -> GameModel {
        GameModel {
            snake: SnakeModel::new(2, 2),
            food_exists: true,
            food_flashing: false,
            food: (6, 4),
            score: 0,
            width,
            height: height - FOOTER_HEIGHT,
            game_over: false,
            waiting_time: 0,
            flashing_time: 0,
        }
    }

    /// A fresh game on the same board.
    pub open spec fn restart(self) -> GameModel {
        GameModel::new(self.width, self.height + FOOTER_HEIGHT)
    }

    /// The free cells of the board, row by row.
    pub open spec fn free_cells(self) -> Seq<(int, int)> {
        free_cells(self.snake, self.width, self.height)
    }

    /// Whether food may be put on `cell`.
    pub open spec fn is_free(self, cell: (int, int)) -> bool {
        is_free(self.snake, self.width, self.height, cell)
    }

    /// Whether a step in `dir` keeps the snake alive: the cell ahead is
    /// inside the border and no body segment lies on it. The body is taken
    /// as it is before the step, tail included.
    pub open spec fn move_is_legal(self, dir: Option<Direction>) -> bool {
        let ahead = self.snake.next_head(dir);
        !self.snake.occupies(ahead) && is_interior(self.width, self.height, ahead)
    }

    /// Whether the head lies on the food.
    pub open spec fn head_on_food(self) -> bool {
        self.food_exists && self.snake.head() == self.food
    }

    /// The eating check: with the head on the food, the food goes, the
    /// score rises by one and the snake is set to grow.
    pub open spec fn eat(self) -> GameModel {
        if self.head_on_food() {
            GameModel {
                score: self.score + 1,
                food_exists: false,
                snake: self.snake.restore_tail(),
                ..self
            }
        } else {
            self
        }
    }

    /// One movement tick. A legal step is taken and followed by the eating
    /// check; an illegal one ends the game and leaves the snake alone.
    /// Either way the wait for the next move starts anew.
    pub open spec fn tick(self, dir: Option<Direction>) -> GameModel {
        let after = if self.move_is_legal(dir) {
            GameModel { snake: self.snake.move_forward(dir), ..self }.eat()
        } else {
            GameModel { game_over: true, ..self }
        };
        GameModel { waiting_time: 0, ..after }
    }

    /// The heading that a key press asks for: that of an arrow key, the
    /// current one for any other key.
    pub open spec fn wanted_direction(self, key: Key) -> Direction {
        match key.direction() {
            Some(d) => d,
            None => self.snake.direction,
        }
    }

    /// A key press. It is ignored when the game is over or when it asks for
    /// the reverse of the current heading; otherwise it moves the snake at
    /// once.
    pub open spec fn key_pressed(self, key: Key) -> GameModel {
        let wanted = self.wanted_direction(key);
        if self.game_over || wanted == self.snake.direction.opposite() {
            self
        } else {
            self.tick(Some(wanted))
        }
    }

    /// Both timers advanced by `delta_time`.
    pub open spec fn elapse(self, delta_time: nat) -> GameModel {
        GameModel {
            waiting_time: self.waiting_time + delta_time,
            flashing_time: self.flashing_time + delta_time,
            ..self
        }
    }

    /// Whether food is missing and there is a cell to put it on.
    pub open spec fn needs_food(self) -> bool {
        !self.food_exists && self.free_cells().len() > 0
    }

    /// Food put on `cell`.
    pub open spec fn with_food(self, cell: (int, int)) -> GameModel {
        GameModel { food: cell, food_exists: true, ..self }
    }

    /// The food's colour switched and the wait for the next switch started
    /// anew.
    pub open spec fn toggle_flash(self) -> GameModel {
        GameModel { food_flashing: !self.food_flashing, flashing_time: 0, ..self }
    }

    /// One frame, `delta_time` after the one before, with `placed` as the
    /// cell that new food goes on if the frame puts any.
    ///
    /// A lost game only waits, and starts over once it has waited longer
    /// than `RESTART_TIME`. A running game first makes up for missing food,
    /// then moves the snake if that is due, then switches the food's colour
    /// if that is due.
    pub open spec fn update(self, delta_time: nat, placed: (int, int)) -> GameModel {
        let timed = self.elapse(delta_time);
        if timed.game_over {
            if timed.waiting_time > RESTART_TIME {
                timed.restart()
            } else {
                timed
            }
        } else {
            let fed = if timed.needs_food() {
                timed.with_food(placed)
            } else {
                timed
            };
            let moved = if fed.waiting_time > MOVING_PERIOD {
                fed.tick(None)
            } else {
                fed
            };
            if moved.flashing_time > FLASHING_PERIOD {
                moved.toggle_flash()
            } else {
                moved
            }
        }
    }

    /// What a frame paints after the snake, and after the food if there is
    /// any: the four borders, the footer, the score, and a veil over the
    /// board once the game is lost.
    pub open spec fn draw_frame(self) -> Seq<DrawCommand> {
        let w = self.width as i32;
        let h = self.height as i32;
        let frame = seq![
            DrawCommand::Rectangle { color: Color::Border, x: 0, y: 0, width: w, height: 1 },
            DrawCommand::Rectangle {
                color: Color::Border,
                x: 0,
                y: (self.height - 1) as i32,
                width: w,
                height: 1,
            },
            DrawCommand::Rectangle { color: Color::Border, x: 0, y: 0, width: 1, height: h },
            DrawCommand::Rectangle {
                color: Color::Border,
                x: (self.width - 1) as i32,
                y: 0,
                width: 1,
                height: h,
            },
            DrawCommand::Rectangle {
                color: Color::Border,
                x: 0,
                y: h,
                width: w,
                height: FOOTER_HEIGHT,
            },
            DrawCommand::Number {
                color: Color::Score,
                value: self.score as u32,
                x: (self.width - 2) as i32,
                y: (self.height + 1) as i32,
            },
        ];
        if self.game_over {
            frame.push(
                DrawCommand::Rectangle { color: Color::GameOver, x: 0, y: 0, width: w, height: h },
            )
        } else {
            frame
        }
    }

    /// The food's block, if there is food.
    pub open spec fn draw_food(self) -> Seq<DrawCommand> {
        if self.food_exists {
            seq![
                DrawCommand::Block {
                    color: if self.food_flashing {
                        Color::Food
                    } else {
                        Color::FlashingFood
                    },
                    x: self.food.0 as i32,
                    y: self.food.1 as i32,
                },
            ]
        } else {
            Seq::empty()
        }
    }

    /// Everything a frame paints, in painting order.
    pub open spec fn draw(self) -> Seq<DrawCommand> {
        self.snake.draw() + self.draw_food() + self.draw_frame()
    }

    /// What holds of the board, the snake, the food and the score at all
    /// times: the snake is an orthogonal chain that never crosses itself,
    /// it has three segments and one more for each point scored (the latest
    /// of them still to come while growth is pending), its head can step
    /// any way without leaving the coordinate range, and food never lies
    /// under the snake.
    pub open spec fn inv(self) -> bool {
        &&& self.snake.wf()
        &&& self.snake.body.no_duplicates()
        &&& self.snake.body.len() + (if self.snake.growing {
            1nat
        } else {
            0nat
        }) == self.score + 3
        &&& 0 < self.snake.head().0 < i32::MAX
        &&& 0 < self.snake.head().1 < i32::MAX
        &&& i32::MIN + 2 <= self.width <= i32::MAX
        &&& i32::MIN + 1 <= self.height <= i32::MAX - FOOTER_HEIGHT
        &&& self.score <= u32::MAX
        &&& fits_grid(self.food)
        &&& self.food_exists ==> !self.snake.occupies(self.food)
    }

    /// What holds of the timers between frames: neither has run past the
    /// point at which a frame resets it.
    pub open spec fn timers_ok(self) -> bool {
        &&& self.waiting_time <= RESTART_TIME
        &&& self.flashing_time <= FLASHING_PERIOD + (if self.game_over {
            self.waiting_time
        } else {
            0nat
        })
    }

    /// The invariant of a game between calls.
    pub open spec fn wf(self) -> bool {
        self.inv() && self.timers_ok()
    }

    /// A fresh game is well formed.
    pub proof fn new_is_wf(width: int, height: int)
        requires
            i32::MIN + 2 <= width <= i32::MAX,
            i32::MIN + 1 + FOOTER_HEIGHT <= height <= i32::MAX,
        ensures
            GameModel::new(width, height).wf(),
    {
        let snake = SnakeModel::new(2, 2);
        SnakeModel::new_is_wf(2, 2);
        assert(snake.body[0] == (2int, 2int));
        assert(snake.body[1] == (1int, 2int));
        assert(snake.body[2] == (0int, 2int));
    }

    /// A movement tick keeps the invariant, as long as the score has room
    /// to rise.
    pub proof fn tick_keeps_inv(self, dir: Option<Direction>)
        requires
            self.inv(),
            self.score < u32::MAX,
        ensures
            self.tick(dir).inv(),
            self.tick(dir).waiting_time == 0,
            self.tick(dir).flashing_time == self.flashing_time,
    {
        if self.move_is_legal(dir) {
            self.snake.move_forward_keeps_wf(dir);
            self.snake.move_forward_keeps_distinct(dir);
        }
    }

    /// Food on a free cell keeps the invariant.
    pub proof fn with_food_keeps_inv(self, cell: (int, int))
        requires
            self.inv(),
            self.is_free(cell),
        ensures
            self.with_food(cell).inv(),
    {
    }

    /// Food is wanted exactly when there is none and some cell is free for
    /// it.
    pub proof fn needs_food_iff_some_cell_is_free(self)
        ensures
            self.needs_food() <==> !self.food_exists && exists|cell: (int, int)|
                self.is_free(cell),
    {
        listed_cells_are_free(self.snake, self.width, self.height);
        if self.free_cells().len() > 0 {
            assert(self.is_free(self.free_cells()[0]));
        }
        if exists|cell: (int, int)| self.is_free(cell) {
            let cell = choose|cell: (int, int)| self.is_free(cell);
            free_cell_is_listed(self.snake, self.width, self.height, cell);
        }
    }

    /// A frame keeps a well-formed game well formed, wherever among the
    /// free cells it puts new food.
    pub proof fn update_keeps_wf(self, delta_time: nat, placed: (int, int))
        requires
            self.wf(),
            self.score < u32::MAX,
            self.needs_food() ==> self.is_free(placed),
        ensures
            self.update(delta_time, placed).wf(),
    {
        let timed = self.elapse(delta_time);
        if timed.game_over {
            if timed.waiting_time > RESTART_TIME {
                GameModel::new_is_wf(self.width, self.height + FOOTER_HEIGHT);
            }
        } else {
            let fed = if timed.needs_food() {
                timed.with_food(placed)
            } else {
                timed
            };
            if timed.needs_food() {
                timed.with_food_keeps_inv(placed);
            }
            if fed.waiting_time > MOVING_PERIOD {
                fed.tick_keeps_inv(None);
            }
        }
    }

    /// A key press keeps a well-formed game well formed.
    pub proof fn key_pressed_keeps_wf(self, key: Key)
        requires
            self.wf(),
            self.score < u32::MAX,
        ensures
            self.key_pressed(key).wf(),
    {
        let wanted = self.wanted_direction(key);
        if !(self.game_over || wanted == self.snake.direction.opposite()) {
            self.tick_keeps_inv(Some(wanted));
        }
    }

    /// A key that asks for the reverse of the current heading changes
    /// nothing: not the heading, not the body, not the timers.
    pub proof fn reversal_is_ignored(self, key: Key)
        requires
            key.direction() == Some(self.snake.direction.opposite()),
        ensures
            self.key_pressed(key) == self,
    {
    }

    /// While the game is over, key presses change nothing.
    pub proof fn lost_game_ignores_keys(self, key: Key)
        requires
            self.game_over,
        ensures
            self.key_pressed(key) == self,
    {
    }

    /// While the game is over, a frame only advances the timers until the
    /// wait has grown beyond `RESTART_TIME`; the frame that takes it beyond
    /// starts a fresh game on the same board.
    pub proof fn lost_game_waits_then_restarts(self, delta_time: nat, placed: (int, int))
        requires
            self.game_over,
        ensures
            self.waiting_time + delta_time <= RESTART_TIME ==> self.update(delta_time, placed)
                == self.elapse(delta_time),
            self.waiting_time + delta_time > RESTART_TIME ==> self.update(delta_time, placed)
                == GameModel::new(self.width, self.height + FOOTER_HEIGHT),
    {
    }

    /// The score never drops, but for the frame that starts a lost game
    /// over.
    pub proof fn score_never_drops(self, key: Key, delta_time: nat, placed: (int, int))
        ensures
            self.key_pressed(key).score >= self.score,
            !(self.game_over && self.waiting_time + delta_time > RESTART_TIME) ==> self.update(
                delta_time,
                placed,
            ).score >= self.score,
    {
    }

    /// A legal movement tick without pending growth keeps the length of the
    /// body, whether or not it eats; one with growth pending lengthens the
    /// body by exactly one. An illegal tick leaves the snake as it is.
    pub proof fn tick_length(self, dir: Option<Direction>)
        requires
            self.inv(),
        ensures
            self.move_is_legal(dir) && !self.snake.growing ==> self.tick(dir).snake.body.len()
                == self.snake.body.len(),
            self.move_is_legal(dir) && self.snake.growing ==> self.tick(dir).snake.body.len()
                == self.snake.body.len() + 1,
            !self.move_is_legal(dir) ==> self.tick(dir).snake == self.snake && self.tick(
                dir,
            ).game_over,
    {
    }

    /// A movement tick scores exactly when its step is legal and lands on
    /// the food, and then by exactly one: the food goes and growth is
    /// pending, so that the next legal tick lengthens the body.
    pub proof fn tick_score(self, dir: Option<Direction>)
        requires
            self.inv(),
        ensures
            ({
                let eats = self.move_is_legal(dir) && self.food_exists && self.snake.next_head(dir)
                    == self.food;
                let after = self.tick(dir);
                &&& eats ==> after.score == self.score + 1 && !after.food_exists
                    && after.snake.growing
                &&& !eats ==> after.score == self.score && after.food_exists == self.food_exists
                    && !(self.move_is_legal(dir) && after.snake.growing)
                &&& after.food == self.food
            }),
    {
    }
}

/// The game.
pub struct Game {
    snake: Snake,
    food_exists: bool,
    food_flashing: bool,
    food_x: i32,
    food_y: i32,
    score: u32,
    width: i32,
    height: i32,
    game_over: bool,
    waiting_time: u64,
    flashing_time: u64,
}

impl View for Game {
    type V = GameModel;

    closed spec fn view(&self) -> GameModel {
        GameModel {
            snake: self.snake@,
            food_exists: self.food_exists,
            food_flashing: self.food_flashing,
            food: cell_of((self.food_x, self.food_y)),
            score: self.score as nat,
            width: self.width as int,
            height: self.height as int,
            game_over: self.game_over,
            waiting_time: self.waiting_time as nat,
            flashing_time: self.flashing_time as nat,
        }
    }
}

impl Game {
    /// A fresh game in a window of `width` by `height` cells, the bottom
    /// `FOOTER_HEIGHT` rows of which are kept for the score.
    ///
    /// The bounds leave room for the coordinates of the border and of the
    /// score readout.
    pub fn new(width: i32, height: i32) -> (g: Game)
        requires
            i32::MIN + 2 <= width,
            i32::MIN + 1 + FOOTER_HEIGHT <= height,
        ensures
            g@ == GameModel::new(width as int, height as int),
            g@.wf(),
    {
        let field_height = height - FOOTER_HEIGHT;
        proof {
            GameModel::new_is_wf(width as int, height as int);
        }
        Game {
            snake: Snake::new(2, 2),
            waiting_time: 0,
            flashing_time: 0,
            food_exists: true,
            food_flashing: false,
            food_x: 6,
            food_y: 4,
            score: 0,
            width,
            height: field_height,
            game_over: false,
        }
    }

    /// Handles a key press: see [`GameModel::key_pressed`].
    pub fn key_pressed(&mut self, key: Key)
        requires
            old(self)@.wf(),
            old(self)@.score < u32::MAX,
        ensures
            final(self)@ == old(self)@.key_pressed(key),
            final(self)@.wf(),
    {
        proof {
            old(self)@.key_pressed_keeps_wf(key);
        }
        if self.game_over {
            return;
        }
        let dir = match key.direction() {
            Some(d) => d,
            None => self.snake.head_direction(),
        };
        if dir == self.snake.head_direction().opposite() {
            return;
        }
        self.update_snake(Some(dir));
    }

    /// Lists what a frame paints, in painting order: the snake, the food,
    /// the borders, the footer, the score and, over a lost game, a veil.
    /// The game is left as it is.
    pub fn draw(&self) -> (cmds: Vec<DrawCommand>)
        requires
            self@.inv(),
        ensures
            cmds@ == self@.draw(),
    {
        let mut cmds = self.snake.draw();
        if self.food_exists {
            let color = if self.food_flashing {
                Color::Food
            } else {
                Color::FlashingFood
            };
            cmds.push(DrawCommand::Block { color, x: self.food_x, y: self.food_y });
        }
        let ghost painted = cmds@;
        assert(painted =~= self@.snake.draw() + self@.draw_food());
        let w = self.width;
        let h = self.height;
        cmds.push(DrawCommand::Rectangle { color: Color::Border, x: 0, y: 0, width: w, height: 1 });
        cmds.push(
            DrawCommand::Rectangle { color: Color::Border, x: 0, y: h - 1, width: w, height: 1 },
        );
        cmds.push(DrawCommand::Rectangle { color: Color::Border, x: 0, y: 0, width: 1, height: h });
        cmds.push(
            DrawCommand::Rectangle { color: Color::Border, x: w - 1, y: 0, width: 1, height: h },
        );
        cmds.push(
            DrawCommand::Rectangle {
                color: Color::Border,
                x: 0,
                y: h,
                width: w,
                height: FOOTER_HEIGHT,
            },
        );
        cmds.push(
            DrawCommand::Number { color: Color::Score, value: self.score, x: w - 2, y: h + 1 },
        );
        if self.game_over {
            cmds.push(
                DrawCommand::Rectangle { color: Color::GameOver, x: 0, y: 0, width: w, height: h },
            );
        }
        assert(cmds@ =~= painted + self@.draw_frame());
        cmds
    }

    /// Advances the game by one frame that comes `delta_time` ticks after
    /// the one before: see [`GameModel::update`]. Where the frame puts new
    /// food, it puts it on a free cell; which one is left to chance.
    pub fn update(&mut self, delta_time: u32)
        requires
            old(self)@.wf(),
            old(self)@.score < u32::MAX,
        ensures
            final(self)@ == old(self)@.update(delta_time as nat, final(self)@.food),
            !old(self)@.game_over && old(self)@.needs_food() ==> old(self)@.is_free(
                final(self)@.food,
            ),
            final(self)@.wf(),
    {
        self.waiting_time = self.waiting_time + delta_time as u64;
        self.flashing_time = self.flashing_time + delta_time as u64;
        let ghost timed = self@;
        assert(timed == old(self)@.elapse(delta_time as nat));
        if self.game_over {
            if self.waiting_time > RESTART_TIME {
                self.restart();
            }
            return;
        }
        if !self.food_exists {
            self.add_food();
        }
        let ghost fed = self@;
        proof {
            if timed.needs_food() {
                timed.with_food_keeps_inv(fed.food);
            }
        }
        if self.waiting_time > MOVING_PERIOD {
            proof {
                fed.tick_keeps_inv(None);
            }
            self.update_snake(None);
        }
        if self.flashing_time > FLASHING_PERIOD {
            self.update_food();
        }
    }

    /// Puts the food on the free cell at place `pick` of the row-by-row
    /// list of free cells. Returns whether there is such a cell; if not,
    /// nothing changes.
    pub fn place_food(&mut self, pick: u64) -> (placed: bool)
        requires
            old(self)@.inv(),
        ensures
            placed == (pick < old(self)@.free_cells().len()),
            placed ==> final(self)@ == old(self)@.with_food(old(self)@.free_cells()[pick as int]),
            placed ==> old(self)@.is_free(final(self)@.food),
            !placed ==> final(self)@ == old(self)@,
            final(self)@.inv(),
            final(self)@.timers_ok() == old(self)@.timers_ok(),
    {
        match nth_free_cell(&self.snake, self.width, self.height, pick) {
            Some(cell) => {
                proof {
                    listed_cells_are_free(self@.snake, self@.width, self@.height);
                    self@.with_food_keeps_inv(cell_of(cell));
                }
                self.food_x = cell.0;
                self.food_y = cell.1;
                self.food_exists = true;
                true
            },
            None => false,
        }
    }

    /// The number of free cells on the board.
    pub fn free_cell_count(&self) -> (n: u64)
        ensures
            n == self@.free_cells().len(),
    {
        count_free_cells(&self.snake, self.width, self.height)
    }

    /// Puts food on a free cell picked by chance, each free cell being as
    /// likely as any other. Without a free cell nothing changes.
    fn add_food(&mut self)
        requires
            old(self)@.inv(),
        ensures
            old(self)@.free_cells().len() > 0 ==> final(self)@ == old(self)@.with_food(
                final(self)@.food,
            ) && old(self)@.is_free(final(self)@.food),
            old(self)@.free_cells().len() == 0 ==> final(self)@ == old(self)@,
            final(self)@.inv(),
    {
        let free = self.free_cell_count();
        if free > 0 {
            let pick = random_in_range(0, free);
            self.place_food(pick);
        }
    }

    /// Scores and sets the snake to grow if its head lies on the food.
    fn check_eating(&mut self)
        requires
            old(self)@.snake.wf(),
            old(self)@.score < u32::MAX,
        ensures
            final(self)@ == old(self)@.eat(),
    {
        let (head_x, head_y) = self.snake.head_position();
        if self.food_exists && self.food_x == head_x && self.food_y == head_y {
            self.score = self.score + 1;
            self.food_exists = false;
            self.snake.restore_tail();
        }
    }

    /// Whether a step in `dir` keeps the snake alive.
    fn check_if_snake_alive(&self, dir: Option<Direction>) -> (alive: bool)
        requires
            self@.inv(),
        ensures
            alive == self@.move_is_legal(dir),
    {
        let (next_x, next_y) = self.snake.next_head(dir);
        if self.snake.overlap_tail(next_x, next_y) {
            return false;
        }
        next_x > 0 && next_y > 0 && next_x < self.width - 1 && next_y < self.height - 1
    }

    /// Switches the food's colour.
    fn update_food(&mut self)
        ensures
            final(self)@ == old(self)@.toggle_flash(),
    {
        self.food_flashing = !self.food_flashing;
        self.flashing_time = 0;
    }

    /// One movement tick.
    fn update_snake(&mut self, dir: Option<Direction>)
        requires
            old(self)@.inv(),
            old(self)@.score < u32::MAX,
        ensures
            final(self)@ == old(self)@.tick(dir),
            final(self)@.inv(),
    {
        proof {
            old(self)@.tick_keeps_inv(dir);
        }
        if self.check_if_snake_alive(dir) {
            self.snake.move_forward(dir);
            self.check_eating();
        } else {
            self.game_over = true;
        }
        self.waiting_time = 0;
    }

    /// Starts a fresh game on the same board.
    fn restart(&mut self)
        requires
            old(self)@.inv(),
        ensures
            final(self)@ == old(self)@.restart(),
            final(self)@.wf(),
    {
        proof {
            GameModel::new_is_wf(self@.width, self@.height + FOOTER_HEIGHT);
        }
        self.snake = Snake::new(2, 2);
        self.waiting_time = 0;
        self.flashing_time = 0;
        self.food_exists = true;
        self.food_flashing = false;
        self.food_x = 6;
        self.food_y = 4;
        self.score = 0;
        self.game_over = false;
    }

    /// The snake.
    pub fn snake(&self) -> (s: &Snake)
        ensures
            s@ == self@.snake,
    {
        &self.snake
    }

    /// The points scored since the game began.
    pub fn score(&self) -> (n: u32)
        ensures
            n == self@.score,
    {
        self.score
    }

    /// Whether the game is lost and waits to start over.
    pub fn is_game_over(&self) -> (over: bool)
        ensures
            over == self@.game_over,
    {
        self.game_over
    }

    /// Whether there is food on the board.
    pub fn food_exists(&self) -> (there: bool)
        ensures
            there == self@.food_exists,
    {
        self.food_exists
    }

    /// Where the food is, or last was.
    pub fn food_position(&self) -> (p: (i32, i32))
        ensures
            cell_of(p) == self@.food,
    {
        (self.food_x, self.food_y)
    }

    /// Which of its two colours the food is painted in.
    pub fn food_flashing(&self) -> (flashing: bool)
        ensures
            flashing == self@.food_flashing,
    {
        self.food_flashing
    }

    /// Width of the board in cells.
    pub fn width(&self) -> (w: i32)
        ensures
            w == self@.width,
    {
        self.width
    }

    /// Height of the playable board in cells, footer not counted.
    pub fn height(&self) -> (h: i32)
        ensures
            h == self@.height,
    {
        self.height
    }

    /// Ticks since the last move, or since the game was lost.
    pub fn waiting_time(&self) -> (t: u64)
        ensures
            t == self@.waiting_time,
    {
        self.waiting_time
    }

    /// Ticks since the food last changed colour.
    pub fn flashing_time(&self) -> (t: u64)
        ensures
            t == self@.flashing_time,
    {
        self.flashing_time
    }
}

} // verus!
