//! The whole game: the snake, the apple, the score and the run state, with
//! one frame's worth of input handling and one simulation step.

use vstd::prelude::*;

use crate::geometry::Direction;
use crate::geometry::Point;
use crate::rng::random_point;
use crate::snake::Snake;
use crate::snake::advances;
use crate::snake::next_heading;

verus! {

/// Whether the game is running, paused, or over. `Lost` is terminal.
#[derive(Clone, Copy, Debug, PartialEq, Eq, Structural)]
pub enum GameState {
    Running,
    Paused,
    Lost,
}

/// A key the model reacts to; everything else arrives as `Other` and is
/// ignored.
#[derive(Clone, Copy, Debug, PartialEq, Eq, Structural)]
pub enum Key {
    Up,
    Down,
    Left,
    Right,
    Space,
    Other,
}

/// The heading a key requests, if it requests one.
pub open spec fn key_heading(key: Key) -> Option<Direction> {
    match key {
        Key::Up => Some(Direction::Up),
        Key::Down => Some(Direction::Down),
        Key::Left => Some(Direction::Left),
        Key::Right => Some(Direction::Right),
        Key::Space => None,
        Key::Other => None,
    }
}

/// What the pause key does to the run state: it toggles between running and
/// paused, and a lost game stays lost.
pub open spec fn toggled(s: GameState) -> GameState {
    match s {
        GameState::Running => GameState::Paused,
        GameState::Paused => GameState::Running,
        GameState::Lost => GameState::Lost,
    }
}

pub struct Game {
    pub state: GameState,
    pub snake: Snake,
    pub apple: Point,
    pub score: u32,
}

impl Game {
    pub open spec fn wf(self) -> bool {
        self.snake.wf()
    }

    /// True when the snake's head sits on the apple.
    pub open spec fn eats(self) -> bool {
        self.snake.body@[0] == self.apple
    }

    /// A fresh game: a one-segment snake at (3, 3) heading right, a random
    /// apple somewhere on the board, no score.
    pub fn new() -> (g: Game)
        ensures
            g.wf(),
            g.state == GameState::Running,
            g.snake.body@.len() == 1,
            g.snake.body@[0] == (Point { x: 3, y: 3 }),
            g.snake.moved == Direction::Right,
            g.snake.moving == Direction::Right,
            g.apple.in_grid(),
            g.score == 0,
    {
        Game {
            state: GameState::Running,
            snake: Snake::new(3, 3),
            apple: random_point(),
            score: 0,
        }
    }

    /// One key press: the pause key toggles the run state, an arrow key
    /// requests a heading change (subject to the reversal guard), and any
    /// other key does nothing.
    pub fn handle_key_press(&mut self, key: Key)
        ensures
            final(self).snake.body@ == old(self).snake.body@,
            final(self).snake.moved == old(self).snake.moved,
            final(self).apple == old(self).apple,
            final(self).score == old(self).score,
            final(self).state == (if key == Key::Space {
                toggled(old(self).state)
            } else {
                old(self).state
            }),
            final(self).snake.moving == (match key_heading(key) {
                Some(d) => next_heading(old(self).snake, d),
                None => old(self).snake.moving,
            }),
    {
        match key {
            Key::Space => {
                self.state = match self.state {
                    GameState::Running => GameState::Paused,
                    GameState::Paused => GameState::Running,
                    GameState::Lost => GameState::Lost,
                };
            },
            Key::Up => self.snake.change_direction(Direction::Up),
            Key::Down => self.snake.change_direction(Direction::Down),
            Key::Left => self.snake.change_direction(Direction::Left),
            Key::Right => self.snake.change_direction(Direction::Right),
            Key::Other => {},
        }
    }

    /// One frame's simulation step. A game that is not running is left
    /// untouched: pause freezes the snake and a lost game is terminal. In a
    /// running game the snake ticks once — a head on the apple grows the
    /// snake by one, adds the grown body's length to the score and replaces
    /// the apple at random; otherwise the snake moves at constant length —
    /// and the game is lost exactly when the snake collides after the tick.
    pub fn update(&mut self)
        requires
            old(self).wf(),
            old(self).state == GameState::Running ==> i32::MIN < old(self).snake.body@[0].x
                < i32::MAX,
            old(self).state == GameState::Running ==> i32::MIN < old(self).snake.body@[0].y
                < i32::MAX,
            old(self).state == GameState::Running && old(self).eats() ==> old(self).score + old(
                self,
            ).snake.body@.len() + 1 <= u32::MAX,
        ensures
            final(self).wf(),
            old(self).state != GameState::Running ==> final(self).state == old(self).state,
            old(self).state != GameState::Running ==> final(self).snake.body@ == old(
                self,
            ).snake.body@,
            old(self).state != GameState::Running ==> final(self).snake.moved == old(
                self,
            ).snake.moved,
            old(self).state != GameState::Running ==> final(self).snake.moving == old(
                self,
            ).snake.moving,
            old(self).state != GameState::Running ==> final(self).apple == old(self).apple,
            old(self).state != GameState::Running ==> final(self).score == old(self).score,
            old(self).state == GameState::Running ==> final(self).state == (if final(self).snake.colliding_spec() {
                GameState::Lost
            } else {
                GameState::Running
            }),
            old(self).state == GameState::Running && old(self).eats() ==> final(self).score == old(
                self,
            ).score + old(self).snake.body@.len() + 1,
            old(self).state == GameState::Running && old(self).eats()
                ==> final(self).apple.in_grid(),
            old(self).state == GameState::Running && old(self).eats() ==> advances(
                old(self).snake,
                true,
                final(self).snake,
            ),
            old(self).state == GameState::Running && !old(self).eats() ==> final(self).score == old(
                self,
            ).score,
            old(self).state == GameState::Running && !old(self).eats() ==> final(self).apple == old(
                self,
            ).apple,
            old(self).state == GameState::Running && !old(self).eats() ==> advances(
                old(self).snake,
                false,
                final(self).snake,
            ),
    {
        if self.state != GameState::Running {
            return ;
        }

        if self.snake.on_apple(&self.apple) {
            self.snake.update(true);
            self.score = self.score + (self.snake.body.len() as u32);
            self.apple = random_point();
        } else {
            self.snake.update(false);
        }

        if self.snake.colliding() {
            self.state = GameState::Lost;
        }
    }
}

} // verus!
