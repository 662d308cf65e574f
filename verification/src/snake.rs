//! The snake: an ordered, head-first body of grid points together with the
//! committed and the pending heading, and the rules for moving, growing,
//! changing direction and detecting collisions.

use std::collections::VecDeque;
use vstd::prelude::*;

use crate::geometry::Direction;
use crate::geometry::Point;

verus! {

/// The snake's state between ticks.
///
/// `body[0]` is the head. `moved` is the heading of the most recently
/// completed tick; `moving` is the pending heading the next tick will use.
pub struct Snake {
    pub body: VecDeque<Point>,
    pub moved: Direction,
    pub moving: Direction,
}

/// The pending heading after a direction-change request: the request is
/// ignored when it would reverse the last committed heading.
pub open spec fn next_heading(s: Snake, direction: Direction) -> Direction {
    if s.moved == direction.opposite_spec() {
        s.moving
    } else {
        direction
    }
}

/// How one tick relates the old snake to the new one: the head advances one
/// cell along the pending heading, every other segment takes the place of
/// its predecessor, the tail is kept exactly when the snake grew, and the
/// pending heading becomes the committed one.
pub open spec fn advances(pre: Snake, grew: bool, post: Snake) -> bool {
    &&& post.body@.len() == pre.body@.len() + (if grew {
        1int
    } else {
        0int
    })
    &&& post.body@[0].x as int == pre.body@[0].x + pre.moving.dx()
    &&& post.body@[0].y as int == pre.body@[0].y + pre.moving.dy()
    &&& (forall|i: int| 1 <= i < post.body@.len() ==> post.body@[i] == pre.body@[i - 1])
    &&& post.moved == pre.moving
    &&& post.moving == pre.moving
}

impl Snake {
    /// A snake is never empty.
    pub open spec fn wf(self) -> bool {
        self.body@.len() >= 1
    }

    /// True when the snake has run into itself or off the board: the head
    /// position occurs again elsewhere in the body, or lies outside the grid.
    pub open spec fn colliding_spec(self) -> bool {
        (exists|i: int| 1 <= i < self.body@.len() && #[trigger] self.body@[i] == self.body@[0])
            || !self.body@[0].in_grid()
    }

    /// A one-segment snake heading right, at the given cell.
    pub fn new(x: i32, y: i32) -> (s: Snake)
        ensures
            s.wf(),
            s.body@.len() == 1,
            s.body@[0] == (Point { x, y }),
            s.moved == Direction::Right,
            s.moving == Direction::Right,
    {
        let mut snake = Snake {
            body: VecDeque::with_capacity(15),
            moved: Direction::Right,
            moving: Direction::Right,
        };
        snake.body.push_front(Point::new(x, y));
        snake
    }

    /// Requests a new heading. The request is ignored when it is the reverse
    /// of the last committed heading, which would be an unavoidable
    /// self-collision; otherwise it becomes the pending heading.
    pub fn change_direction(&mut self, direction: Direction)
        ensures
            final(self).body@ == old(self).body@,
            final(self).moved == old(self).moved,
            final(self).moving == next_heading(*old(self), direction),
    {
        if self.moved != direction.opposite() {
            self.moving = direction;
        }
    }

    /// One tick: the head advances one cell along the pending heading. When
    /// `grew` holds the body keeps its tail and lengthens by one; otherwise
    /// the oldest segment is dropped and the length is unchanged. The pending
    /// heading is committed.
    pub fn update(&mut self, grew: bool)
        requires
            old(self).wf(),
            i32::MIN < old(self).body@[0].x < i32::MAX,
            i32::MIN < old(self).body@[0].y < i32::MAX,
        ensures
            final(self).wf(),
            advances(*old(self), grew, *final(self)),
    {
        let head: Point = self.body[0];
        let delta: Point = self.moving.to_point();
        let next = Point { x: head.x + delta.x, y: head.y + delta.y };

        if !grew {
            self.body.pop_back();
        }

        self.body.push_front(next);

        self.moved = self.moving;
    }

    /// True when the head sits on the given apple.
    pub fn on_apple(&self, apple: &Point) -> (r: bool)
        requires
            self.wf(),
        ensures
            r == (self.body@[0] == *apple),
    {
        self.body[0] == *apple
    }

    /// True when the snake has run into itself or left the board.
    pub fn colliding(&self) -> (r: bool)
        requires
            self.wf(),
        ensures
            r == self.colliding_spec(),
    {
        let head: Point = self.body[0];
        let mut i: usize = 1;
        while i < self.body.len()
            invariant
                self.wf(),
                head == self.body@[0],
                1 <= i <= self.body@.len(),
                forall|j: int| 1 <= j < i ==> #[trigger] self.body@[j] != self.body@[0],
            decreases self.body@.len() - i,
        {
            if self.body[i] == head {
                proof {
                    assert(self.body@[i as int] == self.body@[0]);
                }
                return true;
            }
            i += 1;
        }
        head.x < 0 || head.y < 0 || head.x > 31 || head.y > 23
    }
}

/// A tick never changes the body's length when the snake did not grow, and
/// lengthens it by exactly one when it did.
pub proof fn lemma_tick_length(pre: Snake, grew: bool, post: Snake)
    requires
        advances(pre, grew, post),
    ensures
        post.body@.len() == pre.body@.len() + (if grew {
            1int
        } else {
            0int
        }),
{
}

/// After a tick the head stands exactly one cell from the previous head
/// along the heading that the tick committed.
pub proof fn lemma_tick_head(pre: Snake, grew: bool, post: Snake)
    requires
        advances(pre, grew, post),
    ensures
        post.moved == pre.moving,
        post.body@[0].x as int == pre.body@[0].x + post.moved.dx(),
        post.body@[0].y as int == pre.body@[0].y + post.moved.dy(),
{
}

/// The reversal guard: requesting the opposite of the last committed heading
/// never changes the pending heading, for every heading.
pub proof fn lemma_reversal_guard(s: Snake)
    ensures
        next_heading(s, s.moved.opposite_spec()) == s.moving,
{
    crate::geometry::lemma_opposite_involutive(s.moved);
}

/// A one-segment snake on the board never collides, and a snake whose head
/// is off the board always collides, whatever the body holds.
pub proof fn lemma_collision_bounds(s: Snake)
    requires
        s.wf(),
    ensures
        s.body@.len() == 1 && s.body@[0].in_grid() ==> !s.colliding_spec(),
        !s.body@[0].in_grid() ==> s.colliding_spec(),
{
}

/// For a snake whose head is on the board, collision holds exactly when the
/// head's position occurs again elsewhere in the body.
pub proof fn lemma_collision_is_self_overlap(s: Snake)
    requires
        s.wf(),
        s.body@[0].in_grid(),
    ensures
        s.colliding_spec() <==> (exists|i: int|
            1 <= i < s.body@.len() && #[trigger] s.body@[i] == s.body@[0]),
{
}

} // verus!
