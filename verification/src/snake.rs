//! The snake: a direction and an ordered body of grid positions.

use vstd::prelude::*;

use crate::game::Point;
use crate::linked_list::LinkedList;

verus! {

/// The four directions a snake can face.
#[derive(Debug, Clone, Copy, PartialEq, Eq, Structural)]
pub enum Direction {
    Up,
    Down,
    Left,
    Right,
}

/// The snake: its body, head first, and the direction of its next step.
pub struct Snake {
    pub body: LinkedList<Point>,
    pub direction: Direction,
}

/// The cell one step away from `head` in direction `dir`.
pub open spec fn next_point(head: Point, dir: Direction) -> Point {
    match dir {
        Direction::Up => Point { x: head.x, y: (head.y - 1) as i32 },
        Direction::Down => Point { x: head.x, y: (head.y + 1) as i32 },
        Direction::Left => Point { x: (head.x - 1) as i32, y: head.y },
        Direction::Right => Point { x: (head.x + 1) as i32, y: head.y },
    }
}

/// The step from `head` in direction `dir` stays within the machine integers.
pub open spec fn step_fits(head: Point, dir: Direction) -> bool {
    match dir {
        Direction::Up => head.y > i32::MIN,
        Direction::Down => head.y < i32::MAX,
        Direction::Left => head.x > i32::MIN,
        Direction::Right => head.x < i32::MAX,
    }
}

/// The head coincides with a later body segment.
pub open spec fn self_collision(body: Seq<Point>) -> bool {
    exists|i: int| 1 <= i < body.len() && #[trigger] body[i] == body[0]
}

impl Clone for Snake {
    /// A deep copy: same body sequence, same direction, no shared storage.
    fn clone(&self) -> (r: Self)
        ensures
            r.body@ == self.body@,
            r.direction == self.direction,
    {
        Snake { body: self.body.clone(), direction: self.direction }
    }
}

impl Snake {
    /// A one-segment snake at the grid origin, headed down.
    pub fn new() -> (r: Self)
        ensures
            r.body@ == seq![Point { x: 0, y: 0 }],
            r.direction == Direction::Down,
    {
        Snake {
            body: LinkedList::new(Some(Point { x: 0, y: 0 })),
            direction: Direction::Down,
        }
    }

    /// Advances the body one cell in the current direction: the new head is
    /// pushed to the front and the old tail drops off, so the length does not
    /// change.
    pub fn slither(&mut self)
        requires
            old(self).body@.len() >= 1,
            step_fits(old(self).body@[0], old(self).direction),
        ensures
            final(self).direction == old(self).direction,
            final(self).body@ == seq![
                next_point(old(self).body@[0], old(self).direction),
            ] + old(self).body@.drop_last(),
            final(self).body@.len() == old(self).body@.len(),
    {
        let mut head = self.body.front().unwrap();
        match self.direction {
            Direction::Up => head.y = head.y - 1,
            Direction::Down => head.y = head.y + 1,
            Direction::Left => head.x = head.x - 1,
            Direction::Right => head.x = head.x + 1,
        }
        self.body.push_front(head);
        self.body.pop_back();
        proof {
            assert(final(self).body@ =~= seq![
                next_point(old(self).body@[0], old(self).direction),
            ] + old(self).body@.drop_last());
        }
    }

    /// Whether the head hits any later segment of the body.
    pub fn check_self_collision(&self) -> (r: bool)
        requires
            self.body@.len() >= 1,
        ensures
            r == self_collision(self.body@),
    {
        let head = self.body.front().unwrap();
        let n = self.body.len();
        for i in 1..n
            invariant
                n == self.body@.len(),
                1 <= n,
                head == self.body@[0],
                forall|j: int| 1 <= j < i ==> #[trigger] self.body@[j] != self.body@[0],
        {
            let seg = self.body.get(i);
            if seg.x == head.x && seg.y == head.y {
                return true;
            }
        }
        false
    }
}

} // verus!
