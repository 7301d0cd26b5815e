//! The snake of a snake game on a square board: where it is, where it
//! heads, and what one move does to it.

use std::collections::VecDeque;
use vstd::prelude::*;

verus! {

/// The number of cells along each side of the board.
pub const BOARD_SIZE: i32 = 10;

/// Why a move ended the game.
#[derive(Clone, Copy, Debug, PartialEq, Eq, Structural)]
pub enum SnakeUpdateError {
    /// The head would leave the board.
    OutOfBounds,
    /// The head would enter a cell that the snake occupies.
    HitItSelf,
}

/// Where the snake heads. `Up` is towards row zero.
#[derive(Clone, Copy, Debug, PartialEq, Eq, Structural)]
pub enum Direction {
    Right,
    Left,
    Up,
    Down,
}

/// A snake: its cells from head to tail, as column and row, and its heading.
#[derive(Debug)]
pub struct Snake {
    pub body: VecDeque<(i32, i32)>,
    pub dir: Direction,
}

/// Whether a cell lies on the board.
pub open spec fn on_board(cell: (int, int)) -> bool {
    0 <= cell.0 < BOARD_SIZE && 0 <= cell.1 < BOARD_SIZE
}

impl Snake {
    /// The cell next to the head in the direction of the heading.
    pub open spec fn ahead(self) -> (int, int)
        recommends
            self.body@.len() > 0,
    {
        let head = self.body@[0];
        match self.dir {
            Direction::Left => (head.0 - 1, head.1 as int),
            Direction::Right => (head.0 + 1, head.1 as int),
            Direction::Up => (head.0 as int, head.1 - 1),
            Direction::Down => (head.0 as int, head.1 + 1),
        }
    }

    /// The snake at the start of a game: two cells in the first column,
    /// heading right.
    pub fn new() -> (snake: Snake)
        ensures
            snake.body@ == seq![(0i32, 0i32), (0i32, 1i32)],
            snake.dir == Direction::Right,
    {
        let mut body: VecDeque<(i32, i32)> = VecDeque::new();
        body.push_back((0, 0));
        body.push_back((0, 1));
        assert(body@ =~= seq![(0i32, 0i32), (0i32, 1i32)]);
        Snake { body, dir: Direction::Right }
    }

    /// Whether the snake occupies `position`.
    pub fn is_at(&self, position: (i32, i32)) -> (occupied: bool)
        ensures
            occupied == self.body@.contains(position),
    {
        let mut i: usize = 0;
        while i < self.body.len()
            invariant
                i <= self.body@.len(),
                forall|j: int| 0 <= j < i ==> self.body@[j] != position,
            decreases self.body@.len() - i,
        {
            let cell = self.body[i];
            if cell.0 == position.0 && cell.1 == position.1 {
                assert(self.body@[i as int] == position);
                return true;
            }
            i = i + 1;
        }
        false
    }

    /// Moves the snake one cell ahead. The move fails, and leaves the snake
    /// as it is, where the head would leave the board or enter a cell of
    /// the snake. Otherwise the head advances; the tail follows unless the
    /// head has reached the food, which the result reports.
    pub fn update(&mut self, food_at: (i32, i32)) -> (result: Result<bool, SnakeUpdateError>)
        requires
            old(self).body@.len() > 0,
        ensures
            final(self).dir == old(self).dir,
            match result {
                Err(SnakeUpdateError::OutOfBounds) => {
                    &&& !on_board(old(self).ahead())
                    &&& final(self).body@ == old(self).body@
                },
                Err(SnakeUpdateError::HitItSelf) => {
                    &&& on_board(old(self).ahead())
                    &&& old(self).body@.contains(
                        (old(self).ahead().0 as i32, old(self).ahead().1 as i32),
                    )
                    &&& final(self).body@ == old(self).body@
                },
                Ok(ate) => {
                    let head = (old(self).ahead().0 as i32, old(self).ahead().1 as i32);
                    &&& on_board(old(self).ahead())
                    &&& !old(self).body@.contains(head)
                    &&& ate == (head == food_at)
                    &&& final(self).body@ == seq![head] + if ate {
                        old(self).body@
                    } else {
                        old(self).body@.drop_last()
                    }
                },
            },
    {
        let head = self.body[0];
        let (x, y): (i64, i64) = match self.dir {
            Direction::Left => (head.0 as i64 - 1, head.1 as i64),
            Direction::Right => (head.0 as i64 + 1, head.1 as i64),
            Direction::Up => (head.0 as i64, head.1 as i64 - 1),
            Direction::Down => (head.0 as i64, head.1 as i64 + 1),
        };
        if x < 0 || y < 0 || x >= BOARD_SIZE as i64 || y >= BOARD_SIZE as i64 {
            return Err(SnakeUpdateError::OutOfBounds);
        }
        let new_head = (x as i32, y as i32);
        if self.is_at(new_head) {
            return Err(SnakeUpdateError::HitItSelf);
        }
        self.body.push_front(new_head);
        if new_head.0 != food_at.0 || new_head.1 != food_at.1 {
            let _ = self.body.pop_back();
            assert(self.body@ =~= seq![new_head] + old(self).body@.drop_last());
            Ok(false)
        } else {
            Ok(true)
        }
    }
}

} // verus!
