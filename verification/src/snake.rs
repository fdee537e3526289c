//! The snake: an ordered body of cell indices, head first, and the current
//! heading.

use vstd::prelude::*;
use crate::grid::Direction;

verus! {

/// The snake's state: its body as cell indices, head first, tail last, and
/// its current heading. Movement logic lives with the world; the snake only
/// knows its own layout.
pub struct Snake {
    /// Body cells, head first. Never empty; never shrinks during a game.
    pub body: Vec<usize>,
    /// Current heading, changed only through the world's validated
    /// direction change.
    pub direction: Direction,
}

impl Snake {
    /// A fresh snake of `length` cells: the head at `spawn_index`, each
    /// following segment at the cell with the next lower raw index, and the
    /// default heading `Down`. The spawn index must leave room for the body
    /// in raw index order.
    pub fn new(spawn_index: usize, length: usize) -> (s: Snake)
        requires
            1 <= length,
            length - 1 <= spawn_index as int,
        ensures
            s.body@.len() == length,
            forall|i: int| 0 <= i < length ==> s.body@[i] as int == spawn_index - i,
            s.direction == Direction::Down,
    {
        let mut body: Vec<usize> = Vec::new();
        let mut i: usize = 0;
        while i < length
            invariant
                i <= length,
                length - 1 <= spawn_index as int,
                body@.len() == i,
                forall|j: int| 0 <= j < i ==> body@[j] as int == spawn_index - j,
            decreases length - i,
        {
            body.push(spawn_index - i);
            i = i + 1;
        }
        Snake { body, direction: Direction::Down }
    }
}

} // verus!
