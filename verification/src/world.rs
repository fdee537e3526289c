//! The world: a square grid, the snake on it, the reward cell, and the
//! game-status state machine.

use vstd::prelude::*;
use crate::grid::Direction;
use crate::grid::Grid;
use crate::grid::next_cell_spec;
use crate::snake::Snake;

verus! {

/// The phase of a game. A world starts with no status at all; `start_game`
/// puts it into `Running`.
#[derive(Clone, Copy, PartialEq, Eq, Structural, Debug)]
pub enum GameStatus {
    Running,
    Won,
    Lost,
}

/// Mathematical model of a [`World`]: what every contract of the library
/// speaks about.
pub ghost struct WorldModel {
    /// Edge length of the square grid.
    pub size: int,
    /// Cell count of the grid, always `size * size`.
    pub capacity: int,
    /// Snake body cells, head first.
    pub body: Seq<usize>,
    /// Current heading of the snake.
    pub direction: Direction,
    /// The pre-computed next head cell cached by an accepted direction
    /// change, consumed by the next step.
    pub next_cell: Option<usize>,
    /// The reward cell, or `usize::MAX` once no reward can be placed.
    pub reward_cell: usize,
    /// Game status; absent before `start_game`.
    pub status: Option<GameStatus>,
}

impl WorldModel {
    /// The sentinel reward value: no reward cell can be placed any more.
    pub open spec fn no_reward() -> usize {
        usize::MAX
    }

    /// Well-formedness, established at construction and preserved by every
    /// operation: square geometry; a body of at least 3 cells, all on the
    /// grid; a cached next head (if any) that agrees with head and heading;
    /// and a reward cell off the body until the snake fills the grid, the
    /// sentinel afterwards.
    pub open spec fn wf(self) -> bool {
        &&& 2 <= self.size
        &&& self.capacity == self.size * self.size
        &&& self.capacity < usize::MAX as int
        &&& 3 <= self.body.len()
        &&& self.body.len() <= self.capacity + 1
        &&& (forall|i: int|
            0 <= i < self.body.len() ==> ((#[trigger] self.body[i]) as int) < self.capacity)
        &&& (match self.next_cell {
            Some(c) => c as int == next_cell_spec(self.body[0] as int, self.size, self.direction),
            None => true,
        })
        &&& (self.body.len() <= self.capacity ==> {
            &&& (self.reward_cell as int) < self.capacity
            &&& !self.body.contains(self.reward_cell)
        })
        &&& (self.body.len() > self.capacity ==> self.reward_cell == WorldModel::no_reward())
    }
}

/// A well-formed world sits on a square grid: its width and height are one
/// and the same edge length, at least 2, and its cell count is the square
/// of that edge.
pub proof fn lemma_square_grid(m: WorldModel)
    requires
        m.wf(),
    ensures
        2 <= m.size,
        m.capacity == m.size * m.size,
{
}

/// Relies on `rand::random_range` over `0..max`: a uniformly distributed
/// value drawn from the half-open range, hence below `max`. The range must
/// be nonempty, as the call panics on an empty one. Nothing is assumed
/// about which value comes back.
#[verifier::external_body]
fn random_draw(max: usize) -> (r: usize)
    requires
        1 <= max,
    ensures
        r < max,
{
    rand::random_range(0..max)
}

/// Whether `cell` occurs in `body`.
fn contains_cell(body: &Vec<usize>, cell: usize) -> (r: bool)
    ensures
        r == body@.contains(cell),
{
    let mut i: usize = 0;
    while i < body.len()
        invariant
            i <= body@.len(),
            forall|j: int| 0 <= j < i ==> body@[j] != cell,
        decreases body@.len() - i,
    {
        if body[i] == cell {
            return true;
        }
        i = i + 1;
    }
    false
}

/// The world: owns the grid, the snake, the reward cell and the status.
pub struct World {
    grid: Grid,
    snake: Snake,
    next_cell: Option<usize>,
    reward_cell: usize,
    state: Option<GameStatus>,
}

impl View for World {
    type V = WorldModel;

    closed spec fn view(&self) -> WorldModel {
        WorldModel {
            size: self.grid.spec_size(),
            capacity: self.grid.spec_capacity(),
            body: self.snake.body@,
            direction: self.snake.direction,
            next_cell: self.next_cell,
            reward_cell: self.reward_cell,
            status: self.state,
        }
    }
}

/// A body that does not fill the grid leaves at least one cell free.
proof fn lemma_free_cell_exists(body: Seq<usize>, capacity: int)
    requires
        0 < capacity,
        capacity <= usize::MAX as int,
        body.len() < capacity,
    ensures
        exists|c: usize| (c as int) < capacity && !body.contains(c),
{
    broadcast use vstd::seq_lib::seq_to_set_is_finite;

    if !(exists|c: usize| (c as int) < capacity && !body.contains(c)) {
        let ints = body.map_values(|x: usize| x as int);
        let range = vstd::set_lib::set_int_range(0, capacity);
        assert forall|i: int| range.contains(i) implies ints.to_set().contains(i) by {
            let c = i as usize;
            assert(c as int == i);
            assert(body.contains(c));
            let j = choose|j: int| 0 <= j < body.len() && body[j] == c;
            assert(ints[j] == i);
            assert(ints.contains(i));
        }
        vstd::set_lib::lemma_int_range(0, capacity);
        ints.lemma_cardinality_of_set();
        vstd::set_lib::lemma_len_subset(range, ints.to_set());
        assert(capacity <= ints.to_set().len());
        assert(ints.to_set().len() <= body.len());
    }
}

/// The smallest cell index that `body` leaves free. One exists because the
/// body does not fill the grid.
fn first_free_cell(capacity: usize, body: &Vec<usize>) -> (r: usize)
    requires
        body@.len() < capacity,
    ensures
        r < capacity,
        !body@.contains(r),
{
    let mut c: usize = 0;
    while c < capacity
        invariant
            c <= capacity,
            body@.len() < capacity,
            forall|d: usize| d < c ==> body@.contains(d),
        decreases capacity - c,
    {
        if !contains_cell(body, c) {
            return c;
        }
        c = c + 1;
    }
    proof {
        lemma_free_cell_exists(body@, capacity as int);
    }
    0
}

impl World {
    /// Draw random cells until one free of `snake_body` is found; after too
    /// many collisions, settle for the first free cell. The caller keeps
    /// the body strictly smaller than the grid, so a free cell exists and
    /// the expected number of draws is constant.
    fn generate_reward_cell(max: usize, snake_body: &Vec<usize>) -> (r: usize)
        requires
            snake_body@.len() < max,
        ensures
            r < max,
            !snake_body@.contains(r),
    {
        let mut attempts: usize = 0;
        while attempts < max
            invariant
                1 <= max,
            decreases max - attempts,
        {
            let candidate = random_draw(max);
            if !contains_cell(snake_body, candidate) {
                return candidate;
            }
            attempts = attempts + 1;
        }
        first_free_cell(max, snake_body)
    }

    /// A new world on a square grid of edge `grid_size` (clamped to a
    /// minimum of 2), with a 3-cell snake whose head spawns at `snake_idx`,
    /// heading `Down`, a reward cell placed off the body, and no status yet.
    /// The spawn index must lie on the grid and leave room for the two
    /// trailing segments at the next lower raw indices.
    pub fn new(grid_size: usize, snake_idx: usize) -> (w: World)
        requires
            Grid::clamp_size(grid_size as int) * Grid::clamp_size(grid_size as int) < usize::MAX
                as int,
            2 <= snake_idx,
            (snake_idx as int) < Grid::clamp_size(grid_size as int) * Grid::clamp_size(
                grid_size as int,
            ),
        ensures
            w@.wf(),
            w@.size == Grid::clamp_size(grid_size as int),
            w@.capacity == w@.size * w@.size,
            w@.body.len() == 3,
            w@.body[0] == snake_idx,
            w@.body[1] as int == snake_idx - 1,
            w@.body[2] as int == snake_idx - 2,
            w@.direction == Direction::Down,
            w@.next_cell is None,
            w@.status is None,
    {
        let grid = Grid::new(grid_size);
        proof {
            assert(4 <= grid.spec_size() * grid.spec_size()) by (nonlinear_arith)
                requires
                    2 <= grid.spec_size(),
            ;
        }
        let snake = Snake::new(snake_idx, 3);
        let reward_cell = World::generate_reward_cell(grid.capacity(), &snake.body);
        World { grid, snake, next_cell: None, reward_cell, state: None }
    }

    /// Width of the grid: its edge length.
    pub fn width(&self) -> (w: usize)
        ensures
            w as int == self@.size,
    {
        self.grid.size()
    }

    /// Height of the grid: the same edge length, the grid being square.
    pub fn height(&self) -> (h: usize)
        ensures
            h as int == self@.size,
    {
        self.grid.size()
    }

    /// Put the game into `Running`. The transition is unconditional: called
    /// on a world that already has a status, it simply sets `Running` again.
    pub fn start_game(&mut self)
        ensures
            final(self)@.status == Some(GameStatus::Running),
            final(self)@.size == old(self)@.size,
            final(self)@.capacity == old(self)@.capacity,
            final(self)@.body == old(self)@.body,
            final(self)@.direction == old(self)@.direction,
            final(self)@.next_cell == old(self)@.next_cell,
            final(self)@.reward_cell == old(self)@.reward_cell,
            old(self)@.wf() ==> final(self)@.wf(),
    {
        self.state = Some(GameStatus::Running);
    }

    /// The game status, absent before `start_game`.
    pub fn game_status(&self) -> (s: Option<GameStatus>)
        ensures
            s == self@.status,
    {
        self.state
    }

    /// The reward cell, or the sentinel `usize::MAX` once no reward can be
    /// placed any more.
    pub fn reward_cell(&self) -> (r: usize)
        ensures
            r == self@.reward_cell,
    {
        self.reward_cell
    }

    /// The cell under the snake's head.
    pub fn snake_head_idx(&self) -> (h: usize)
        requires
            self@.wf(),
        ensures
            h == self@.body[0],
    {
        self.snake.body[0]
    }

    /// Request a change of heading. The cell the snake would enter next
    /// under `direction` is computed; if that cell is the snake's second
    /// segment — the cell directly behind the head — the request is
    /// silently rejected and nothing changes, so the snake cannot reverse
    /// into itself. Otherwise the heading is updated and the computed cell
    /// is cached as the next head for the coming step.
    pub fn set_snake_direction(&mut self, direction: Direction)
        requires
            old(self)@.wf(),
        ensures
            final(self)@.wf(),
            ({
                let target = next_cell_spec(old(self)@.body[0] as int, old(self)@.size, direction);
                &&& (old(self)@.body[1] as int == target ==> final(self)@ == old(self)@)
                &&& (old(self)@.body[1] as int != target ==> {
                    &&& final(self)@.size == old(self)@.size
                    &&& final(self)@.capacity == old(self)@.capacity
                    &&& final(self)@.body == old(self)@.body
                    &&& final(self)@.reward_cell == old(self)@.reward_cell
                    &&& final(self)@.status == old(self)@.status
                    &&& final(self)@.direction == direction
                    &&& final(self)@.next_cell == Some(target as usize)
                })
            }),
    {
        let next = self.grid.neighbor(self.snake.body[0], direction);
        if self.snake.body[1] == next {
            return;
        }
        self.next_cell = Some(next);
        self.snake.direction = direction;
    }

    /// Advance the game one tick. Unless the status is `Running`, the call
    /// is a no-op. Otherwise the head moves one cell in the current heading
    /// (an accepted direction change has already cached that same cell),
    /// every other segment moves into the cell its predecessor vacated,
    /// and, if the head lands on the reward cell, the snake grows by one
    /// segment duplicating the second segment's cell and a new reward is
    /// placed off the body — or the sentinel, once the snake fills the
    /// grid.
    pub fn step(&mut self)
        requires
            old(self)@.wf(),
        ensures
            final(self)@.wf(),
            old(self)@.status != Some(GameStatus::Running) ==> final(self)@ == old(self)@,
            old(self)@.status == Some(GameStatus::Running) ==> ({
                let m = old(self)@;
                let new_head = next_cell_spec(m.body[0] as int, m.size, m.direction);
                let grew = new_head == m.reward_cell as int;
                &&& final(self)@.size == m.size
                &&& final(self)@.capacity == m.capacity
                &&& final(self)@.direction == m.direction
                &&& final(self)@.status == m.status
                &&& final(self)@.next_cell is None
                &&& final(self)@.body.len() == m.body.len() + (if grew {
                    1int
                } else {
                    0int
                })
                &&& final(self)@.body[0] as int == new_head
                &&& (forall|i: int| 1 <= i < m.body.len() ==> final(self)@.body[i] == m.body[i - 1])
                &&& (grew ==> final(self)@.body[m.body.len() as int] == m.body[0])
                &&& (!grew ==> final(self)@.reward_cell == m.reward_cell)
                &&& (grew && m.body.len() < m.capacity ==> (final(self)@.reward_cell as int)
                    < m.capacity && !final(self)@.body.contains(final(self)@.reward_cell))
                &&& (grew && m.body.len() >= m.capacity ==> final(self)@.reward_cell
                    == WorldModel::no_reward())
            }),
    {
        match self.state {
            Some(GameStatus::Running) => {
                self.update();
            },
            _ => {},
        }
    }

    /// One running tick: move the head, shift the body, grow on reward.
    #[verifier::loop_isolation(false)]
    fn update(&mut self)
        requires
            old(self)@.wf(),
            old(self)@.status == Some(GameStatus::Running),
        ensures
            final(self)@.wf(),
            ({
                let m = old(self)@;
                let new_head = next_cell_spec(m.body[0] as int, m.size, m.direction);
                let grew = new_head == m.reward_cell as int;
                &&& final(self)@.size == m.size
                &&& final(self)@.capacity == m.capacity
                &&& final(self)@.direction == m.direction
                &&& final(self)@.status == m.status
                &&& final(self)@.next_cell is None
                &&& final(self)@.body.len() == m.body.len() + (if grew {
                    1int
                } else {
                    0int
                })
                &&& final(self)@.body[0] as int == new_head
                &&& (forall|i: int| 1 <= i < m.body.len() ==> final(self)@.body[i] == m.body[i - 1])
                &&& (grew ==> final(self)@.body[m.body.len() as int] == m.body[0])
                &&& (!grew ==> final(self)@.reward_cell == m.reward_cell)
                &&& (grew && m.body.len() < m.capacity ==> (final(self)@.reward_cell as int)
                    < m.capacity && !final(self)@.body.contains(final(self)@.reward_cell))
                &&& (grew && m.body.len() >= m.capacity ==> final(self)@.reward_cell
                    == WorldModel::no_reward())
            }),
    {
        proof {
            crate::grid::lemma_next_cell_in_range(
                old(self)@.body[0] as int,
                old(self)@.size,
                old(self)@.direction,
            );
        }
        let new_head: usize;
        match self.next_cell {
            Some(cell) => {
                new_head = cell;
                self.next_cell = None;
            },
            None => {
                new_head = self.grid.neighbor(self.snake.body[0], self.snake.direction);
            },
        }
        let mut new_body: Vec<usize> = Vec::new();
        new_body.push(new_head);
        let mut i: usize = 1;
        while i < self.snake.body.len()
            invariant
                1 <= i <= self.snake.body@.len(),
                new_body@.len() == i,
                new_body@[0] == new_head,
                forall|j: int| 1 <= j < i ==> new_body@[j] == self.snake.body@[j - 1],
            decreases self.snake.body@.len() - i,
        {
            let v = self.snake.body[i - 1];
            new_body.push(v);
            i = i + 1;
        }
        self.snake.body = new_body;
        if new_head == self.reward_cell {
            if self.snake.body.len() < self.grid.capacity() {
                self.reward_cell = World::generate_reward_cell(
                    self.grid.capacity(),
                    &self.snake.body,
                );
            } else {
                self.reward_cell = usize::MAX;
            }
            let dup = self.snake.body[1];
            self.snake.body.push(dup);
        }
    }

    /// The snake's body cells, head first, as a fresh vector.
    pub fn snake_cells(&self) -> (cells: Vec<usize>)
        ensures
            cells@ == self@.body,
    {
        let mut cells: Vec<usize> = Vec::new();
        let mut i: usize = 0;
        while i < self.snake.body.len()
            invariant
                i <= self.snake.body@.len(),
                cells@.len() == i,
                forall|j: int| 0 <= j < i ==> cells@[j] == self.snake.body@[j],
            decreases self.snake.body@.len() - i,
        {
            cells.push(self.snake.body[i]);
            i = i + 1;
        }
        proof {
            assert(cells@ =~= self@.body);
        }
        cells
    }
}

} // verus!

