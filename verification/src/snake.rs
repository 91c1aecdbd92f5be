//! The snake component: an ordered body of grid cells and a heading.
//!
//! The snake knows nothing of board bounds, food or game state; it only
//! maintains its body geometry and answers movement and collision queries.
//! Growth is deferred by one move: eating sets a pending flag, and the next
//! move keeps its last cell instead of dropping it.

use vstd::prelude::*;

verus! {

/// One discrete grid cell, addressed by integer coordinates.
#[derive(Clone, Copy, PartialEq, Eq, Structural, Debug)]
pub struct Block {
    pub x: i32,
    pub y: i32,
}

/// A heading, also used as a one-step unit displacement.
#[derive(Clone, Copy, PartialEq, Eq, Structural, Debug)]
pub enum Direction {
    Up,
    Down,
    Left,
    Right,
}

impl Direction {
    /// The fixed involution Up <-> Down, Left <-> Right.
    pub open spec fn opposite_spec(self) -> Direction {
        match self {
            Direction::Up => Direction::Down,
            Direction::Down => Direction::Up,
            Direction::Left => Direction::Right,
            Direction::Right => Direction::Left,
        }
    }

    pub fn opposite(&self) -> (r: Direction)
        ensures
            r == self.opposite_spec(),
    {
        match self {
            Direction::Up => Direction::Down,
            Direction::Down => Direction::Up,
            Direction::Left => Direction::Right,
            Direction::Right => Direction::Left,
        }
    }
}

/// Two cells differ by exactly one unit in exactly one axis.
pub open spec fn adjacent(a: Block, b: Block) -> bool {
    ||| (a.x == b.x && (a.y - b.y == 1 || b.y - a.y == 1))
    ||| (a.y == b.y && (a.x - b.x == 1 || b.x - a.x == 1))
}

/// The cell one step from `b` in direction `d`, with wrapping casts that the
/// `can_step` bound renders exact.
pub open spec fn step_block(b: Block, d: Direction) -> Block {
    match d {
        Direction::Up => Block { x: b.x, y: (b.y - 1) as i32 },
        Direction::Down => Block { x: b.x, y: (b.y + 1) as i32 },
        Direction::Left => Block { x: (b.x - 1) as i32, y: b.y },
        Direction::Right => Block { x: (b.x + 1) as i32, y: b.y },
    }
}

/// `b` can move one cell in any direction without leaving `i32`.
pub open spec fn can_step(b: Block) -> bool {
    i32::MIN < b.x < i32::MAX && i32::MIN < b.y < i32::MAX
}

/// The mathematical value of a [`Snake`]: its body as a sequence of cells,
/// head first, plus heading, dropped-tail cache and pending-growth flag.
pub ghost struct SnakeModel {
    pub body: Seq<Block>,
    pub direction: Direction,
    pub tail: Option<Block>,
    pub growth_pending: bool,
}

impl SnakeModel {
    /// The body is non-empty and forms a geometrically continuous path.
    pub open spec fn wf(self) -> bool {
        &&& self.body.len() >= 1
        &&& forall|i: int|
            0 <= i < self.body.len() - 1 ==> adjacent(#[trigger] self.body[i], self.body[i + 1])
    }

    /// The heading a move would take: `dir` if supplied, else the current one.
    pub open spec fn heading_of(self, dir: Option<Direction>) -> Direction {
        match dir {
            Some(d) => d,
            None => self.direction,
        }
    }

    /// The candidate next head cell of a move.
    pub open spec fn next_head_spec(self, dir: Option<Direction>) -> Block
        recommends
            self.body.len() >= 1,
    {
        step_block(self.body[0], self.heading_of(dir))
    }

    /// Whether `(x, y)` equals any cell currently in the body.
    pub open spec fn overlaps(self, x: i32, y: i32) -> bool {
        exists|i: int| 0 <= i < self.body.len() && self.body[i] == (Block { x, y })
    }

    /// One move: the new head is pushed in front; the last cell is dropped
    /// into the tail cache unless growth is pending, in which case it stays
    /// and the body grows by one.
    pub open spec fn move_spec(self, dir: Option<Direction>) -> SnakeModel
        recommends
            self.body.len() >= 1,
    {
        let nh = self.next_head_spec(dir);
        if self.growth_pending {
            SnakeModel {
                body: seq![nh] + self.body,
                direction: self.heading_of(dir),
                tail: self.tail,
                growth_pending: false,
            }
        } else {
            SnakeModel {
                body: seq![nh] + self.body.drop_last(),
                direction: self.heading_of(dir),
                tail: Some(self.body.last()),
                growth_pending: false,
            }
        }
    }

    /// The 3-cell spawn shape: head at `(x, y)`, trailing horizontally to the
    /// left, heading Right.
    pub open spec fn initial(x: i32, y: i32) -> SnakeModel {
        SnakeModel {
            body: seq![
                Block { x, y },
                Block { x: (x - 1) as i32, y },
                Block { x: (x - 2) as i32, y },
            ],
            direction: Direction::Right,
            tail: None,
            growth_pending: false,
        }
    }
}

/// The snake: ordered body of occupied cells (head first), current heading,
/// the most recently dropped tail cell, and the pending-growth flag.
pub struct Snake {
    pub body: Vec<Block>,
    pub direction: Direction,
    pub tail: Option<Block>,
    pub growth_pending: bool,
}

impl View for Snake {
    type V = SnakeModel;

    open spec fn view(&self) -> SnakeModel {
        SnakeModel {
            body: self.body@,
            direction: self.direction,
            tail: self.tail,
            growth_pending: self.growth_pending,
        }
    }
}

impl Snake {
    /// A snake spawned with its head at `(x, y)`: a 3-cell horizontal body,
    /// heading Right.
    pub fn new(x: i32, y: i32) -> (s: Snake)
        requires
            i32::MIN + 2 <= x,
        ensures
            s@ == SnakeModel::initial(x, y),
            s@.wf(),
    {
        let mut body: Vec<Block> = Vec::new();
        body.push(Block { x, y });
        body.push(Block { x: x - 1, y });
        body.push(Block { x: x - 2, y });
        let s = Snake { body, direction: Direction::Right, tail: None, growth_pending: false };
        proof {
            assert(s@.body =~= SnakeModel::initial(x, y).body);
        }
        s
    }

    /// The front cell of the body.
    pub fn head_position(&self) -> (r: (i32, i32))
        requires
            self@.wf(),
        ensures
            r.0 == self@.body[0].x,
            r.1 == self@.body[0].y,
    {
        let h = self.body[0];
        (h.x, h.y)
    }

    /// The current heading.
    pub fn head_direction(&self) -> (r: Direction)
        ensures
            r == self@.direction,
    {
        self.direction
    }

    /// The candidate next head cell, using `dir` if supplied, else the
    /// current heading. Pure: no mutation.
    pub fn next_head(&self, dir: Option<Direction>) -> (r: (i32, i32))
        requires
            self@.wf(),
            can_step(self@.body[0]),
        ensures
            r.0 == self@.next_head_spec(dir).x,
            r.1 == self@.next_head_spec(dir).y,
    {
        let h = self.body[0];
        let d = match dir {
            Some(d) => d,
            None => self.direction,
        };
        match d {
            Direction::Up => (h.x, h.y - 1),
            Direction::Down => (h.x, h.y + 1),
            Direction::Left => (h.x - 1, h.y),
            Direction::Right => (h.x + 1, h.y),
        }
    }

    /// Slide the body forward one cell: set the heading to `dir` if supplied,
    /// push the new head, and drop the last cell into the tail cache — unless
    /// growth is pending, in which case the last cell stays.
    pub fn move_forward(&mut self, dir: Option<Direction>)
        requires
            old(self)@.wf(),
            can_step(old(self)@.body[0]),
        ensures
            final(self)@ == old(self)@.move_spec(dir),
            final(self)@.wf(),
    {
        proof {
            lemma_move_preserves_wf(self@, dir);
        }
        if let Some(d) = dir {
            self.direction = d;
        }
        let h = self.body[0];
        let nh = match self.direction {
            Direction::Up => Block { x: h.x, y: h.y - 1 },
            Direction::Down => Block { x: h.x, y: h.y + 1 },
            Direction::Left => Block { x: h.x - 1, y: h.y },
            Direction::Right => Block { x: h.x + 1, y: h.y },
        };
        self.body.insert(0, nh);
        if self.growth_pending {
            self.growth_pending = false;
            proof {
                assert(self@.body =~= old(self)@.move_spec(dir).body);
            }
        } else {
            let last_idx = self.body.len() - 1;
            let last = self.body.remove(last_idx);
            self.tail = Some(last);
            proof {
                assert(self@.body =~= old(self)@.move_spec(dir).body);
            }
        }
    }

    /// Enqueue growth: on the next move the last cell is kept, so the body
    /// grows by one cell one move after eating, not immediately.
    pub fn restore_tail(&mut self)
        ensures
            final(self)@ == (SnakeModel { growth_pending: true, ..old(self)@ }),
    {
        self.growth_pending = true;
    }

    /// Whether `(x, y)` equals any cell currently in the body; used both for
    /// self-collision and for food-placement rejection.
    pub fn overlap_tail(&self, x: i32, y: i32) -> (r: bool)
        ensures
            r == self@.overlaps(x, y),
    {
        let mut i: usize = 0;
        while i < self.body.len()
            invariant
                0 <= i <= self@.body.len(),
                forall|j: int| 0 <= j < i ==> self@.body[j] != (Block { x, y }),
            decreases self@.body.len() - i,
        {
            let b = self.body[i];
            if b.x == x && b.y == y {
                return true;
            }
            i = i + 1;
        }
        false
    }
}

/// A move keeps the snake well-formed: the new head is adjacent to the old
/// one, and the rest of the path is a shifted copy of a path that was already
/// continuous.
pub proof fn lemma_move_preserves_wf(s: SnakeModel, dir: Option<Direction>)
    requires
        s.wf(),
        can_step(s.body[0]),
    ensures
        s.move_spec(dir).wf(),
{
    let m = s.move_spec(dir);
    let nh = s.next_head_spec(dir);
    assert(adjacent(nh, s.body[0]));
    assert forall|i: int| 0 <= i < m.body.len() - 1 implies adjacent(
        #[trigger] m.body[i],
        m.body[i + 1],
    ) by {
        if i == 0 {
            assert(m.body[0] == nh);
            assert(m.body[1] == s.body[0]);
        } else {
            assert(m.body[i] == s.body[i - 1]);
            assert(m.body[i + 1] == s.body[i]);
            assert(adjacent(s.body[i - 1], s.body[i]));
        }
    }
}

} // verus!
