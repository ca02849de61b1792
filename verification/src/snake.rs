//! The snake: an ordered body of grid cells, head first, and a heading.

use crate::draw::{Color, DrawCommand};
use std::collections::VecDeque;
use vstd::prelude::*;

verus! {

/// A heading on the grid. The y axis points down: `Up` lowers y.
#[derive(Clone, Copy, Debug, PartialEq, Eq, Structural)]
pub enum Direction {
    Up,
    Down,
    Left,
    Right,
}

impl Direction {
    /// The heading that points the other way: `Up` pairs with `Down`,
    /// `Left` with `Right`.
    pub open spec fn spec_opposite(&self) -> Direction {
        match *self {
            Direction::Up => Direction::Down,
            Direction::Down => Direction::Up,
            Direction::Left => Direction::Right,
            Direction::Right => Direction::Left,
        }
    }

    /// The heading that points the other way.
    #[verifier::when_used_as_spec(spec_opposite)]
    pub fn opposite(&self) -> (d: Direction)
        ensures
            d == self.spec_opposite(),
    {
        match *self {
            Direction::Up => Direction::Down,
            Direction::Down => Direction::Up,
            Direction::Left => Direction::Right,
            Direction::Right => Direction::Left,
        }
    }

    /// The one-cell step that a move in this direction adds to a position.
    pub open spec fn offset(&self) -> (int, int) {
        match *self {
            Direction::Up => (0, -1),
            Direction::Down => (0, 1),
            Direction::Left => (-1, 0),
            Direction::Right => (1, 0),
        }
    }

    /// Turning around twice gives the heading one started with.
    pub proof fn opposite_is_involution(self)
        ensures
            self.opposite().opposite() == self,
    {
    }
}

/// The grid cell that a pair of coordinates names.
pub open spec fn cell_of(c: (i32, i32)) -> (int, int) {
    (c.0 as int, c.1 as int)
}

/// Whether both coordinates of a cell fit the machine coordinate type.
pub open spec fn fits_grid(c: (int, int)) -> bool {
    i32::MIN <= c.0 <= i32::MAX && i32::MIN <= c.1 <= i32::MAX
}

/// Whether two cells are orthogonal neighbours: one unit apart along one axis.
pub open spec fn adjacent(a: (int, int), b: (int, int)) -> bool {
    ||| a.0 == b.0 && (a.1 - b.1 == 1 || b.1 - a.1 == 1)
    ||| a.1 == b.1 && (a.0 - b.0 == 1 || b.0 - a.0 == 1)
}

/// The mathematical state of a snake.
pub struct SnakeModel {
    /// The occupied cells, head first.
    pub body: Seq<(int, int)>,
    /// The current heading.
    pub direction: Direction,
    /// The cell most recently vacated by the tail, if any.
    pub tail: Option<(int, int)>,
    /// Whether the next move keeps the tail in place.
    pub growing: bool,
}

impl SnakeModel {
    /// A three-cell snake with its head at `(x, y)`, stretched out to the
    /// left and heading right.
    pub open spec fn new(x: int, y: int) -> SnakeModel {
        SnakeModel {
            body: seq![(x, y), (x - 1, y), (x - 2, y)],
            direction: Direction::Right,
            tail: None,
            growing: false,
        }
    }

    /// The body is never empty and is an orthogonal chain.
    pub open spec fn wf(self) -> bool {
        &&& self.body.len() > 0
        &&& forall|i: int|
            0 <= i < self.body.len() - 1 ==> adjacent(#[trigger] self.body[i], self.body[i + 1])
    }

    /// The front cell.
    pub open spec fn head(self) -> (int, int) {
        self.body[0]
    }

    /// The heading a move takes: the one asked for, else the current one.
    pub open spec fn heading_for(self, dir: Option<Direction>) -> Direction {
        match dir {
            Some(d) => d,
            None => self.direction,
        }
    }

    /// Where the head would land after one step.
    pub open spec fn next_head(self, dir: Option<Direction>) -> (int, int) {
        let step = self.heading_for(dir).offset();
        (self.head().0 + step.0, self.head().1 + step.1)
    }

    /// Whether some body segment lies on `cell`.
    pub open spec fn occupies(self, cell: (int, int)) -> bool {
        self.body.contains(cell)
    }

    /// The snake after one step. The new head goes in front; the last
    /// segment leaves unless growth is pending, in which case it stays and
    /// the pending growth is used up.
    pub open spec fn move_forward(self, dir: Option<Direction>) -> SnakeModel {
        let extended = seq![self.next_head(dir)] + self.body;
        if self.growing {
            SnakeModel {
                body: extended,
                direction: self.heading_for(dir),
                tail: self.tail,
                growing: false,
            }
        } else {
            SnakeModel {
                body: extended.drop_last(),
                direction: self.heading_for(dir),
                tail: Some(self.body.last()),
                growing: false,
            }
        }
    }

    /// The snake with growth pending.
    pub open spec fn restore_tail(self) -> SnakeModel {
        SnakeModel { growing: true, ..self }
    }

    /// One block per body segment, head first.
    pub open spec fn draw(self) -> Seq<DrawCommand> {
        Seq::new(
            self.body.len(),
            |i: int|
                DrawCommand::Block {
                    color: Color::Snake,
                    x: self.body[i].0 as i32,
                    y: self.body[i].1 as i32,
                },
        )
    }

    /// A fresh snake is well formed.
    pub proof fn new_is_wf(x: int, y: int)
        ensures
            SnakeModel::new(x, y).wf(),
            SnakeModel::new(x, y).head() == (x, y),
            SnakeModel::new(x, y).body.len() == 3,
    {
    }

    /// A step keeps the snake well formed.
    pub proof fn move_forward_keeps_wf(self, dir: Option<Direction>)
        requires
            self.wf(),
        ensures
            self.move_forward(dir).wf(),
    {
        let extended = seq![self.next_head(dir)] + self.body;
        let after = self.move_forward(dir);
        assert(adjacent(extended[0], extended[1]));
        assert forall|i: int| 0 <= i < after.body.len() - 1 implies adjacent(
            #[trigger] after.body[i],
            after.body[i + 1],
        ) by {
            assert(after.body[i] == extended[i]);
            assert(after.body[i + 1] == extended[i + 1]);
            if i > 0 {
                assert(extended[i] == self.body[i - 1]);
                assert(extended[i + 1] == self.body[i]);
            }
        }
    }

    /// A step onto a cell that the body does not cover keeps the segments
    /// pairwise distinct, and the body then covers no cell but that one and
    /// cells that it covered before.
    pub proof fn move_forward_keeps_distinct(self, dir: Option<Direction>)
        requires
            self.wf(),
            self.body.no_duplicates(),
            !self.occupies(self.next_head(dir)),
        ensures
            self.move_forward(dir).body.no_duplicates(),
            forall|c: (int, int)| #[trigger]
                self.move_forward(dir).occupies(c) ==> c == self.next_head(dir) || self.occupies(
                    c,
                ),
    {
        let extended = seq![self.next_head(dir)] + self.body;
        let after = self.move_forward(dir);
        assert forall|i: int| 0 <= i < after.body.len() implies #[trigger] after.body[i] == (if i
            == 0 {
            self.next_head(dir)
        } else {
            self.body[i - 1]
        }) by {
            assert(after.body[i] == extended[i]);
        }
        assert forall|i: int, j: int|
            0 <= i < after.body.len() && 0 <= j < after.body.len() && i != j implies after.body[i]
            != after.body[j] by {
            if i > 0 {
                assert(self.body.contains(self.body[i - 1]));
            }
            if j > 0 {
                assert(self.body.contains(self.body[j - 1]));
            }
        }
        assert forall|c: (int, int)| #[trigger] after.occupies(c) implies c == self.next_head(dir)
            || self.occupies(c) by {
            let i = choose|i: int| 0 <= i < after.body.len() && after.body[i] == c;
            if i > 0 {
                assert(self.body.contains(self.body[i - 1]));
            }
        }
    }

    /// The head after a step is the cell that `next_head` named before it.
    pub proof fn move_forward_head(self, dir: Option<Direction>)
        requires
            self.wf(),
        ensures
            self.move_forward(dir).head() == self.next_head(dir),
            self.move_forward(dir).direction == self.heading_for(dir),
    {
    }

    /// A step without pending growth keeps the length of the body.
    pub proof fn move_forward_keeps_length(self, dir: Option<Direction>)
        requires
            self.wf(),
            !self.growing,
        ensures
            self.move_forward(dir).body.len() == self.body.len(),
            self.move_forward(dir).tail == Some(self.body.last()),
    {
    }

    /// A step right after `restore_tail` lengthens the body by exactly one,
    /// and every earlier segment is still there, one place further back.
    pub proof fn move_forward_after_restore_grows(self, dir: Option<Direction>)
        requires
            self.wf(),
        ensures
            self.restore_tail().move_forward(dir).body.len() == self.body.len() + 1,
            self.restore_tail().move_forward(dir).body.skip(1) == self.body,
            !self.restore_tail().move_forward(dir).growing,
    {
        let after = self.restore_tail().move_forward(dir);
        assert(after.body.skip(1) =~= self.body);
    }

    /// `occupies` holds of each cell of the body, and of no cell that
    /// differs from all of them.
    pub proof fn occupies_is_membership(self, cell: (int, int))
        ensures
            self.occupies(cell) <==> exists|i: int|
                0 <= i < self.body.len() && self.body[i] == cell,
            forall|i: int| 0 <= i < self.body.len() ==> self.occupies(#[trigger] self.body[i]),
    {
    }
}

/// A snake on the grid.
pub struct Snake {
    direction: Direction,
    body: VecDeque<(i32, i32)>,
    tail: Option<(i32, i32)>,
    growing: bool,
}

impl View for Snake {
    type V = SnakeModel;

    closed spec fn view(&self) -> SnakeModel {
        SnakeModel {
            body: self.body@.map_values(|c: (i32, i32)| cell_of(c)),
            direction: self.direction,
            tail: match self.tail {
                Some(c) => Some(cell_of(c)),
                None => None,
            },
            growing: self.growing,
        }
    }
}

impl Snake {
    /// A three-cell snake with its head at `(x, y)`, stretched out to the
    /// left and heading right.
    pub fn new(x: i32, y: i32) -> (s: Snake)
        requires
            i32::MIN <= x - 2,
        ensures
            s@ == SnakeModel::new(x as int, y as int),
            s@.wf(),
    {
        let mut body: VecDeque<(i32, i32)> = VecDeque::new();
        body.push_back((x, y));
        body.push_back((x - 1, y));
        body.push_back((x - 2, y));
        let s = Snake { direction: Direction::Right, body, tail: None, growing: false };
        proof {
            assert(s@.body =~= SnakeModel::new(x as int, y as int).body);
            SnakeModel::new_is_wf(x as int, y as int);
        }
        s
    }

    /// The current heading.
    pub fn head_direction(&self) -> (d: Direction)
        ensures
            d == self@.direction,
    {
        self.direction
    }

    /// The front segment.
    pub fn head_position(&self) -> (p: (i32, i32))
        requires
            self@.wf(),
        ensures
            cell_of(p) == self@.head(),
    {
        self.body[0]
    }

    /// The number of body segments.
    pub fn len(&self) -> (n: usize)
        ensures
            n == self@.body.len(),
    {
        self.body.len()
    }

    /// Whether the next move keeps the tail in place.
    pub fn is_growing(&self) -> (g: bool)
        ensures
            g == self@.growing,
    {
        self.growing
    }

    /// The cell most recently vacated by the tail, if any.
    pub fn tail(&self) -> (t: Option<(i32, i32)>)
        ensures
            t.is_some() == self@.tail.is_some(),
            t.is_some() ==> cell_of(t.unwrap()) == self@.tail.unwrap(),
    {
        self.tail
    }

    /// The segment at place `i`, counting from the head.
    pub fn segment(&self, i: usize) -> (p: Option<(i32, i32)>)
        ensures
            i < self@.body.len() ==> p.is_some() && cell_of(p.unwrap()) == self@.body[i as int],
            i >= self@.body.len() ==> p.is_none(),
    {
        if i < self.body.len() {
            Some(self.body[i])
        } else {
            None
        }
    }

    /// Where the head would land after one step in `dir`, or in the current
    /// heading if `dir` is `None`. The snake is left as it is.
    pub fn next_head(&self, dir: Option<Direction>) -> (p: (i32, i32))
        requires
            self@.wf(),
            fits_grid(self@.next_head(dir)),
        ensures
            cell_of(p) == self@.next_head(dir),
    {
        let (head_x, head_y) = self.head_position();
        let moving = match dir {
            Some(d) => d,
            None => self.direction,
        };
        match moving {
            Direction::Up => (head_x, head_y - 1),
            Direction::Down => (head_x, head_y + 1),
            Direction::Left => (head_x - 1, head_y),
            Direction::Right => (head_x + 1, head_y),
        }
    }

    /// Takes one step. A given `dir` becomes the heading; reversals are not
    /// checked here.
    pub fn move_forward(&mut self, dir: Option<Direction>)
        requires
            old(self)@.wf(),
            fits_grid(old(self)@.next_head(dir)),
        ensures
            final(self)@ == old(self)@.move_forward(dir),
            final(self)@.wf(),
            final(self)@.head() == old(self)@.next_head(dir),
    {
        let head = self.next_head(dir);
        if let Some(d) = dir {
            self.direction = d;
        }
        self.body.push_front(head);
        if self.growing {
            self.growing = false;
        } else {
            let removed = self.body.pop_back();
            self.tail = removed;
        }
        proof {
            assert(self@.body =~= old(self)@.move_forward(dir).body);
            old(self)@.move_forward_keeps_wf(dir);
        }
    }

    /// Marks growth as pending: the next move keeps the tail in place.
    pub fn restore_tail(&mut self)
        ensures
            final(self)@ == old(self)@.restore_tail(),
    {
        self.growing = true;
    }

    /// Whether some body segment lies on `(x, y)`.
    pub fn overlap_tail(&self, x: i32, y: i32) -> (hit: bool)
        ensures
            hit == self@.occupies((x as int, y as int)),
    {
        let n = self.body.len();
        let mut i: usize = 0;
        while i < n
            invariant
                n == self.body@.len(),
                i <= n,
                forall|j: int| 0 <= j < i ==> cell_of(#[trigger] self.body@[j]) != (x as int, y as int),
            decreases n - i,
        {
            let c = self.body[i];
            if c.0 == x && c.1 == y {
                proof {
                    assert(self@.body[i as int] == (x as int, y as int));
                }
                return true;
            }
            i += 1;
        }
        proof {
            assert forall|j: int| 0 <= j < self@.body.len() implies self@.body[j] != (
                x as int,
                y as int,
            ) by {
                assert(self@.body[j] == cell_of(self.body@[j]));
            }
        }
        false
    }

    /// One block per body segment, head first.
    pub fn draw(&self) -> (cmds: Vec<DrawCommand>)
        ensures
            cmds@ == self@.draw(),
    {
        let n = self.body.len();
        let mut cmds: Vec<DrawCommand> = Vec::new();
        let mut i: usize = 0;
        while i < n
            invariant
                n == self.body@.len(),
                i <= n,
                cmds@.len() == i,
                forall|j: int| 0 <= j < i ==> cmds@[j] == self@.draw()[j],
            decreases n - i,
        {
            let c = self.body[i];
            cmds.push(DrawCommand::Block { color: Color::Snake, x: c.0, y: c.1 });
            i += 1;
        }
        proof {
            assert(cmds@ =~= self@.draw());
        }
        cmds
    }
}

} // verus!
