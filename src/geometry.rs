use vstd::prelude::*;

verus! {

/// The playfield: columns `0..=width` and rows `0..=height`, where the
/// outermost columns and rows are the border.
#[derive(Clone, Copy, Debug, PartialEq, Eq, Structural)]
pub struct Screen {
    pub width: i16,
    pub height: i16,
}

/// A cell of the playfield.
#[derive(Clone, Copy, Debug, PartialEq, Eq, Structural)]
pub struct Point {
    pub x: i16,
    pub y: i16,
}

/// One of the four unit moves.
#[derive(Clone, Copy, Debug, PartialEq, Eq, Structural)]
pub enum Direction {
    Up,
    Down,
    Left,
    Right,
}

impl Screen {
    /// A board with a playable interior: food is drawn from `1..width - 1`
    /// and `1..height - 1`, which must not be empty.
    pub open spec fn valid(self) -> bool {
        self.width >= 3 && self.height >= 3
    }

    /// The cell lies on the border frame.
    pub open spec fn on_border(self, p: Point) -> bool {
        (p.x == 0 || p.x == self.width) && 0 <= p.y <= self.height
            || (p.y == 0 || p.y == self.height) && 0 <= p.x <= self.width
    }

    /// The cell lies strictly inside the border frame.
    pub open spec fn inside(self, p: Point) -> bool {
        0 < p.x < self.width && 0 < p.y < self.height
    }

    /// The cell lies within the frame, border included.
    pub open spec fn within(self, p: Point) -> bool {
        0 <= p.x <= self.width && 0 <= p.y <= self.height
    }

    /// The head touches a wall when either coordinate equals 0 or the boundary.
    pub open spec fn hits_wall(self, p: Point) -> bool {
        p.x == 0 || p.y == 0 || p.x == self.width || p.y == self.height
    }

    pub fn is_valid(&self) -> (r: bool)
        ensures
            r == self.valid(),
    {
        self.width >= 3 && self.height >= 3
    }

    pub fn touches_wall(&self, p: Point) -> (r: bool)
        ensures
            r == self.hits_wall(p),
    {
        p.x == 0 || p.y == 0 || p.x == self.width || p.y == self.height
    }
}

impl Direction {
    /// The horizontal component of the unit vector.
    pub open spec fn dx(self) -> int {
        match self {
            Direction::Left => -1,
            Direction::Right => 1,
            _ => 0,
        }
    }

    /// The vertical component of the unit vector; rows grow downwards.
    pub open spec fn dy(self) -> int {
        match self {
            Direction::Up => -1,
            Direction::Down => 1,
            _ => 0,
        }
    }
}

/// One axis of a move: the coordinate advances by `d` only while it lies
/// strictly between 0 and `bound`; on or past the border it stays put.
pub open spec fn advance_axis(c: i16, d: int, bound: i16) -> i16 {
    if 0 < c < bound {
        (c + d) as i16
    } else {
        c
    }
}

/// Where the head goes from `head` when moving in `dir` on `screen`.
pub open spec fn moved(screen: Screen, head: Point, dir: Direction) -> Point {
    Point {
        x: advance_axis(head.x, dir.dx(), screen.width),
        y: advance_axis(head.y, dir.dy(), screen.height),
    }
}

/// The head never leaves the frame: from a cell within the frame the move
/// lands within it, and an axis whose coordinate is 0 or the boundary stays
/// where it is, whatever the direction.
pub proof fn lemma_head_stays_within(screen: Screen, head: Point, dir: Direction)
    requires
        screen.within(head),
    ensures
        screen.within(moved(screen, head, dir)),
        head.x == 0 || head.x == screen.width ==> moved(screen, head, dir).x == head.x,
        head.y == 0 || head.y == screen.height ==> moved(screen, head, dir).y == head.y,
{
}

fn step_axis(c: i16, d: i16, bound: i16) -> (r: i16)
    requires
        -1 <= d <= 1,
    ensures
        r == advance_axis(c, d as int, bound),
{
    if c > 0 && c < bound {
        c + d
    } else {
        c
    }
}

/// Moves `head` one step in `dir`, freezing each axis whose coordinate is
/// already on or beyond the border.
pub fn move_head(screen: Screen, head: Point, dir: Direction) -> (r: Point)
    ensures
        r == moved(screen, head, dir),
{
    let (dx, dy): (i16, i16) = match dir {
        Direction::Up => (0, -1),
        Direction::Down => (0, 1),
        Direction::Left => (-1, 0),
        Direction::Right => (1, 0),
    };
    Point { x: step_axis(head.x, dx, screen.width), y: step_axis(head.y, dy, screen.height) }
}

} // verus!
