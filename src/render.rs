use crate::geometry::{Point, Screen};
use vstd::prelude::*;

verus! {

/// What is drawn in a cell.
#[derive(Clone, Copy, Debug, PartialEq, Eq, Structural)]
pub enum Glyph {
    /// A corner of the border frame.
    Corner,
    /// The top or bottom edge of the frame.
    Horizontal,
    /// The left or right edge of the frame.
    Vertical,
    Food,
    Head,
    Body,
}

/// One glyph at one cell.
#[derive(Clone, Copy, Debug, PartialEq, Eq, Structural)]
pub struct Cell {
    pub at: Point,
    pub glyph: Glyph,
}

/// A line of text whose first character sits at `at`.
#[derive(Debug)]
pub struct Label {
    pub at: Point,
    pub text: Vec<char>,
}

/// The character of a decimal digit.
pub open spec fn digit_char(d: nat) -> char {
    ((48 + d) as u8) as char
}

/// The decimal numeral of `n`, most significant digit first, without leading
/// zeros.
pub open spec fn decimal(n: nat) -> Seq<char>
    decreases n,
{
    if n < 10 {
        seq![digit_char(n)]
    } else {
        decimal(n / 10).push(digit_char(n % 10))
    }
}

/// The game-over banner's title.
pub open spec fn title_text() -> Seq<char> {
    seq!['G', 'a', 'm', 'e', ' ', 'O', 'v', 'e', 'r']
}

/// The game-over banner's score line, before the number.
pub open spec fn score_prefix() -> Seq<char> {
    seq!['S', 'c', 'o', 'r', 'e', ':', ' ']
}

/// The game-over banner's hint.
pub open spec fn hint_text() -> Seq<char> {
    seq!['P', 'r', 'e', 's', 's', ' ', 'q', ' ', 't', 'o', ' ', 'q', 'u', 'i', 't']
}

/// Appends the decimal numeral of `n`.
fn push_decimal(n: usize, out: &mut Vec<char>)
    ensures
        final(out)@ == old(out)@ + decimal(n as nat),
    decreases n,
{
    if n >= 10 {
        push_decimal(n / 10, out);
    }
    let d: u8 = (n % 10) as u8;
    out.push((48u8 + d) as char);
    assert(final(out)@ =~= old(out)@ + decimal(n as nat));
}

/// The game-over banner: the title on row 10, the score on row 11 and how to
/// quit on row 13, all from column 10.
pub fn game_over_lines(score: usize) -> (lines: Vec<Label>)
    ensures
        lines@.len() == 3,
        lines@[0].at == (Point { x: 10, y: 10 }),
        lines@[0].text@ == title_text(),
        lines@[1].at == (Point { x: 10, y: 11 }),
        lines@[1].text@ == score_prefix() + decimal(score as nat),
        lines@[2].at == (Point { x: 10, y: 13 }),
        lines@[2].text@ == hint_text(),
{
    let title = vec!['G', 'a', 'm', 'e', ' ', 'O', 'v', 'e', 'r'];
    let mut score_line = vec!['S', 'c', 'o', 'r', 'e', ':', ' '];
    assert(score_line@ =~= score_prefix());
    push_decimal(score, &mut score_line);
    let hint = vec!['P', 'r', 'e', 's', 's', ' ', 'q', ' ', 't', 'o', ' ', 'q', 'u', 'i', 't'];
    assert(title@ =~= title_text());
    assert(hint@ =~= hint_text());
    vec![
        Label { at: Point { x: 10, y: 10 }, text: title },
        Label { at: Point { x: 10, y: 11 }, text: score_line },
        Label { at: Point { x: 10, y: 13 }, text: hint },
    ]
}

/// The glyph of a border cell: corners where both coordinates are extreme,
/// horizontal edges on the top and bottom rows, vertical edges elsewhere.
pub open spec fn border_glyph(screen: Screen, p: Point) -> Glyph {
    if (p.x == 0 || p.x == screen.width) && (p.y == 0 || p.y == screen.height) {
        Glyph::Corner
    } else if p.y == 0 || p.y == screen.height {
        Glyph::Horizontal
    } else {
        Glyph::Vertical
    }
}

/// The cell that shows segment `i` of a snake of `n` segments: the last one
/// is the head.
pub open spec fn segment_cell(p: Point, i: int, n: int) -> Cell {
    Cell { at: p, glyph: if i == n - 1 { Glyph::Head } else { Glyph::Body } }
}

/// The playing frame as a sequence: the food, then each segment in order.
pub open spec fn board_picture(food: Point, snake: Seq<Point>) -> Seq<Cell> {
    seq![Cell { at: food, glyph: Glyph::Food }] + Seq::new(
        snake.len(),
        |i: int| segment_cell(snake[i], i, snake.len() as int),
    )
}

fn border_cell(screen: Screen, x: i16, y: i16) -> (c: Cell)
    ensures
        c == (Cell { at: Point { x, y }, glyph: border_glyph(screen, Point { x, y }) }),
{
    let glyph = if (x == 0 || x == screen.width) && (y == 0 || y == screen.height) {
        Glyph::Corner
    } else if y == 0 || y == screen.height {
        Glyph::Horizontal
    } else {
        Glyph::Vertical
    };
    Cell { at: Point { x, y }, glyph }
}

/// The border frame of the board: every border cell exactly once, each with
/// its glyph.
pub fn border_cells(screen: Screen) -> (cells: Vec<Cell>)
    requires
        screen.valid(),
    ensures
        forall|k: int|
            0 <= k < cells@.len() ==> screen.on_border(#[trigger] cells@[k].at)
                && cells@[k].glyph == border_glyph(screen, cells@[k].at),
        forall|k: int, l: int|
            0 <= k < cells@.len() && 0 <= l < cells@.len() && k != l ==> cells@[k].at
                != cells@[l].at,
        forall|p: Point|
            screen.on_border(p) ==> exists|k: int| 0 <= k < cells@.len() && cells@[k].at == p,
{
    let w = screen.width;
    let h = screen.height;
    let mut cells: Vec<Cell> = Vec::new();
    let mut x: i32 = 0;
    while x <= w as i32
        invariant
            w == screen.width,
            h == screen.height,
            screen.valid(),
            0 <= x <= w + 1,
            cells@.len() == 2 * x,
            forall|k: int|
                0 <= k < cells@.len() ==> screen.on_border(#[trigger] cells@[k].at)
                    && cells@[k].glyph == border_glyph(screen, cells@[k].at)
                    && cells@[k].at.x < x && (cells@[k].at.y == 0 || cells@[k].at.y == h),
            forall|k: int, l: int|
                0 <= k < cells@.len() && 0 <= l < cells@.len() && k != l ==> cells@[k].at
                    != cells@[l].at,
            forall|a: int|
                0 <= a < x ==> #[trigger] cells@[2 * a].at == (Point { x: a as i16, y: 0 })
                    && cells@[2 * a + 1].at == (Point { x: a as i16, y: h }),
        decreases w + 1 - x,
    {
        cells.push(border_cell(screen, x as i16, 0));
        cells.push(border_cell(screen, x as i16, h));
        x = x + 1;
    }
    let top = cells.len();
    assert(top == 2 * (w + 1));
    let mut y: i16 = 1;
    while y < h
        invariant
            w == screen.width,
            h == screen.height,
            screen.valid(),
            top == 2 * (w + 1),
            1 <= y <= h,
            cells@.len() == top + 2 * (y - 1),
            forall|k: int|
                0 <= k < cells@.len() ==> screen.on_border(#[trigger] cells@[k].at)
                    && cells@[k].glyph == border_glyph(screen, cells@[k].at) && (cells@[k].at.y
                    == 0 || cells@[k].at.y == h || cells@[k].at.y < y),
            forall|k: int, l: int|
                0 <= k < cells@.len() && 0 <= l < cells@.len() && k != l ==> cells@[k].at
                    != cells@[l].at,
            forall|a: int|
                0 <= a <= w ==> #[trigger] cells@[2 * a].at == (Point { x: a as i16, y: 0 })
                    && cells@[2 * a + 1].at == (Point { x: a as i16, y: h }),
            forall|b: int|
                1 <= b < y ==> #[trigger] cells@[top + 2 * (b - 1)].at == (Point { x: 0, y: b as i16 })
                    && cells@[top + 2 * (b - 1) + 1].at == (Point { x: w, y: b as i16 }),
        decreases h - y,
    {
        cells.push(border_cell(screen, 0, y));
        cells.push(border_cell(screen, w, y));
        y = y + 1;
    }
    assert forall|p: Point| screen.on_border(p) implies exists|k: int|
        0 <= k < cells@.len() && cells@[k].at == p by {
        if p.y == 0 {
            assert(cells@[2 * p.x].at == p);
        } else if p.y == h {
            assert(cells@[2 * p.x + 1].at == p);
        } else if p.x == 0 {
            assert(cells@[top + 2 * (p.y - 1)].at == p);
        } else {
            assert(cells@[top + 2 * (p.y - 1) + 1].at == p);
        }
    }
    cells
}

/// The playing frame: the food first, then every segment from tail to head,
/// the head with its own glyph.
pub fn board_cells(food: Point, snake: &Vec<Point>) -> (cells: Vec<Cell>)
    ensures
        cells@ == board_picture(food, snake@),
{
    let n = snake.len();
    let mut cells: Vec<Cell> = Vec::new();
    cells.push(Cell { at: food, glyph: Glyph::Food });
    let mut i: usize = 0;
    while i < n
        invariant
            n == snake@.len(),
            i <= n,
            cells@.len() == i + 1,
            cells@[0] == (Cell { at: food, glyph: Glyph::Food }),
            forall|k: int|
                1 <= k <= i ==> #[trigger] cells@[k] == segment_cell(snake@[k - 1], k - 1, n as int),
        decreases n - i,
    {
        let glyph = if i == n - 1 {
            Glyph::Head
        } else {
            Glyph::Body
        };
        cells.push(Cell { at: snake[i], glyph });
        i += 1;
    }
    assert(cells@ =~= board_picture(food, snake@));
    cells
}

} // verus!
