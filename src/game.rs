use crate::collision::{collides_with_itself, has_repeat};
use crate::geometry::{move_head, moved, Direction, Point, Screen};
use crate::random::random_in;
use crate::render::{board_cells, board_picture, Cell};
use vstd::prelude::*;

verus! {

/// What a key asks for.
#[derive(Clone, Copy, Debug, PartialEq, Eq, Structural)]
pub enum Command {
    Turn(Direction),
    Quit,
}

/// Where the session stands.
#[derive(Clone, Copy, Debug, PartialEq, Eq, Structural)]
pub enum Phase {
    /// The snake moves, eats and is drawn.
    Running,
    /// The game is lost: the banner is shown until the player quits.
    Over,
    /// The player quit; nothing changes any more.
    Terminated,
}

/// What the frame of a tick shows.
#[derive(Debug)]
pub enum Action {
    /// Leave the loop at once.
    Quit,
    /// Show the game-over banner with this score.
    GameOver { score: usize },
    /// Draw these cells on top of the border.
    Draw { cells: Vec<Cell> },
}

/// The meaning of a key: `w`, `a`, `s`, `d` turn, `q` quits, anything else is
/// ignored.
pub open spec fn key_meaning(c: char) -> Option<Command> {
    if c == 'w' {
        Some(Command::Turn(Direction::Up))
    } else if c == 's' {
        Some(Command::Turn(Direction::Down))
    } else if c == 'a' {
        Some(Command::Turn(Direction::Left))
    } else if c == 'd' {
        Some(Command::Turn(Direction::Right))
    } else if c == 'q' {
        Some(Command::Quit)
    } else {
        None
    }
}

/// Reads a key as a command.
pub fn key_command(c: char) -> (r: Option<Command>)
    ensures
        r == key_meaning(c),
{
    if c == 'w' {
        Some(Command::Turn(Direction::Up))
    } else if c == 's' {
        Some(Command::Turn(Direction::Down))
    } else if c == 'a' {
        Some(Command::Turn(Direction::Left))
    } else if c == 'd' {
        Some(Command::Turn(Direction::Right))
    } else if c == 'q' {
        Some(Command::Quit)
    } else {
        None
    }
}

/// The whole state of a session, as a mathematical value.
pub struct GameView {
    pub screen: Screen,
    /// Tail first, head last.
    pub snake: Seq<Point>,
    pub direction: Direction,
    pub food: Point,
    pub phase: Phase,
}

/// The cells that food is drawn from: `1..width - 1` by `1..height - 1`.
pub open spec fn food_range(screen: Screen, p: Point) -> bool {
    1 <= p.x < screen.width - 1 && 1 <= p.y < screen.height - 1
}

/// A session state that play can reach: a board with an interior, a snake of
/// at least three segments and food inside the border.
pub open spec fn well_formed(v: GameView) -> bool {
    v.screen.valid() && v.snake.len() >= 3 && v.screen.inside(v.food)
}

/// The head of the snake.
pub open spec fn head(v: GameView) -> Point {
    v.snake.last()
}

/// The direction after a command: a turn is taken as given, reversals included.
pub open spec fn turned(d: Direction, cmd: Option<Command>) -> Direction {
    match cmd {
        Some(Command::Turn(n)) => n,
        _ => d,
    }
}

/// The head's next cell.
pub open spec fn next_head(v: GameView, cmd: Option<Command>) -> Point {
    moved(v.screen, head(v), turned(v.direction, cmd))
}

/// The body with the next head appended, before any segment is dropped.
pub open spec fn grown(v: GameView, cmd: Option<Command>) -> Seq<Point> {
    v.snake.push(next_head(v, cmd))
}

/// The tick ends the session.
pub open spec fn quits(v: GameView, cmd: Option<Command>) -> bool {
    v.phase == Phase::Terminated || cmd == Some(Command::Quit)
}

/// The tick finds the game lost: it was lost already, the head touches a wall,
/// or the grown body crosses itself.
pub open spec fn ends(v: GameView, cmd: Option<Command>) -> bool {
    v.phase == Phase::Over || v.screen.hits_wall(next_head(v, cmd)) || has_repeat(grown(v, cmd))
}

/// The tick's head lands on the food while the game goes on.
pub open spec fn eats(v: GameView, cmd: Option<Command>) -> bool {
    !ends(v, cmd) && next_head(v, cmd) == v.food
}

/// The state after one tick with `cmd`, where `fresh` is where new food goes
/// if the food is eaten.
pub open spec fn next(v: GameView, cmd: Option<Command>, fresh: Point) -> GameView {
    if quits(v, cmd) {
        GameView { phase: Phase::Terminated, ..v }
    } else if ends(v, cmd) {
        GameView {
            snake: grown(v, cmd).drop_first(),
            direction: turned(v.direction, cmd),
            phase: Phase::Over,
            ..v
        }
    } else if eats(v, cmd) {
        GameView { snake: grown(v, cmd), direction: turned(v.direction, cmd), food: fresh, ..v }
    } else {
        GameView { snake: grown(v, cmd).drop_first(), direction: turned(v.direction, cmd), ..v }
    }
}

/// The frame that a tick from `v` with `cmd` shows.
pub open spec fn shows(act: Action, v: GameView, cmd: Option<Command>) -> bool {
    match act {
        Action::Quit => quits(v, cmd),
        Action::GameOver { score } => !quits(v, cmd) && ends(v, cmd) && score == grown(v, cmd).len()
            - 4,
        Action::Draw { cells } => !quits(v, cmd) && !ends(v, cmd) && cells@ == board_picture(
            v.food,
            grown(v, cmd),
        ),
    }
}

/// The starting body: three segments going down column 10.
pub open spec fn initial_snake() -> Seq<Point> {
    seq![Point { x: 10, y: 8 }, Point { x: 10, y: 9 }, Point { x: 10, y: 10 }]
}

/// A snake game on a fixed board.
pub struct Game {
    screen: Screen,
    snake: Vec<Point>,
    direction: Direction,
    food: Point,
    phase: Phase,
}

impl View for Game {
    type V = GameView;

    closed spec fn view(&self) -> GameView {
        GameView {
            screen: self.screen,
            snake: self.snake@,
            direction: self.direction,
            food: self.food,
            phase: self.phase,
        }
    }
}

/// Draws a cell for new food, uniformly on each axis.
fn draw_food(screen: Screen) -> (p: Point)
    requires
        screen.valid(),
    ensures
        food_range(screen, p),
{
    let x = random_in(1, screen.width - 1);
    let y = random_in(1, screen.height - 1);
    Point { x, y }
}

impl Game {
    /// A new session: the starting snake heading down and food at a random
    /// interior cell. `None` where the board has no interior to put food in.
    pub fn new(screen: Screen) -> (r: Option<Game>)
        ensures
            r is Some <==> screen.valid(),
            r matches Some(g) ==> g@.screen == screen && g@.snake == initial_snake()
                && g@.direction == Direction::Down && g@.phase == Phase::Running && food_range(
                screen,
                g@.food,
            ) && well_formed(g@),
    {
        if !screen.is_valid() {
            return None;
        }
        let snake = vec![Point { x: 10, y: 8 }, Point { x: 10, y: 9 }, Point { x: 10, y: 10 }];
        let food = draw_food(screen);
        let g = Game { screen, snake, direction: Direction::Down, food, phase: Phase::Running };
        assert(g@.snake =~= initial_snake());
        Some(g)
    }

    /// A running session from given parts. `None` unless the board has an
    /// interior, the snake has at least three segments and the food lies
    /// inside the border.
    pub fn from_parts(screen: Screen, snake: Vec<Point>, direction: Direction, food: Point) -> (r:
        Option<Game>)
        ensures
            r is Some <==> (screen.valid() && snake@.len() >= 3 && screen.inside(food)),
            r matches Some(g) ==> g@ == (GameView {
                screen,
                snake: snake@,
                direction,
                food,
                phase: Phase::Running,
            }),
    {
        if screen.is_valid() && snake.len() >= 3 && 0 < food.x && food.x < screen.width && 0
            < food.y && food.y < screen.height {
            Some(Game { screen, snake, direction, food, phase: Phase::Running })
        } else {
            None
        }
    }

    /// One tick. A quit ends the session and changes nothing else. Otherwise
    /// the command may turn the snake, the head moves one cell (an axis on or
    /// past the border stays put) and is appended. If the game was already
    /// lost, the head hit a wall or the body crosses itself, the game is (or
    /// stays) over, the oldest segment goes and the banner shows the score.
    /// Else the frame shows the food and the grown body; eaten food moves to
    /// `fresh_food` and the snake keeps its new segment, otherwise the oldest
    /// segment goes.
    pub fn step(&mut self, command: Option<Command>, fresh_food: Point) -> (act: Action)
        requires
            well_formed(old(self)@),
            old(self)@.screen.inside(fresh_food),
        ensures
            final(self)@ == next(old(self)@, command, fresh_food),
            well_formed(final(self)@),
            shows(act, old(self)@, command),
    {
        if self.phase == Phase::Terminated {
            return Action::Quit;
        }
        match command {
            Some(Command::Quit) => {
                self.phase = Phase::Terminated;
                return Action::Quit;
            },
            Some(Command::Turn(d)) => {
                self.direction = d;
            },
            None => {},
        }
        let head = self.snake[self.snake.len() - 1];
        let new_head = move_head(self.screen, head, self.direction);
        self.snake.push(new_head);
        if self.phase == Phase::Over || self.screen.touches_wall(new_head) || collides_with_itself(
            &self.snake,
        ) {
            let score = self.snake.len() - 4;
            self.phase = Phase::Over;
            self.snake.remove(0);
            assert(self.snake@ =~= grown(old(self)@, command).drop_first());
            return Action::GameOver { score };
        }
        let cells = board_cells(self.food, &self.snake);
        if new_head.x == self.food.x && new_head.y == self.food.y {
            self.food = fresh_food;
        } else {
            self.snake.remove(0);
            assert(self.snake@ =~= grown(old(self)@, command).drop_first());
        }
        Action::Draw { cells }
    }

    /// One tick of play, with new food drawn at random from the interior
    /// range in case the food is eaten.
    pub fn tick(&mut self, command: Option<Command>) -> (act: Action)
        requires
            well_formed(old(self)@),
        ensures
            exists|p: Point|
                food_range(old(self)@.screen, p) && final(self)@ == next(old(self)@, command, p),
            well_formed(final(self)@),
            shows(act, old(self)@, command),
    {
        let fresh = draw_food(self.screen);
        self.step(command, fresh)
    }

    pub fn screen(&self) -> (r: Screen)
        ensures
            r == self@.screen,
    {
        self.screen
    }

    /// The body, tail first and head last.
    pub fn snake(&self) -> (r: &Vec<Point>)
        ensures
            r@ == self@.snake,
    {
        &self.snake
    }

    pub fn direction(&self) -> (r: Direction)
        ensures
            r == self@.direction,
    {
        self.direction
    }

    pub fn food(&self) -> (r: Point)
        ensures
            r == self@.food,
    {
        self.food
    }

    pub fn phase(&self) -> (r: Phase)
        ensures
            r == self@.phase,
    {
        self.phase
    }

    pub fn head(&self) -> (r: Point)
        requires
            well_formed(self@),
        ensures
            r == head(self@),
    {
        self.snake[self.snake.len() - 1]
    }
}

/// A tick whose head stays strictly inside the border and misses the food
/// leaves the snake's length as it was: one segment is added and one dropped.
pub proof fn lemma_length_kept(v: GameView, cmd: Option<Command>, fresh: Point)
    requires
        well_formed(v),
        !quits(v, cmd),
        v.screen.inside(next_head(v, cmd)),
        next_head(v, cmd) != v.food,
    ensures
        next(v, cmd, fresh).snake.len() == v.snake.len(),
{
}

/// A tick of a game in play whose head lands on the food, with no crossing of
/// the body, grows the snake by one segment and moves the food to the new
/// cell drawn, which differs from the old one whenever the draw does.
pub proof fn lemma_eating_grows(v: GameView, cmd: Option<Command>, fresh: Point)
    requires
        well_formed(v),
        !quits(v, cmd),
        v.phase == Phase::Running,
        next_head(v, cmd) == v.food,
        !has_repeat(grown(v, cmd)),
        fresh != v.food,
    ensures
        next(v, cmd, fresh).snake.len() == v.snake.len() + 1,
        next(v, cmd, fresh).food == fresh,
        next(v, cmd, fresh).food != v.food,
{
}

/// Once the head is on the border, the tick's move leaves it there and the
/// game is over after that tick.
pub proof fn lemma_border_ends_game(v: GameView, cmd: Option<Command>, fresh: Point)
    requires
        well_formed(v),
        !quits(v, cmd),
        v.screen.hits_wall(head(v)),
    ensures
        ends(v, cmd),
        next(v, cmd, fresh).phase == Phase::Over,
{
}

/// A lost game never runs again: a tick leaves it over, or ends the session.
pub proof fn lemma_over_is_final(v: GameView, cmd: Option<Command>, fresh: Point)
    requires
        v.phase == Phase::Over,
    ensures
        next(v, cmd, fresh).phase == Phase::Over || next(v, cmd, fresh).phase
            == Phase::Terminated,
        next(v, cmd, fresh).phase == Phase::Terminated <==> cmd == Some(Command::Quit),
{
}

} // verus!
