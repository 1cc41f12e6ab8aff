use snake::collision::collides_with_itself;
use snake::game::{key_command, Action, Command, Game, Phase};
use snake::geometry::{move_head, Direction, Point, Screen};
use snake::pacing::frame_millis;
use snake::render::{board_cells, border_cells, game_over_lines, Cell, Glyph};

fn pt(x: i16, y: i16) -> Point {
    Point { x, y }
}

fn board() -> Screen {
    Screen { width: 40, height: 20 }
}

fn text(chars: &[char]) -> String {
    chars.iter().collect()
}

fn game(snake: Vec<Point>, direction: Direction, food: Point) -> Game {
    Game::from_parts(board(), snake, direction, food).expect("valid parts")
}

#[test]
fn distinct_segments_do_not_collide() {
    assert!(!collides_with_itself(&vec![pt(1, 1), pt(1, 2), pt(2, 2)]));
    assert!(!collides_with_itself(&vec![pt(4, 4)]));
    assert!(!collides_with_itself(&vec![]));
}

#[test]
fn repeated_segment_collides() {
    assert!(collides_with_itself(&vec![pt(1, 1), pt(1, 2), pt(1, 1)]));
    assert!(collides_with_itself(&vec![pt(3, 3), pt(3, 3)]));
    assert!(collides_with_itself(&vec![pt(1, 1), pt(2, 1), pt(3, 1), pt(2, 1)]));
}

#[test]
fn first_tick_moves_down() {
    let mut g = game(vec![pt(10, 8), pt(10, 9), pt(10, 10)], Direction::Down, pt(5, 5));
    let act = g.step(None, pt(3, 3));
    assert_eq!(g.snake(), &vec![pt(10, 9), pt(10, 10), pt(10, 11)]);
    assert_eq!(g.head(), pt(10, 11));
    assert_eq!(g.food(), pt(5, 5));
    assert_eq!(g.phase(), Phase::Running);
    match act {
        Action::Draw { cells } => {
            assert_eq!(cells.len(), 5);
            assert_eq!(cells[0], Cell { at: pt(5, 5), glyph: Glyph::Food });
            assert_eq!(cells[1], Cell { at: pt(10, 8), glyph: Glyph::Body });
            assert_eq!(cells[4], Cell { at: pt(10, 11), glyph: Glyph::Head });
        }
        other => panic!("unexpected frame {:?}", other),
    }
}

#[test]
fn new_game_starts_in_column_ten() {
    let g = Game::new(board()).expect("board with an interior");
    assert_eq!(g.snake(), &vec![pt(10, 8), pt(10, 9), pt(10, 10)]);
    assert_eq!(g.direction(), Direction::Down);
    assert_eq!(g.phase(), Phase::Running);
    assert_eq!(g.screen(), board());
    let f = g.food();
    assert!(1 <= f.x && f.x < 39 && 1 <= f.y && f.y < 19);
}

#[test]
fn smallest_board_has_one_food_cell() {
    let g = Game::new(Screen { width: 3, height: 3 }).expect("board with an interior");
    assert_eq!(g.food(), pt(1, 1));
}

#[test]
fn board_without_interior_is_refused() {
    assert!(Game::new(Screen { width: 2, height: 20 }).is_none());
    assert!(Game::new(Screen { width: 40, height: 0 }).is_none());
    assert!(Game::from_parts(board(), vec![pt(1, 1), pt(1, 2)], Direction::Down, pt(5, 5)).is_none());
    assert!(Game::from_parts(board(), vec![pt(1, 1), pt(1, 2), pt(1, 3)], Direction::Down, pt(0, 5)).is_none());
}

#[test]
fn eating_grows_and_moves_food() {
    let mut g = game(vec![pt(5, 1), pt(5, 2), pt(5, 3), pt(5, 4)], Direction::Down, pt(5, 5));
    let act = g.step(None, pt(7, 7));
    assert!(matches!(act, Action::Draw { .. }));
    assert_eq!(g.snake().len(), 5);
    assert_eq!(g.snake()[0], pt(5, 1));
    assert_eq!(g.head(), pt(5, 5));
    assert_eq!(g.food(), pt(7, 7));
}

#[test]
fn eating_with_random_food_stays_in_range() {
    let mut g = game(vec![pt(5, 1), pt(5, 2), pt(5, 3), pt(5, 4)], Direction::Down, pt(5, 5));
    g.tick(None);
    assert_eq!(g.snake().len(), 5);
    let f = g.food();
    assert!(1 <= f.x && f.x < 39 && 1 <= f.y && f.y < 19);
}

#[test]
fn moving_inside_keeps_length() {
    let mut g = game(vec![pt(5, 5), pt(6, 5), pt(7, 5)], Direction::Right, pt(20, 10));
    for _ in 0..5 {
        g.tick(None);
        assert_eq!(g.snake().len(), 3);
    }
    assert_eq!(g.head(), pt(12, 5));
}

#[test]
fn turn_changes_direction() {
    let mut g = game(vec![pt(5, 5), pt(6, 5), pt(7, 5)], Direction::Right, pt(20, 10));
    g.step(Some(Command::Turn(Direction::Up)), pt(3, 3));
    assert_eq!(g.direction(), Direction::Up);
    assert_eq!(g.head(), pt(7, 4));
}

#[test]
fn left_wall_ends_game_and_quit_terminates() {
    let mut g = game(vec![pt(3, 5), pt(2, 5), pt(1, 5)], Direction::Left, pt(20, 10));
    let act = g.step(None, pt(3, 3));
    match act {
        Action::GameOver { score } => assert_eq!(score, 0),
        other => panic!("unexpected frame {:?}", other),
    }
    assert_eq!(g.phase(), Phase::Over);
    assert_eq!(g.snake().len(), 3);
    assert_eq!(g.head(), pt(0, 5));
    let act = g.step(Some(Command::Quit), pt(3, 3));
    assert!(matches!(act, Action::Quit));
    assert_eq!(g.phase(), Phase::Terminated);
}

#[test]
fn lost_game_stays_over() {
    let mut g = game(vec![pt(3, 5), pt(2, 5), pt(1, 5)], Direction::Left, pt(20, 10));
    g.step(None, pt(3, 3));
    for _ in 0..3 {
        let act = g.step(Some(Command::Turn(Direction::Right)), pt(3, 3));
        assert!(matches!(act, Action::GameOver { score: 0 }));
        assert_eq!(g.phase(), Phase::Over);
        assert_eq!(g.snake().len(), 3);
    }
}

#[test]
fn score_counts_food_eaten() {
    let snake = vec![pt(30, 1), pt(31, 1), pt(32, 1), pt(33, 1), pt(34, 1), pt(35, 1)];
    let mut g = game(snake, Direction::Up, pt(20, 10));
    let act = g.step(None, pt(3, 3));
    assert!(matches!(act, Action::GameOver { score: 3 }));
    assert_eq!(g.snake().len(), 6);
}

#[test]
fn reversal_runs_into_neck() {
    let mut g = game(vec![pt(10, 8), pt(10, 9), pt(10, 10)], Direction::Down, pt(5, 5));
    let act = g.step(Some(Command::Turn(Direction::Up)), pt(3, 3));
    assert!(matches!(act, Action::GameOver { score: 0 }));
    assert_eq!(g.phase(), Phase::Over);
}

#[test]
fn quit_while_running_changes_nothing_else() {
    let mut g = game(vec![pt(10, 8), pt(10, 9), pt(10, 10)], Direction::Down, pt(5, 5));
    let act = g.step(Some(Command::Quit), pt(3, 3));
    assert!(matches!(act, Action::Quit));
    assert_eq!(g.phase(), Phase::Terminated);
    assert_eq!(g.snake(), &vec![pt(10, 8), pt(10, 9), pt(10, 10)]);
    let act = g.step(None, pt(3, 3));
    assert!(matches!(act, Action::Quit));
    assert_eq!(g.snake().len(), 3);
}

#[test]
fn axis_on_border_stays_put() {
    let s = board();
    assert_eq!(move_head(s, pt(0, 5), Direction::Right), pt(0, 5));
    assert_eq!(move_head(s, pt(40, 5), Direction::Left), pt(40, 5));
    assert_eq!(move_head(s, pt(7, 20), Direction::Up), pt(7, 20));
    assert_eq!(move_head(s, pt(0, 5), Direction::Down), pt(0, 6));
    assert_eq!(move_head(s, pt(1, 5), Direction::Left), pt(0, 5));
    assert_eq!(move_head(s, pt(39, 19), Direction::Down), pt(39, 20));
}

#[test]
fn tick_wait_follows_length() {
    assert_eq!(frame_millis(1), 100);
    assert_eq!(frame_millis(3), 100);
    assert_eq!(frame_millis(10), 100);
    assert_eq!(frame_millis(11), 90);
    assert_eq!(frame_millis(15), 66);
    assert_eq!(frame_millis(19), 52);
    assert_eq!(frame_millis(20), 50);
    assert_eq!(frame_millis(500), 50);
}

#[test]
fn keys_map_to_commands() {
    assert_eq!(key_command('w'), Some(Command::Turn(Direction::Up)));
    assert_eq!(key_command('s'), Some(Command::Turn(Direction::Down)));
    assert_eq!(key_command('a'), Some(Command::Turn(Direction::Left)));
    assert_eq!(key_command('d'), Some(Command::Turn(Direction::Right)));
    assert_eq!(key_command('q'), Some(Command::Quit));
    assert_eq!(key_command('x'), None);
    assert_eq!(key_command('W'), None);
}

#[test]
fn border_frames_the_board() {
    let s = Screen { width: 5, height: 3 };
    let cells = border_cells(s);
    assert_eq!(cells.len(), 2 * 6 + 2 * 2);
    let glyph_at = |x: i16, y: i16| {
        let found: Vec<&Cell> = cells.iter().filter(|c| c.at == pt(x, y)).collect();
        assert_eq!(found.len(), 1);
        found[0].glyph
    };
    assert_eq!(glyph_at(0, 0), Glyph::Corner);
    assert_eq!(glyph_at(5, 3), Glyph::Corner);
    assert_eq!(glyph_at(5, 0), Glyph::Corner);
    assert_eq!(glyph_at(0, 3), Glyph::Corner);
    assert_eq!(glyph_at(2, 0), Glyph::Horizontal);
    assert_eq!(glyph_at(4, 3), Glyph::Horizontal);
    assert_eq!(glyph_at(0, 1), Glyph::Vertical);
    assert_eq!(glyph_at(5, 2), Glyph::Vertical);
    assert!(cells.iter().all(|c| c.at != pt(2, 2)));
    assert_eq!(border_cells(board()).len(), 120);
}

#[test]
fn board_cells_list_food_then_body() {
    let cells = board_cells(pt(9, 9), &vec![pt(1, 1), pt(1, 2)]);
    assert_eq!(
        cells,
        vec![
            Cell { at: pt(9, 9), glyph: Glyph::Food },
            Cell { at: pt(1, 1), glyph: Glyph::Body },
            Cell { at: pt(1, 2), glyph: Glyph::Head },
        ]
    );
}

#[test]
fn banner_shows_score() {
    let lines = game_over_lines(42);
    assert_eq!(lines.len(), 3);
    assert_eq!(lines[0].at, pt(10, 10));
    assert_eq!(text(&lines[0].text), "Game Over");
    assert_eq!(lines[1].at, pt(10, 11));
    assert_eq!(text(&lines[1].text), "Score: 42");
    assert_eq!(lines[2].at, pt(10, 13));
    assert_eq!(text(&lines[2].text), "Press q to quit");
    assert_eq!(text(&game_over_lines(0)[1].text), "Score: 0");
    assert_eq!(text(&game_over_lines(1005)[1].text), "Score: 1005");
}
