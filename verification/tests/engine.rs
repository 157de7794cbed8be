use sketch::canvas::Canvas;
use sketch::engine::{Context, Engine};
use sketch::input::InputManager;

fn engine_at(x: i32, y: i32) -> Engine {
    Engine::new(Canvas::new(20, 20), Context { player_x: x, player_y: y })
}

fn moved(x: i32, y: i32, keys: &[char]) -> Context {
    let mut engine = engine_at(x, y);
    engine.update_input(keys);
    engine.update_logic();
    engine.context()
}

#[test]
fn input_starts_with_no_key_pressed() {
    let input = InputManager::new();
    assert!(!input.is_pressed('w'));
    assert!(!input.is_pressed(' '));
}

#[test]
fn input_update_adds_the_queued_keys() {
    let mut input = InputManager::new();
    input.update(&['w', 'd', 'w']);
    assert!(input.is_pressed('w'));
    assert!(input.is_pressed('d'));
    assert!(!input.is_pressed('a'));
    input.update(&['a']);
    assert!(input.is_pressed('w'));
    assert!(input.is_pressed('a'));
    input.update(&[]);
    assert!(input.is_pressed('d'));
}

#[test]
fn input_tells_keys_apart_by_code_point() {
    let mut input = InputManager::new();
    input.update(&['\u{e9}', '\u{10FFFF}', '\0']);
    assert!(input.is_pressed('\u{e9}'));
    assert!(input.is_pressed('\u{10FFFF}'));
    assert!(input.is_pressed('\0'));
    assert!(!input.is_pressed('e'));
    assert!(!input.is_pressed('W'));
}

#[test]
fn input_clear_forgets_every_key() {
    let mut input = InputManager::new();
    input.update(&['w', 's']);
    input.clear();
    assert!(!input.is_pressed('w'));
    assert!(!input.is_pressed('s'));
}

#[test]
fn context_default_is_the_origin() {
    assert_eq!(Context::default(), Context { player_x: 0, player_y: 0 });
}

#[test]
fn key_w_decreases_player_y_by_one() {
    assert_eq!(moved(5, 5, &['w']), Context { player_x: 5, player_y: 4 });
    assert_eq!(moved(0, 0, &['w']), Context { player_x: 0, player_y: -1 });
}

#[test]
fn keys_a_and_d_together_leave_player_x_unchanged() {
    assert_eq!(moved(5, 5, &['a', 'd']), Context { player_x: 5, player_y: 5 });
    assert_eq!(moved(5, 5, &['d', 'a']), Context { player_x: 5, player_y: 5 });
}

#[test]
fn each_key_moves_by_one_in_its_direction() {
    assert_eq!(moved(5, 5, &['s']), Context { player_x: 5, player_y: 6 });
    assert_eq!(moved(5, 5, &['a']), Context { player_x: 4, player_y: 5 });
    assert_eq!(moved(5, 5, &['d']), Context { player_x: 6, player_y: 5 });
    assert_eq!(moved(5, 5, &['w', 's']), Context { player_x: 5, player_y: 5 });
    assert_eq!(moved(5, 5, &['w', 'd']), Context { player_x: 6, player_y: 4 });
    assert_eq!(moved(5, 5, &['s', 'a']), Context { player_x: 4, player_y: 6 });
    assert_eq!(moved(5, 5, &['w', 'a', 's', 'd']), Context { player_x: 5, player_y: 5 });
}

#[test]
fn other_keys_and_no_keys_move_nothing() {
    assert_eq!(moved(5, 5, &[]), Context { player_x: 5, player_y: 5 });
    assert_eq!(moved(5, 5, &['W', 'x', ' ']), Context { player_x: 5, player_y: 5 });
}

#[test]
fn movement_reaches_the_ends_of_the_range() {
    assert_eq!(moved(i32::MAX - 1, i32::MIN + 1, &['d', 'w']), Context {
        player_x: i32::MAX,
        player_y: i32::MIN,
    });
    assert_eq!(moved(i32::MIN, i32::MAX, &['d', 'w']), Context {
        player_x: i32::MIN + 1,
        player_y: i32::MAX - 1,
    });
    assert_eq!(moved(i32::MAX, i32::MAX, &['a', 'd', 'w', 's']), Context {
        player_x: i32::MAX,
        player_y: i32::MAX,
    });
}

#[test]
fn new_engine_has_no_key_pressed() {
    let engine = engine_at(1, 2);
    assert!(!engine.input().is_pressed('w'));
    assert_eq!(engine.context(), Context { player_x: 1, player_y: 2 });
    assert_eq!(engine.canvas().width(), 20);
}

#[test]
fn update_render_draws_the_player_and_blanks_the_canvas() {
    let mut engine = Engine::new(Canvas::new(3, 3), Context { player_x: 1, player_y: 0 });
    let frame = engine.update_render();
    assert_eq!(frame, "\x1B[2J\x1B[1;1H\x1B[?25l#####\n# @ #\n#   #\n#   #\n#####\n");
    assert!(engine.canvas().buffer().get_current_buffer().iter().all(|c| *c == ' '));
}

#[test]
fn run_moves_draws_and_forgets_the_keys() {
    let mut engine = Engine::new(Canvas::new(4, 4), Context::default());
    let frame = engine.run(&['d', 's']);
    assert_eq!(frame, "\x1B[2J\x1B[1;1H\x1B[?25l######\n#    #\n# @  #\n#    #\n#    #\n######\n");
    assert_eq!(engine.context(), Context { player_x: 1, player_y: 1 });
    assert!(!engine.input().is_pressed('d'));
    assert!(!engine.input().is_pressed('s'));
    let frame = engine.run(&[]);
    assert_eq!(frame, "\x1B[2J\x1B[1;1H\x1B[?25l######\n#    #\n# @  #\n#    #\n#    #\n######\n");
    assert_eq!(engine.context(), Context { player_x: 1, player_y: 1 });
    let frame = engine.run(&['w', 'a', 'a']);
    assert_eq!(frame, "\x1B[2J\x1B[1;1H\x1B[?25l######\n#@   #\n#    #\n#    #\n#    #\n######\n");
    assert_eq!(engine.context(), Context { player_x: 0, player_y: 0 });
}

#[test]
fn run_uses_keys_left_from_update_input() {
    let mut engine = Engine::new(Canvas::new(4, 4), Context::default());
    engine.update_input(&['d']);
    engine.run(&['s']);
    assert_eq!(engine.context(), Context { player_x: 1, player_y: 1 });
}

#[test]
fn run_outside_the_canvas_shows_no_player() {
    let mut engine = Engine::new(Canvas::new(3, 3), Context { player_x: 0, player_y: 0 });
    let frame = engine.run(&['w', 'w']);
    assert_eq!(engine.context(), Context { player_x: 0, player_y: -1 });
    assert_eq!(frame, "\x1B[2J\x1B[1;1H\x1B[?25l#####\n#   #\n#   #\n#   #\n#####\n");
}

#[test]
fn can_run_unless_a_step_leaves_the_range() {
    assert!(engine_at(0, 0).can_run(&['w', 'a', 's', 'd']));
    assert!(engine_at(i32::MIN, i32::MIN).can_run(&[]));
    assert!(engine_at(i32::MIN, i32::MIN).can_run(&['s', 'd']));
    assert!(engine_at(i32::MAX, i32::MAX).can_run(&['w', 'a']));
    assert!(engine_at(i32::MAX, i32::MAX).can_run(&['w', 's', 'a', 'd']));
    assert!(!engine_at(0, i32::MIN).can_run(&['w']));
    assert!(!engine_at(0, i32::MIN).can_run(&['s', 'w']));
    assert!(!engine_at(0, i32::MAX).can_run(&['s']));
    assert!(!engine_at(i32::MIN, 0).can_run(&['a']));
    assert!(!engine_at(i32::MIN, 0).can_run(&['d', 'a']));
    assert!(!engine_at(i32::MAX, 0).can_run(&['x', 'd']));
}

#[test]
fn can_run_counts_the_keys_already_pressed() {
    let mut engine = engine_at(0, i32::MIN);
    assert!(engine.can_run(&[]));
    engine.update_input(&['w']);
    assert!(!engine.can_run(&[]));
    assert!(!engine.can_run(&['s']));
}

#[test]
fn run_shows_the_player_in_the_last_cell_of_the_grid() {
    let mut engine = Engine::new(Canvas::new(3, 2), Context { player_x: 1, player_y: 1 });
    let frame = engine.run(&['d']);
    assert_eq!(engine.context(), Context { player_x: 2, player_y: 1 });
    assert_eq!(frame, "\x1B[2J\x1B[1;1H\x1B[?25l#####\n#   #\n#  @#\n#####\n");
    let frame = engine.run(&['d']);
    assert_eq!(engine.context(), Context { player_x: 3, player_y: 1 });
    assert_eq!(frame, "\x1B[2J\x1B[1;1H\x1B[?25l#####\n#   #\n#   #\n#####\n");
}
