use snake_core::game::Game;
use snake_core::input::{Dir, KeyInput};
use snake_core::point::Point;

fn keys(right: bool, left: bool, up: bool, down: bool, pause: bool) -> KeyInput {
    KeyInput { right, left, up, down, pause }
}

fn pt(x: i16, y: i16) -> Point {
    Point { x, y }
}

/// One tick of the starting snake with the fruit out of the way: the head
/// moves one cell left, both segments chase at distance 2, the moved tail
/// scores one point.
#[test]
fn scenario_one_tick_follow() {
    let mut g = Game::new();
    g.set_fruit(pt(0, 0));
    g.tick();
    assert_eq!(g.head(), pt(15, 16));
    assert_eq!(g.body_len(), 2);
    assert_eq!(g.body_at(0), pt(16, 16));
    assert_eq!(g.body_at(1), pt(17, 16));
    assert_eq!(g.score(), 1);
    assert!(!g.is_game_over());
    assert!(!g.is_paused());
    assert_eq!(g.odir(), Dir::Left);
}

/// Three fruit eaten on the head's path: the body grows by one per fruit,
/// each fruit scores 50 (plus the tail bonus when the tail moved), and the
/// speed fraction is exactly 0.15 * 0.95^3 = 20577/160000, still above the
/// floor of 3/50.
#[test]
fn scenario_three_fruit_speed() {
    let mut g = Game::new();
    assert_eq!(g.speed_num(), 3);
    assert_eq!(g.speed_den(), 20);

    g.set_fruit(pt(15, 16));
    g.tick();
    assert_eq!(g.score(), 51);
    assert_eq!(g.fruits_eaten(), 1);
    assert_eq!(g.body_len(), 3);
    assert_eq!(g.body_at(0), pt(16, 16));
    assert_eq!(g.body_at(1), pt(17, 16));
    assert_eq!(g.body_at(2), pt(17, 16));
    assert_eq!(g.speed_num(), 57);
    assert_eq!(g.speed_den(), 400);
    let f1 = g.fruit();
    assert!(0 <= f1.x && f1.x < 32 && 0 <= f1.y && f1.y < 32);

    g.set_fruit(pt(14, 16));
    g.tick();
    assert_eq!(g.score(), 101);
    assert_eq!(g.body_len(), 4);
    assert_eq!(g.speed_num(), 1083);
    assert_eq!(g.speed_den(), 8000);

    g.set_fruit(pt(13, 16));
    g.tick();
    assert_eq!(g.score(), 151);
    assert_eq!(g.fruits_eaten(), 3);
    assert_eq!(g.body_len(), 5);
    assert_eq!(g.speed_num(), 20577);
    assert_eq!(g.speed_den(), 160000);

    // Still above the floor of 3/50 seconds, by cross-multiplication.
    assert!(50 * g.speed_num() >= 3 * g.speed_den());

    // The three intervals never increased: 3/20 >= 57/400 >= 1083/8000 >= 20577/160000.
    assert!(57 * 20 <= 3 * 400);
    assert!(1083 * 400 <= 57 * 8000);
    assert!(20577u128 * 8000 <= 1083 * 160000);
}

/// Running into the left wall ends the game; the confirm key then restores
/// the starting score, speed and snake.
#[test]
fn scenario_reset_after_game_over() {
    let mut g = Game::new();
    g.set_fruit(pt(0, 0));
    for _ in 0..17 {
        g.tick();
    }
    assert!(g.is_game_over());
    assert_eq!(g.head(), pt(-1, 16));

    g.confirm();
    assert!(!g.is_game_over());
    assert_eq!(g.score(), 0);
    assert_eq!(g.fruits_eaten(), 0);
    assert_eq!(g.speed_num(), 3);
    assert_eq!(g.speed_den(), 20);
    assert_eq!(g.head(), pt(16, 16));
    assert_eq!(g.body_len(), 2);
    assert_eq!(g.body_at(0), pt(17, 16));
    assert_eq!(g.body_at(1), pt(18, 16));
    assert_eq!(g.dir(), Dir::Left);
    assert_eq!(g.odir(), Dir::Left);
}

/// A snake grown to six segments and steered in a tight loop lands its head
/// on its own body, which ends the game.
#[test]
fn scenario_self_collision() {
    let mut g = Game::new();
    for fx in [15i16, 14, 13, 12] {
        g.set_fruit(pt(fx, 16));
        g.tick();
        assert!(!g.is_game_over());
    }
    assert_eq!(g.body_len(), 6);
    assert_eq!(g.score(), 201);
    g.set_fruit(pt(0, 0));

    g.apply_input(keys(false, false, true, false, false));
    g.tick();
    assert_eq!(g.head(), pt(12, 15));
    assert!(!g.is_game_over());

    g.apply_input(keys(true, false, false, false, false));
    g.tick();
    assert_eq!(g.head(), pt(13, 15));
    assert!(!g.is_game_over());

    g.apply_input(keys(false, false, false, true, false));
    g.tick();
    assert_eq!(g.head(), pt(13, 16));
    assert!(g.is_game_over());
    assert_eq!(g.score(), 201);
}

/// A segment trailing at Chebyshev distance 2 on both axes moves one cell
/// along each axis in one tick: the chase rule produces diagonal motion.
#[test]
fn scenario_diagonal_follow() {
    let mut g = Game::new();
    g.set_fruit(pt(0, 0));
    g.tick();
    g.apply_input(keys(false, false, true, false, false));
    g.tick();
    assert_eq!(g.head(), pt(15, 15));
    assert_eq!(g.body_at(0), pt(16, 16));
    assert_eq!(g.body_at(1), pt(17, 16));
    g.tick();
    assert_eq!(g.head(), pt(15, 14));
    assert_eq!(g.body_at(0), pt(15, 15));
    assert_eq!(g.body_at(1), pt(16, 15));
    assert_eq!(g.score(), 2);
}

/// Walking up or down into the wall also ends the game.
#[test]
fn scenario_wall_up_and_down() {
    let mut g = Game::new();
    g.set_fruit(pt(0, 0));
    g.apply_input(keys(false, false, true, false, false));
    for _ in 0..17 {
        g.tick();
    }
    assert!(g.is_game_over());
    assert_eq!(g.head(), pt(16, -1));

    let mut g2 = Game::new();
    g2.set_fruit(pt(0, 0));
    g2.apply_input(keys(false, false, false, true, false));
    for _ in 0..16 {
        g2.tick();
    }
    assert!(g2.is_game_over());
    assert_eq!(g2.head(), pt(16, 32));
}
