use snake_core::game::Game;
use snake_core::input::{resolve_direction, Dir, KeyInput};
use snake_core::point::Point;

fn keys(right: bool, left: bool, up: bool, down: bool, pause: bool) -> KeyInput {
    KeyInput { right, left, up, down, pause }
}

fn pt(x: i16, y: i16) -> Point {
    Point { x, y }
}

/// A key whose direction would reverse the one applied last tick is ignored,
/// and does not stop the later rules from matching.
#[test]
fn reversal_is_refused() {
    let mut g = Game::new();
    g.set_fruit(pt(0, 0));

    // Heading left: the right key alone changes nothing.
    g.apply_input(keys(true, false, false, false, false));
    assert_eq!(g.dir(), Dir::Left);

    // The right key together with the up key falls through to up.
    g.apply_input(keys(true, false, true, false, false));
    assert_eq!(g.dir(), Dir::Up);
    g.tick();
    assert_eq!(g.odir(), Dir::Up);

    // Heading up: the down key is refused, the left key wins instead.
    g.apply_input(keys(false, true, false, true, false));
    assert_eq!(g.dir(), Dir::Left);
    assert_ne!(g.dir(), g.odir().opposite());

    // The pair never reverses across further ticks either.
    for _ in 0..3 {
        g.tick();
        assert_ne!(g.dir(), g.odir().opposite());
    }
}

/// The resolver tries right, left, up, down in that order and takes the
/// first held key that is not a reversal.
#[test]
fn resolver_priority_order() {
    assert_eq!(resolve_direction(Dir::Up, keys(true, true, true, true, false)), Some(Dir::Right));
    assert_eq!(resolve_direction(Dir::Right, keys(false, true, true, true, false)), Some(Dir::Up));
    assert_eq!(resolve_direction(Dir::Up, keys(false, false, false, true, false)), None);
    assert_eq!(resolve_direction(Dir::Left, keys(false, false, false, false, false)), None);
    assert_eq!(resolve_direction(Dir::Left, keys(true, false, false, false, false)), None);
}

/// The pause key pauses only when no direction rule matched; while paused,
/// ticks and direction keys change nothing until the confirm key resumes.
#[test]
fn pause_and_resume() {
    let mut g = Game::new();
    g.set_fruit(pt(0, 0));

    // A direction key held together with pause wins; the game keeps running.
    g.apply_input(keys(false, false, true, false, true));
    assert!(!g.is_paused());
    assert_eq!(g.dir(), Dir::Up);

    g.apply_input(keys(false, false, false, false, true));
    assert!(g.is_paused());

    let head_before = g.head();
    let score_before = g.score();
    g.tick();
    assert_eq!(g.head(), head_before);
    assert_eq!(g.score(), score_before);

    g.apply_input(keys(false, true, false, false, false));
    assert_eq!(g.dir(), Dir::Up);

    g.confirm();
    assert!(!g.is_paused());
    g.tick();
    assert_eq!(g.head(), pt(16, 15));
}

/// The fruit drawn at startup and after a reset always lies inside the
/// field, and the draws replay exactly under a fixed seed.
#[test]
fn fruit_draws_in_grid_and_reproducible() {
    for seed in [0u64, 1, 7, 42, 123456789] {
        macroquad::rand::srand(seed);
        let g = Game::new();
        let f = g.fruit();
        assert!(0 <= f.x && f.x < 32);
        assert!(0 <= f.y && f.y < 32);
    }
    macroquad::rand::srand(7);
    let a = Game::new().fruit();
    macroquad::rand::srand(7);
    let b = Game::new().fruit();
    assert_eq!(a, b);
}

/// Placing the fruit by hand accepts cells of the field only.
#[test]
fn set_fruit_rejects_outside_cells() {
    let mut g = Game::new();
    g.set_fruit(pt(3, 4));
    assert_eq!(g.fruit(), pt(3, 4));
    g.set_fruit(pt(-1, 4));
    assert_eq!(g.fruit(), pt(3, 4));
    g.set_fruit(pt(3, 32));
    assert_eq!(g.fruit(), pt(3, 4));
}

/// Eating a fruit appends a copy of the last segment: the duplicate then
/// trails until the chain stretches out.
#[test]
fn growth_copies_last_segment() {
    let mut g = Game::new();
    g.set_fruit(pt(15, 16));
    g.tick();
    assert_eq!(g.body_len(), 3);
    let tail = g.body_at(1);
    assert_eq!(g.body_at(2), tail);
}
