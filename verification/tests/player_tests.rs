use flappy_dragon::player::{Player, FLAP_VELOCITY, GRAVITY, TERMINAL_VELOCITY, VELOCITY_SCALE};
use flappy_dragon::host::{Color, DrawCommand};

#[test]
fn new_player_is_at_rest() {
    let p = Player::new(5, 25);
    assert_eq!(p, Player { x: 5, y: 25, velocity: 0 });
}

#[test]
fn speed_constants_are_fifths_of_a_cell() {
    assert_eq!(VELOCITY_SCALE, 5);
    assert_eq!(GRAVITY, 1);
    assert_eq!(TERMINAL_VELOCITY, 2 * VELOCITY_SCALE);
    assert_eq!(FLAP_VELOCITY, -2 * VELOCITY_SCALE);
}

#[test]
fn one_step_adds_one_increment_of_gravity() {
    for v in -40..TERMINAL_VELOCITY {
        let mut p = Player { x: 0, y: 1000, velocity: v };
        assert!(p.fits_step());
        p.gravity_and_move();
        assert_eq!(p.velocity, v + 1);
        assert!(p.velocity <= TERMINAL_VELOCITY);
    }
}

#[test]
fn gravity_leaves_terminal_speed_alone() {
    for v in TERMINAL_VELOCITY..40 {
        let mut p = Player { x: 0, y: 1000, velocity: v };
        p.gravity_and_move();
        assert_eq!(p.velocity, v);
    }
}

#[test]
fn first_steps_from_rest() {
    let mut p = Player::new(5, 25);
    let mut rows = Vec::new();
    for _ in 0..12 {
        p.gravity_and_move();
        rows.push((p.velocity, p.y));
    }
    assert_eq!(
        rows,
        vec![
            (1, 25),
            (2, 25),
            (3, 25),
            (4, 25),
            (5, 26),
            (6, 27),
            (7, 28),
            (8, 29),
            (9, 30),
            (10, 32),
            (10, 34),
            (10, 36)
        ]
    );
    assert_eq!(p.x, 17);
}

#[test]
fn upward_speed_rounds_down() {
    let mut p = Player { x: 0, y: 25, velocity: FLAP_VELOCITY };
    p.gravity_and_move();
    assert_eq!(p.velocity, -9);
    assert_eq!(p.y, 23);
    let mut q = Player { x: 0, y: 25, velocity: -2 };
    q.gravity_and_move();
    assert_eq!(q.velocity, -1);
    assert_eq!(q.y, 24);
    let mut r = Player { x: 0, y: 25, velocity: -1 };
    r.gravity_and_move();
    assert_eq!(r.velocity, 0);
    assert_eq!(r.y, 25);
}

#[test]
fn step_stops_at_top_of_screen() {
    let mut p = Player { x: 0, y: 1, velocity: FLAP_VELOCITY };
    p.gravity_and_move();
    assert_eq!(p.y, 0);
    let mut q = Player { x: 0, y: -7, velocity: 0 };
    q.gravity_and_move();
    assert_eq!(q.y, 0);
    let mut r = Player { x: 0, y: i32::MIN, velocity: i32::MIN };
    assert!(r.fits_step());
    r.gravity_and_move();
    assert_eq!(r.y, 0);
    assert_eq!(r.x, 1);
}

#[test]
fn flap_sets_upward_impulse() {
    for v in [-100, -10, -1, 0, 3, 10, 55, i32::MAX, i32::MIN] {
        let mut p = Player { x: 9, y: 12, velocity: v };
        p.flap();
        assert_eq!(p, Player { x: 9, y: 12, velocity: -10 });
        p.flap();
        assert_eq!(p, Player { x: 9, y: 12, velocity: -10 });
    }
}

#[test]
fn row_is_never_negative_over_a_run() {
    for pattern in 0u32..256 {
        let mut p = Player::new(5, 3);
        for round in 0..64 {
            if (pattern >> (round % 8)) & 1 == 1 {
                p.flap();
            }
            assert!(p.y >= 0);
            p.gravity_and_move();
            assert!(p.y >= 0);
        }
        assert_eq!(p.x, 5 + 64);
    }
}

#[test]
fn fits_step_at_the_limits() {
    assert!(!Player { x: i32::MAX, y: 0, velocity: 0 }.fits_step());
    assert!(Player { x: i32::MAX - 1, y: 0, velocity: 0 }.fits_step());
    assert!(!Player { x: 0, y: i32::MAX, velocity: 4 }.fits_step());
    assert!(Player { x: 0, y: i32::MAX, velocity: 3 }.fits_step());
    assert!(Player { x: 0, y: i32::MAX - 2, velocity: 10 }.fits_step());
    assert!(!Player { x: 0, y: i32::MAX - 1, velocity: 10 }.fits_step());
}

#[test]
fn player_is_drawn_in_the_left_column() {
    let p = Player::new(5, 25);
    assert_eq!(
        p.render(),
        DrawCommand::Glyph {
            x: 0,
            y: 25,
            foreground: Color::Yellow,
            background: Color::Black,
            glyph: 64
        }
    );
    assert_eq!(bracket_lib::prelude::to_cp437('@'), 64);
}
