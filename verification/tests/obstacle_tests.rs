use flappy_dragon::obstacle::{draw_gap_center, Obstacle};
use flappy_dragon::player::Player;
use flappy_dragon::host::{Color, DrawCommand};

fn bar_cell(x: i32, y: i32) -> DrawCommand {
    DrawCommand::Glyph { x, y, foreground: Color::Red, background: Color::Black, glyph: 124 }
}

#[test]
fn gap_narrows_by_one_per_point_down_to_two() {
    assert_eq!(Obstacle::with_gap(80, 0, 25).size, 20);
    assert_eq!(Obstacle::with_gap(80, 1, 25).size, 19);
    assert_eq!(Obstacle::with_gap(80, 2, 25).size, 18);
    assert_eq!(Obstacle::with_gap(80, 17, 25).size, 3);
    assert_eq!(Obstacle::with_gap(80, 18, 25).size, 2);
    assert_eq!(Obstacle::with_gap(80, 19, 25).size, 2);
    assert_eq!(Obstacle::with_gap(80, 25, 25).size, 2);
    assert_eq!(Obstacle::with_gap(80, u32::MAX, 25).size, 2);
    for s in 0u32..100 {
        assert_eq!(Obstacle::with_gap(0, s, 10).size, (20 - s as i32).max(2));
        assert_eq!(Obstacle::new(0, s).size, (20 - s as i32).max(2));
    }
}

#[test]
fn with_gap_keeps_column_and_center() {
    assert_eq!(Obstacle::with_gap(85, 2, 25), Obstacle { x: 85, gap_y: 25, size: 18 });
    assert_eq!(Obstacle::with_gap(-3, 0, 39), Obstacle { x: -3, gap_y: 39, size: 20 });
}

#[test]
fn drawn_center_lies_in_its_interval() {
    let mut seen = std::collections::BTreeSet::new();
    for _ in 0..500 {
        let g = draw_gap_center();
        assert!((10..40).contains(&g));
        seen.insert(g);
        let o = Obstacle::new(123, 4);
        assert_eq!(o.x, 123);
        assert_eq!(o.size, 16);
        assert!((10..40).contains(&o.gap_y));
    }
    assert!(seen.len() > 1);
}

#[test]
fn hit_needs_same_column_and_row_outside_gap() {
    let o = Obstacle { x: 85, gap_y: 25, size: 18 };
    for y in -5..70 {
        let p = Player { x: 85, y, velocity: 0 };
        assert_eq!(o.hit_obstacle(&p), y < 16 || y > 34);
    }
    assert!(o.hit_obstacle(&Player { x: 85, y: 15, velocity: 0 }));
    assert!(!o.hit_obstacle(&Player { x: 85, y: 16, velocity: 0 }));
    assert!(!o.hit_obstacle(&Player { x: 85, y: 34, velocity: 0 }));
    assert!(o.hit_obstacle(&Player { x: 85, y: 35, velocity: 0 }));
}

#[test]
fn no_hit_in_another_column() {
    let o = Obstacle { x: 85, gap_y: 25, size: 18 };
    for x in [84, 86, 0, -85, i32::MAX, i32::MIN] {
        for y in [-1, 0, 15, 25, 35, 49, 51, i32::MAX, i32::MIN] {
            assert!(!o.hit_obstacle(&Player { x, y, velocity: 0 }));
        }
    }
}

#[test]
fn odd_gap_rounds_its_half_down() {
    let o = Obstacle { x: 7, gap_y: 20, size: 5 };
    assert!(o.hit_obstacle(&Player { x: 7, y: 17, velocity: 0 }));
    assert!(!o.hit_obstacle(&Player { x: 7, y: 18, velocity: 0 }));
    assert!(!o.hit_obstacle(&Player { x: 7, y: 22, velocity: 0 }));
    assert!(o.hit_obstacle(&Player { x: 7, y: 23, velocity: 0 }));
}

#[test]
fn hit_is_total_at_the_limits() {
    let o = Obstacle { x: 0, gap_y: i32::MAX, size: i32::MAX };
    assert!(!o.hit_obstacle(&Player { x: 0, y: i32::MAX, velocity: 0 }));
    let o = Obstacle { x: 0, gap_y: i32::MIN, size: i32::MIN };
    assert!(o.hit_obstacle(&Player { x: 0, y: 0, velocity: 0 }));
}

#[test]
fn barrier_is_drawn_above_and_below_the_gap() {
    let o = Obstacle { x: 85, gap_y: 25, size: 18 };
    let commands = o.render(80);
    let mut expected = Vec::new();
    for y in 0..16 {
        expected.push(bar_cell(5, y));
    }
    for y in 34..50 {
        expected.push(bar_cell(5, y));
    }
    assert_eq!(commands, expected);
    assert_eq!(bracket_lib::prelude::to_cp437('|'), 124);
}

#[test]
fn barrier_with_gap_at_the_top_has_no_upper_part() {
    let o = Obstacle { x: 10, gap_y: 10, size: 20 };
    let commands = o.render(11);
    let mut expected = Vec::new();
    for y in 20..50 {
        expected.push(bar_cell(-1, y));
    }
    assert_eq!(commands, expected);
}

#[test]
fn narrowest_barrier_low_on_the_screen() {
    let o = Obstacle { x: 100, gap_y: 39, size: 2 };
    let commands = o.render(60);
    assert_eq!(commands.len(), 38 + 10);
    assert_eq!(commands[0], bar_cell(40, 0));
    assert_eq!(commands[37], bar_cell(40, 37));
    assert_eq!(commands[38], bar_cell(40, 40));
    assert_eq!(commands[47], bar_cell(40, 49));
}
