//! The barrier: a column with one passable gap.
use crate::player::{Player, PlayerView};
use crate::host::{cp437, draw_in_range, glyph_code, Color, DrawCommand};
use crate::SCREEN_HEIGHT;
use bracket_lib::prelude::RandomNumberGenerator;
use vstd::prelude::*;

verus! {

/// Lowest row a gap's center is placed on.
pub const GAP_CENTER_MIN: i32 = 10;

/// First row past those a gap's center is placed on.
pub const GAP_CENTER_END: i32 = 40;

/// Size of the gap before any barrier has been passed.
pub const WIDEST_GAP: i32 = 20;

/// Size below which the gap never shrinks.
pub const NARROWEST_GAP: i32 = 2;

/// The character a barrier is drawn with.
pub const OBSTACLE_GLYPH: char = '|';

/// A barrier in the player's way.
#[derive(Clone, Copy, Debug, PartialEq, Eq)]
pub struct Obstacle {
    /// Column of the barrier, in world space.
    pub x: i32,
    /// Row of the center of the gap.
    pub gap_y: i32,
    /// Vertical extent of the gap.
    pub size: i32,
}

/// The barrier as mathematical integers.
pub struct ObstacleView {
    pub world_x: int,
    pub gap_center: int,
    pub gap_size: int,
}

/// The gap's size at a score: one less per point, but never under the floor.
pub open spec fn gap_size_at(score: int) -> int {
    if WIDEST_GAP - score > NARROWEST_GAP {
        WIDEST_GAP - score
    } else {
        NARROWEST_GAP as int
    }
}

/// The barrier generated at a column for a score, once the gap's center is drawn.
pub open spec fn spawned(x: int, score: int, gap_center: int) -> ObstacleView {
    ObstacleView { world_x: x, gap_center, gap_size: gap_size_at(score) }
}

/// Whether a value can come out of the draw for a gap's center.
pub open spec fn is_gap_center(gap_center: int) -> bool {
    GAP_CENTER_MIN <= gap_center < GAP_CENTER_END
}

/// One cell of a barrier.
pub open spec fn bar_cell(screen_x: int, y: int) -> DrawCommand {
    DrawCommand::Glyph {
        x: screen_x as i32,
        y: y as i32,
        foreground: Color::Red,
        background: Color::Black,
        glyph: cp437(OBSTACLE_GLYPH),
    }
}

/// The cells of one column from row `from` up to, not including, row `to`,
/// top down; none if `to <= from`.
pub open spec fn bar(screen_x: int, from: int, to: int) -> Seq<DrawCommand> {
    Seq::new(
        (if to > from {
            to - from
        } else {
            0
        }) as nat,
        |i: int| bar_cell(screen_x, from + i),
    )
}

impl ObstacleView {
    /// Half of the gap's size, rounded down.
    pub open spec fn half(self) -> int {
        self.gap_size / 2
    }

    /// Topmost row that belongs to the gap.
    pub open spec fn gap_top(self) -> int {
        self.gap_center - self.half()
    }

    /// Lowest row that belongs to the gap.
    pub open spec fn gap_bottom(self) -> int {
        self.gap_center + self.half()
    }

    /// Whether the body collides: it is in the barrier's column and outside the gap.
    pub open spec fn hits(self, player: PlayerView) -> bool {
        player.world_x == self.world_x && (player.screen_y < self.gap_top() || player.screen_y
            > self.gap_bottom())
    }

    /// The generation rule's bounds: a center in its interval and a size
    /// between the floor and the widest gap.
    pub open spec fn wf(self) -> bool {
        &&& is_gap_center(self.gap_center)
        &&& NARROWEST_GAP <= self.gap_size <= WIDEST_GAP
    }

    /// The barrier's cells as seen by a player at `player_x`: the rows above
    /// the gap, then the rows from the gap's lowest row to the bottom.
    pub open spec fn drawing(self, player_x: int) -> Seq<DrawCommand> {
        let screen_x = self.world_x - player_x;
        bar(screen_x, 0, self.gap_top()) + bar(screen_x, self.gap_bottom(), SCREEN_HEIGHT as int)
    }
}

impl View for Obstacle {
    type V = ObstacleView;

    open spec fn view(&self) -> ObstacleView {
        ObstacleView {
            world_x: self.x as int,
            gap_center: self.gap_y as int,
            gap_size: self.size as int,
        }
    }
}

/// Half of a size, rounded down.
fn half_of(size: i32) -> (half: i32)
    ensures
        half == (size as int) / 2,
{
    if size >= 0 {
        let s: u32 = size as u32;
        (s / 2) as i32
    } else {
        let s: i64 = size as i64;
        let up: u64 = (1 - s) as u64;
        let q: u64 = up / 2;
        assert(-(q as int) == (size as int) / 2);
        (0 - (q as i64)) as i32
    }
}

/// Appends the cells of one column from row `from` up to row `to`.
fn push_bar(commands: &mut Vec<DrawCommand>, screen_x: i32, from: i32, to: i32)
    ensures
        final(commands)@ == old(commands)@ + bar(screen_x as int, from as int, to as int),
{
    let glyph = glyph_code(OBSTACLE_GLYPH);
    let ghost before = commands@;
    let mut y: i32 = from;
    while y < to
        invariant
            from <= y,
            y <= to || y == from,
            glyph == cp437(OBSTACLE_GLYPH),
            commands@ == before + bar(screen_x as int, from as int, y as int),
        decreases to - y,
    {
        commands.push(
            DrawCommand::Glyph {
                x: screen_x,
                y,
                foreground: Color::Red,
                background: Color::Black,
                glyph,
            },
        );
        y = y + 1;
        assert(commands@ =~= before + bar(screen_x as int, from as int, y as int));
    }
    assert(commands@ =~= before + bar(screen_x as int, from as int, to as int));
}

/// Draws the row of a gap's center.
pub fn draw_gap_center() -> (gap_center: i32)
    ensures
        is_gap_center(gap_center as int),
{
    let mut random = RandomNumberGenerator::new();
    draw_in_range(&mut random, GAP_CENTER_MIN, GAP_CENTER_END)
}

impl Obstacle {
    /// The barrier generated at a column for a score with a given center of
    /// the gap.
    pub fn with_gap(x: i32, score: u32, gap_center: i32) -> (obstacle: Obstacle)
        ensures
            obstacle@ == spawned(x as int, score as int, gap_center as int),
            is_gap_center(gap_center as int) ==> obstacle@.wf(),
    {
        let size: i32 = if score >= (WIDEST_GAP - NARROWEST_GAP) as u32 {
            NARROWEST_GAP
        } else {
            WIDEST_GAP - score as i32
        };
        Obstacle { x, gap_y: gap_center, size }
    }

    /// A barrier at a column for a score, the center of its gap drawn at random.
    pub fn new(x: i32, score: u32) -> (obstacle: Obstacle)
        ensures
            is_gap_center(obstacle@.gap_center),
            obstacle@ == spawned(x as int, score as int, obstacle@.gap_center),
            obstacle@.wf(),
    {
        let gap_center = draw_gap_center();
        Obstacle::with_gap(x, score, gap_center)
    }

    /// The commands that draw the barrier for a player at `player_x`.
    pub fn render(&self, player_x: i32) -> (commands: Vec<DrawCommand>)
        requires
            self@.wf(),
            i32::MIN <= self.x - player_x <= i32::MAX,
        ensures
            commands@ == self@.drawing(player_x as int),
    {
        let screen_x = self.x - player_x;
        let half_size = half_of(self.size);
        let mut commands: Vec<DrawCommand> = Vec::new();
        push_bar(&mut commands, screen_x, 0, self.gap_y - half_size);
        push_bar(&mut commands, screen_x, self.gap_y + half_size, SCREEN_HEIGHT);
        commands
    }

    /// Whether the player collides with the barrier.
    pub fn hit_obstacle(&self, player: &Player) -> (hit: bool)
        ensures
            hit == self@.hits(player@),
    {
        let half_size: i64 = half_of(self.size) as i64;
        let does_x_match = player.x == self.x;
        let player_above_gap = (player.y as i64) < self.gap_y as i64 - half_size;
        let player_below_gap = (player.y as i64) > self.gap_y as i64 + half_size;
        does_x_match && (player_above_gap || player_below_gap)
    }
}

/// The gap's size is the larger of the floor and the widest gap less the
/// score: it loses one row per point until it reaches the floor and stays there.
pub proof fn gap_size_law(score: nat)
    ensures
        gap_size_at(score as int) >= NARROWEST_GAP,
        gap_size_at(score as int) >= WIDEST_GAP - score,
        gap_size_at(score as int) == NARROWEST_GAP || gap_size_at(score as int) == WIDEST_GAP
            - score,
        gap_size_at(score as int) <= WIDEST_GAP,
        gap_size_at(score as int + 1) <= gap_size_at(score as int),
{
}

/// A collision is exactly: same column, and a row strictly outside the closed
/// interval of the gap's rows. In any other column there is none, whatever
/// the row.
pub proof fn hit_law(obstacle: ObstacleView, player: PlayerView)
    ensures
        obstacle.hits(player) <==> (player.world_x == obstacle.world_x && !(obstacle.gap_center
            - obstacle.gap_size / 2 <= player.screen_y <= obstacle.gap_center + obstacle.gap_size
            / 2)),
        player.world_x != obstacle.world_x ==> !obstacle.hits(player),
{
}

} // verus!
