//! The player: a body that falls under gravity and can be flapped upward.
//!
//! Vertical speed is kept in fixed point. One unit is a fifth of a cell per
//! physics step, which is exactly the gravitational increment, so every speed
//! the game can reach is a whole number of units.
use crate::host::{cp437, glyph_code, Color, DrawCommand};
use vstd::prelude::*;

verus! {

/// Speed units per cell: a speed of `VELOCITY_SCALE` moves one cell per step.
pub const VELOCITY_SCALE: i32 = 5;

/// Speed gained per physics step while below terminal speed (0.2 cells).
pub const GRAVITY: i32 = 1;

/// Speed at which gravity stops accelerating (2.0 cells per step).
pub const TERMINAL_VELOCITY: i32 = 10;

/// Speed right after a flap (-2.0 cells per step: upward).
pub const FLAP_VELOCITY: i32 = -10;

/// The character the player is drawn as.
pub const PLAYER_GLYPH: char = '@';

/// The player's body.
#[derive(Clone, Copy, Debug, PartialEq, Eq)]
pub struct Player {
    /// Horizontal distance traveled, in world space.
    pub x: i32,
    /// Row on the screen; 0 is the top.
    pub y: i32,
    /// Vertical speed in fifths of a cell per step; positive is downward.
    pub velocity: i32,
}

/// The player as mathematical integers.
pub struct PlayerView {
    pub world_x: int,
    pub screen_y: int,
    pub velocity: int,
}

/// Speed after gravity has acted for one step.
pub open spec fn pulled(velocity: int) -> int {
    if velocity < TERMINAL_VELOCITY {
        velocity + GRAVITY
    } else {
        velocity
    }
}

/// Whole cells moved in one step at a speed: the speed in cells, rounded down.
pub open spec fn cells_per_step(velocity: int) -> int {
    velocity / (VELOCITY_SCALE as int)
}

impl PlayerView {
    /// The body is not above the top of the screen.
    pub open spec fn wf(self) -> bool {
        self.screen_y >= 0
    }

    /// The body after one physics step: gravity, then the vertical move
    /// stopped at the top of the screen, and one column forward.
    pub open spec fn stepped(self) -> PlayerView {
        let velocity = pulled(self.velocity);
        let y = self.screen_y + cells_per_step(velocity);
        PlayerView {
            world_x: self.world_x + 1,
            screen_y: if y < 0 { 0 } else { y },
            velocity,
        }
    }

    /// The body after a flap.
    pub open spec fn flapped(self) -> PlayerView {
        PlayerView { velocity: FLAP_VELOCITY as int, ..self }
    }

    /// The body after one move: a flap, or else a physics step.
    pub open spec fn moved(self, flap: bool) -> PlayerView {
        if flap {
            self.flapped()
        } else {
            self.stepped()
        }
    }

    /// The body after a run of moves in order, each a flap (`true`) or a
    /// physics step (`false`).
    pub open spec fn run(self, flaps: Seq<bool>) -> PlayerView
        decreases flaps.len(),
    {
        if flaps.len() == 0 {
            self
        } else {
            self.run(flaps.drop_last()).moved(flaps.last())
        }
    }

    /// Whether the stepped body still fits the machine integers.
    pub open spec fn can_step(self) -> bool {
        &&& self.stepped().world_x <= i32::MAX
        &&& self.stepped().screen_y <= i32::MAX
    }
}

impl View for Player {
    type V = PlayerView;

    open spec fn view(&self) -> PlayerView {
        PlayerView { world_x: self.x as int, screen_y: self.y as int, velocity: self.velocity as int }
    }
}

/// The speed in cells, rounded down.
fn whole_cells(velocity: i32) -> (cells: i32)
    ensures
        cells == cells_per_step(velocity as int),
{
    let scale: u64 = VELOCITY_SCALE as u64;
    if velocity >= 0 {
        let down: u64 = velocity as u64;
        (down / scale) as i32
    } else {
        let up: u64 = (scale as i64 - 1 - velocity as i64) as u64;
        let cells: u64 = up / scale;
        assert(-(cells as int) == (velocity as int) / (VELOCITY_SCALE as int));
        (0 - (cells as i64)) as i32
    }
}

impl Player {
    /// A body at rest at the given place.
    pub fn new(x: i32, y: i32) -> (player: Player)
        ensures
            player@ == (PlayerView { world_x: x as int, screen_y: y as int, velocity: 0 }),
    {
        Player { x, y, velocity: 0 }
    }

    /// The command that draws the player in the leftmost column.
    pub fn render(&self) -> (command: DrawCommand)
        ensures
            command == (DrawCommand::Glyph {
                x: 0,
                y: self.y,
                foreground: Color::Yellow,
                background: Color::Black,
                glyph: cp437(PLAYER_GLYPH),
            }),
    {
        DrawCommand::Glyph {
            x: 0,
            y: self.y,
            foreground: Color::Yellow,
            background: Color::Black,
            glyph: glyph_code(PLAYER_GLYPH),
        }
    }

    /// Whether a physics step stays within the machine integers.
    pub fn fits_step(&self) -> (fits: bool)
        ensures
            fits == self@.can_step(),
    {
        let velocity: i32 = if self.velocity < TERMINAL_VELOCITY {
            self.velocity + GRAVITY
        } else {
            self.velocity
        };
        let moved: i64 = self.y as i64 + whole_cells(velocity) as i64;
        self.x < i32::MAX && moved <= i32::MAX as i64
    }

    /// One physics step.
    pub fn gravity_and_move(&mut self)
        requires
            old(self)@.can_step(),
        ensures
            final(self)@ == old(self)@.stepped(),
    {
        if self.velocity < TERMINAL_VELOCITY {
            self.velocity = self.velocity + GRAVITY;
        }
        let moved: i64 = self.y as i64 + whole_cells(self.velocity) as i64;
        self.x = self.x + 1;
        if moved < 0 {
            self.y = 0;
        } else {
            self.y = moved as i32;
        }
    }

    /// Replaces the speed by the upward impulse, whatever it was.
    pub fn flap(&mut self)
        ensures
            final(self)@ == old(self)@.flapped(),
    {
        self.velocity = FLAP_VELOCITY;
    }
}

/// Gravity adds exactly one increment to a speed below terminal speed, and the
/// result does not pass terminal speed; at or above terminal speed it leaves
/// the speed as it is.
pub proof fn gravity_law(velocity: int)
    ensures
        velocity < TERMINAL_VELOCITY ==> pulled(velocity) == velocity + GRAVITY && pulled(velocity)
            <= TERMINAL_VELOCITY,
        velocity >= TERMINAL_VELOCITY ==> pulled(velocity) == velocity,
{
}

/// A physics step changes the speed by gravity alone and moves one column on.
pub proof fn step_law(p: PlayerView)
    ensures
        p.stepped().velocity == pulled(p.velocity),
        p.stepped().world_x == p.world_x + 1,
        p.stepped().wf(),
{
}

/// A flap sets the upward impulse whatever the speed was, changes nothing
/// else, and a second flap changes nothing more.
pub proof fn flap_law(p: PlayerView)
    ensures
        p.flapped().velocity == FLAP_VELOCITY,
        p.flapped().world_x == p.world_x,
        p.flapped().screen_y == p.screen_y,
        p.flapped().flapped() == p.flapped(),
{
}

/// A body that is not above the top of the screen is not above it after any
/// run of physics steps and flaps, in any order.
pub proof fn never_above_top(p: PlayerView, flaps: Seq<bool>)
    requires
        p.wf(),
    ensures
        p.run(flaps).wf(),
    decreases flaps.len(),
{
    if flaps.len() > 0 {
        never_above_top(p, flaps.drop_last());
    }
}

/// The horizontal distance never decreases over a run of moves: each physics
/// step adds one column and a flap adds none.
pub proof fn never_backward(p: PlayerView, flaps: Seq<bool>)
    ensures
        p.world_x <= p.run(flaps).world_x <= p.world_x + flaps.len(),
    decreases flaps.len(),
{
    if flaps.len() > 0 {
        never_backward(p, flaps.drop_last());
    }
}

} // verus!
