//! The session: player, barrier, score and clock, and the mode machine that
//! drives them one frame at a time.
use crate::obstacle::{
    draw_gap_center, is_gap_center, spawned, Obstacle, ObstacleView, GAP_CENTER_END,
    GAP_CENTER_MIN, NARROWEST_GAP, WIDEST_GAP,
};
use crate::player::{Player, PlayerView, PLAYER_GLYPH};
use crate::host::{cp437, Color, DrawCommand, Key};
use crate::{FRAME_DURATION, SCREEN_HEIGHT, SCREEN_WIDTH};
use vstd::prelude::*;

verus! {

/// Column a round starts in.
pub const START_X: i32 = 5;

/// Row a round starts on.
pub const START_Y: i32 = 25;

/// What the session is showing.
#[derive(Clone, Copy, Debug, PartialEq, Eq, Structural)]
pub enum GameMode {
    Menu,
    Playing,
    End,
}

/// The whole session.
#[derive(Clone, Copy, Debug, PartialEq, Eq)]
pub struct State {
    pub player: Player,
    /// Microseconds banked since the last physics step.
    pub frame_time: u64,
    pub mode: GameMode,
    /// Barriers passed in this round.
    pub score: u32,
    /// The one barrier ahead.
    pub obstacle: Obstacle,
}

/// The session as mathematical values.
pub struct StateView {
    pub player: PlayerView,
    pub frame_time: int,
    pub mode: GameMode,
    pub score: int,
    pub obstacle: ObstacleView,
}

/// What one frame hands to the host: what to draw, and whether to terminate.
#[derive(Debug, PartialEq, Eq)]
pub struct Frame {
    pub commands: Vec<DrawCommand>,
    pub quit: bool,
}

/// What one frame takes in: the time since the last frame, the key pressed if
/// any, and the row drawn for the gap of a barrier generated in this frame.
pub struct FrameInput {
    pub elapsed: int,
    pub key: Option<Key>,
    pub gap_center: int,
}

impl FrameInput {
    /// Time does not run backward and the row lies in the draw's interval.
    pub open spec fn wf(self) -> bool {
        self.elapsed >= 0 && is_gap_center(self.gap_center)
    }
}

/// The body a round starts with.
pub open spec fn fresh_player() -> PlayerView {
    PlayerView { world_x: START_X as int, screen_y: START_Y as int, velocity: 0 }
}

/// The opening screen.
pub open spec fn menu_screen() -> Seq<DrawCommand> {
    seq![
        DrawCommand::Clear,
        DrawCommand::TextCentered { y: 5, text: "Welcome to Flappy Dragon!" },
        DrawCommand::TextCentered { y: 8, text: "(P) Play Game" },
        DrawCommand::TextCentered { y: 9, text: "(Q) Quit Game" },
    ]
}

/// The screen after a lost round.
pub open spec fn end_screen() -> Seq<DrawCommand> {
    seq![
        DrawCommand::Clear,
        DrawCommand::TextCentered { y: 5, text: "You are dead." },
        DrawCommand::TextCentered { y: 8, text: "(P) Play Again" },
        DrawCommand::TextCentered { y: 9, text: "(Q) Quit game" },
    ]
}

impl StateView {
    /// What holds between frames: the player is not above the top of the
    /// screen, the barrier obeys the generation rule's bounds, the clock has
    /// not passed a quantum, and the barrier is at or ahead of the player by
    /// at most a screen's width.
    pub open spec fn wf(self) -> bool {
        &&& self.player.wf()
        &&& self.obstacle.wf()
        &&& 0 <= self.frame_time <= FRAME_DURATION
        &&& 0 <= self.score
        &&& self.player.world_x <= self.obstacle.world_x <= self.player.world_x + SCREEN_WIDTH
    }

    /// Whether the banked time together with `elapsed` exceeds a quantum.
    pub open spec fn due(self, elapsed: int) -> bool {
        self.frame_time + elapsed > FRAME_DURATION
    }

    /// The clock's part of a frame: when a physics step is due, exactly one
    /// runs and the banked time is dropped; otherwise the time is banked.
    pub open spec fn clocked(self, elapsed: int) -> StateView {
        if self.due(elapsed) {
            StateView { frame_time: 0, player: self.player.stepped(), ..self }
        } else {
            StateView { frame_time: self.frame_time + elapsed, ..self }
        }
    }

    /// The key's part of a frame of play: the flap key flaps, no other does anything.
    pub open spec fn steered(self, key: Option<Key>) -> StateView {
        if key == Some(Key::Flap) {
            StateView { player: self.player.flapped(), ..self }
        } else {
            self
        }
    }

    /// Clock, then key.
    pub open spec fn advanced(self, elapsed: int, key: Option<Key>) -> StateView {
        self.clocked(elapsed).steered(key)
    }

    /// Whether the player has left the barrier's column behind.
    pub open spec fn passed(self) -> bool {
        self.player.world_x > self.obstacle.world_x
    }

    /// A passed barrier counts one point and gives way to the next one, a
    /// screen's width ahead, sized for the new score.
    pub open spec fn scored(self, gap_center: int) -> StateView {
        if self.passed() {
            StateView {
                score: self.score + 1,
                obstacle: spawned(self.player.world_x + SCREEN_WIDTH, self.score + 1, gap_center),
                ..self
            }
        } else {
            self
        }
    }

    /// Whether the round is lost: the player is below the screen or in the barrier.
    pub open spec fn lost(self) -> bool {
        self.player.screen_y > SCREEN_HEIGHT || self.obstacle.hits(self.player)
    }

    /// A lost round ends at once.
    pub open spec fn judged(self) -> StateView {
        if self.lost() {
            StateView { mode: GameMode::End, ..self }
        } else {
            self
        }
    }

    /// One frame of play; `gap_center` is the draw for the next barrier,
    /// used only if one is generated.
    pub open spec fn played(self, elapsed: int, key: Option<Key>, gap_center: int) -> StateView {
        self.advanced(elapsed, key).scored(gap_center).judged()
    }

    /// What a frame of play shows of a session.
    pub open spec fn scene(self) -> Seq<DrawCommand> {
        seq![
            DrawCommand::ClearBackground { color: Color::Navy },
            DrawCommand::Glyph {
                x: 0,
                y: self.player.screen_y as i32,
                foreground: Color::Yellow,
                background: Color::Black,
                glyph: cp437(PLAYER_GLYPH),
            },
            DrawCommand::Text { x: 0, y: 0, text: "Press SPACE to flap!" },
            DrawCommand::Counter { x: 0, y: 1, label: "Score: ", value: self.score as u32 },
        ] + self.obstacle.drawing(self.player.world_x)
    }

    /// The start of a round: whatever the session was, a fresh player, an
    /// empty clock, no points and the first barrier.
    pub open spec fn restarted(self, gap_center: int) -> StateView {
        StateView {
            player: fresh_player(),
            frame_time: 0,
            mode: GameMode::Playing,
            score: 0,
            obstacle: spawned(SCREEN_WIDTH as int, 0, gap_center),
        }
    }

    /// A key on the opening or the end screen: the play key starts a round,
    /// no other key changes the session.
    pub open spec fn chosen(self, key: Option<Key>, gap_center: int) -> StateView {
        if key == Some(Key::Play) {
            self.restarted(gap_center)
        } else {
            self
        }
    }

    /// One frame, by mode.
    pub open spec fn ticked(self, elapsed: int, key: Option<Key>, gap_center: int) -> StateView {
        match self.mode {
            GameMode::Playing => self.played(elapsed, key, gap_center),
            _ => self.chosen(key, gap_center),
        }
    }

    /// What one frame draws.
    pub open spec fn shown(self, elapsed: int, key: Option<Key>) -> Seq<DrawCommand> {
        match self.mode {
            GameMode::Menu => menu_screen(),
            GameMode::End => end_screen(),
            GameMode::Playing => self.advanced(elapsed, key).scene(),
        }
    }

    /// Whether one frame asks the host to terminate.
    pub open spec fn quits(self, key: Option<Key>) -> bool {
        self.mode != GameMode::Playing && key == Some(Key::Quit)
    }

    /// The session after a run of frames, in order.
    pub open spec fn run(self, inputs: Seq<FrameInput>) -> StateView
        decreases inputs.len(),
    {
        if inputs.len() == 0 {
            self
        } else {
            self.run(inputs.drop_last()).ticked(
                inputs.last().elapsed,
                inputs.last().key,
                inputs.last().gap_center,
            )
        }
    }

    /// Whether a frame of play stays within the machine integers: a due
    /// step fits, and so do the next score and the next barrier's column
    /// if the barrier is passed.
    pub open spec fn can_play(self, elapsed: int) -> bool {
        &&& self.due(elapsed) ==> self.player.can_step()
        &&& self.clocked(elapsed).passed() ==> {
            &&& self.score < u32::MAX
            &&& self.clocked(elapsed).player.world_x + SCREEN_WIDTH <= i32::MAX
        }
    }
}

impl View for State {
    type V = StateView;

    open spec fn view(&self) -> StateView {
        StateView {
            player: self.player@,
            frame_time: self.frame_time as int,
            mode: self.mode,
            score: self.score as int,
            obstacle: self.obstacle@,
        }
    }
}

/// The three lines of a mode screen under a cleared screen.
fn mode_screen(title: &'static str, play: &'static str, quit: &'static str) -> (commands: Vec<
    DrawCommand,
>)
    ensures
        commands@ == seq![
            DrawCommand::Clear,
            DrawCommand::TextCentered { y: 5, text: title },
            DrawCommand::TextCentered { y: 8, text: play },
            DrawCommand::TextCentered { y: 9, text: quit },
        ],
{
    let mut commands: Vec<DrawCommand> = Vec::new();
    commands.push(DrawCommand::Clear);
    commands.push(DrawCommand::TextCentered { y: 5, text: title });
    commands.push(DrawCommand::TextCentered { y: 8, text: play });
    commands.push(DrawCommand::TextCentered { y: 9, text: quit });
    assert(commands@ =~= seq![
        DrawCommand::Clear,
        DrawCommand::TextCentered { y: 5, text: title },
        DrawCommand::TextCentered { y: 8, text: play },
        DrawCommand::TextCentered { y: 9, text: quit },
    ]);
    commands
}

impl State {
    /// A session on the opening screen, with the player at the start and the
    /// first barrier a screen's width from the origin.
    pub fn new() -> (state: State)
        ensures
            state@.mode == GameMode::Menu,
            state@.player == fresh_player(),
            state@.frame_time == 0,
            state@.score == 0,
            is_gap_center(state@.obstacle.gap_center),
            state@.obstacle == spawned(SCREEN_WIDTH as int, 0, state@.obstacle.gap_center),
            state@.wf(),
    {
        State {
            player: Player::new(START_X, START_Y),
            frame_time: 0,
            mode: GameMode::Menu,
            obstacle: Obstacle::new(SCREEN_WIDTH, 0),
            score: 0,
        }
    }

    /// Whether `tick` may be called with this elapsed time: the session is
    /// well-formed and, in play, the frame stays within the machine integers.
    pub fn can_tick(&self, elapsed: u64) -> (ready: bool)
        ensures
            ready == (self@.wf() && (self@.mode == GameMode::Playing ==> self@.can_play(
                elapsed as int,
            ))),
    {
        let player = &self.player;
        let obstacle = &self.obstacle;
        let wf = player.y >= 0 && GAP_CENTER_MIN <= obstacle.gap_y && obstacle.gap_y < GAP_CENTER_END
            && NARROWEST_GAP <= obstacle.size && obstacle.size <= WIDEST_GAP && self.frame_time
            <= FRAME_DURATION && player.x <= obstacle.x && obstacle.x as i64 <= player.x as i64
            + SCREEN_WIDTH as i64;
        if !wf {
            return false;
        }
        match self.mode {
            GameMode::Playing => {},
            _ => {
                return true;
            },
        }
        if elapsed > FRAME_DURATION - self.frame_time {
            if !player.fits_step() {
                return false;
            }
            if player.x == obstacle.x {
                self.score < u32::MAX && player.x as i64 + 1 + SCREEN_WIDTH as i64 <= i32::MAX as i64
            } else {
                true
            }
        } else {
            true
        }
    }

    /// The clock's and the key's part of a frame of play.
    pub fn advance(&mut self, elapsed: u64, key: Option<Key>)
        requires
            old(self)@.due(elapsed as int) ==> old(self)@.player.can_step(),
        ensures
            final(self)@ == old(self)@.advanced(elapsed as int, key),
    {
        let due = self.frame_time > FRAME_DURATION || elapsed > FRAME_DURATION - self.frame_time;
        if due {
            self.frame_time = 0;
            self.player.gravity_and_move();
        } else {
            self.frame_time = self.frame_time + elapsed;
        }
        match key {
            Some(Key::Flap) => self.player.flap(),
            _ => {},
        }
    }

    /// The commands that draw the session in play: background, player, the
    /// two text lines, then the barrier.
    pub fn scene(&self) -> (commands: Vec<DrawCommand>)
        requires
            self@.obstacle.wf(),
            i32::MIN <= self@.obstacle.world_x - self@.player.world_x <= i32::MAX,
        ensures
            commands@ == self@.scene(),
    {
        let mut commands: Vec<DrawCommand> = Vec::new();
        commands.push(DrawCommand::ClearBackground { color: Color::Navy });
        commands.push(self.player.render());
        commands.push(DrawCommand::Text { x: 0, y: 0, text: "Press SPACE to flap!" });
        commands.push(DrawCommand::Counter { x: 0, y: 1, label: "Score: ", value: self.score });
        let mut barrier = self.obstacle.render(self.player.x);
        commands.append(&mut barrier);
        assert(commands@ =~= self@.scene());
        commands
    }

    /// Counts a passed barrier and puts the next one in place, its gap
    /// centered on `gap_center`; does nothing while the barrier is ahead.
    pub fn score_pass(&mut self, gap_center: i32)
        requires
            old(self)@.passed() ==> old(self)@.score < u32::MAX && old(self)@.player.world_x
                + SCREEN_WIDTH <= i32::MAX,
        ensures
            final(self)@ == old(self)@.scored(gap_center as int),
    {
        if self.player.x > self.obstacle.x {
            self.score = self.score + 1;
            self.obstacle = Obstacle::with_gap(self.player.x + SCREEN_WIDTH, self.score, gap_center);
        }
    }

    /// Ends the round if it is lost.
    pub fn judge(&mut self)
        ensures
            final(self)@ == old(self)@.judged(),
    {
        if self.player.y > SCREEN_HEIGHT || self.obstacle.hit_obstacle(&self.player) {
            self.mode = GameMode::End;
        }
    }

    /// One frame of play. The gap of a newly generated barrier is centered
    /// on some row of the draw's interval; everything else is determined.
    pub fn play(&mut self, elapsed: u64, key: Option<Key>) -> (commands: Vec<DrawCommand>)
        requires
            old(self)@.wf(),
            old(self)@.can_play(elapsed as int),
        ensures
            commands@ == old(self)@.advanced(elapsed as int, key).scene(),
            exists|gap_center: int|
                is_gap_center(gap_center) && final(self)@ == #[trigger] old(self)@.played(
                    elapsed as int,
                    key,
                    gap_center,
                ),
            final(self)@.wf(),
    {
        self.advance(elapsed, key);
        let commands = self.scene();
        let mut gap_center: i32 = GAP_CENTER_MIN;
        if self.player.x > self.obstacle.x {
            gap_center = draw_gap_center();
        }
        self.score_pass(gap_center);
        self.judge();
        assert(self@ == old(self)@.played(elapsed as int, key, gap_center as int));
        commands
    }

    /// Starts a round with the first barrier's gap centered on `gap_center`.
    pub fn restart_with(&mut self, gap_center: i32)
        ensures
            final(self)@ == old(self)@.restarted(gap_center as int),
    {
        self.player = Player::new(START_X, START_Y);
        self.frame_time = 0;
        self.mode = GameMode::Playing;
        self.score = 0;
        self.obstacle = Obstacle::with_gap(SCREEN_WIDTH, 0, gap_center);
    }

    /// Starts a round; the first barrier's gap is centered on some row of
    /// the draw's interval.
    pub fn restart(&mut self)
        ensures
            exists|gap_center: int|
                is_gap_center(gap_center) && final(self)@ == #[trigger] old(self)@.restarted(
                    gap_center,
                ),
            final(self)@.wf(),
    {
        let gap_center = draw_gap_center();
        self.restart_with(gap_center);
        assert(self@ == old(self)@.restarted(gap_center as int));
    }

    /// A key on a mode screen.
    fn pick(&mut self, key: Option<Key>) -> (quit: bool)
        ensures
            quit == (key == Some(Key::Quit)),
            exists|gap_center: int|
                is_gap_center(gap_center) && final(self)@ == #[trigger] old(self)@.chosen(
                    key,
                    gap_center,
                ),
            old(self)@.wf() ==> final(self)@.wf(),
    {
        match key {
            Some(Key::Play) => {
                self.restart();
                proof {
                    let gap_center = choose|gap_center: int|
                        is_gap_center(gap_center) && self@ == #[trigger] old(self)@.restarted(
                            gap_center,
                        );
                    assert(self@ == old(self)@.chosen(key, gap_center));
                }
                false
            },
            Some(Key::Quit) => {
                assert(self@ == old(self)@.chosen(key, 10));
                true
            },
            _ => {
                assert(self@ == old(self)@.chosen(key, 10));
                false
            },
        }
    }

    /// One frame of the opening screen.
    pub fn main_menu(&mut self, key: Option<Key>) -> (frame: Frame)
        ensures
            frame.commands@ == menu_screen(),
            frame.quit == (key == Some(Key::Quit)),
            exists|gap_center: int|
                is_gap_center(gap_center) && final(self)@ == #[trigger] old(self)@.chosen(
                    key,
                    gap_center,
                ),
            old(self)@.wf() ==> final(self)@.wf(),
    {
        let commands = mode_screen(
            "Welcome to Flappy Dragon!",
            "(P) Play Game",
            "(Q) Quit Game",
        );
        let quit = self.pick(key);
        Frame { commands, quit }
    }

    /// One frame of the screen after a lost round.
    pub fn dead(&mut self, key: Option<Key>) -> (frame: Frame)
        ensures
            frame.commands@ == end_screen(),
            frame.quit == (key == Some(Key::Quit)),
            exists|gap_center: int|
                is_gap_center(gap_center) && final(self)@ == #[trigger] old(self)@.chosen(
                    key,
                    gap_center,
                ),
            old(self)@.wf() ==> final(self)@.wf(),
    {
        let commands = mode_screen("You are dead.", "(P) Play Again", "(Q) Quit game");
        let quit = self.pick(key);
        Frame { commands, quit }
    }

    /// One frame: the handler of the current mode runs, and no other.
    pub fn tick(&mut self, elapsed: u64, key: Option<Key>) -> (frame: Frame)
        requires
            old(self)@.wf(),
            old(self)@.mode == GameMode::Playing ==> old(self)@.can_play(elapsed as int),
        ensures
            frame.commands@ == old(self)@.shown(elapsed as int, key),
            frame.quit == old(self)@.quits(key),
            exists|gap_center: int|
                is_gap_center(gap_center) && final(self)@ == #[trigger] old(self)@.ticked(
                    elapsed as int,
                    key,
                    gap_center,
                ),
            final(self)@.wf(),
    {
        match self.mode {
            GameMode::Menu => {
                let frame = self.main_menu(key);
                proof {
                    let gap_center = choose|gap_center: int|
                        is_gap_center(gap_center) && self@ == #[trigger] old(self)@.chosen(
                            key,
                            gap_center,
                        );
                    assert(self@ == old(self)@.ticked(elapsed as int, key, gap_center));
                }
                frame
            },
            GameMode::End => {
                let frame = self.dead(key);
                proof {
                    let gap_center = choose|gap_center: int|
                        is_gap_center(gap_center) && self@ == #[trigger] old(self)@.chosen(
                            key,
                            gap_center,
                        );
                    assert(self@ == old(self)@.ticked(elapsed as int, key, gap_center));
                }
                frame
            },
            GameMode::Playing => {
                let commands = self.play(elapsed, key);
                proof {
                    let gap_center = choose|gap_center: int|
                        is_gap_center(gap_center) && self@ == #[trigger] old(self)@.played(
                            elapsed as int,
                            key,
                            gap_center,
                        );
                    assert(self@ == old(self)@.ticked(elapsed as int, key, gap_center));
                }
                Frame { commands, quit: false }
            },
        }
    }
}

/// When the banked time with the elapsed time exceeds a quantum, exactly one
/// physics step runs and nothing stays banked, however much time has passed;
/// otherwise no step runs and the elapsed time is banked. The clock touches
/// nothing else.
pub proof fn one_step_per_frame(s: StateView, elapsed: int)
    ensures
        s.due(elapsed) ==> s.clocked(elapsed).player == s.player.stepped() && s.clocked(
            elapsed,
        ).frame_time == 0,
        !s.due(elapsed) ==> s.clocked(elapsed).player == s.player && s.clocked(elapsed).frame_time
            == s.frame_time + elapsed,
        s.clocked(elapsed).mode == s.mode,
        s.clocked(elapsed).score == s.score,
        s.clocked(elapsed).obstacle == s.obstacle,
{
}

/// The start of a round does not depend on the session it starts from: the
/// play key on the opening screen and on the end screen lead to the same
/// session, in play, with no points, an empty clock and the player at the start.
pub proof fn restart_forgets(a: StateView, b: StateView, elapsed: int, gap_center: int)
    requires
        a.mode != GameMode::Playing,
        b.mode != GameMode::Playing,
    ensures
        a.ticked(elapsed, Some(Key::Play), gap_center) == b.ticked(
            elapsed,
            Some(Key::Play),
            gap_center,
        ),
        a.ticked(elapsed, Some(Key::Play), gap_center) == (StateView {
            player: fresh_player(),
            frame_time: 0,
            mode: GameMode::Playing,
            score: 0,
            obstacle: spawned(SCREEN_WIDTH as int, 0, gap_center),
        }),
{
}

/// A player below the bottom of the screen ends the round in that frame,
/// wherever the barrier is. The player counts as below if it is there once
/// clock and key have acted, which is the case whenever it was there before
/// and no step is due or gravity does not pull it upward.
pub proof fn fall_ends_round(s: StateView, elapsed: int, key: Option<Key>, gap_center: int)
    ensures
        s.advanced(elapsed, key).player.screen_y > SCREEN_HEIGHT ==> s.played(
            elapsed,
            key,
            gap_center,
        ).mode == GameMode::End,
        s.player.screen_y > SCREEN_HEIGHT && (!s.due(elapsed) || s.player.velocity >= -1)
            ==> s.played(elapsed, key, gap_center).mode == GameMode::End,
{
}

/// The mode changes only on the play key, from a mode screen into play, or
/// on a lost round, from play to the end screen.
pub proof fn mode_changes_by_key_or_loss(
    s: StateView,
    elapsed: int,
    key: Option<Key>,
    gap_center: int,
)
    ensures
        s.ticked(elapsed, key, gap_center).mode != s.mode ==> {
            ||| (s.mode != GameMode::Playing && key == Some(Key::Play) && s.ticked(
                elapsed,
                key,
                gap_center,
            ).mode == GameMode::Playing)
            ||| (s.mode == GameMode::Playing && s.advanced(elapsed, key).scored(gap_center).lost()
                && s.ticked(elapsed, key, gap_center).mode == GameMode::End)
        },
{
}

/// A frame of play never moves the player backward nor takes a point away,
/// and the barrier is replaced exactly when a point is counted.
pub proof fn play_moves_forward(s: StateView, elapsed: int, key: Option<Key>, gap_center: int)
    ensures
        s.player.world_x <= s.played(elapsed, key, gap_center).player.world_x <= s.player.world_x
            + 1,
        s.score <= s.played(elapsed, key, gap_center).score <= s.score + 1,
        s.played(elapsed, key, gap_center).score == s.score ==> s.played(
            elapsed,
            key,
            gap_center,
        ).obstacle == s.obstacle,
        s.played(elapsed, key, gap_center).score == s.score + 1 ==> s.played(
            elapsed,
            key,
            gap_center,
        ).obstacle == spawned(
            s.played(elapsed, key, gap_center).player.world_x + SCREEN_WIDTH,
            s.score + 1,
            gap_center,
        ),
{
}

/// Every frame keeps a well-formed session well-formed, whichever row of the
/// draw's interval a new gap is centered on.
pub proof fn tick_keeps_wf(s: StateView, elapsed: int, key: Option<Key>, gap_center: int)
    requires
        s.wf(),
        elapsed >= 0,
        is_gap_center(gap_center),
    ensures
        s.ticked(elapsed, key, gap_center).wf(),
{
}

/// A well-formed session is well-formed after any run of frames, whatever
/// the times, keys and draws: in particular the player is never above the
/// top of the screen and the gap never closes.
pub proof fn run_keeps_wf(s: StateView, inputs: Seq<FrameInput>)
    requires
        s.wf(),
        forall|i: int| 0 <= i < inputs.len() ==> (#[trigger] inputs[i]).wf(),
    ensures
        s.run(inputs).wf(),
        s.run(inputs).player.screen_y >= 0,
        s.run(inputs).obstacle.gap_size >= NARROWEST_GAP,
    decreases inputs.len(),
{
    if inputs.len() > 0 {
        run_keeps_wf(s, inputs.drop_last());
        tick_keeps_wf(
            s.run(inputs.drop_last()),
            inputs.last().elapsed,
            inputs.last().key,
            inputs.last().gap_center,
        );
    }
}

} // verus!
