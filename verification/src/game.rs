//! The game-state machine and the once-per-tick simulation step. One call of
//! [`Game::tick`] is one frame: timers and the charge input are processed
//! first, then the jump trajectory and its landing check, then platform
//! generation and scoring on a landing, then the failure fall and its
//! terminal check, then camera tracking, then the score-up visuals.
//!
//! The whole step is mirrored by the specification function [`tick_spec`], so
//! every field of the next state is pinned down for every input.

use vstd::prelude::*;
use crate::camera::Camera;
use crate::camera::eased;
use crate::platform::COORD_CAP;
use crate::platform::PLATFORM_WINDOW;
use crate::platform::Platform;
use crate::platform::WIDTH_MAX;
use crate::platform::first_platform;
use crate::platform::first_platform_spec;
use crate::platform::next_platform;
use crate::platform::next_platform_spec;
use crate::player::FALL_ELAPSED_CAP;
use crate::player::FALL_FLOOR;
use crate::player::FALL_SPEED;
use crate::player::FallState;
use crate::player::JumpState;
use crate::player::MAX_CHARGE;
use crate::player::MAX_JUMP;
use crate::player::PLAYER_X_CAP;
use crate::player::Player;
use crate::player::TICKS_PER_UNIT;
use crate::player::ARC_DIV;
use crate::player::arc_x;
use crate::player::arc_y;
use crate::player::fall_idle;
use crate::player::fall_y;
use crate::player::flight_ticks;
use crate::player::idle_fall;
use crate::player::idle_jump;
use crate::player::jump_idle;
use crate::player::jump_power;
use crate::player::power_of;
use crate::score::SCORE_INC;
use crate::score::ScoreUpEffect;
use crate::score::ScoreUpEntry;
use crate::score::age_filter;
use crate::score::ages_wf;
use crate::score::lemma_age_filter_wf;
use crate::score::lemma_spawned_wf;
use crate::score::spawned;
use crate::score::step_effects;
use crate::timer::Timer;
use crate::timer::advanced;

verus! {

/// Ticks the charge input must be held before the pre-jump animation counts
/// as ready.
pub const PREPARE_TICKS: i64 = 12;

/// Ticks between bursts of the accumulation particle effect while charging.
pub const PARTICLE_TICKS: i64 = 12;

/// The three screens of the session. Exactly one is active at a time.
#[derive(Clone, Copy, PartialEq, Eq, Structural, Debug)]
pub enum GameState {
    MainMenu,
    Playing,
    GameOver,
}

/// One frame's worth of input, as the input layer reports it.
#[derive(Clone, Copy, PartialEq, Eq, Structural, Debug)]
pub enum Input {
    /// No input this frame.
    Quiet,
    /// The charge button went down this frame.
    Press,
    /// The charge button is still held.
    Hold,
    /// The charge button was released this frame.
    Release,
    /// The menu button (start / restart) was clicked.
    Click,
}

/// What happened during one tick, for the audio and particle layers:
/// fire-and-forget trigger points, never read back by the core.
#[derive(Clone, Copy, PartialEq, Eq, Structural, Debug)]
pub struct TickReport {
    /// A jump was launched this tick.
    pub launched: bool,
    /// The jump came down on the target platform this tick.
    pub landed: bool,
    /// The jump came down off the target platform this tick.
    pub missed: bool,
    /// The run ended this tick: the state machine moved to the game-over
    /// screen.
    pub game_over: bool,
    /// The accumulation particle timer finished this tick while charging.
    pub particles_ready: bool,
}

/// A report with nothing to announce.
pub open spec fn quiet_report() -> TickReport {
    TickReport {
        launched: false,
        landed: false,
        missed: false,
        game_over: false,
        particles_ready: false,
    }
}

/// The mathematical value of a whole game session: every live entity and
/// resource of the core, with the entity lists as sequences.
#[verifier::ext_equal]
pub struct GameV {
    pub state: GameState,
    pub score: u64,
    pub player: Option<Player>,
    pub platforms: Seq<Platform>,
    pub jump: JumpState,
    pub fall: FallState,
    pub charge: Option<i64>,
    pub camera: Camera,
    pub prepare: Timer,
    pub particle: Timer,
    pub queue: Seq<ScoreUpEntry>,
    pub effects: Seq<ScoreUpEffect>,
    pub main_menu_live: bool,
    pub game_over_live: bool,
    pub scoreboard_live: bool,
}

/// The result of one specification-level tick: the next session value and the
/// tick's report.
#[verifier::ext_equal]
pub struct TickOut {
    pub g: GameV,
    pub report: TickReport,
}

/// The whole game session: all state the core owns, passed by reference into
/// each tick rather than kept in ambient globals.
pub struct Game {
    pub state: GameState,
    pub score: u64,
    pub player: Option<Player>,
    pub platforms: Vec<Platform>,
    pub jump: JumpState,
    pub fall: FallState,
    pub charge: Option<i64>,
    pub camera: Camera,
    pub prepare: Timer,
    pub particle: Timer,
    pub queue: Vec<ScoreUpEntry>,
    pub effects: Vec<ScoreUpEffect>,
    pub main_menu_live: bool,
    pub game_over_live: bool,
    pub scoreboard_live: bool,
}

impl View for Game {
    type V = GameV;

    open spec fn view(&self) -> GameV {
        GameV {
            state: self.state,
            score: self.score,
            player: self.player,
            platforms: self.platforms@,
            jump: self.jump,
            fall: self.fall,
            charge: self.charge,
            camera: self.camera,
            prepare: self.prepare,
            particle: self.particle,
            queue: self.queue@,
            effects: self.effects@,
            main_menu_live: self.main_menu_live,
            game_over_live: self.game_over_live,
            scoreboard_live: self.scoreboard_live,
        }
    }
}

/// The player's horizontal position, zero when no player is live.
pub open spec fn player_x(g: GameV) -> i64 {
    match g.player {
        Some(p) => p.x,
        None => 0,
    }
}

impl GameV {
    /// The session invariant: it holds of the initial session and every tick
    /// preserves it.
    ///
    /// In particular a jump and a fall are never in progress at the same
    /// time, a charge is only held while grounded in the playing state, the
    /// playing state always has a live player and a target platform, and
    /// every live platform is well-formed.
    pub open spec fn inv(self) -> bool {
        &&& !(self.jump.in_progress && self.fall.in_progress)
        &&& (self.charge matches Some(c) ==> {
            &&& 0 <= c < MAX_CHARGE
            &&& !self.jump.in_progress
            &&& !self.fall.in_progress
            &&& self.state is Playing
        })
        &&& (self.state is Playing ==> self.player is Some && self.platforms.len() >= 1)
        &&& (!(self.state is Playing) ==> !self.jump.in_progress && !self.fall.in_progress)
        &&& (forall|i: int| 0 <= i < self.platforms.len() ==> #[trigger] self.platforms[i].wf())
        &&& self.platforms.len() <= PLATFORM_WINDOW
        &&& (self.jump.in_progress ==> {
            &&& 0 <= self.jump.power <= MAX_JUMP
            &&& 0 <= self.jump.elapsed <= flight_ticks(self.jump.power as int)
            &&& 0 <= self.jump.launch_x <= COORD_CAP + WIDTH_MAX
        })
        &&& (self.fall.in_progress ==> {
            &&& 0 <= self.fall.elapsed <= FALL_ELAPSED_CAP
            &&& 0 <= self.fall.start_x <= PLAYER_X_CAP
        })
        &&& (self.player matches Some(p) ==> 0 <= p.x <= PLAYER_X_CAP)
        &&& (self.state is Playing && !self.jump.in_progress && !self.fall.in_progress ==> {
            self.player matches Some(p) && p.x <= COORD_CAP + WIDTH_MAX
        })
        &&& self.camera.wf()
        &&& ages_wf(self.effects)
        &&& self.prepare.wf() && self.prepare.duration == PREPARE_TICKS
        &&& self.particle.wf() && self.particle.duration == PARTICLE_TICKS
    }
}

/// Exit hook of the main menu: its screen is despawned.
pub open spec fn exit_main_menu_spec(g: GameV) -> GameV {
    GameV { main_menu_live: false, ..g }
}

/// Exit hook of the game-over screen: it is despawned.
pub open spec fn exit_game_over_spec(g: GameV) -> GameV {
    GameV { game_over_live: false, ..g }
}

/// Enter hooks of the main menu: its screen is spawned; any stale player,
/// platforms and scoreboard are cleared.
pub open spec fn enter_main_menu_spec(g: GameV) -> GameV {
    GameV {
        state: GameState::MainMenu,
        main_menu_live: true,
        player: None,
        platforms: Seq::empty(),
        scoreboard_live: false,
        ..g
    }
}

/// Enter hooks of the playing state, clears-before-creates: stale entities
/// and transient visuals are cleared, the score is reset to zero, the first
/// platform and the player are spawned, the scoreboard is spawned, and every
/// timer is reset. Running the hooks twice in a row yields the same session.
pub open spec fn enter_playing_spec(g: GameV) -> GameV {
    GameV {
        state: GameState::Playing,
        score: 0,
        player: Some(
            Player {
                x: (first_platform_spec().left + first_platform_spec().width / 2) as i64,
                y: 0,
            },
        ),
        platforms: seq![first_platform_spec()],
        jump: jump_idle(),
        fall: fall_idle(),
        charge: None,
        camera: Camera { x: 0, target: 0 },
        prepare: Timer { elapsed: 0, duration: PREPARE_TICKS },
        particle: Timer { elapsed: 0, duration: PARTICLE_TICKS },
        queue: Seq::empty(),
        effects: Seq::empty(),
        scoreboard_live: true,
        ..g
    }
}

/// Enter hook of the game over state, together with the unconditional
/// cancellation owed on leaving the playing state: any jump, fall or charge
/// is reset, the player (whose fall animation has just finished) is
/// despawned, and the game-over screen is spawned.
pub open spec fn game_over_enter_spec(g: GameV) -> GameV {
    GameV {
        state: GameState::GameOver,
        game_over_live: true,
        jump: jump_idle(),
        fall: fall_idle(),
        charge: None,
        player: None,
        ..g
    }
}

/// A session as a fresh process starts it: at the main menu, with no live
/// entities and both charge timers inserted fresh, one-shot, not yet run.
pub open spec fn init_spec() -> GameV {
    GameV {
        state: GameState::MainMenu,
        score: 0,
        player: None,
        platforms: Seq::empty(),
        jump: jump_idle(),
        fall: fall_idle(),
        charge: None,
        camera: Camera { x: 0, target: 0 },
        prepare: Timer { elapsed: 0, duration: PREPARE_TICKS },
        particle: Timer { elapsed: 0, duration: PARTICLE_TICKS },
        queue: Seq::empty(),
        effects: Seq::empty(),
        main_menu_live: true,
        game_over_live: false,
        scoreboard_live: false,
    }
}

/// The session after a launch with charge `c`: the charge is consumed, a
/// fresh jump starts at the player's position with the clamped power, and the
/// charge timers reset.
pub open spec fn launch_spec(g: GameV, c: i64) -> GameV {
    GameV {
        charge: None,
        jump: JumpState {
            in_progress: true,
            elapsed: 0,
            launch_x: player_x(g),
            power: power_of(c) as i64,
        },
        prepare: Timer { elapsed: 0, duration: g.prepare.duration },
        particle: Timer { elapsed: 0, duration: g.particle.duration },
        ..g
    }
}

/// The charge-input phase of a playing tick. Returns the next session, and
/// whether a jump launched and whether the particle timer finished this tick.
///
/// A press while grounded starts charging; holding accumulates charge and
/// auto-launches at exactly the maximum; a release launches with the charge
/// held so far. Charge input while airborne or falling is ignored.
pub open spec fn charge_spec(g: GameV, input: Input, d: i64) -> (GameV, bool, bool) {
    match g.charge {
        Option::None => {
            if input is Press && !g.jump.in_progress && !g.fall.in_progress {
                (
                    GameV {
                        charge: Some(0),
                        prepare: Timer { elapsed: 0, duration: g.prepare.duration },
                        particle: Timer { elapsed: 0, duration: g.particle.duration },
                        ..g
                    },
                    false,
                    false,
                )
            } else {
                (g, false, false)
            }
        },
        Option::Some(c) => {
            if input is Release {
                (launch_spec(g, c), true, false)
            } else {
                let c2 = if c + d < MAX_CHARGE {
                    (c + d) as i64
                } else {
                    MAX_CHARGE
                };
                if c2 >= MAX_CHARGE {
                    (launch_spec(g, MAX_CHARGE), true, false)
                } else {
                    (
                        GameV {
                            charge: Some(c2),
                            prepare: advanced(g.prepare, d),
                            particle: advanced(g.particle, d),
                            ..g
                        },
                        false,
                        advanced(g.particle, d).is_finished() && !g.particle.is_finished(),
                    )
                }
            }
        },
    }
}

/// The jump phase of a playing tick: the arc is advanced by the frame delta
/// and evaluated in closed form; once the arc comes back down to platform
/// height, the landing check against the target platform (the newest one)
/// decides between a landing and the start of a failure fall.
///
/// Returns the next session, whether the jump landed, and whether it missed.
pub open spec fn jump_spec(g: GameV, d: i64) -> (GameV, bool, bool) {
    if !g.jump.in_progress {
        (g, false, false)
    } else {
        let t = flight_ticks(g.jump.power as int);
        let e2 = g.jump.elapsed + d;
        if e2 < t {
            (
                GameV {
                    jump: JumpState { elapsed: e2 as i64, ..g.jump },
                    player: Some(
                        Player {
                            x: arc_x(g.jump.launch_x as int, e2) as i64,
                            y: arc_y(g.jump.power as int, e2) as i64,
                        },
                    ),
                    ..g
                },
                false,
                false,
            )
        } else {
            let land_x = g.jump.launch_x + g.jump.power;
            let target = g.platforms.last();
            if target.spec_contains(land_x as int) {
                (
                    GameV {
                        jump: jump_idle(),
                        player: Some(Player { x: land_x as i64, y: 0 }),
                        ..g
                    },
                    true,
                    false,
                )
            } else {
                (
                    GameV {
                        jump: jump_idle(),
                        fall: FallState { in_progress: true, elapsed: 0, start_x: land_x as i64 },
                        player: Some(Player { x: land_x as i64, y: 0 }),
                        ..g
                    },
                    false,
                    true,
                )
            }
        }
    }
}

/// The landing phase, fired exactly once per landing: the score grows by the
/// configured increment, a score-up entry is queued at the landing position,
/// the next platform is generated from the landed one, and platforms trailing
/// beyond the sliding window are pruned.
pub open spec fn land_spec(g: GameV, r1: u64, r2: u64) -> GameV {
    let s2 = if g.score <= u64::MAX - SCORE_INC {
        (g.score + SCORE_INC) as u64
    } else {
        g.score
    };
    let entry = ScoreUpEntry { x: player_x(g), y: 0, value: SCORE_INC };
    let grown = g.platforms.push(next_platform_spec(g.platforms.last(), s2, r1, r2));
    let pruned = if grown.len() > PLATFORM_WINDOW {
        grown.remove(0)
    } else {
        grown
    };
    GameV { score: s2, queue: g.queue.push(entry), platforms: pruned, ..g }
}

/// The fall phase of a playing tick: the failure fall is advanced and
/// evaluated in closed form; the second result says whether the fall crossed
/// the below-camera floor this tick, which makes the failure final.
pub open spec fn fall_spec(g: GameV, d: i64) -> (GameV, bool) {
    if !g.fall.in_progress {
        (g, false)
    } else {
        let e2 = if g.fall.elapsed + d <= FALL_ELAPSED_CAP {
            (g.fall.elapsed + d) as i64
        } else {
            FALL_ELAPSED_CAP
        };
        let y = fall_y(e2 as int);
        (
            GameV {
                fall: FallState { elapsed: e2, ..g.fall },
                player: Some(Player { x: g.fall.start_x, y: y as i64 }),
                ..g
            },
            y <= FALL_FLOOR,
        )
    }
}

/// The camera phase: the camera eases toward the player's progress.
pub open spec fn camera_spec(g: GameV) -> GameV {
    GameV { camera: eased(g.camera, player_x(g) as int), ..g }
}

/// The visual phase: live score-up visuals age and expire, then the pending
/// queue is drained into fresh visuals.
pub open spec fn effects_spec(g: GameV, d: i64) -> GameV {
    GameV { queue: Seq::empty(), effects: age_filter(g.effects, d) + spawned(g.queue), ..g }
}

/// One whole tick of the playing state, phases in their required order:
/// charge input, jump trajectory and landing check, platform generation and
/// scoring, failure fall, then camera tracking and visuals. A terminal fall
/// transitions to the game-over state instead.
pub open spec fn playing_spec(g: GameV, input: Input, d: i64, r1: u64, r2: u64) -> TickOut {
    let charged = charge_spec(g, input, d);
    let g1 = charged.0;
    let jumped = jump_spec(g1, d);
    let g2 = jumped.0;
    let g3 = if jumped.1 {
        land_spec(g2, r1, r2)
    } else {
        g2
    };
    let fallen = fall_spec(g3, d);
    let g4 = fallen.0;
    let report = TickReport {
        launched: charged.1,
        landed: jumped.1,
        missed: jumped.2,
        game_over: fallen.1,
        particles_ready: charged.2,
    };
    if fallen.1 {
        TickOut { g: game_over_enter_spec(g4), report }
    } else {
        TickOut { g: effects_spec(camera_spec(g4), d), report }
    }
}

/// One tick of the whole state machine. In the menus only the click input
/// does anything: it drives the exit hooks of the left state and the enter
/// hooks of the entered one. In the playing state the tick runs the phases of
/// [`playing_spec`].
pub open spec fn tick_spec(g: GameV, input: Input, dt: u32, r1: u64, r2: u64) -> TickOut {
    match g.state {
        GameState::MainMenu => {
            if input is Click {
                TickOut { g: enter_playing_spec(exit_main_menu_spec(g)), report: quiet_report() }
            } else {
                TickOut { g, report: quiet_report() }
            }
        },
        GameState::GameOver => {
            if input is Click {
                TickOut { g: enter_main_menu_spec(exit_game_over_spec(g)), report: quiet_report() }
            } else {
                TickOut { g, report: quiet_report() }
            }
        },
        GameState::Playing => playing_spec(g, input, dt as i64, r1, r2),
    }
}

/// Mutual exclusion of the attempt states: in every session satisfying the
/// invariant — and every session reachable from [`init_spec`] satisfies it —
/// a jump and a fall are never in progress at the same time.
pub proof fn lemma_jump_fall_exclusive(g: GameV)
    requires
        g.inv(),
    ensures
        !(g.jump.in_progress && g.fall.in_progress),
{
}

/// The playing-state enter hooks establish the invariant from any session.
pub proof fn lemma_enter_playing_inv(g: GameV)
    ensures
        enter_playing_spec(g).inv(),
{
}

/// The charge phase preserves the invariant.
pub proof fn lemma_charge_inv(g: GameV, input: Input, d: i64)
    requires
        g.inv(),
        g.state is Playing,
        d >= 0,
    ensures
        charge_spec(g, input, d).0.inv(),
{
}

/// The jump phase preserves the invariant.
pub proof fn lemma_jump_inv(g: GameV, d: i64)
    requires
        g.inv(),
        g.state is Playing,
        d >= 0,
    ensures
        jump_spec(g, d).0.inv(),
{
    if g.jump.in_progress {
        let t = flight_ticks(g.jump.power as int);
        let e2 = g.jump.elapsed + d;
        if e2 < t {
            assert(e2 / TICKS_PER_UNIT as int <= MAX_JUMP) by {
                assert(e2 <= MAX_JUMP * TICKS_PER_UNIT);
            };
        } else {
            assert(g.platforms[g.platforms.len() - 1].wf());
        }
    }
}

/// The landing phase preserves the invariant.
pub proof fn lemma_land_inv(g: GameV, r1: u64, r2: u64)
    requires
        g.inv(),
        g.state is Playing,
    ensures
        land_spec(g, r1, r2).inv(),
{
    let s2 = if g.score <= u64::MAX - SCORE_INC {
        (g.score + SCORE_INC) as u64
    } else {
        g.score
    };
    assert(g.platforms[g.platforms.len() - 1].wf());
    crate::platform::lemma_next_platform_wf(g.platforms.last(), s2, r1, r2);
    let grown = g.platforms.push(next_platform_spec(g.platforms.last(), s2, r1, r2));
    assert(forall|i: int| 0 <= i < grown.len() ==> #[trigger] grown[i].wf());
    let pruned = if grown.len() > PLATFORM_WINDOW {
        grown.remove(0)
    } else {
        grown
    };
    assert(forall|i: int| 0 <= i < pruned.len() ==> #[trigger] pruned[i].wf());
}

/// The fall phase preserves the invariant, and a terminal fall hands a
/// session that the game-over enter hook keeps invariant.
pub proof fn lemma_fall_inv(g: GameV, d: i64)
    requires
        g.inv(),
        g.state is Playing,
        d >= 0,
    ensures
        fall_spec(g, d).0.inv(),
        game_over_enter_spec(fall_spec(g, d).0).inv(),
{
}

/// The camera phase preserves the invariant.
pub proof fn lemma_camera_inv(g: GameV)
    requires
        g.inv(),
    ensures
        camera_spec(g).inv(),
{
}

/// The visual phase preserves the invariant.
pub proof fn lemma_effects_inv(g: GameV, d: i64)
    requires
        g.inv(),
        d >= 0,
    ensures
        effects_spec(g, d).inv(),
{
    lemma_age_filter_wf(g.effects, d);
    lemma_spawned_wf(g.queue);
    let aged = age_filter(g.effects, d);
    let fresh = spawned(g.queue);
    assert forall|k: int| 0 <= k < (aged + fresh).len() implies 0 <= #[trigger] (aged
        + fresh)[k].age < crate::score::EFFECT_LIFETIME by {
        if k < aged.len() {
            assert((aged + fresh)[k] == aged[k]);
        } else {
            assert((aged + fresh)[k] == fresh[k - aged.len()]);
        }
    }
}

/// One playing tick preserves the invariant.
pub proof fn lemma_playing_inv(g: GameV, input: Input, d: i64, r1: u64, r2: u64)
    requires
        g.inv(),
        g.state is Playing,
        d >= 0,
    ensures
        playing_spec(g, input, d, r1, r2).g.inv(),
{
    lemma_charge_inv(g, input, d);
    let g1 = charge_spec(g, input, d).0;
    lemma_jump_inv(g1, d);
    let jumped = jump_spec(g1, d);
    let g2 = jumped.0;
    let g3 = if jumped.1 {
        lemma_land_inv(g2, r1, r2);
        land_spec(g2, r1, r2)
    } else {
        g2
    };
    lemma_fall_inv(g3, d);
    let fallen = fall_spec(g3, d);
    if !fallen.1 {
        lemma_camera_inv(fallen.0);
        lemma_effects_inv(camera_spec(fallen.0), d);
    }
}

/// Every tick preserves the session invariant, whatever the input, the frame
/// delta and the random draws. Together with [`Game::new`] establishing it,
/// the invariant — mutual exclusion of jump and fall included — holds in
/// every reachable session.
pub proof fn lemma_tick_preserves_inv(g: GameV, input: Input, dt: u32, r1: u64, r2: u64)
    requires
        g.inv(),
    ensures
        tick_spec(g, input, dt, r1, r2).g.inv(),
{
    match g.state {
        GameState::MainMenu => {
            if input is Click {
                lemma_enter_playing_inv(exit_main_menu_spec(g));
            }
        },
        GameState::GameOver => {},
        GameState::Playing => {
            lemma_playing_inv(g, input, dt as i64, r1, r2);
        },
    }
}

/// Scoring law: within the playing state the score never decreases, and one
/// tick raises it by exactly the configured increment when a landing happens
/// and leaves it unchanged otherwise.
///
/// The one input left out is a score already at the very top of its machine
/// range, where the increment saturates instead of overflowing.
pub proof fn lemma_score_per_landing(g: GameV, input: Input, dt: u32, r1: u64, r2: u64)
    requires
        g.inv(),
        g.state is Playing,
    ensures
        tick_spec(g, input, dt, r1, r2).report.landed && g.score <= u64::MAX - SCORE_INC
            ==> tick_spec(g, input, dt, r1, r2).g.score == g.score + SCORE_INC,
        !tick_spec(g, input, dt, r1, r2).report.landed ==> tick_spec(g, input, dt, r1, r2).g.score
            == g.score,
        tick_spec(g, input, dt, r1, r2).g.score >= g.score,
{
    let d = dt as i64;
    let g1 = charge_spec(g, input, d).0;
    assert(g1.score == g.score);
    let jumped = jump_spec(g1, d);
    assert(jumped.0.score == g.score);
    if jumped.1 && g.score <= u64::MAX - SCORE_INC {
        assert(land_spec(jumped.0, r1, r2).score == g.score + SCORE_INC);
    }
}

/// One tick's worth of driver input: what the shell hands [`Game::tick`]
/// each frame.
#[derive(Clone, Copy, PartialEq, Eq, Structural, Debug)]
pub struct TickInput {
    pub input: Input,
    pub dt: u32,
    pub r1: u64,
    pub r2: u64,
}

/// The session after a whole sequence of ticks.
pub open spec fn run_spec(g: GameV, steps: Seq<TickInput>) -> GameV
    decreases steps.len(),
{
    if steps.len() == 0 {
        g
    } else {
        run_spec(tick_spec(g, steps[0].input, steps[0].dt, steps[0].r1, steps[0].r2).g, steps.drop_first())
    }
}

/// How many ticks of the sequence land on the target platform.
pub open spec fn landing_count(g: GameV, steps: Seq<TickInput>) -> nat
    decreases steps.len(),
{
    if steps.len() == 0 {
        0
    } else {
        let o = tick_spec(g, steps[0].input, steps[0].dt, steps[0].r1, steps[0].r2);
        (if o.report.landed {
            1nat
        } else {
            0nat
        }) + landing_count(o.g, steps.drop_first())
    }
}

/// The session is in the playing state at every tick of the sequence.
pub open spec fn stays_playing(g: GameV, steps: Seq<TickInput>) -> bool
    decreases steps.len(),
{
    steps.len() == 0 || (g.state is Playing && stays_playing(
        tick_spec(g, steps[0].input, steps[0].dt, steps[0].r1, steps[0].r2).g,
        steps.drop_first(),
    ))
}

/// Scoring law over whole sequences: across any run of ticks that stays in
/// the playing state — any inputs, frame deltas and random draws — the final
/// score is the initial score plus exactly one increment per landing, and the
/// score never decreases along the way. Nothing but the landing step of the
/// score pipeline touches the score.
///
/// The one corner left out is a sequence whose landings would carry the score
/// past the top of its machine range, where the increment saturates.
pub proof fn lemma_score_over_landing_sequence(g: GameV, steps: Seq<TickInput>)
    requires
        g.inv(),
        stays_playing(g, steps),
        g.score + SCORE_INC * landing_count(g, steps) <= u64::MAX,
    ensures
        run_spec(g, steps).score == g.score + SCORE_INC * landing_count(g, steps),
        run_spec(g, steps).score >= g.score,
    decreases steps.len(),
{
    if steps.len() > 0 {
        let s0 = steps[0];
        let o = tick_spec(g, s0.input, s0.dt, s0.r1, s0.r2);
        lemma_tick_preserves_inv(g, s0.input, s0.dt, s0.r1, s0.r2);
        lemma_score_per_landing(g, s0.input, s0.dt, s0.r1, s0.r2);
        lemma_score_over_landing_sequence(o.g, steps.drop_first());
    }
}

/// A jump that comes down outside the target platform's span never lands,
/// whatever the geometry: the attempt transitions to falling, the score is
/// unchanged, and no score-up entry is emitted. If the same frame already
/// carries the fall below the floor, the run ends at once.
pub proof fn lemma_missed_jump_starts_fall(g: GameV, input: Input, dt: u32, r1: u64, r2: u64)
    requires
        g.inv(),
        g.state is Playing,
        g.jump.in_progress,
        g.jump.elapsed + dt >= flight_ticks(g.jump.power as int),
        !g.platforms.last().spec_contains(g.jump.launch_x + g.jump.power),
    ensures
        !tick_spec(g, input, dt, r1, r2).report.landed,
        tick_spec(g, input, dt, r1, r2).report.missed,
        tick_spec(g, input, dt, r1, r2).g.score == g.score,
        !tick_spec(g, input, dt, r1, r2).report.game_over ==> {
            &&& tick_spec(g, input, dt, r1, r2).g.fall.in_progress
            &&& tick_spec(g, input, dt, r1, r2).g.effects == age_filter(g.effects, dt as i64)
                + spawned(g.queue)
        },
        tick_spec(g, input, dt, r1, r2).report.game_over ==> {
            &&& tick_spec(g, input, dt, r1, r2).g.state is GameOver
            &&& tick_spec(g, input, dt, r1, r2).g.player is None
            &&& tick_spec(g, input, dt, r1, r2).g.game_over_live
            &&& tick_spec(g, input, dt, r1, r2).g.queue == g.queue
        },
{
    let d = dt as i64;
    assert(charge_spec(g, input, d).0 == g);
    let jumped = jump_spec(g, d);
    assert(jumped.2 && !jumped.1);
}

/// Once a failure fall crosses the below-camera floor, that tick makes the
/// failure final: the run transitions to game over, the player entity —
/// whose fall animation is over — is despawned, the game-over screen is
/// spawned, any attempt state is cancelled, and the score and pending queue
/// are unchanged.
pub proof fn lemma_fall_past_floor_ends_run(g: GameV, input: Input, dt: u32, r1: u64, r2: u64)
    requires
        g.inv(),
        g.state is Playing,
        g.fall.in_progress,
        fall_y(
            if g.fall.elapsed + dt <= FALL_ELAPSED_CAP {
                g.fall.elapsed + dt
            } else {
                FALL_ELAPSED_CAP as int
            },
        ) <= FALL_FLOOR,
    ensures
        tick_spec(g, input, dt, r1, r2).report.game_over,
        tick_spec(g, input, dt, r1, r2).g.state is GameOver,
        tick_spec(g, input, dt, r1, r2).g.player is None,
        tick_spec(g, input, dt, r1, r2).g.game_over_live,
        !tick_spec(g, input, dt, r1, r2).g.fall.in_progress,
        !tick_spec(g, input, dt, r1, r2).g.jump.in_progress,
        tick_spec(g, input, dt, r1, r2).g.charge is None,
        tick_spec(g, input, dt, r1, r2).g.score == g.score,
        tick_spec(g, input, dt, r1, r2).g.queue == g.queue,
{
    let d = dt as i64;
    assert(charge_spec(g, input, d).0 == g);
    assert(jump_spec(g, d).0 == g);
}

/// Idempotence of the playing-state entry hooks: running them twice in a row
/// (without an intervening exit) yields exactly the same session — the same
/// player, platform, score and timer configuration — as running them once.
pub proof fn lemma_enter_playing_idempotent(g: GameV)
    ensures
        enter_playing_spec(enter_playing_spec(g)) == enter_playing_spec(g),
{
    assert(enter_playing_spec(enter_playing_spec(g)) =~= enter_playing_spec(g));
}

impl Game {
    /// A fresh session: at the main menu, nothing live yet.
    pub fn new() -> (g: Game)
        ensures
            g@ == init_spec(),
            g@.inv(),
    {
        let g = Game {
            state: GameState::MainMenu,
            score: 0,
            player: None,
            platforms: Vec::new(),
            jump: idle_jump(),
            fall: idle_fall(),
            charge: None,
            camera: Camera { x: 0, target: 0 },
            prepare: Timer::new(PREPARE_TICKS),
            particle: Timer::new(PARTICLE_TICKS),
            queue: Vec::new(),
            effects: Vec::new(),
            main_menu_live: true,
            game_over_live: false,
            scoreboard_live: false,
        };
        proof {
            assert(g@ =~= init_spec());
        }
        g
    }

    /// The scoreboard read-out: a pure read of the score, mutating nothing.
    pub fn scoreboard(&self) -> (s: u64)
        ensures
            s == self@.score,
    {
        self.score
    }

    /// Run the playing-state enter hooks: clear stale entities, reset the
    /// score and every timer, spawn the first platform and the player on its
    /// middle, and spawn the scoreboard. Idempotent: running it twice in a
    /// row yields the same session as once.
    pub fn enter_playing(&mut self)
        ensures
            final(self)@ == enter_playing_spec(old(self)@),
            final(self)@.inv(),
    {
        self.state = GameState::Playing;
        self.score = 0;
        let first = first_platform();
        self.player = Some(Player { x: first.left + first.width / 2, y: 0 });
        let mut ps: Vec<Platform> = Vec::new();
        ps.push(first);
        self.platforms = ps;
        self.jump = idle_jump();
        self.fall = idle_fall();
        self.charge = None;
        self.camera = Camera { x: 0, target: 0 };
        self.prepare = Timer::new(PREPARE_TICKS);
        self.particle = Timer::new(PARTICLE_TICKS);
        self.queue = Vec::new();
        self.effects = Vec::new();
        self.scoreboard_live = true;
        proof {
            assert(self@.platforms =~= seq![first_platform_spec()]);
            assert(self@.queue =~= Seq::<ScoreUpEntry>::empty());
            assert(self@.effects =~= Seq::<ScoreUpEffect>::empty());
            assert(self@ =~= enter_playing_spec(old(self)@));
            lemma_enter_playing_inv(old(self)@);
        }
    }

    /// Run the main-menu enter hooks: spawn the menu screen and clear any
    /// stale player, platforms and scoreboard.
    pub fn enter_main_menu(&mut self)
        requires
            old(self)@.inv(),
            !old(self)@.jump.in_progress,
            !old(self)@.fall.in_progress,
            old(self)@.charge is None,
        ensures
            final(self)@ == enter_main_menu_spec(old(self)@),
            final(self)@.inv(),
    {
        self.state = GameState::MainMenu;
        self.main_menu_live = true;
        self.player = None;
        self.platforms = Vec::new();
        self.scoreboard_live = false;
        proof {
            assert(self@.platforms =~= Seq::<Platform>::empty());
            assert(self@ =~= enter_main_menu_spec(old(self)@));
        }
    }

    /// One frame of the whole game: process the frame's input and elapsed
    /// time `dt`, feed the generator the raw random draws `r1` and `r2`, and
    /// report the tick's fire-and-forget trigger points. The next session is
    /// exactly [`tick_spec`] of the old one, and the session invariant is
    /// preserved.
    pub fn tick(&mut self, input: Input, dt: u32, r1: u64, r2: u64) -> (r: TickReport)
        requires
            old(self)@.inv(),
        ensures
            final(self)@ == tick_spec(old(self)@, input, dt, r1, r2).g,
            r == tick_spec(old(self)@, input, dt, r1, r2).report,
            final(self)@.inv(),
    {
        proof {
            lemma_tick_preserves_inv(old(self)@, input, dt, r1, r2);
        }
        let ghost g0 = self@;
        match self.state {
            GameState::MainMenu => {
                if input == Input::Click {
                    self.main_menu_live = false;
                    proof {
                        assert(self@ =~= exit_main_menu_spec(g0));
                    }
                    self.enter_playing();
                }
                TickReport {
                    launched: false,
                    landed: false,
                    missed: false,
                    game_over: false,
                    particles_ready: false,
                }
            },
            GameState::GameOver => {
                if input == Input::Click {
                    self.game_over_live = false;
                    proof {
                        assert(self@ =~= exit_game_over_spec(g0));
                    }
                    self.enter_main_menu();
                }
                TickReport {
                    launched: false,
                    landed: false,
                    missed: false,
                    game_over: false,
                    particles_ready: false,
                }
            },
            GameState::Playing => {
                let r = self.playing_tick(input, dt as i64, r1, r2);
                proof {
                    assert(final(self)@ == tick_spec(g0, input, dt, r1, r2).g);
                }
                r
            },
        }
    }

    /// One frame of the playing state: the phase sequence of
    /// [`playing_spec`].
    #[verifier::rlimit(100)]
    fn playing_tick(&mut self, input: Input, d: i64, r1: u64, r2: u64) -> (r: TickReport)
        requires
            old(self)@.inv(),
            old(self)@.state is Playing,
            0 <= d <= u32::MAX,
        ensures
            final(self)@ == playing_spec(old(self)@, input, d, r1, r2).g,
            r == playing_spec(old(self)@, input, d, r1, r2).report,
    {
        let ghost g0 = self@;
        {
            {
                // Charge phase: start, accumulate or release the charge.
                let mut launched = false;
                let mut particles_ready = false;
                match self.charge {
                    None => {
                        if input == Input::Press && !self.jump.in_progress
                            && !self.fall.in_progress {
                            self.charge = Some(0);
                            self.prepare.reset();
                            self.particle.reset();
                        }
                    },
                    Some(c) => {
                        if input == Input::Release {
                            let pw = jump_power(c);
                            let px: i64 = match self.player {
                                Some(p) => p.x,
                                None => 0,
                            };
                            self.jump = JumpState {
                                in_progress: true,
                                elapsed: 0,
                                launch_x: px,
                                power: pw,
                            };
                            self.charge = None;
                            self.prepare.reset();
                            self.particle.reset();
                            launched = true;
                        } else {
                            let c2: i64 = if c + d < MAX_CHARGE {
                                c + d
                            } else {
                                MAX_CHARGE
                            };
                            if c2 >= MAX_CHARGE {
                                let pw = jump_power(MAX_CHARGE);
                                let px: i64 = match self.player {
                                    Some(p) => p.x,
                                    None => 0,
                                };
                                self.jump = JumpState {
                                    in_progress: true,
                                    elapsed: 0,
                                    launch_x: px,
                                    power: pw,
                                };
                                self.charge = None;
                                self.prepare.reset();
                                self.particle.reset();
                                launched = true;
                            } else {
                                self.charge = Some(c2);
                                let was_finished = self.particle.finished();
                                self.prepare.advance(d);
                                self.particle.advance(d);
                                particles_ready = self.particle.finished() && !was_finished;
                            }
                        }
                    },
                }
                proof {
                    assert(self@ =~= charge_spec(g0, input, d).0);
                    assert(launched == charge_spec(g0, input, d).1);
                    assert(particles_ready == charge_spec(g0, input, d).2);
                    lemma_charge_inv(g0, input, d);
                }
                let ghost g1 = charge_spec(g0, input, d).0;
                // Jump phase: advance the arc; at touchdown run the landing
                // check against the target platform.
                let mut landed = false;
                let mut missed = false;
                if self.jump.in_progress {
                    let t: i64 = self.jump.power * TICKS_PER_UNIT;
                    let e2: i64 = self.jump.elapsed + d;
                    if e2 < t {
                        let px: i64 = self.jump.launch_x + e2 / TICKS_PER_UNIT;
                        proof {
                            assert(0 <= e2 * (t - e2) <= 2500) by (nonlinear_arith)
                                requires
                                    0 <= e2,
                                    e2 < t,
                                    t <= 50,
                            ;
                        }
                        let py: i64 = e2 * (t - e2) / ARC_DIV;
                        self.jump.elapsed = e2;
                        self.player = Some(Player { x: px, y: py });
                    } else {
                        let land_x: i64 = self.jump.launch_x + self.jump.power;
                        let last_i: usize = self.platforms.len() - 1;
                        let target: Platform = self.platforms[last_i];
                        proof {
                            assert(g1.platforms[last_i as int].wf());
                        }
                        self.jump = idle_jump();
                        self.player = Some(Player { x: land_x, y: 0 });
                        if target.contains(land_x) {
                            landed = true;
                        } else {
                            missed = true;
                            self.fall = FallState {
                                in_progress: true,
                                elapsed: 0,
                                start_x: land_x,
                            };
                        }
                    }
                }
                proof {
                    assert(self@ =~= jump_spec(g1, d).0);
                    assert(landed == jump_spec(g1, d).1);
                    assert(missed == jump_spec(g1, d).2);
                    lemma_jump_inv(g1, d);
                }
                let ghost g2 = jump_spec(g1, d).0;
                // Landing phase: score, queue the feedback entry, generate
                // the next platform and prune the trailing window.
                if landed {
                    if self.score <= u64::MAX - SCORE_INC {
                        self.score = self.score + SCORE_INC;
                    }
                    let px: i64 = match self.player {
                        Some(p) => p.x,
                        None => 0,
                    };
                    self.queue.push(ScoreUpEntry { x: px, y: 0, value: SCORE_INC });
                    let last_i: usize = self.platforms.len() - 1;
                    let prev: Platform = self.platforms[last_i];
                    proof {
                        assert(g2.platforms[last_i as int].wf());
                    }
                    let newp = next_platform(&prev, self.score, r1, r2);
                    self.platforms.push(newp);
                    if self.platforms.len() > PLATFORM_WINDOW {
                        self.platforms.remove(0);
                    }
                    proof {
                        assert(self@ =~= land_spec(g2, r1, r2));
                        lemma_land_inv(g2, r1, r2);
                    }
                }
                let ghost g3 = if landed {
                    land_spec(g2, r1, r2)
                } else {
                    g2
                };
                // Fall phase: advance the failure fall; crossing the floor
                // makes the failure final.
                let mut fell_out = false;
                if self.fall.in_progress {
                    let e2: i64 = if self.fall.elapsed + d <= FALL_ELAPSED_CAP {
                        self.fall.elapsed + d
                    } else {
                        FALL_ELAPSED_CAP
                    };
                    self.fall.elapsed = e2;
                    let py: i64 = -(FALL_SPEED * e2);
                    self.player = Some(Player { x: self.fall.start_x, y: py });
                    if py <= FALL_FLOOR {
                        fell_out = true;
                    }
                }
                proof {
                    assert(self@ =~= fall_spec(g3, d).0);
                    assert(fell_out == fall_spec(g3, d).1);
                    lemma_fall_inv(g3, d);
                }
                let ghost g4 = fall_spec(g3, d).0;
                if fell_out {
                    // Terminal transition: leave the playing state,
                    // cancelling any attempt, and enter the game-over state.
                    self.jump = idle_jump();
                    self.fall = idle_fall();
                    self.charge = None;
                    self.player = None;
                    self.state = GameState::GameOver;
                    self.game_over_live = true;
                    proof {
                        assert(self@ =~= game_over_enter_spec(g4));
                    }
                    return TickReport {
                        launched,
                        landed,
                        missed,
                        game_over: true,
                        particles_ready,
                    };
                }
                // Camera phase: ease toward the player's progress.
                let px: i64 = match self.player {
                    Some(p) => p.x,
                    None => 0,
                };
                self.camera.track(px);
                proof {
                    assert(self@ =~= camera_spec(g4));
                    lemma_camera_inv(g4);
                }
                let ghost g5 = camera_spec(g4);
                // Visual phase: age the score-up visuals and drain the queue.
                step_effects(&mut self.effects, &mut self.queue, d);
                proof {
                    assert(self@ =~= effects_spec(g5, d));
                }
                TickReport { launched, landed, missed, game_over: false, particles_ready }
            }
        }
    }
}

} // verus!

