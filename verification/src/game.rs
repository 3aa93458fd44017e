//! The whole game world: the phase, the shared resources, every live entity,
//! and the event queues of the current tick.

use vstd::prelude::*;

verus! {

use crate::components::{Asteroid, Bullet, Explosion, Ship, UFO};
use crate::components::TickTimer;
use crate::events::{ExplosionEvent, ScoreEvent};
use crate::resources::{
    AsteroidCount, BeforeBossState, Countdown, HighScore, Score, UfoTimer, WorldSize,
};
use crate::states::{spec_phase_edge, GameState};
use crate::{DT_LIMIT, GET_READY_MS, UFO_SPAWN_MS, WAVE_SHIP_CLEARANCE, WORLD_HEIGHT, WORLD_WIDTH};

/// The keys the player holds or pressed during one tick.
#[derive(Clone, Copy, Debug, PartialEq, Eq, Structural)]
pub struct InputFrame {
    /// The left arrow is held.
    pub left: bool,
    /// The right arrow is held.
    pub right: bool,
    /// The up arrow (thrust) is held.
    pub up: bool,
    /// The space key is held.
    pub space_held: bool,
    /// The space key went down this tick.
    pub space_pressed: bool,
    /// The teleport key went down this tick.
    pub enter_pressed: bool,
    /// The boss key went down this tick.
    pub boss_pressed: bool,
}

impl InputFrame {
    /// A tick with no key held or pressed.
    pub fn idle() -> (f: InputFrame)
        ensures
            f == (InputFrame {
                left: false,
                right: false,
                up: false,
                space_held: false,
                space_pressed: false,
                enter_pressed: false,
                boss_pressed: false,
            }),
    {
        InputFrame {
            left: false,
            right: false,
            up: false,
            space_held: false,
            space_pressed: false,
            enter_pressed: false,
            boss_pressed: false,
        }
    }
}

/// What a tick asks the world outside the game core to do.
#[derive(Clone, Copy, Debug, PartialEq, Eq, Structural)]
pub struct TickActions {
    /// Play left: persist the high score.
    pub save_high_score: bool,
    /// The boss phase was entered: show the decoy page.
    pub open_boss_page: bool,
}

/// The context state every system works on: one value owns the run.
pub struct Game {
    pub state: GameState,
    pub before_boss: BeforeBossState,
    pub world_size: WorldSize,
    pub score: Score,
    pub high_score: HighScore,
    pub asteroid_count: AsteroidCount,
    pub countdown: Countdown,
    pub ufo_timer: UfoTimer,
    /// The one ship, if a life is in progress.
    pub ship: Option<Ship>,
    pub asteroids: Vec<Asteroid>,
    pub bullets: Vec<Bullet>,
    /// The one saucer, if it has appeared this level.
    pub ufo: Option<UFO>,
    pub explosions: Vec<Explosion>,
    /// Queued this tick by the collision resolvers, drained the same tick.
    pub explosion_events: Vec<ExplosionEvent>,
    /// Queued this tick by the collision resolvers, drained the same tick.
    pub score_events: Vec<ScoreEvent>,
}

impl Game {
    /// Well-formedness of the whole world: every entity is well-formed, the
    /// remembered pre-boss phase is never Boss itself nor GetReady (the
    /// toggle is ignored there, so neither is ever remembered), and the high
    /// score dominates the running score.
    pub open spec fn wf(self) -> bool {
        &&& self.world_size.wf()
        &&& self.before_boss.0 != GameState::Boss
        &&& self.before_boss.0 != GameState::GetReady
        &&& self.high_score.0 >= self.score.0
        &&& self.countdown.0.wf()
        &&& self.ufo_timer.0.wf()
        &&& (self.ship matches Some(s) ==> s.wf())
        &&& (self.ufo matches Some(u) ==> u.wf())
        &&& forall|i: int| 0 <= i < self.asteroids@.len() ==> self.asteroids@[i].wf()
        &&& forall|i: int| 0 <= i < self.bullets@.len() ==> self.bullets@[i].wf()
        &&& forall|i: int| 0 <= i < self.explosions@.len() ==> self.explosions@[i].wf()
        &&& forall|i: int|
            0 <= i < self.explosion_events@.len() ==> self.explosion_events@[i].0.wf()
    }

    /// Every entity's position lies on the playfield.
    pub open spec fn all_contained(self) -> bool {
        &&& (self.ship matches Some(s) ==> self.world_size.contains(s.pos))
        &&& (self.ufo matches Some(u) ==> self.world_size.contains(u.pos))
        &&& forall|i: int|
            0 <= i < self.asteroids@.len() ==> self.world_size.contains(self.asteroids@[i].pos)
        &&& forall|i: int|
            0 <= i < self.bullets@.len() ==> self.world_size.contains(self.bullets@[i].pos)
        &&& forall|i: int|
            0 <= i < self.explosions@.len() ==> self.world_size.contains(self.explosions@[i].pos)
    }

    /// The resources of `a` equal those of `b`.
    pub open spec fn same_resources(a: Game, b: Game) -> bool {
        &&& a.state == b.state
        &&& a.before_boss == b.before_boss
        &&& a.world_size == b.world_size
        &&& a.score == b.score
        &&& a.high_score == b.high_score
        &&& a.asteroid_count == b.asteroid_count
        &&& a.countdown == b.countdown
        &&& a.ufo_timer == b.ufo_timer
    }

    /// The entities of `a` equal those of `b`.
    pub open spec fn same_entities(a: Game, b: Game) -> bool {
        &&& a.ship == b.ship
        &&& a.asteroids@ == b.asteroids@
        &&& a.bullets@ == b.bullets@
        &&& a.ufo == b.ufo
        &&& a.explosions@ == b.explosions@
    }

    /// The event queues of `a` equal those of `b`.
    pub open spec fn same_events(a: Game, b: Game) -> bool {
        &&& a.explosion_events@ == b.explosion_events@
        &&& a.score_events@ == b.score_events@
    }

    /// A fresh world on the title screen: the default playfield, a title wave
    /// of ten asteroids to come, nothing spawned yet, and both counters at
    /// zero until a persisted high score is loaded.
    pub fn new() -> (g: Game)
        ensures
            g.wf(),
            g.state == GameState::Starting,
            g.before_boss.0 == GameState::Starting,
            g.world_size == (WorldSize { width: WORLD_WIDTH, height: WORLD_HEIGHT }),
            g.score.0 == 0,
            g.high_score.0 == 0,
            g.asteroid_count.0 == 10,
            g.countdown.0 == (TickTimer { elapsed: 0, duration: GET_READY_MS, just: false }),
            g.ufo_timer.0 == (TickTimer { elapsed: 0, duration: UFO_SPAWN_MS, just: false }),
            g.ship is None,
            g.asteroids@.len() == 0,
            g.bullets@.len() == 0,
            g.ufo is None,
            g.explosions@.len() == 0,
            g.explosion_events@.len() == 0,
            g.score_events@.len() == 0,
    {
        Game {
            state: GameState::Starting,
            before_boss: BeforeBossState(GameState::Starting),
            world_size: WorldSize { width: WORLD_WIDTH, height: WORLD_HEIGHT },
            score: Score(0),
            high_score: HighScore(0),
            asteroid_count: AsteroidCount(10),
            countdown: Countdown(TickTimer::new(GET_READY_MS)),
            ufo_timer: UfoTimer(TickTimer::new(UFO_SPAWN_MS)),
            ship: None,
            asteroids: Vec::new(),
            bullets: Vec::new(),
            ufo: None,
            explosions: Vec::new(),
            explosion_events: Vec::new(),
            score_events: Vec::new(),
        }
    }

    /// One tick of the whole game, in the declared order: the systems of
    /// the current phase run first, then the boss toggle, and at most one
    /// phase transition is applied at the end of the tick together with its
    /// exit and enter effects. Trigonometry is left to the caller: `dir_x`
    /// and `dir_y` are the ship's facing direction in milli-units.
    ///
    /// The returned actions tell the surroundings what this tick decided:
    /// leaving play persists the high score, and entering the boss phase
    /// shows the decoy page.
    ///
    /// Beyond the invariants, the contract forces every transition the phase
    /// machine owes: space starts a run from the title or game-over screen,
    /// the countdown running out starts play, a cleared wave grows the next
    /// one and returns to GetReady, a playing tick that starts shipless (and
    /// without bullets that could clear the wave) ends the run, and the boss
    /// key swaps the phase with the remembered one everywhere but GetReady.
    #[verifier::rlimit(100)]
    #[verifier::spinoff_prover]
    pub fn tick(&mut self, input: InputFrame, dir_x: i64, dir_y: i64, dt: u32) -> (actions:
        TickActions)
        requires
            old(self).wf(),
            old(self).world_size.half_width() > WAVE_SHIP_CLEARANCE,
            -1000 <= dir_x <= 1000,
            -1000 <= dir_y <= 1000,
            dt <= DT_LIMIT,
        ensures
            final(self).wf(),
            final(self).world_size == old(self).world_size,
            final(self).high_score.0 >= old(self).high_score.0,
            final(self).high_score.0 >= final(self).score.0,
            spec_phase_edge(old(self).state, final(self).state),
            actions.save_high_score == (old(self).state == GameState::Playing && final(self).state != GameState::Playing),
            actions.open_boss_page == (old(self).state != GameState::Boss && final(self).state
                == GameState::Boss),
            final(self).state == GameState::GetReady && old(self).state != GameState::GetReady
                ==> final(self).ship is Some && final(self).bullets@.len() == 0 && final(self).countdown.0.elapsed == 0 && final(self).asteroids@.len() == final(self).asteroid_count.0,
            final(self).score.0 >= old(self).score.0,
            old(self).state == GameState::Starting && input.space_pressed && !input.boss_pressed
                ==> final(self).state == GameState::GetReady,
            old(self).state == GameState::Starting && !input.space_pressed && !input.boss_pressed
                ==> final(self).state == GameState::Starting,
            old(self).state == GameState::GameOver && input.space_pressed && !input.boss_pressed
                ==> final(self).state == GameState::GetReady,
            old(self).state == GameState::GameOver && !input.space_pressed && !input.boss_pressed
                ==> final(self).state == GameState::GameOver,
            old(self).state == GameState::GetReady && old(self).countdown.0.spec_ticked(
                dt,
            ).spec_finished() ==> final(self).state == GameState::Playing,
            old(self).state == GameState::GetReady && !old(self).countdown.0.spec_ticked(
                dt,
            ).spec_finished() ==> final(self).state == GameState::GetReady,
            old(self).state == GameState::Playing && !input.boss_pressed && old(self).asteroids@.len() == 0
                ==> final(self).state == GameState::GetReady && final(self).asteroid_count.0 == (
            if old(self).asteroid_count.0 < 255 {
                old(self).asteroid_count.0 + 1
            } else {
                255int
            }),
            old(self).state == GameState::Playing && !input.boss_pressed && old(self).ship is None
                && old(self).bullets@.len() == 0 && old(self).asteroids@.len() > 0 ==> final(self).state == GameState::GameOver,
            old(self).state == GameState::Playing && !input.boss_pressed && final(self).state
                == GameState::GameOver ==> final(self).ship is None,
            old(self).state != GameState::GetReady && old(self).state != GameState::Boss
                && input.boss_pressed ==> final(self).state == GameState::Boss,
            old(self).state == GameState::Boss && input.boss_pressed ==> final(self).state == old(self).before_boss.0,
            old(self).state == GameState::Boss && !input.boss_pressed ==> *final(self) == *old(self),
            final(self).state == GameState::Boss && old(self).state != GameState::Boss ==> final(self).before_boss.0 == old(self).state,
            old(self).state == GameState::Boss && final(self).state != GameState::Boss ==> final(self).state == old(self).before_boss.0,
    {
        let mut next: Option<GameState> = None;
        match self.state {
            GameState::Starting => {
                crate::shared_systems::apply_velocity(self, dt);
                crate::shared_systems::wraparound_entities(self);
                next = crate::shared_systems::transition_states(self, input.space_pressed);
            },
            GameState::GetReady => {
                crate::shared_systems::tick_countdown(self, dt);
                match crate::shared_systems::transition_from_get_ready_to_playing(self) {
                    Some(s) => {
                        next = Some(s);
                    },
                    None => {},
                }
                crate::explosion::update_explosion(self);
                crate::explosion::remove_explosion(self);
            },
            GameState::Playing => {
                next = playing_systems(self, input, dir_x, dir_y, dt);
            },
            GameState::GameOver => {
                next = crate::shared_systems::transition_states(self, input.space_pressed);
                crate::explosion::update_explosion(self);
                crate::explosion::remove_explosion(self);
            },
            GameState::Boss => {},
        }
        match crate::shared_systems::to_from_boss(self, input.boss_pressed) {
            Some(s) => {
                next = Some(s);
            },
            None => {},
        }
        let mut actions = TickActions { save_high_score: false, open_boss_page: false };
        match next {
            None => actions,
            Some(ns) => {
                match self.state {
                    GameState::Starting => {
                        crate::shared_systems::reset_game(self);
                    },
                    GameState::GetReady => {
                        crate::ufo_systems::set_ufo_spawn_timer(self);
                    },
                    GameState::Playing => {
                        actions.save_high_score = true;
                    },
                    GameState::GameOver => {
                        crate::shared_systems::reset_game(self);
                    },
                    GameState::Boss => {},
                }
                self.state = ns;
                match ns {
                    GameState::Starting => {
                        crate::asteroid_systems::spawn_asteroids(self);
                    },
                    GameState::GetReady => {
                        crate::ship_systems::add_player(self);
                        crate::asteroid_systems::spawn_asteroids(self);
                        crate::shared_systems::reset_countdown(self);
                        crate::bullet_systems::delete_all_bullets(self);
                    },
                    GameState::Playing => {},
                    GameState::GameOver => {},
                    GameState::Boss => {
                        actions.open_boss_page = true;
                    },
                }
                actions
            },
        }
    }
}

/// The Playing-phase system chain, in its declared order: wraparound,
/// steering, thrust, motion, the gun, bullet expiry, the collision
/// resolvers, the explosion and score ledgers, the level progression, the
/// teleport and the UFO. Returns the phase the tick asks for: GameOver when
/// no ship remained at the check, or GetReady when the wave was cleared,
/// which also grows the next wave.
#[verifier::rlimit(100)]
#[verifier::spinoff_prover]
fn playing_systems(game: &mut Game, input: InputFrame, dir_x: i64, dir_y: i64, dt: u32) -> (next:
    Option<GameState>)
    requires
        old(game).wf(),
        old(game).state == GameState::Playing,
        -1000 <= dir_x <= 1000,
        -1000 <= dir_y <= 1000,
        dt <= DT_LIMIT,
    ensures
        final(game).wf(),
        final(game).state == GameState::Playing,
        final(game).before_boss == old(game).before_boss,
        final(game).world_size == old(game).world_size,
        final(game).countdown == old(game).countdown,
        final(game).high_score.0 >= old(game).high_score.0,
        final(game).high_score.0 >= final(game).score.0,
        final(game).score.0 >= old(game).score.0,
        next is None || next == Some(GameState::GameOver) || next == Some(GameState::GetReady),
        old(game).asteroids@.len() == 0 ==> next == Some(GameState::GetReady),
        next == Some(GameState::GetReady) ==> final(game).asteroids@.len() == 0 && final(game).asteroid_count.0 == (if old(game).asteroid_count.0 < 255 {
            old(game).asteroid_count.0 + 1
        } else {
            255int
        }),
        next != Some(GameState::GetReady) ==> final(game).asteroid_count == old(game).asteroid_count,
        old(game).ship is None && old(game).bullets@.len() == 0 && old(game).asteroids@.len() > 0
            ==> next == Some(GameState::GameOver),
        next == Some(GameState::GameOver) ==> final(game).ship is None,
{
    let mut next: Option<GameState> = None;
    crate::shared_systems::wraparound_entities(game);
    crate::ship_systems::input_rotate_ship(game, input.left, input.right);
    crate::ship_systems::rotate_ship(game, dt);
    crate::ship_systems::input_thrust_ship(game, input.up);
    crate::ship_systems::apply_thrust(game, dir_x, dir_y);
    crate::shared_systems::apply_velocity(game, dt);
    crate::ship_systems::input_firing(game, input.space_held);
    crate::bullet_systems::ship_fire_bullet(game, dir_x, dir_y, dt);
    crate::bullet_systems::delete_expired_bullets(game, dt);
    crate::ship_systems::handle_ship_collisions(game);
    let ghost bullets_pre = game.bullets@;
    let ghost asteroids_pre = game.asteroids@;
    crate::asteroid_systems::handle_collisions(game);
    proof {
        if asteroids_pre.len() == 0 {
            assert(asteroids_pre =~= Seq::<crate::components::Asteroid>::empty());
            crate::asteroid_systems::lemma_sweep_empty_asteroids(bullets_pre);
            assert(game.asteroids@.len() == 0);
        }
        if bullets_pre.len() == 0 {
            assert(crate::asteroid_systems::spec_sweep(bullets_pre, asteroids_pre).1
                == asteroids_pre);
            assert(game.asteroids@.len() == asteroids_pre.len());
        }
    }
    crate::explosion::handle_explosion_event(game);
    crate::explosion::remove_explosion(game);
    crate::explosion::update_explosion(game);
    match crate::shared_systems::transition_from_playing_to_game_over(game) {
        Some(s) => {
            next = Some(s);
        },
        None => {},
    }
    crate::shared_systems::update_scores(game);
    match crate::asteroid_systems::end_level(game) {
        Some(s) => {
            next = Some(s);
        },
        None => {},
    }
    crate::ship_systems::teleport_ship(game, input.enter_pressed);
    crate::ufo_systems::ufo_spawn_timer_update(game, dt);
    crate::ufo_systems::spawn_ufo(game);
    crate::ufo_systems::update_velocity(game);
    crate::ufo_systems::handle_ufo_bullet_collisions(game);
    crate::ufo_systems::update(game, dt);
    crate::bullet_systems::ufo_fire_bullet(game);
    crate::ship_systems::handle_ship_bullet_collisions(game);
    next
}

} // verus!
