//! The whole game as an explicit state machine: one record holding the
//! phase, the player, the enemies and the camera, advanced by a pure
//! `tick` per frame.  The host application supplies the per-tick inputs
//! (cursor, timer gates, button intents) and performs the outputs
//! (sounds, camera angle, exiting).

use vstd::prelude::*;

verus! {

use crate::AppState;
use crate::camera::MainCamera;
use crate::camera::animate_camera;
use crate::camera::decayed;
use crate::camera::shake_camera;
use crate::camera::shaken;
use crate::character::Character;
use crate::fixed::clamped;
use crate::collision::check_collision;
use crate::collision::halved;
use crate::collision::lemma_halved_bounds;
use crate::collision::boxes_overlap;
use crate::enemy::EnemyActor;
use crate::enemy::SPAWN_SPEED;
use crate::enemy::animate_enemy;
use crate::enemy::edge_spawn_ok;
use crate::enemy::enemy_moved;
use crate::enemy::leaves_playfield;
use crate::enemy::setup_enemy;
use crate::fixed::vec_norm_sq;
use crate::player::GAME_OVER_LIMIT;
use crate::player::PLAYER_FRAMES;
use crate::player::Player;
use crate::player::accrued;
use crate::player::animate_player;
use crate::player::steer_player;
use crate::player::steered_x;
use crate::player::setup_player;
use crate::player::steered_y;
use crate::player::update_score;

/// While loading, move on to scene setup once every asset is ready.
pub fn check_assets(state: &mut AppState, all_loaded: bool)
    ensures
        *final(state) == (if *old(state) == AppState::Load && all_loaded {
            AppState::Setup
        } else {
            *old(state)
        }),
{
    if *state == AppState::Load && all_loaded {
        *state = AppState::Setup;
    }
}

/// Scene setup is one-shot: once it has run, play begins at once.
pub fn game_start(state: &mut AppState)
    ensures
        *final(state) == (if *old(state) == AppState::Setup {
            AppState::Game
        } else {
            *old(state)
        }),
{
    if *state == AppState::Setup {
        *state = AppState::Game;
    }
}

/// On a game-over signal, show the restart screen and despawn every enemy.
pub fn game_over(state: &mut AppState, fired: bool, enemies: &mut Vec<EnemyActor>)
    ensures
        *final(state) == (if fired && *old(state) == AppState::Game {
            AppState::Restart
        } else {
            *old(state)
        }),
        if fired && *old(state) == AppState::Game {
            final(enemies)@.len() == 0
        } else {
            final(enemies)@ == old(enemies)@
        },
{
    if fired && *state == AppState::Game {
        *state = AppState::Restart;
        enemies.clear();
    }
}

/// The state after the restart screen sees `intents` restart requests in
/// one tick: back into play on at least one, and otherwise unchanged.
pub open spec fn restarted(s: AppState, intents: int) -> AppState {
    if s == AppState::Restart && intents >= 1 {
        AppState::Game
    } else {
        s
    }
}

/// Leave the restart screen once at least one restart intent arrived.
pub fn check_restart(state: &mut AppState, restart_intents: usize)
    ensures
        *final(state) == restarted(*old(state), restart_intents as int),
{
    if *state == AppState::Restart && restart_intents >= 1 {
        *state = AppState::Game;
    }
}

/// Law: leaving the restart screen is idempotent in the number of restart
/// intents: any positive number of intents arriving in one tick gives
/// exactly the single transition into play that one intent gives, and a
/// second helping of intents cannot transition again.
pub proof fn lemma_restart_idempotent(s: AppState, n1: int, n2: int)
    requires
        1 <= n1,
        1 <= n2,
    ensures
        restarted(s, n1) == restarted(s, n2),
        s == AppState::Restart ==> restarted(s, n1) == AppState::Game,
        restarted(restarted(s, n1), n2) == restarted(s, n1),
{
}

/// Everything the simulation reads in one tick.
pub struct TickInput {
    /// Do all tracked assets report loaded (drives Load -> Setup)?
    pub assets_loaded: bool,
    /// The cursor's position in world coordinates, if it is in the window.
    pub cursor: Option<(i64, i64)>,
    /// Did the sprite animation timer fire this tick?
    pub anim_timer: bool,
    /// Did the periodic enemy spawn gate fire this tick?
    pub spawn_timer: bool,
    /// Did the slow periodic score gate fire this tick?
    pub score_timer: bool,
    /// Did the background-music cadence fire this tick?
    pub music_timer: bool,
    /// How many restart-control activations arrived this tick.
    pub restart_intents: usize,
    /// How many exit-control activations arrived this tick.
    pub exit_intents: usize,
}

impl TickInput {
    /// The cursor, when present, lies in the representable window range.
    pub open spec fn wf(self) -> bool {
        match self.cursor {
            Some(p) => -10_000_000 <= p.0 <= 10_000_000 && -10_000_000 <= p.1 <= 10_000_000,
            None => true,
        }
    }
}

/// Everything the simulation asks the host to do after one tick.
pub struct TickOutput {
    /// How many collision events fired (camera shake and hit sounds).
    pub collisions: usize,
    /// Whether a game-over event fired.
    pub game_over: bool,
    /// The camera rotation step for this tick, while a shake runs.
    pub shake_step: Option<u32>,
    /// Whether to (re)start the background music.
    pub play_music: bool,
    /// Whether the player asked to leave the game.
    pub exit: bool,
}

/// The whole game state.
pub struct World {
    pub state: AppState,
    pub width: i64,
    pub height: i64,
    pub player: Player,
    pub player_character: Character,
    pub camera: MainCamera,
    pub enemies: Vec<EnemyActor>,
}

impl World {
    /// Well-formed: a plausible viewport, well-formed player and enemy
    /// records, and a player sprite inside the middle of the viewport.
    pub open spec fn wf(self) -> bool {
        &&& 80_000 <= self.width <= 10_000_000
        &&& 80_000 <= self.height <= 10_000_000
        &&& self.player.wf()
        &&& self.player_character.wf()
        &&& -4_500_000 <= self.player_character.trans_x <= 4_500_000
        &&& -4_500_000 <= self.player_character.trans_y <= 4_500_000
        &&& forall|i: int| 0 <= i < self.enemies@.len() ==> (#[trigger] self.enemies@[i]).wf()
    }

    /// A fresh world in the loading phase for the given viewport.
    pub fn new(width: i64, height: i64) -> (w: World)
        requires
            80_000 <= width <= 10_000_000,
            80_000 <= height <= 10_000_000,
        ensures
            w.wf(),
            w.state == AppState::Load,
            w.width == width,
            w.height == height,
            w.player.score == 0,
            w.player.max_score == 0,
            w.enemies@.len() == 0,
            w.camera.shaker is None,
    {
        let (player, player_character) = setup_player();
        World {
            state: AppState::Load,
            width,
            height,
            player,
            player_character,
            camera: MainCamera::default(),
            enemies: Vec::new(),
        }
    }

    /// One simulation tick.
    ///
    /// The returned record holds this tick's domain events.  In play,
    /// `r.collisions` counts the enemies whose boxes overlap the player's
    /// for the first time since their last respawn; each halves the score
    /// once, and a game-over fires exactly when at least one hit left the
    /// score below one point.  The score then gains its periodic increment
    /// if the slow score gate fired; outside those increments it never
    /// rises, and the high-water mark never falls.
    pub fn tick(&mut self, input: &TickInput) -> (r: TickOutput)
        requires
            old(self).wf(),
            input.wf(),
        ensures
            final(self).wf(),
            final(self).width == old(self).width,
            final(self).height == old(self).height,
            final(self).player.max_score >= old(self).player.max_score,
            !input.score_timer || old(self).state != AppState::Game ==> final(self).player.score
                <= old(self).player.score,
            old(self).state == AppState::Load ==> {
                &&& final(self).state == (if input.assets_loaded {
                    AppState::Setup
                } else {
                    AppState::Load
                })
                &&& final(self).player == old(self).player
                &&& final(self).player_character == old(self).player_character
                &&& final(self).enemies@ == old(self).enemies@
                &&& final(self).camera == old(self).camera
                &&& r.collisions == 0 && !r.game_over && r.shake_step is None && !r.play_music
                    && !r.exit
            },
            old(self).state == AppState::Setup ==> {
                &&& final(self).state == AppState::Game
                &&& final(self).player.score == 0
                &&& final(self).player.max_score == old(self).player.max_score
                &&& final(self).player_character == fresh_player_character()
                &&& final(self).enemies@.len() == 0
                &&& final(self).camera == old(self).camera
                &&& r.collisions == 0 && !r.game_over && r.shake_step is None && r.play_music
                    && !r.exit
            },
            old(self).state == AppState::Game ==> {
                &&& final(self).state == (if r.game_over {
                    AppState::Restart
                } else {
                    AppState::Game
                })
                &&& r.collisions <= old(self).enemies@.len()
                &&& r.game_over == (r.collisions >= 1 && halved(
                    old(self).player.score as int,
                    r.collisions as nat,
                ) < GAME_OVER_LIMIT)
                &&& final(self).player.score == ({
                    let base = halved(old(self).player.score as int, r.collisions as nat);
                    if input.score_timer {
                        accrued(base)
                    } else {
                        base
                    }
                })
                &&& (!input.score_timer ==> final(self).player.score <= old(self).player.score)
                &&& (r.game_over ==> final(self).enemies@.len() == 0)
                &&& (!r.game_over ==> final(self).enemies@.len() == old(self).enemies@.len() + (
                if input.spawn_timer {
                    1int
                } else {
                    0int
                }))
                &&& (!r.game_over ==> forall|j: int|
                    0 <= j < old(self).enemies@.len()
                        ==> #[trigger] final(self).enemies@[j].enemy.kind == old(
                        self,
                    ).enemies@[j].enemy.kind)
                &&& (!r.game_over ==> forall|j: int|
                    0 <= j < old(self).enemies@.len() ==> enemy_moved(
                        old(self).enemies@[j],
                        (#[trigger] final(self).enemies@[j]).character,
                        old(self).width as int,
                        old(self).height as int,
                        input.anim_timer,
                    ))
                &&& (!r.game_over ==> forall|j: int|
                    0 <= j < old(self).enemies@.len()
                        ==> (#[trigger] final(self).enemies@[j]).enemy.collided == ((if
                    leaves_playfield(
                        old(self).enemies@[j],
                        old(self).width as int,
                        old(self).height as int,
                    ) {
                        false
                    } else {
                        old(self).enemies@[j].enemy.collided
                    }) || boxes_overlap(
                        final(self).player_character.trans_x as int,
                        final(self).player_character.trans_y as int,
                        final(self).enemies@[j].character.trans_x as int,
                        final(self).enemies@[j].character.trans_y as int,
                    )))
                &&& (!r.game_over && input.spawn_timer ==> ({
                    let a = final(self).enemies@.last();
                    &&& !a.enemy.collided
                    &&& a.character.frame_index == 0
                    &&& (SPAWN_SPEED - 2) * (SPAWN_SPEED - 2) <= vec_norm_sq(
                        a.character.diff_x as int,
                        a.character.diff_y as int,
                    )
                    &&& vec_norm_sq(a.character.diff_x as int, a.character.diff_y as int) <= (
                    SPAWN_SPEED + 10) * (SPAWN_SPEED + 10)
                    &&& edge_spawn_ok(
                        a.character.trans_x as int,
                        a.character.trans_y as int,
                        a.character.diff_x as int,
                        a.character.diff_y as int,
                        old(self).width as int,
                        old(self).height as int,
                    )
                }))
                &&& r.shake_step == shaken(old(self).camera.shaker, r.collisions >= 1)
                &&& final(self).camera.shaker == decayed(
                    shaken(old(self).camera.shaker, r.collisions >= 1),
                )
                &&& final(self).player_character.diff_x == (match input.cursor {
                    Some(p) => steered_x(
                        p.0 as int,
                        p.1 as int,
                        old(self).player_character.trans_x as int,
                        old(self).player_character.trans_y as int,
                    ),
                    None => old(self).player_character.diff_x as int,
                })
                &&& final(self).player_character.diff_y == (match input.cursor {
                    Some(p) => steered_y(
                        p.0 as int,
                        p.1 as int,
                        old(self).player_character.trans_x as int,
                        old(self).player_character.trans_y as int,
                    ),
                    None => old(self).player_character.diff_y as int,
                })
                &&& final(self).player_character.trans_x == clamped(
                    old(self).player_character.trans_x + final(self).player_character.diff_x,
                    -((old(self).width as int * 45) / 100),
                    (old(self).width as int * 45) / 100,
                )
                &&& final(self).player_character.trans_y == clamped(
                    old(self).player_character.trans_y + final(self).player_character.diff_y,
                    -((old(self).height as int * 45) / 100),
                    (old(self).height as int * 45) / 100,
                )
                &&& r.play_music == input.music_timer
                &&& !r.exit
            },
            old(self).state == AppState::Restart ==> {
                &&& final(self).state == restarted(AppState::Restart, input.restart_intents as int)
                &&& final(self).player.score == (if input.restart_intents >= 1 {
                    0int
                } else {
                    old(self).player.score as int
                })
                &&& final(self).player.max_score == old(self).player.max_score
                &&& final(self).enemies@ == old(self).enemies@
                &&& final(self).camera == old(self).camera
                &&& r.collisions == 0 && !r.game_over && r.shake_step is None
                &&& r.play_music == (input.restart_intents >= 1)
                &&& r.exit == (input.exit_intents >= 1)
            },
    {
        match self.state {
            AppState::Load => {
                check_assets(&mut self.state, input.assets_loaded);
                TickOutput {
                    collisions: 0,
                    game_over: false,
                    shake_step: None,
                    play_music: false,
                    exit: false,
                }
            },
            AppState::Setup => {
                self.player = Player { score: 0, max_score: self.player.max_score };
                self.player_character = Character::from(PLAYER_FRAMES);
                self.enemies = Vec::new();
                game_start(&mut self.state);
                TickOutput {
                    collisions: 0,
                    game_over: false,
                    shake_step: None,
                    play_music: true,
                    exit: false,
                }
            },
            AppState::Game => {
                let width: i64 = self.width;
                let height: i64 = self.height;
                if let Some(p) = input.cursor {
                    steer_player(&mut self.player_character, p.0, p.1);
                }
                animate_player(&mut self.player_character, width, height, input.anim_timer);
                let mut enemies: Vec<EnemyActor> = Vec::new();
                core::mem::swap(&mut enemies, &mut self.enemies);
                let ghost e0 = enemies@;
                let mut i: usize = 0;
                let n: usize = enemies.len();
                while i < n
                    invariant
                        i <= n,
                        n == enemies@.len(),
                        n == e0.len(),
                        80_000 <= width <= 10_000_000,
                        80_000 <= height <= 10_000_000,
                        forall|j: int| 0 <= j < n ==> (#[trigger] enemies@[j]).wf(),
                        forall|j: int|
                            0 <= j < n ==> #[trigger] enemies@[j].enemy.kind
                                == e0[j].enemy.kind,
                        forall|j: int| i <= j < n ==> #[trigger] enemies@[j] == e0[j],
                        forall|j: int|
                            0 <= j < i ==> enemy_moved(
                                e0[j],
                                (#[trigger] enemies@[j]).character,
                                width as int,
                                height as int,
                                input.anim_timer,
                            ),
                        forall|j: int|
                            0 <= j < i ==> (#[trigger] enemies@[j]).enemy.collided == (if
                            leaves_playfield(e0[j], width as int, height as int) {
                                false
                            } else {
                                e0[j].enemy.collided
                            }),
                    decreases n - i,
                {
                    let mut a: EnemyActor = enemies[i];
                    animate_enemy(&mut a, width, height, input.anim_timer);
                    enemies[i] = a;
                    i = i + 1;
                }
                let px: i64 = self.player_character.trans_x;
                let py: i64 = self.player_character.trans_y;
                let (collisions, fired) = check_collision(&mut self.player, px, py, &mut enemies);
                proof {
                    lemma_halved_bounds(old(self).player.score as int, collisions as nat);
                }
                shake_camera(&mut self.camera, collisions >= 1);
                let shake_step: Option<u32> = animate_camera(&mut self.camera);
                if input.spawn_timer {
                    let spawned = setup_enemy(width, height);
                    enemies.push(spawned);
                }
                if input.score_timer {
                    update_score(&mut self.player);
                }
                game_over(&mut self.state, fired, &mut enemies);
                self.enemies = enemies;
                TickOutput {
                    collisions,
                    game_over: fired,
                    shake_step,
                    play_music: input.music_timer,
                    exit: false,
                }
            },
            AppState::Restart => {
                let go_back: bool = input.restart_intents >= 1;
                check_restart(&mut self.state, input.restart_intents);
                if go_back {
                    self.player = Player { score: 0, max_score: self.player.max_score };
                    self.player_character = Character::from(PLAYER_FRAMES);
                }
                TickOutput {
                    collisions: 0,
                    game_over: false,
                    shake_step: None,
                    play_music: go_back,
                    exit: input.exit_intents >= 1,
                }
            },
        }
    }
}

/// Law: across any sequence of ticks, the high-water score never
/// decreases.  Runs the given per-tick inputs in order on the world and
/// collects each tick's outputs.
pub fn run_ticks(w: &mut World, inputs: &Vec<TickInput>) -> (outs: Vec<TickOutput>)
    requires
        old(w).wf(),
        forall|i: int| 0 <= i < inputs@.len() ==> (#[trigger] inputs@[i]).wf(),
    ensures
        final(w).wf(),
        outs@.len() == inputs@.len(),
        final(w).player.max_score >= old(w).player.max_score,
{
    let mut outs: Vec<TickOutput> = Vec::new();
    let mut i: usize = 0;
    let n: usize = inputs.len();
    while i < n
        invariant
            i <= n,
            n == inputs@.len(),
            outs@.len() == i,
            w.wf(),
            w.player.max_score >= old(w).player.max_score,
            forall|j: int| 0 <= j < n ==> (#[trigger] inputs@[j]).wf(),
        decreases n - i,
    {
        let out: TickOutput = w.tick(&inputs[i]);
        outs.push(out);
        i = i + 1;
    }
    outs
}

/// The player's movement record as scene setup creates it.
pub open spec fn fresh_player_character() -> Character {
    Character {
        flip: false,
        diff_x: 0,
        diff_y: 0,
        trans_x: 0,
        trans_y: 0,
        frame_count: PLAYER_FRAMES as usize,
        frame_index: 0,
    }
}

} // verus!
