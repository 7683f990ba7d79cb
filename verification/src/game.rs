//! The game state machine: owns every entity and advances the whole
//! simulation one frame at a time.
//!
//! The machine is in one of three states.  Entity updates — movement,
//! collision, wave progression — happen only in `Playing`; `Menu` and
//! `GameOver` freeze the gameplay entities.  A defender-line breach is
//! the sole formation-side loss condition: it moves the machine to
//! `GameOver` at once, short-circuiting the rest of that frame, and
//! hands the score to the highscore table.

use vstd::prelude::*;

use crate::bullet::Bullet;
use crate::collision::{process_collisions, spec_live, spec_resolve, DestroyedRecord};
use crate::constants::{DESCENT_SPEED, INITIAL_ENEMY_SPEED, SPEED_INCREASE_PER_WAVE};
use crate::enemy::Enemy;
use crate::explosion::{Explosion, EXPLOSION_FRAMES, EXPLOSION_FRAME_MS};
use crate::formation::{advance_formation, any_breached, spec_any_breached, spec_formation_step};
use crate::highscore::{spec_saved, HighscoreEntry, HighscoreManager};
use crate::player::Player;
use crate::units::{clip, spec_sat_add_u32, POS_LIMIT};
use crate::wave::{
    generate_wave, spec_diamond_formation, spec_grid_formation, spec_v_formation,
};

verus! {

/// The machine's three states.
#[derive(Debug, Clone, Copy, PartialEq, Eq, Structural)]
pub enum GameState {
    /// Awaiting a player name and the start trigger.
    Menu,
    /// The live simulation.
    Playing,
    /// Terminal display, awaiting the reset trigger.
    GameOver,
}

/// The whole simulation state.
pub struct Game {
    /// The player's paddle.
    pub player: Player,
    /// Live bullets.
    pub bullets: Vec<Bullet>,
    /// The live enemy formation.
    pub enemies: Vec<Enemy>,
    /// Explosions still animating.
    pub explosions: Vec<Explosion>,
    /// Current enemy sweep speed, in pixels per second.
    pub enemy_speed: u32,
    /// Speed of a formation descent, in pixels per second.
    pub descent_speed: u32,
    /// Descent distance still owed, in subpixels.
    pub descent_distance: i64,
    /// Current wave number, starting at one.
    pub wave_number: u32,
    /// Which state the machine is in.
    pub state: GameState,
    /// The score so far.
    pub score: u32,
    /// The player's entered name.
    pub player_name: String,
    /// The highscore table.
    pub highscore_manager: HighscoreManager,
}

/// A bullet after one frame of movement.
pub open spec fn spec_moved_bullet(b: Bullet, dt: u32) -> Bullet {
    Bullet { y: b.spec_moved_y(dt), ..b }
}

/// The live bullets after one frame: every bullet moved up, those that
/// left the screen pruned.
pub open spec fn spec_bullets_after(bs: Seq<Bullet>, dt: u32) -> Seq<Bullet> {
    bs.map_values(|b: Bullet| spec_moved_bullet(b, dt)).filter(
        |b: Bullet| !b.spec_is_out_of_bounds(),
    )
}

/// The explosions after one frame: every animation advanced, the
/// finished ones pruned.
pub open spec fn spec_explosions_after(xs: Seq<Explosion>, dt: u32) -> Seq<Explosion> {
    xs.map_values(|x: Explosion| x.spec_updated(dt)).filter(|x: Explosion| !x.finished)
}

/// A fresh explosion at a destroyed enemy's position.
pub open spec fn spec_explosion_at(x: i64, y: i64) -> Explosion {
    Explosion {
        x: clip(x as int) as i64,
        y: clip(y as int) as i64,
        current_frame: 0,
        frame_timer: 0,
        frame_duration: EXPLOSION_FRAME_MS,
        total_frames: EXPLOSION_FRAMES,
        finished: false,
    }
}

/// The explosions spawned by one collision pass.
pub open spec fn spec_spawned_explosions(d: Seq<DestroyedRecord>) -> Seq<Explosion> {
    d.map_values(|r: DestroyedRecord| spec_explosion_at(r.0, r.1))
}

/// The score after one collision pass: each destroyed enemy's point
/// value added in order, saturating.
pub open spec fn spec_score_after(s: u32, d: Seq<DestroyedRecord>) -> u32
    decreases d.len(),
{
    if d.len() == 0 {
        s
    } else {
        spec_sat_add_u32(spec_score_after(s, d.drop_last()), d.last().2)
    }
}

/// The two states agree on everything but the bullet collection.
pub open spec fn spec_same_except_bullets(g: Game, h: Game) -> bool {
    &&& g.player == h.player
    &&& g.enemies == h.enemies
    &&& g.explosions == h.explosions
    &&& g.state == h.state
    &&& g.score == h.score
    &&& g.wave_number == h.wave_number
    &&& g.enemy_speed == h.enemy_speed
    &&& g.descent_speed == h.descent_speed
    &&& g.descent_distance == h.descent_distance
    &&& g.player_name == h.player_name
    &&& g.highscore_manager == h.highscore_manager
}

/// The two states agree on everything but the explosions.
pub open spec fn spec_same_except_explosions(g: Game, h: Game) -> bool {
    &&& g.player == h.player
    &&& g.bullets == h.bullets
    &&& g.enemies == h.enemies
    &&& g.state == h.state
    &&& g.score == h.score
    &&& g.wave_number == h.wave_number
    &&& g.enemy_speed == h.enemy_speed
    &&& g.descent_speed == h.descent_speed
    &&& g.descent_distance == h.descent_distance
    &&& g.player_name == h.player_name
    &&& g.highscore_manager == h.highscore_manager
}

/// The two states agree on everything but the score and the explosions.
pub open spec fn spec_same_except_score_explosions(g: Game, h: Game) -> bool {
    &&& g.player == h.player
    &&& g.bullets == h.bullets
    &&& g.enemies == h.enemies
    &&& g.state == h.state
    &&& g.wave_number == h.wave_number
    &&& g.enemy_speed == h.enemy_speed
    &&& g.descent_speed == h.descent_speed
    &&& g.descent_distance == h.descent_distance
    &&& g.player_name == h.player_name
    &&& g.highscore_manager == h.highscore_manager
}

/// The state a reset leaves the machine in: everything back at its
/// starting value, the first wave's grid spawned, and only the
/// highscore table carried over.
pub open spec fn spec_reset_state(g: Game, m: HighscoreManager) -> bool {
    &&& g.player == Player::spec_initial()
    &&& g.bullets@ == Seq::<Bullet>::empty()
    &&& g.enemies@ == spec_grid_formation(1)
    &&& g.enemy_speed == INITIAL_ENEMY_SPEED
    &&& g.descent_speed == DESCENT_SPEED
    &&& g.descent_distance == 0
    &&& g.wave_number == 1
    &&& g.score == 0
    &&& g.state == GameState::Menu
    &&& g.player_name@ == Seq::<char>::empty()
    &&& g.highscore_manager == m
}

impl Game {
    /// Every entity is well formed and the descent distance representable.
    pub open spec fn wf(self) -> bool {
        &&& self.player.wf()
        &&& forall|k: int| 0 <= k < self.bullets@.len() ==> (#[trigger] self.bullets@[k]).wf()
        &&& forall|k: int| 0 <= k < self.enemies@.len() ==> (#[trigger] self.enemies@[k]).wf()
        &&& 0 <= self.descent_distance <= POS_LIMIT
        &&& self.highscore_manager.wf()
    }

    /// Create a fresh game: menu state, first wave spawned, empty
    /// highscore table keyed to the default store.
    pub fn new() -> (g: Game)
        ensures
            spec_reset_state(g, g.highscore_manager),
            g.explosions@ == Seq::<Explosion>::empty(),
            g.highscore_manager.entries_view() == Seq::<HighscoreEntry>::empty(),
            g.highscore_manager.storage_key@ == "highscores.txt"@,
            g.wf(),
    {
        Game {
            player: Player::new(),
            bullets: Vec::new(),
            enemies: generate_wave(1),
            explosions: Vec::new(),
            enemy_speed: INITIAL_ENEMY_SPEED,
            descent_speed: DESCENT_SPEED,
            descent_distance: 0,
            wave_number: 1,
            state: GameState::Menu,
            score: 0,
            player_name: String::new(),
            highscore_manager: HighscoreManager::new("highscores.txt"),
        }
    }

    /// Return to the menu with everything at its starting value; only
    /// the highscore table survives.  Explosions still animating are
    /// left alone, as the menu never shows them.
    pub fn reset(&mut self)
        requires
            old(self).wf(),
        ensures
            spec_reset_state(*final(self), old(self).highscore_manager),
            final(self).explosions == old(self).explosions,
            final(self).wf(),
    {
        self.player.reset();
        self.bullets = Vec::new();
        self.enemies = generate_wave(1);
        self.enemy_speed = INITIAL_ENEMY_SPEED;
        self.descent_speed = DESCENT_SPEED;
        self.descent_distance = 0;
        self.wave_number = 1;
        self.score = 0;
        self.state = GameState::Menu;
        self.player_name = String::new();
    }

    /// Start a game, given a non-empty player name: wave one, fresh
    /// formation, zero score.  Without a name nothing happens.
    pub fn start_game(&mut self)
        requires
            old(self).wf(),
        ensures
            old(self).player_name@.len() == 0 ==> *final(self) == *old(self),
            old(self).player_name@.len() > 0 ==> {
                &&& final(self).state == GameState::Playing
                &&& final(self).score == 0
                &&& final(self).wave_number == 1
                &&& final(self).enemies@ == spec_grid_formation(1)
                &&& final(self).bullets@ == Seq::<Bullet>::empty()
                &&& final(self).player == Player::spec_initial()
                &&& final(self).enemy_speed == INITIAL_ENEMY_SPEED
                &&& final(self).descent_speed == DESCENT_SPEED
                &&& final(self).descent_distance == 0
                &&& final(self).player_name == old(self).player_name
                &&& final(self).highscore_manager == old(self).highscore_manager
                &&& final(self).explosions == old(self).explosions
            },
            final(self).wf(),
    {
        if self.player_name.as_str().unicode_len() > 0 {
            self.state = GameState::Playing;
            self.score = 0;
            self.wave_number = 1;
            self.enemies = generate_wave(1);
            self.bullets = Vec::new();
            self.player.reset();
            self.enemy_speed = INITIAL_ENEMY_SPEED;
            self.descent_speed = DESCENT_SPEED;
            self.descent_distance = 0;
        }
    }

    /// Fire the player's shots into the live-bullet collection; only
    /// the playing state shoots.
    pub fn shoot(&mut self)
        requires
            old(self).wf(),
        ensures
            old(self).state != GameState::Playing ==> *final(self) == *old(self),
            old(self).state == GameState::Playing ==> {
                &&& final(self).bullets@.len() == old(self).bullets@.len()
                    + old(self).player.available_shots
                &&& forall|k: int|
                    0 <= k < old(self).bullets@.len() ==> final(self).bullets@[k] == old(self).bullets@[k]
                &&& forall|i: int|
                    0 <= i < old(self).player.available_shots ==> final(self).bullets@[old(self).bullets@.len() + i] == old(self).player.spec_shot_bullet(i)
                &&& final(self).player == old(self).player
                &&& final(self).enemies == old(self).enemies
                &&& final(self).explosions == old(self).explosions
                &&& final(self).state == old(self).state
                &&& final(self).score == old(self).score
                &&& final(self).wave_number == old(self).wave_number
                &&& final(self).enemy_speed == old(self).enemy_speed
                &&& final(self).descent_speed == old(self).descent_speed
                &&& final(self).descent_distance == old(self).descent_distance
                &&& final(self).player_name == old(self).player_name
                &&& final(self).highscore_manager == old(self).highscore_manager
            },
            final(self).wf(),
    {
        if matches!(self.state, GameState::Playing) {
            let ghost bs0 = self.bullets@;
            let player = &self.player;
            player.shoot(&mut self.bullets);
            proof {
                assert forall|k: int| 0 <= k < self.bullets@.len() implies (#[trigger] self
                    .bullets@[k]).wf() by {
                    if k >= bs0.len() {
                        assert(self.bullets@[k] == self.player.spec_shot_bullet(k - bs0.len()));
                    }
                }
            }
        }
    }

    /// Advance every bullet one frame and prune those off screen.
    pub fn update_bullets(&mut self, dt: u32)
        requires
            old(self).wf(),
        ensures
            final(self).bullets@ == spec_bullets_after(old(self).bullets@, dt),
            final(self).player == old(self).player,
            final(self).enemies == old(self).enemies,
            final(self).explosions == old(self).explosions,
            final(self).state == old(self).state,
            final(self).score == old(self).score,
            final(self).wave_number == old(self).wave_number,
            final(self).enemy_speed == old(self).enemy_speed,
            final(self).descent_speed == old(self).descent_speed,
            final(self).descent_distance == old(self).descent_distance,
            final(self).player_name == old(self).player_name,
            final(self).highscore_manager == old(self).highscore_manager,
            final(self).wf(),
    {
        let ghost bs0 = self.bullets@;
        let mut i: usize = 0;
        while i < self.bullets.len()
            invariant
                0 <= i <= self.bullets@.len(),
                self.bullets@.len() == bs0.len(),
                forall|k: int| 0 <= k < bs0.len() ==> (#[trigger] bs0[k]).wf(),
                forall|k: int| 0 <= k < i ==> self.bullets@[k] == spec_moved_bullet(bs0[k], dt),
                forall|k: int| i <= k < bs0.len() ==> self.bullets@[k] == bs0[k],
                spec_same_except_bullets(*self, *old(self)),
            decreases self.bullets@.len() - i,
        {
            let mut b = self.bullets[i];
            proof {
                assert(b == bs0[i as int]);
            }
            b.update(dt);
            self.bullets[i] = b;
            i = i + 1;
        }
        proof {
            assert(self.bullets@ =~= bs0.map_values(|b: Bullet| spec_moved_bullet(b, dt)));
        }
        let ghost moved = self.bullets@;

        let mut kept: Vec<Bullet> = Vec::new();
        let mut j: usize = 0;
        proof {
            reveal(Seq::filter);
            assert(moved.subrange(0, 0int).filter(|b: Bullet| !b.spec_is_out_of_bounds())
                =~= Seq::<Bullet>::empty());
        }
        while j < self.bullets.len()
            invariant
                0 <= j <= self.bullets@.len(),
                self.bullets@ == moved,
                forall|k: int| 0 <= k < moved.len() ==> (#[trigger] moved[k]).wf(),
                kept@ == moved.subrange(0, j as int).filter(|b: Bullet| !b.spec_is_out_of_bounds()),
                forall|k: int| 0 <= k < kept@.len() ==> (#[trigger] kept@[k]).wf(),
                spec_same_except_bullets(*self, *old(self)),
            decreases self.bullets@.len() - j,
        {
            proof {
                reveal(Seq::filter);
                assert(moved.subrange(0, j as int + 1).drop_last() =~= moved.subrange(0, j as int));
                assert(moved.subrange(0, j as int + 1).last() == moved[j as int]);
            }
            if !self.bullets[j].is_out_of_bounds() {
                let b = self.bullets[j];
                kept.push(b);
            }
            j = j + 1;
        }
        proof {
            assert(moved.subrange(0, moved.len() as int) =~= moved);
        }
        self.bullets = kept;
    }

    /// Advance the formation one frame, then run the defender-line
    /// check: a breach ends the game at once, saving a non-empty
    /// player's positive score to the highscore table.
    pub fn update_enemies(&mut self, dt: u32)
        requires
            old(self).wf(),
        ensures
            ({
                let (es1, dd1) = spec_formation_step(
                    old(self).enemies@,
                    old(self).descent_distance as int,
                    old(self).descent_speed,
                    old(self).enemy_speed,
                    dt,
                );
                &&& final(self).enemies@ == es1
                &&& final(self).descent_distance == dd1
                &&& (if spec_any_breached(es1) {
                    &&& final(self).state == GameState::GameOver
                    &&& (old(self).player_name@.len() > 0 && old(self).score > 0
                        ==> exists|e: HighscoreEntry|
                            (#[trigger] e.name)@ == old(self).player_name@
                            && e.score == old(self).score
                            && final(self).highscore_manager.entries_view()
                                == spec_saved(old(self).highscore_manager.entries_view(), e))
                    &&& (!(old(self).player_name@.len() > 0 && old(self).score > 0) ==> final(self).highscore_manager == old(self).highscore_manager)
                } else {
                    &&& final(self).state == old(self).state
                    &&& final(self).highscore_manager == old(self).highscore_manager
                })
            }),
            final(self).player == old(self).player,
            final(self).bullets == old(self).bullets,
            final(self).explosions == old(self).explosions,
            final(self).score == old(self).score,
            final(self).wave_number == old(self).wave_number,
            final(self).enemy_speed == old(self).enemy_speed,
            final(self).descent_speed == old(self).descent_speed,
            final(self).player_name == old(self).player_name,
            final(self).wf(),
    {
        advance_formation(
            &mut self.enemies,
            &mut self.descent_distance,
            self.descent_speed,
            self.enemy_speed,
            dt,
        );
        if any_breached(&self.enemies) {
            self.state = GameState::GameOver;
            if self.player_name.as_str().unicode_len() > 0 && self.score > 0 {
                let name = self.player_name.clone();
                self.highscore_manager.save_highscore(name.as_str(), self.score);
            }
        }
    }

    /// Advance every explosion animation and prune the finished ones.
    pub fn update_explosions(&mut self, dt: u32)
        requires
            old(self).wf(),
        ensures
            final(self).explosions@ == spec_explosions_after(old(self).explosions@, dt),
            final(self).player == old(self).player,
            final(self).bullets == old(self).bullets,
            final(self).enemies == old(self).enemies,
            final(self).state == old(self).state,
            final(self).score == old(self).score,
            final(self).wave_number == old(self).wave_number,
            final(self).enemy_speed == old(self).enemy_speed,
            final(self).descent_speed == old(self).descent_speed,
            final(self).descent_distance == old(self).descent_distance,
            final(self).player_name == old(self).player_name,
            final(self).highscore_manager == old(self).highscore_manager,
            final(self).wf(),
    {
        let ghost xs0 = self.explosions@;
        let mut i: usize = 0;
        while i < self.explosions.len()
            invariant
                0 <= i <= self.explosions@.len(),
                self.explosions@.len() == xs0.len(),
                forall|k: int| 0 <= k < i ==> self.explosions@[k] == xs0[k].spec_updated(dt),
                forall|k: int| i <= k < xs0.len() ==> self.explosions@[k] == xs0[k],
                spec_same_except_explosions(*self, *old(self)),
            decreases self.explosions@.len() - i,
        {
            let mut x = self.explosions[i];
            x.update(dt);
            self.explosions[i] = x;
            i = i + 1;
        }
        proof {
            assert(self.explosions@ =~= xs0.map_values(|x: Explosion| x.spec_updated(dt)));
        }
        let ghost moved = self.explosions@;

        let mut kept: Vec<Explosion> = Vec::new();
        let mut j: usize = 0;
        proof {
            reveal(Seq::filter);
            assert(moved.subrange(0, 0int).filter(|x: Explosion| !x.finished) =~= Seq::<
                Explosion,
            >::empty());
        }
        while j < self.explosions.len()
            invariant
                0 <= j <= self.explosions@.len(),
                self.explosions@ == moved,
                kept@ == moved.subrange(0, j as int).filter(|x: Explosion| !x.finished),
                spec_same_except_explosions(*self, *old(self)),
            decreases self.explosions@.len() - j,
        {
            proof {
                reveal(Seq::filter);
                assert(moved.subrange(0, j as int + 1).drop_last() =~= moved.subrange(0, j as int));
                assert(moved.subrange(0, j as int + 1).last() == moved[j as int]);
            }
            if !self.explosions[j].is_finished() {
                let x = self.explosions[j];
                kept.push(x);
            }
            j = j + 1;
        }
        proof {
            assert(moved.subrange(0, moved.len() as int) =~= moved);
        }
        self.explosions = kept;
    }

    /// Resolve bullet/enemy collisions, add each destroyed enemy's
    /// point value to the score (saturating), and spawn an explosion at
    /// each destroyed enemy's position.
    pub fn update_collisions(&mut self)
        requires
            old(self).wf(),
        ensures
            ({
                let r = spec_resolve(old(self).bullets@, old(self).enemies@, 0, Seq::empty());
                &&& final(self).bullets@ == r.0
                &&& final(self).enemies@ == spec_live(r.1)
                &&& final(self).score == spec_score_after(old(self).score, r.2)
                &&& final(self).explosions@ == old(self).explosions@ + spec_spawned_explosions(r.2)
            }),
            final(self).player == old(self).player,
            final(self).state == old(self).state,
            final(self).wave_number == old(self).wave_number,
            final(self).enemy_speed == old(self).enemy_speed,
            final(self).descent_speed == old(self).descent_speed,
            final(self).descent_distance == old(self).descent_distance,
            final(self).player_name == old(self).player_name,
            final(self).highscore_manager == old(self).highscore_manager,
            final(self).wf(),
    {
        let mut destroyed_info: Vec<DestroyedRecord> = Vec::new();
        process_collisions(&mut self.enemies, &mut self.bullets, &mut destroyed_info);
        let ghost g1 = *self;
        let ghost d = destroyed_info@;
        let ghost score0 = self.score;
        let ghost xs0 = self.explosions@;

        let mut i: usize = 0;
        while i < destroyed_info.len()
            invariant
                0 <= i <= d.len(),
                destroyed_info@ == d,
                self.score == spec_score_after(score0, d.subrange(0, i as int)),
                self.explosions@ == xs0 + spec_spawned_explosions(d.subrange(0, i as int)),
                spec_same_except_score_explosions(*self, g1),
            decreases d.len() - i,
        {
            proof {
                assert(d.subrange(0, i as int + 1).drop_last() =~= d.subrange(0, i as int));
                assert(d.subrange(0, i as int + 1).last() == d[i as int]);
            }
            let (x, y, points) = destroyed_info[i];
            self.score = self.score.saturating_add(points);
            self.explosions.push(Explosion::new(x, y));
            proof {
                assert(self.explosions@ =~= xs0 + spec_spawned_explosions(
                    d.subrange(0, i as int + 1),
                ));
            }
            i = i + 1;
        }
        proof {
            assert(d.subrange(0, d.len() as int) =~= d);
        }
    }

    /// If the formation is cleared: advance to the next wave — one
    /// higher, faster enemies, an upgraded player — and spawn its
    /// formation.
    pub fn check_wave_complete(&mut self)
        requires
            old(self).wf(),
        ensures
            old(self).enemies@.len() > 0 ==> *final(self) == *old(self),
            old(self).enemies@.len() == 0 ==> ({
                let w2 = spec_sat_add_u32(old(self).wave_number, 1);
                &&& final(self).wave_number == w2
                &&& final(self).enemy_speed == spec_sat_add_u32(
                    old(self).enemy_speed,
                    SPEED_INCREASE_PER_WAVE,
                )
                &&& final(self).player == old(self).player.spec_upgraded()
                &&& final(self).enemies@.len() > 0
                &&& (w2 % 4 == 1 ==> final(self).enemies@ == spec_grid_formation(w2))
                &&& (w2 % 4 == 2 ==> final(self).enemies@ == spec_v_formation(w2))
                &&& (w2 % 4 == 3 ==> final(self).enemies@ == spec_diamond_formation(w2))
                &&& (w2 % 4 == 0 ==> final(self).enemies@.len() == 35)
                &&& final(self).bullets == old(self).bullets
                &&& final(self).explosions == old(self).explosions
                &&& final(self).state == old(self).state
                &&& final(self).score == old(self).score
                &&& final(self).descent_speed == old(self).descent_speed
                &&& final(self).descent_distance == 0
                &&& final(self).player_name == old(self).player_name
                &&& final(self).highscore_manager == old(self).highscore_manager
            }),
            final(self).wf(),
    {
        if self.enemies.len() == 0 {
            self.wave_number = self.wave_number.saturating_add(1);
            self.enemy_speed = self.enemy_speed.saturating_add(SPEED_INCREASE_PER_WAVE);
            self.player.upgrade();
            self.enemies = generate_wave(self.wave_number);
            // A new wave starts in the advancing mode: no descent owed.
            self.descent_distance = 0;
        }
    }

    /// Advance the whole simulation by one frame.
    ///
    /// `Menu` and `GameOver` freeze every gameplay entity.  In
    /// `Playing` the frame runs: bullets move and prune; the formation
    /// advances; a defender-line breach ends the game at once (saving
    /// the score) and short-circuits the rest of the frame; otherwise
    /// explosions animate, collisions resolve into score and
    /// explosions, and a cleared formation brings the next, faster,
    /// wave and a player upgrade.
    pub fn update(&mut self, dt: u32)
        requires
            old(self).wf(),
        ensures
            old(self).state != GameState::Playing ==> *final(self) == *old(self),
            final(self).score >= old(self).score,
            final(self).wave_number >= old(self).wave_number,
            final(self).player_name == old(self).player_name,
            final(self).descent_speed == old(self).descent_speed,
            old(self).state == GameState::Playing ==> ({
                let bs1 = spec_bullets_after(old(self).bullets@, dt);
                let (es1, dd1) = spec_formation_step(
                    old(self).enemies@,
                    old(self).descent_distance as int,
                    old(self).descent_speed,
                    old(self).enemy_speed,
                    dt,
                );
                if spec_any_breached(es1) {
                    &&& final(self).state == GameState::GameOver
                    &&& final(self).bullets@ == bs1
                    &&& final(self).enemies@ == es1
                    &&& final(self).descent_distance == dd1
                    &&& final(self).score == old(self).score
                    &&& final(self).wave_number == old(self).wave_number
                    &&& final(self).player == old(self).player
                    &&& final(self).explosions == old(self).explosions
                    &&& final(self).enemy_speed == old(self).enemy_speed
                    &&& (old(self).player_name@.len() > 0 && old(self).score > 0
                        ==> exists|e: HighscoreEntry|
                            (#[trigger] e.name)@ == old(self).player_name@
                            && e.score == old(self).score
                            && final(self).highscore_manager.entries_view()
                                == spec_saved(old(self).highscore_manager.entries_view(), e))
                    &&& (!(old(self).player_name@.len() > 0 && old(self).score > 0) ==> final(self).highscore_manager == old(self).highscore_manager)
                } else {
                    let ex1 = spec_explosions_after(old(self).explosions@, dt);
                    let r = spec_resolve(bs1, es1, 0, Seq::empty());
                    let es2 = spec_live(r.1);
                    &&& final(self).state == GameState::Playing
                    &&& final(self).bullets@ == r.0
                    &&& final(self).explosions@ == ex1 + spec_spawned_explosions(r.2)
                    &&& final(self).score == spec_score_after(old(self).score, r.2)
                    &&& final(self).highscore_manager == old(self).highscore_manager
                    &&& (if es2.len() == 0 {
                        let w2 = spec_sat_add_u32(old(self).wave_number, 1);
                        &&& final(self).wave_number == w2
                        &&& final(self).enemy_speed == spec_sat_add_u32(
                            old(self).enemy_speed,
                            SPEED_INCREASE_PER_WAVE,
                        )
                        &&& final(self).player == old(self).player.spec_upgraded()
                        &&& final(self).descent_distance == 0
                        &&& final(self).enemies@.len() > 0
                        &&& (w2 % 4 == 1 ==> final(self).enemies@ == spec_grid_formation(w2))
                        &&& (w2 % 4 == 2 ==> final(self).enemies@ == spec_v_formation(w2))
                        &&& (w2 % 4 == 3 ==> final(self).enemies@ == spec_diamond_formation(w2))
                        &&& (w2 % 4 == 0 ==> final(self).enemies@.len() == 35)
                    } else {
                        &&& final(self).wave_number == old(self).wave_number
                        &&& final(self).enemy_speed == old(self).enemy_speed
                        &&& final(self).player == old(self).player
                        &&& final(self).descent_distance == dd1
                        &&& final(self).enemies@ == es2
                    })
                }
            }),
            final(self).wf(),
    {
        match self.state {
            GameState::Menu => {},
            GameState::GameOver => {},
            GameState::Playing => {
                self.update_bullets(dt);
                self.update_enemies(dt);
                if matches!(self.state, GameState::GameOver) {
                    return ;
                }
                let ghost score1 = self.score;
                let ghost bullets1 = self.bullets@;
                let ghost enemies1 = self.enemies@;
                self.update_explosions(dt);
                self.update_collisions();
                proof {
                    lemma_score_monotone(
                        score1,
                        spec_resolve(bullets1, enemies1, 0, Seq::empty()).2,
                    );
                }
                self.check_wave_complete();
            },
        }
    }

    /// Save a non-empty player's positive score, then return to the
    /// menu through a full reset.
    pub fn save_and_return_to_menu(&mut self)
        requires
            old(self).wf(),
        ensures
            spec_reset_state(*final(self), final(self).highscore_manager),
            old(self).player_name@.len() > 0 && old(self).score > 0
                ==> exists|e: HighscoreEntry|
                    (#[trigger] e.name)@ == old(self).player_name@
                    && e.score == old(self).score
                    && final(self).highscore_manager.entries_view()
                        == spec_saved(old(self).highscore_manager.entries_view(), e),
            !(old(self).player_name@.len() > 0 && old(self).score > 0) ==> final(self).highscore_manager == old(self).highscore_manager,
            final(self).wf(),
    {
        if self.player_name.as_str().unicode_len() > 0 && self.score > 0 {
            let name = self.player_name.clone();
            self.highscore_manager.save_highscore(name.as_str(), self.score);
        }
        self.reset();
    }
}

/// Each destroyed enemy only ever adds to the score.
proof fn lemma_score_monotone(s: u32, d: Seq<DestroyedRecord>)
    ensures
        spec_score_after(s, d) >= s,
    decreases d.len(),
{
    if d.len() > 0 {
        lemma_score_monotone(s, d.drop_last());
    }
}

/// Idempotent reset: a second reset leaves every field of the machine
/// exactly as the first left it — the player, formation, score, wave
/// and state are identical, and the highscore table is the one the
/// first reset preserved.
pub proof fn lemma_reset_idempotent(once: Game, twice: Game, m: HighscoreManager)
    requires
        spec_reset_state(once, m),
        spec_reset_state(twice, once.highscore_manager),
    ensures
        twice.player == once.player,
        twice.bullets@ == once.bullets@,
        twice.enemies@ == once.enemies@,
        twice.enemy_speed == once.enemy_speed,
        twice.descent_speed == once.descent_speed,
        twice.descent_distance == once.descent_distance,
        twice.wave_number == once.wave_number,
        twice.score == once.score,
        twice.state == once.state,
        twice.player_name@ == once.player_name@,
        twice.highscore_manager == once.highscore_manager,
{
}

} // verus!
