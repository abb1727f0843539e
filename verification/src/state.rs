use vstd::prelude::*;

use crate::rng::random_in_range;
use crate::types::{
    pos_ok, CarSprite, Cue, Enemy, Marble, PowerSprite, CARS_PER_ROUND, LAUNCH_Y, MAGAZINE_SIZE,
    MAX_SPEED, POS_LIMIT, POWER_DELAY_MAX_MS, POWER_DELAY_MIN_MS, SPAWN_DELAY_MAX_MS,
};

verus! {

/// A countdown advanced by the simulation clock only: it fires when
/// `elapsed_ms + dt` reaches `duration_ms`.
#[derive(PartialEq, Eq, Structural, Clone, Copy, Debug)]
pub struct Countdown {
    pub duration_ms: u64,
    pub elapsed_ms: u64,
}

/// The core's mirror of the entity registry: every live entity the game owns,
/// carried as plain values.  The runtime renders exactly what stands here.
/// Collidability goes by category: projectiles, enemies and the power-up
/// take part in collision detection, the turret does not.
#[derive(Debug)]
pub struct Registry {
    /// Horizontal position of the player's turret (millipixels).
    pub player_x: i64,
    /// Live projectile entities.
    pub marbles: Vec<Marble>,
    /// Live enemy entities; stats live in the enemy directory.
    pub cars: Vec<CarSprite>,
    /// The at-most-one live area-effect entity.
    pub power: Option<PowerSprite>,
}

/// Is some record of the directory labelled `label`?
pub open spec fn car_live(dir: Seq<Enemy>, label: u32) -> bool {
    exists|i: int| 0 <= i < dir.len() && dir[i].label == label
}

/// The index of the record labelled `label`; with unique labels there is
/// exactly one.
pub open spec fn dir_index(dir: Seq<Enemy>, label: u32) -> int {
    choose|i: int| 0 <= i < dir.len() && dir[i].label == label
}

/// Is some live projectile entity carrying magazine label `num`?
pub open spec fn marble_live(ms: Seq<Marble>, num: u32) -> bool {
    exists|i: int| 0 <= i < ms.len() && ms[i].num == num
}

/// The index of the live projectile carrying `num`; with unique labels there
/// is exactly one.
pub open spec fn marble_index(ms: Seq<Marble>, num: u32) -> int {
    choose|i: int| 0 <= i < ms.len() && ms[i].num == num
}

/// What the player-motion phase leaves behind: the turret follows the
/// pointer when one is present, everything else stands.
pub open spec fn player_step(gs: GameState, mouse_x: Option<i64>) -> GameState {
    GameState {
        registry: Registry {
            player_x: match mouse_x {
                Some(x) => x,
                None => gs.registry.player_x,
            },
            ..gs.registry
        },
        ..gs
    }
}

/// How the firing phase relates the state before (`a`) to the state after
/// (`b`): a fresh fire edge with a non-empty pool pops the pool's last label
/// and launches a projectile at the turret; anything else is a silent no-op.
pub open spec fn fire_rel(a: GameState, b: GameState, fire_pressed: bool, cues: Seq<Cue>) -> bool {
    if fire_pressed && a.marble_labels@.len() > 0 {
        &&& b.marble_labels@ == a.marble_labels@.drop_last()
        &&& b.registry.marbles@ == a.registry.marbles@.push(
            Marble { num: a.marble_labels@.last(), x: a.registry.player_x, y: LAUNCH_Y },
        )
        &&& cues == seq![Cue::Launch]
        &&& b.cars_left == a.cars_left
        &&& b.spawn_timer == a.spawn_timer
        &&& b.explosion_timer == a.explosion_timer
        &&& b.score == a.score
        &&& b.high_score == a.high_score
        &&& b.game_over == a.game_over
        &&& b.power_spawned == a.power_spawned
        &&& b.enemies_vector == a.enemies_vector
        &&& b.registry.player_x == a.registry.player_x
        &&& b.registry.cars == a.registry.cars
        &&& b.registry.power == a.registry.power
    } else {
        b == a && cues.len() == 0
    }
}

/// How the restart phase relates the state before (`a`) to the state after
/// (`b`): a restart edge while the round is over resets the score, the
/// remaining-to-spawn counter and the power-up arming, redraws the power-up
/// period, and touches nothing else — the high score in particular stands.
pub open spec fn restart_rel(a: GameState, b: GameState, restart_pressed: bool) -> bool {
    if restart_pressed && a.game_over {
        &&& b.game_over == false
        &&& b.cars_left == CARS_PER_ROUND
        &&& b.score == 0
        &&& b.power_spawned == false
        &&& b.explosion_timer.elapsed_ms == 0
        &&& POWER_DELAY_MIN_MS <= b.explosion_timer.duration_ms < POWER_DELAY_MAX_MS
        &&& b.high_score == a.high_score
        &&& b.marble_labels == a.marble_labels
        &&& b.spawn_timer == a.spawn_timer
        &&& b.enemies_vector == a.enemies_vector
        &&& b.registry == a.registry
    } else {
        b == a
    }
}

/// The whole game state, threaded through the tick function: directory,
/// projectile pool, controllers, scoreboard, round flag and entity mirror.
#[derive(Debug)]
pub struct GameState {
    /// The projectile pool: magazine labels not currently in flight.
    pub marble_labels: Vec<u32>,
    /// Enemies still to spawn this round.
    pub cars_left: u32,
    /// The spawn controller's countdown.
    pub spawn_timer: Countdown,
    /// The power-up controller's countdown.
    pub explosion_timer: Countdown,
    pub score: u32,
    pub high_score: u32,
    /// The round state: `false` is `Playing`, `true` is `Over`.  The runtime
    /// shows the game-over text exactly while this holds.
    pub game_over: bool,
    /// The enemy directory, aligned index for index with `registry.cars`.
    pub enemies_vector: Vec<Enemy>,
    /// Whether the one power-up of this round has already appeared.
    pub power_spawned: bool,
    /// The entity mirror.
    pub registry: Registry,
}

impl GameState {
    /// The pool and the live projectiles partition the magazine: together
    /// they hold each label of `1..=MAGAZINE_SIZE` exactly once.
    pub open spec fn wf_projectiles(self) -> bool {
        let pool = self.marble_labels@;
        let ms = self.registry.marbles@;
        &&& pool.len() + ms.len() == MAGAZINE_SIZE
        &&& forall|i: int| 0 <= i < pool.len() ==> 1 <= #[trigger] pool[i] <= MAGAZINE_SIZE
        &&& forall|i: int|
            0 <= i < ms.len() ==> 1 <= (#[trigger] ms[i]).num <= MAGAZINE_SIZE
        &&& forall|i: int, j: int| 0 <= i < j < pool.len() ==> pool[i] != pool[j]
        &&& forall|i: int, j: int| 0 <= i < j < ms.len() ==> ms[i].num != ms[j].num
        &&& forall|i: int, j: int|
            0 <= i < pool.len() && 0 <= j < ms.len() ==> pool[i] != ms[j].num
    }

    /// Enemy entities and directory records match one to one: the two vectors
    /// run aligned, labels are unique, stats are in range, and no label is
    /// below the remaining-to-spawn counter (which is what makes fresh labels
    /// unique).
    pub open spec fn wf_enemies(self) -> bool {
        let cs = self.registry.cars@;
        let dir = self.enemies_vector@;
        &&& cs.len() == dir.len()
        &&& forall|i: int| 0 <= i < cs.len() ==> (#[trigger] cs[i]).num == dir[i].label
        &&& forall|i: int, j: int| 0 <= i < j < dir.len() ==> dir[i].label != dir[j].label
        &&& forall|i: int|
            0 <= i < dir.len() ==> 1 <= (#[trigger] dir[i]).health <= 2
        &&& forall|i: int|
            0 <= i < dir.len() ==> 0 < (#[trigger] dir[i]).speed <= MAX_SPEED
        &&& forall|i: int|
            0 <= i < dir.len() ==> self.cars_left <= (#[trigger] dir[i]).label < CARS_PER_ROUND
    }

    /// The high score bounds the score, and the score plus what could still
    /// be scored never exceeds the round total.
    pub open spec fn wf_scoreboard(self) -> bool {
        &&& self.score <= self.high_score
        &&& self.score + self.cars_left + self.enemies_vector@.len() <= CARS_PER_ROUND
        &&& self.high_score <= CARS_PER_ROUND
    }

    /// Countdowns stay within their draw ranges, so advancing them cannot
    /// overflow.
    pub open spec fn wf_timers(self) -> bool {
        &&& self.spawn_timer.duration_ms < SPAWN_DELAY_MAX_MS
        &&& self.spawn_timer.elapsed_ms <= self.spawn_timer.duration_ms
        &&& 0 < self.explosion_timer.duration_ms < POWER_DELAY_MAX_MS
        &&& self.explosion_timer.elapsed_ms < self.explosion_timer.duration_ms
    }

    /// Every position in the mirror is within the fixed-point range.
    pub open spec fn wf_positions(self) -> bool {
        &&& -POS_LIMIT <= self.registry.player_x <= POS_LIMIT
        &&& forall|i: int|
            0 <= i < self.registry.marbles@.len() ==> pos_ok(
                (#[trigger] self.registry.marbles@[i]).x,
                self.registry.marbles@[i].y,
            )
        &&& forall|i: int|
            0 <= i < self.registry.cars@.len() ==> pos_ok(
                (#[trigger] self.registry.cars@[i]).x,
                self.registry.cars@[i].y,
            )
        &&& (self.registry.power matches Some(p) ==> pos_ok(p.x, p.y))
    }

    /// While the round is over, no enemy exists and none remains to spawn.
    pub open spec fn wf_round(self) -> bool {
        self.game_over ==> self.cars_left == 0 && self.registry.cars@.len() == 0
    }

    /// Well-formedness of the whole state: established by `default`,
    /// preserved by every phase of the tick.
    pub open spec fn wf(self) -> bool {
        &&& self.wf_projectiles()
        &&& self.wf_enemies()
        &&& self.wf_scoreboard()
        &&& self.wf_timers()
        &&& self.wf_positions()
        &&& self.wf_round()
    }

    /// First directory record labelled `label`, by linear scan; per the error
    /// model a miss is a broken invariant, so presence is required.
    pub fn get_enemy(&self, label: u32) -> (e: &Enemy)
        requires
            self.wf(),
            car_live(self.enemies_vector@, label),
        ensures
            *e == self.enemies_vector@[dir_index(self.enemies_vector@, label)],
            e.label == label,
    {
        let i = self.get_enemy_index(label);
        &self.enemies_vector[i]
    }

    /// Index of the directory record labelled `label`.
    #[verifier::loop_isolation(false)]
    pub fn get_enemy_index(&self, label: u32) -> (i: usize)
        requires
            self.wf(),
            car_live(self.enemies_vector@, label),
        ensures
            0 <= i < self.enemies_vector@.len(),
            self.enemies_vector@[i as int].label == label,
            i as int == dir_index(self.enemies_vector@, label),
    {
        let ghost dir = self.enemies_vector@;
        let mut i: usize = 0;
        while i < self.enemies_vector.len()
            invariant
                self.wf(),
                car_live(dir, label),
                dir == self.enemies_vector@,
                0 <= i <= dir.len(),
                forall|j: int| 0 <= j < i ==> dir[j].label != label,
            decreases dir.len() - i,
        {
            if self.enemies_vector[i].label == label {
                proof {
                    let w = dir_index(dir, label);
                    assert(0 <= w < dir.len() && dir[w].label == label);
                    assert(w == i as int);
                }
                return i;
            }
            i += 1;
        }
        proof {
            let w = choose|j: int| 0 <= j < dir.len() && dir[j].label == label;
            assert(dir[w].label != label);
        }
        unreached()
    }

    /// One kill's worth of scoring: the score rises by one and the high
    /// score follows it up, never down.
    pub fn increment_score(&mut self)
        requires
            old(self).wf_scoreboard(),
            old(self).score + 1 + old(self).cars_left + old(self).enemies_vector@.len()
                <= CARS_PER_ROUND,
        ensures
            final(self).score == old(self).score + 1,
            final(self).high_score == if old(self).score + 1 > old(self).high_score {
                old(self).score + 1
            } else {
                old(self).high_score as int
            },
            final(self).high_score >= old(self).high_score,
            final(self).wf_scoreboard(),
            *final(self) == (GameState {
                score: final(self).score,
                high_score: final(self).high_score,
                ..*old(self)
            }),
    {
        self.score = self.score + 1;
        if self.score > self.high_score {
            self.high_score = self.score;
        }
    }

    /// The turret follows the pointer when one is present; an absent pointer
    /// leaves it where it was.
    pub fn update_player(&mut self, mouse_x: Option<i64>)
        requires
            old(self).wf(),
            mouse_x matches Some(x) ==> -POS_LIMIT <= x <= POS_LIMIT,
        ensures
            final(self).wf(),
            *final(self) == player_step(*old(self), mouse_x),
    {
        if let Some(x) = mouse_x {
            self.registry.player_x = x;
        }
    }

    /// A fresh fire edge pops a label from the pool (if any) and launches a
    /// projectile at the turret's position; an empty pool is silently a
    /// no-op.
    pub fn handle_fire(&mut self, fire_pressed: bool) -> (cues: Vec<Cue>)
        requires
            old(self).wf(),
        ensures
            final(self).wf(),
            fire_rel(*old(self), *final(self), fire_pressed, cues@),
    {
        let mut cues: Vec<Cue> = Vec::new();
        if fire_pressed {
            if self.marble_labels.len() > 0 {
                let num = self.marble_labels.pop().unwrap();
                let m = Marble { num, x: self.registry.player_x, y: LAUNCH_Y };
                self.registry.marbles.push(m);
                cues.push(Cue::Launch);
                proof {
                    let pool0 = old(self).marble_labels@;
                    let ms0 = old(self).registry.marbles@;
                    assert(self.registry.marbles@ == ms0.push(m));
                    assert forall|i: int, j: int|
                        0 <= i < j < self.registry.marbles@.len() implies self.registry.marbles@[i].num
                        != self.registry.marbles@[j].num by {
                        if j < ms0.len() {
                        } else {
                            assert(self.registry.marbles@[j] == m);
                        }
                    }
                    assert(cues@ =~= seq![Cue::Launch]);
                }
            }
        }
        cues
    }

    /// Does the round end right now: no enemy entity remains, none is left
    /// to spawn, and the round is not already over?
    pub open spec fn round_over_due(self) -> bool {
        self.registry.cars@.len() == 0 && self.cars_left == 0 && !self.game_over
    }

    /// What evaluating the end-of-round condition leaves behind: the state
    /// itself unless the transition is due.
    pub open spec fn round_over_step(gs: GameState) -> GameState {
        if gs.round_over_due() {
            GameState { game_over: true, ..gs }
        } else {
            gs
        }
    }

    /// The transition to `Over`: fires exactly when `round_over_due`;
    /// evaluating it again without a state change does nothing (see
    /// `crate::laws::lemma_round_over_idempotent`).
    pub fn evaluate_round_over(&mut self) -> (cues: Vec<Cue>)
        requires
            old(self).wf(),
        ensures
            final(self).wf(),
            *final(self) == Self::round_over_step(*old(self)),
            old(self).round_over_due() ==> cues@ == seq![Cue::RoundEnd],
            !old(self).round_over_due() ==> cues@.len() == 0,
    {
        let mut cues: Vec<Cue> = Vec::new();
        if self.registry.cars.len() == 0 && self.cars_left == 0 && !self.game_over {
            self.game_over = true;
            cues.push(Cue::RoundEnd);
            proof {
                assert(cues@ =~= seq![Cue::RoundEnd]);
            }
        }
        cues
    }

    /// A restart edge while the round is over starts the next round: the
    /// score and the remaining-to-spawn counter reset, the power-up re-arms
    /// with a freshly drawn period, and the high score stands untouched.
    pub fn handle_restart(&mut self, restart_pressed: bool)
        requires
            old(self).wf(),
        ensures
            final(self).wf(),
            final(self).high_score == old(self).high_score,
            restart_rel(*old(self), *final(self), restart_pressed),
    {
        if restart_pressed && self.game_over {
            self.game_over = false;
            self.cars_left = CARS_PER_ROUND;
            self.score = 0;
            self.power_spawned = false;
            let dur = random_in_range(POWER_DELAY_MIN_MS, POWER_DELAY_MAX_MS);
            self.explosion_timer = Countdown { duration_ms: dur, elapsed_ms: 0 };
        }
    }
}

impl Default for GameState {
    /// The state a fresh process starts in: a full magazine, a full round to
    /// spawn, zero scores, the spawn controller due immediately, and the
    /// power-up period freshly drawn.
    fn default() -> (gs: Self)
        ensures
            gs.wf(),
            gs.marble_labels@ == seq![1u32, 2u32, 3u32],
            gs.cars_left == CARS_PER_ROUND,
            gs.score == 0,
            gs.high_score == 0,
            !gs.game_over,
            !gs.power_spawned,
            gs.enemies_vector@.len() == 0,
            gs.registry.marbles@.len() == 0,
            gs.registry.cars@.len() == 0,
            gs.registry.power is None,
            gs.registry.player_x == 0,
            gs.spawn_timer == (Countdown { duration_ms: 0, elapsed_ms: 0 }),
            gs.explosion_timer.elapsed_ms == 0,
            POWER_DELAY_MIN_MS <= gs.explosion_timer.duration_ms < POWER_DELAY_MAX_MS,
    {
        let dur = random_in_range(POWER_DELAY_MIN_MS, POWER_DELAY_MAX_MS);
        let mut pool: Vec<u32> = Vec::new();
        pool.push(1);
        pool.push(2);
        pool.push(3);
        proof {
            assert(pool@ =~= seq![1u32, 2u32, 3u32]);
        }
        GameState {
            marble_labels: pool,
            cars_left: CARS_PER_ROUND,
            spawn_timer: Countdown { duration_ms: 0, elapsed_ms: 0 },
            explosion_timer: Countdown { duration_ms: dur, elapsed_ms: 0 },
            score: 0,
            high_score: 0,
            game_over: false,
            enemies_vector: Vec::new(),
            power_spawned: false,
            registry: Registry { player_x: 0, marbles: Vec::new(), cars: Vec::new(), power: None },
        }
    }
}

} // verus!
