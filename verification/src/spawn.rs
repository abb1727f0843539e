use vstd::prelude::*;

use crate::rng::random_in_range;
use crate::state::{Countdown, GameState};
use crate::types::{
    enemy_record, make_enemy, CarKind, CarSprite, PowerSprite, POS_LIMIT, POWER_DELAY_MAX_MS,
    SPAWN_DELAY_MAX_MS, SPAWN_DELAY_MIN_MS, SPAWN_X, SPAWN_Y_MIN, SPAWN_Y_SPAN,
};

verus! {

/// Fields the spawn controller never touches.
pub open spec fn unchanged_by_spawn(a: GameState, b: GameState) -> bool {
    &&& a.marble_labels == b.marble_labels
    &&& a.registry.marbles == b.registry.marbles
    &&& a.registry.power == b.registry.power
    &&& a.registry.player_x == b.registry.player_x
    &&& a.explosion_timer == b.explosion_timer
    &&& a.score == b.score
    &&& a.high_score == b.high_score
    &&& a.game_over == b.game_over
    &&& a.power_spawned == b.power_spawned
}

/// Fields the power-up controller never touches.
pub open spec fn unchanged_by_powerup(a: GameState, b: GameState) -> bool {
    &&& a.marble_labels == b.marble_labels
    &&& a.registry.marbles == b.registry.marbles
    &&& a.registry.cars == b.registry.cars
    &&& a.registry.player_x == b.registry.player_x
    &&& a.enemies_vector == b.enemies_vector
    &&& a.spawn_timer == b.spawn_timer
    &&& a.cars_left == b.cars_left
    &&& a.score == b.score
    &&& a.high_score == b.high_score
    &&& a.game_over == b.game_over
}

/// How one spawn-controller tick relates the state before (`a`) to the
/// state after (`b`): the countdown grows by `dt`; when it elapses it is
/// reset to a freshly drawn delay and, if enemies remain to spawn, one of
/// some archetype appears at the left edge at some height in range, under
/// the fresh unique label.  The existentials are exactly the random draws.
pub open spec fn spawn_rel(a: GameState, b: GameState, dt_ms: u32) -> bool {
    let t = a.spawn_timer;
    let fired = t.elapsed_ms + dt_ms >= t.duration_ms;
    &&& !fired ==> b == (GameState {
        spawn_timer: Countdown {
            duration_ms: t.duration_ms,
            elapsed_ms: (t.elapsed_ms + dt_ms) as u64,
        },
        ..a
    })
    &&& fired ==> {
        &&& b.spawn_timer.elapsed_ms == 0
        &&& SPAWN_DELAY_MIN_MS <= b.spawn_timer.duration_ms < SPAWN_DELAY_MAX_MS
        &&& unchanged_by_spawn(b, a)
        &&& a.cars_left == 0 ==> {
            &&& b.cars_left == 0
            &&& b.enemies_vector == a.enemies_vector
            &&& b.registry.cars == a.registry.cars
        }
        &&& a.cars_left > 0 ==> {
            &&& b.cars_left == a.cars_left - 1
            &&& (exists|k: CarKind|
                b.enemies_vector@ == a.enemies_vector@.push(
                    #[trigger] enemy_record(k, (a.cars_left - 1) as u32),
                ))
            &&& b.registry.cars@.len() == a.registry.cars@.len() + 1
            &&& forall|i: int|
                0 <= i < a.registry.cars@.len() ==> b.registry.cars@[i] == a.registry.cars@[i]
            &&& b.registry.cars@.last().num == a.cars_left - 1
            &&& b.registry.cars@.last().x == SPAWN_X
            &&& SPAWN_Y_MIN <= b.registry.cars@.last().y < SPAWN_Y_MIN + SPAWN_Y_SPAN
        }
    }
}

/// How one power-up-controller tick relates the state before (`a`) to the
/// state after (`b`): the retriggering countdown grows by `dt` and wraps on
/// elapse; the first elapse of a round puts the one area-effect entity at
/// the left edge at some height in range and disarms the controller.
pub open spec fn powerup_rel(a: GameState, b: GameState, dt_ms: u32) -> bool {
    let t = a.explosion_timer;
    let fired = t.elapsed_ms + dt_ms >= t.duration_ms;
    &&& b.explosion_timer.duration_ms == t.duration_ms
    &&& unchanged_by_powerup(b, a)
    &&& !fired ==> b == (GameState {
        explosion_timer: Countdown {
            duration_ms: t.duration_ms,
            elapsed_ms: (t.elapsed_ms + dt_ms) as u64,
        },
        ..a
    })
    &&& fired ==> {
        &&& b.explosion_timer.elapsed_ms == (t.elapsed_ms + dt_ms) % (t.duration_ms as int)
        &&& a.power_spawned ==> {
            &&& b.power_spawned
            &&& b.registry.power == a.registry.power
        }
        &&& !a.power_spawned ==> {
            &&& b.power_spawned
            &&& (b.registry.power matches Some(p) ==> p.x == SPAWN_X && SPAWN_Y_MIN <= p.y
                < SPAWN_Y_MIN + SPAWN_Y_SPAN)
            &&& b.registry.power is Some
        }
    }
}

impl GameState {
    /// The deterministic tail of a spawn: decrement the remaining count, take
    /// the new count as the fresh label (counts only decrease, so it is
    /// unique), append the directory record of the chosen archetype, and put
    /// the entity at the left edge at height `y`.  The caller supplies the
    /// randomly chosen archetype and height.
    pub fn spawn_enemy(&mut self, kind: CarKind, y: i64)
        requires
            old(self).wf(),
            old(self).cars_left > 0,
            -POS_LIMIT <= y <= POS_LIMIT,
        ensures
            final(self).wf(),
            final(self).cars_left == old(self).cars_left - 1,
            final(self).enemies_vector@ == old(self).enemies_vector@.push(
                enemy_record(kind, (old(self).cars_left - 1) as u32),
            ),
            final(self).registry.cars@ == old(self).registry.cars@.push(
                CarSprite { num: (old(self).cars_left - 1) as u32, x: SPAWN_X, y: y },
            ),
            final(self).spawn_timer == old(self).spawn_timer,
            unchanged_by_spawn(*final(self), *old(self)),
    {
        let label = self.cars_left - 1;
        self.cars_left = label;
        let rec = make_enemy(kind, label);
        self.enemies_vector.push(rec);
        self.registry.cars.push(CarSprite { num: label, x: SPAWN_X, y });
        proof {
            let dir0 = old(self).enemies_vector@;
            let dir = self.enemies_vector@;
            assert forall|i: int, j: int| 0 <= i < j < dir.len() implies dir[i].label
                != dir[j].label by {
                if j == dir.len() - 1 {
                    assert(dir0[i].label >= old(self).cars_left);
                }
            }
        }
    }

    /// One tick of the spawn controller: advance the countdown by `dt_ms`;
    /// when it elapses, reset it to a freshly drawn delay and, if enemies
    /// remain to spawn, spawn one of a uniformly chosen archetype at a
    /// uniformly chosen height.
    pub fn run_spawn(&mut self, dt_ms: u32)
        requires
            old(self).wf(),
        ensures
            final(self).wf(),
            spawn_rel(*old(self), *final(self), dt_ms),
    {
        let t = self.spawn_timer;
        let grown: u64 = t.elapsed_ms + dt_ms as u64;
        if grown >= t.duration_ms {
            let dur = random_in_range(SPAWN_DELAY_MIN_MS, SPAWN_DELAY_MAX_MS);
            self.spawn_timer = Countdown { duration_ms: dur, elapsed_ms: 0 };
            if self.cars_left > 0 {
                let pick = random_in_range(0, 5);
                let kind = if pick == 0 {
                    CarKind::Black
                } else if pick == 1 {
                    CarKind::Red
                } else if pick == 2 {
                    CarKind::Blue
                } else if pick == 3 {
                    CarKind::Green
                } else {
                    CarKind::Yellow
                };
                let off = random_in_range(0, SPAWN_Y_SPAN);
                let y = SPAWN_Y_MIN + off as i64;
                self.spawn_enemy(kind, y);
            }
        } else {
            self.spawn_timer = Countdown { duration_ms: t.duration_ms, elapsed_ms: grown };
        }
    }

    /// One tick of the power-up controller: advance the retriggering
    /// countdown by `dt_ms`; the first time it elapses in a round it spawns
    /// the one area-effect entity at the left edge at a uniformly chosen
    /// height and disarms itself until restart.
    pub fn run_powerup(&mut self, dt_ms: u32)
        requires
            old(self).wf(),
        ensures
            final(self).wf(),
            powerup_rel(*old(self), *final(self), dt_ms),
    {
        let t = self.explosion_timer;
        let grown: u64 = t.elapsed_ms + dt_ms as u64;
        if grown >= t.duration_ms {
            self.explosion_timer = Countdown {
                duration_ms: t.duration_ms,
                elapsed_ms: grown % t.duration_ms,
            };
            if !self.power_spawned {
                let off = random_in_range(0, SPAWN_Y_SPAN);
                let y = SPAWN_Y_MIN + off as i64;
                self.registry.power = Some(PowerSprite { x: SPAWN_X, y });
                self.power_spawned = true;
            }
        } else {
            self.explosion_timer = Countdown { duration_ms: t.duration_ms, elapsed_ms: grown };
        }
    }
}

} // verus!
